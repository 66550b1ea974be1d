//! Reseal: change the secrets or the metadata of a container.

use vstd::prelude::*;
use crate::text::{join_texts, joined, str_eq};
use crate::tokens::{
    file_reader_group, flag, log_writer_group, optional_flag, push_file_reader, push_flag,
    push_log_writer, push_optional_flag, push_secret_reader, push_word, secret_reader_group,
};

verus! {

/// A request to reseal a container.
#[derive(Debug, Clone)]
pub struct ResealArgs {
    /// The container as it is now.
    pub current_path: String,
    /// Where the resealed container is written, if elsewhere.
    pub new_path: Option<String>,
    /// The working folder.
    pub folder_path: String,
    /// A new display name.
    pub name: Option<String>,
    /// The unlocking secret.
    pub passphrase: Option<String>,
    /// A new comment.
    pub comment: Option<String>,
    /// New tags.
    pub tags: Option<String>,
    /// The integrity strategy the container is declared to use.
    pub integrity_provider: Option<String>,
    /// The integrity secret in force.
    pub current_integrity_password: Option<String>,
    /// The integrity secret to change to.
    pub new_integrity_password: Option<String>,
    /// The master token, for the `master` strategy.
    pub master_token: Option<String>,
    /// The shares, for the `share` strategy without a token file.
    pub shares: Option<Vec<String>>,
    /// The token-distribution strategy: `master`, `share` or `none`.
    pub token_type: Option<String>,
    /// The token file, for the `share` strategy.
    pub token_json_path: Option<String>,
}

/// The mathematical form of [`ResealArgs`].
pub struct ResealArgsView {
    pub current_path: Seq<char>,
    pub new_path: Option<Seq<char>>,
    pub folder_path: Seq<char>,
    pub name: Option<Seq<char>>,
    pub passphrase: Option<Seq<char>>,
    pub comment: Option<Seq<char>>,
    pub tags: Option<Seq<char>>,
    pub integrity_provider: Option<Seq<char>>,
    pub current_integrity_password: Option<Seq<char>>,
    pub new_integrity_password: Option<Seq<char>>,
    pub master_token: Option<Seq<char>>,
    pub shares: Option<Seq<Seq<char>>>,
    pub token_type: Option<Seq<char>>,
    pub token_json_path: Option<Seq<char>>,
}

impl View for ResealArgs {
    type V = ResealArgsView;

    open spec fn view(&self) -> ResealArgsView {
        ResealArgsView {
            current_path: self.current_path@,
            new_path: self.new_path.deep_view(),
            folder_path: self.folder_path@,
            name: self.name.deep_view(),
            passphrase: self.passphrase.deep_view(),
            comment: self.comment.deep_view(),
            tags: self.tags.deep_view(),
            integrity_provider: self.integrity_provider.deep_view(),
            current_integrity_password: self.current_integrity_password.deep_view(),
            new_integrity_password: self.new_integrity_password.deep_view(),
            master_token: self.master_token.deep_view(),
            shares: self.shares.deep_view(),
            token_type: self.token_type.deep_view(),
            token_json_path: self.token_json_path.deep_view(),
        }
    }
}

/// A reader group for a secret where there is one, nothing where there is
/// none.
pub open spec fn optional_secret_reader(secret: Option<Seq<char>>) -> Seq<Seq<char>> {
    match secret {
        Some(s) => secret_reader_group(s),
        None => Seq::empty(),
    }
}

impl ResealArgsView {
    /// The container group: the container, the folder, and whatever of the
    /// new path, name, secret, comment and tags is given.
    pub open spec fn container_group(self) -> Seq<Seq<char>> {
        seq![
            "reseal"@,
            "container"@,
            flag("-current-path="@, self.current_path),
            flag("-folder-path="@, self.folder_path),
        ] + optional_flag("-new-path="@, self.new_path) + optional_flag("-name="@, self.name)
            + optional_flag("-passphrase="@, self.passphrase) + optional_flag(
            "-comment="@,
            self.comment,
        ) + optional_flag("-tags="@, self.tags)
    }

    /// The shares as one secret: joined by a bar.
    pub open spec fn joined_shares(self) -> Option<Seq<char>> {
        match self.shares {
            Some(list) => Some(joined(list, "|"@)),
            None => None,
        }
    }

    /// The token reader, by the declared strategy. `master` reads the
    /// master token as plain text; `share` reads the token file as JSON
    /// where one is named, else the joined shares as plain text; `none`
    /// reads the unlocking secret as plain text. Each is left out where
    /// what it would read is not given, and any other strategy has no
    /// reader.
    pub open spec fn reader_group(self) -> Seq<Seq<char>> {
        match self.token_type {
            Some(strategy) => {
                if strategy == "master"@ {
                    optional_secret_reader(self.master_token)
                } else if strategy == "share"@ {
                    match self.token_json_path {
                        Some(path) => file_reader_group("json"@, path),
                        None => optional_secret_reader(self.joined_shares()),
                    }
                } else if strategy == "none"@ {
                    optional_secret_reader(self.passphrase)
                } else {
                    Seq::empty()
                }
            },
            None => Seq::empty(),
        }
    }

    /// Whether an integrity strategy other than `none` is declared.
    pub open spec fn keeps_integrity(self) -> bool {
        self.integrity_provider matches Some(provider) && provider != "none"@
    }

    /// The integrity secret to change to: the new one where given, else the
    /// one in force, which leaves the integrity layer as it is.
    pub open spec fn next_integrity_password(self) -> Option<Seq<char>> {
        match self.new_integrity_password {
            Some(secret) => Some(secret),
            None => self.current_integrity_password,
        }
    }

    /// The integrity group, present where an integrity strategy is kept.
    /// It names no strategy: only the secrets are passed.
    pub open spec fn integrity_group(self) -> Seq<Seq<char>> {
        if self.keeps_integrity() {
            seq!["integrity-provider"@] + optional_flag(
                "-current-passphrase="@,
                self.current_integrity_password,
            ) + optional_flag("-new-passphrase="@, self.next_integrity_password())
        } else {
            Seq::empty()
        }
    }

    /// The tokens of the invocation, group after group.
    pub open spec fn tokens(self) -> Seq<Seq<char>> {
        self.container_group() + self.reader_group() + self.integrity_group()
            + log_writer_group()
    }
}

fn push_container_group(tokens: &mut Vec<String>, a: &ResealArgs)
    ensures
        final(tokens).deep_view() == old(tokens).deep_view() + a@.container_group(),
{
    push_word(tokens, "reseal");
    push_word(tokens, "container");
    push_flag(tokens, "-current-path=", a.current_path.as_str());
    push_flag(tokens, "-folder-path=", a.folder_path.as_str());
    push_optional_flag(tokens, "-new-path=", &a.new_path);
    push_optional_flag(tokens, "-name=", &a.name);
    push_optional_flag(tokens, "-passphrase=", &a.passphrase);
    push_optional_flag(tokens, "-comment=", &a.comment);
    push_optional_flag(tokens, "-tags=", &a.tags);
    assert(tokens.deep_view() =~= old(tokens).deep_view() + a@.container_group());
}

fn push_optional_secret_reader(tokens: &mut Vec<String>, secret: &Option<String>)
    ensures
        final(tokens).deep_view() == old(tokens).deep_view() + optional_secret_reader(
            secret.deep_view(),
        ),
{
    match secret {
        Some(s) => {
            push_secret_reader(tokens, s.as_str());
        },
        None => {
            assert(tokens.deep_view() =~= old(tokens).deep_view() + Seq::<Seq<char>>::empty());
        },
    }
}

fn push_reader_group(tokens: &mut Vec<String>, a: &ResealArgs)
    ensures
        final(tokens).deep_view() == old(tokens).deep_view() + a@.reader_group(),
{
    match &a.token_type {
        Some(strategy) => {
            if str_eq(strategy.as_str(), "master") {
                push_optional_secret_reader(tokens, &a.master_token);
            } else if str_eq(strategy.as_str(), "share") {
                match (&a.token_json_path, &a.shares) {
                    (Some(path), _) => {
                        push_file_reader(tokens, "json", path.as_str());
                    },
                    (None, Some(list)) => {
                        let secret = join_texts(list, "|");
                        push_secret_reader(tokens, secret.as_str());
                    },
                    (None, None) => {},
                }
            } else if str_eq(strategy.as_str(), "none") {
                push_optional_secret_reader(tokens, &a.passphrase);
            }
        },
        None => {},
    }
    assert(tokens.deep_view() =~= old(tokens).deep_view() + a@.reader_group());
}

fn push_integrity_group(tokens: &mut Vec<String>, a: &ResealArgs)
    ensures
        final(tokens).deep_view() == old(tokens).deep_view() + a@.integrity_group(),
{
    let kept = match &a.integrity_provider {
        Some(provider) => !str_eq(provider.as_str(), "none"),
        None => false,
    };
    if kept {
        push_word(tokens, "integrity-provider");
        push_optional_flag(tokens, "-current-passphrase=", &a.current_integrity_password);
        match &a.new_integrity_password {
            Some(secret) => {
                push_flag(tokens, "-new-passphrase=", secret.as_str());
            },
            None => {
                push_optional_flag(tokens, "-new-passphrase=", &a.current_integrity_password);
            },
        }
    }
    assert(tokens.deep_view() =~= old(tokens).deep_view() + a@.integrity_group());
}

/// Encodes a reseal request as the engine's command-line tokens.
pub fn build_reseal_cmd(a: ResealArgs) -> (tokens: Vec<String>)
    ensures
        tokens.deep_view() == a@.tokens(),
{
    let mut tokens: Vec<String> = Vec::new();
    assert(tokens.deep_view() =~= Seq::<Seq<char>>::empty());
    push_container_group(&mut tokens, &a);
    assert(tokens.deep_view() =~= a@.container_group());
    push_reader_group(&mut tokens, &a);
    push_integrity_group(&mut tokens, &a);
    push_log_writer(&mut tokens);
    tokens
}

} // verus!
