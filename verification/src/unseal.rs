//! Unseal: open a container into a folder.

use vstd::prelude::*;
use crate::text::str_eq;
use crate::tokens::{
    file_reader_group, flag, flag_reader_group, log_writer_group, optional_flag,
    push_file_reader, push_flag, push_flag_reader, push_log_writer, push_optional_flag,
    push_secret_reader, push_word, secret_reader_group,
};

verus! {

/// A request to unseal a container into a folder.
#[derive(Debug, Clone)]
pub struct DecryptArgs {
    /// The container to open.
    pub container_path: String,
    /// The folder to unpack into.
    pub folder_path: String,
    /// The direct secret.
    pub token: Option<String>,
    /// The master token, for the flow that takes both a secret and a token.
    pub master_token: Option<String>,
    /// An explicit token reader: `flag` or `file`.
    pub token_reader_type: Option<String>,
    /// The format the reader expects: `json` or `plaintext`.
    pub token_format: Option<String>,
    /// The value for a `flag` reader.
    pub token_flag: Option<String>,
    /// The file for a `file` reader.
    pub token_path: Option<String>,
    /// The current integrity secret.
    pub additional_password: Option<String>,
}

/// The mathematical form of [`DecryptArgs`].
pub struct DecryptArgsView {
    pub container_path: Seq<char>,
    pub folder_path: Seq<char>,
    pub token: Option<Seq<char>>,
    pub master_token: Option<Seq<char>>,
    pub token_reader_type: Option<Seq<char>>,
    pub token_format: Option<Seq<char>>,
    pub token_flag: Option<Seq<char>>,
    pub token_path: Option<Seq<char>>,
    pub additional_password: Option<Seq<char>>,
}

impl View for DecryptArgs {
    type V = DecryptArgsView;

    open spec fn view(&self) -> DecryptArgsView {
        DecryptArgsView {
            container_path: self.container_path@,
            folder_path: self.folder_path@,
            token: self.token.deep_view(),
            master_token: self.master_token.deep_view(),
            token_reader_type: self.token_reader_type.deep_view(),
            token_format: self.token_format.deep_view(),
            token_flag: self.token_flag.deep_view(),
            token_path: self.token_path.deep_view(),
            additional_password: self.additional_password.deep_view(),
        }
    }
}

/// A value where one is given, the empty text where none is.
pub open spec fn or_empty(value: Option<Seq<char>>) -> Seq<char> {
    match value {
        Some(v) => v,
        None => Seq::empty(),
    }
}

impl DecryptArgsView {
    /// How the container is unlocked. One strategy is chosen, the first of
    /// these that applies:
    ///
    /// 1. a direct secret and a master token are both given: the secret is
    ///    the passphrase and the master token goes through a plain-text
    ///    flag reader;
    /// 2. a reader type is given: a `flag` or `file` reader with a format
    ///    is taken as asked, with its flag value or its path; any other
    ///    type, or no format, leaves the direct secret as the passphrase;
    /// 3. only a direct secret is given: it is the passphrase and also goes
    ///    through a plain-text flag reader.
    pub open spec fn unlock_tokens(self) -> Seq<Seq<char>> {
        if self.token is Some && self.master_token is Some {
            seq![flag("-passphrase="@, self.token->0)] + secret_reader_group(self.master_token->0)
        } else if self.token_reader_type is Some {
            let kind = self.token_reader_type->0;
            if kind == "flag"@ && self.token_format is Some {
                flag_reader_group(self.token_format->0, or_empty(self.token_flag))
            } else if kind == "file"@ && self.token_format is Some {
                file_reader_group(self.token_format->0, or_empty(self.token_path))
            } else {
                optional_flag("-passphrase="@, self.token)
            }
        } else if self.token is Some {
            seq![flag("-passphrase="@, self.token->0)] + secret_reader_group(self.token->0)
        } else {
            Seq::empty()
        }
    }

    /// The integrity group, present where a current integrity secret is.
    pub open spec fn integrity_group(self) -> Seq<Seq<char>> {
        match self.additional_password {
            Some(secret) => seq!["integrity-provider"@, flag("-current-passphrase="@, secret)],
            None => Seq::empty(),
        }
    }

    /// The tokens of the invocation, group after group.
    pub open spec fn tokens(self) -> Seq<Seq<char>> {
        seq![
            "unseal"@,
            "container"@,
            flag("-current-path="@, self.container_path),
            flag("-folder-path="@, self.folder_path),
        ] + self.unlock_tokens() + self.integrity_group() + log_writer_group()
    }
}

fn text_or_empty(value: &Option<String>) -> (text: &str)
    ensures
        text@ == or_empty(value.deep_view()),
{
    match value {
        Some(v) => v.as_str(),
        None => {
            proof {
                reveal_strlit("");
                assert(""@ =~= Seq::<char>::empty());
            }
            ""
        },
    }
}

fn push_unlock_tokens(tokens: &mut Vec<String>, a: &DecryptArgs)
    ensures
        final(tokens).deep_view() == old(tokens).deep_view() + a@.unlock_tokens(),
{
    match (&a.token, &a.master_token, &a.token_reader_type) {
        (Some(secret), Some(master), _) => {
            push_flag(tokens, "-passphrase=", secret.as_str());
            push_secret_reader(tokens, master.as_str());
        },
        (_, _, Some(kind)) => {
            match &a.token_format {
                Some(format) => {
                    if str_eq(kind.as_str(), "flag") {
                        push_flag_reader(tokens, format.as_str(), text_or_empty(&a.token_flag));
                    } else if str_eq(kind.as_str(), "file") {
                        push_file_reader(tokens, format.as_str(), text_or_empty(&a.token_path));
                    } else {
                        push_optional_flag(tokens, "-passphrase=", &a.token);
                    }
                },
                None => {
                    push_optional_flag(tokens, "-passphrase=", &a.token);
                },
            }
        },
        (Some(secret), _, None) => {
            push_flag(tokens, "-passphrase=", secret.as_str());
            push_secret_reader(tokens, secret.as_str());
        },
        (None, _, None) => {},
    }
    assert(tokens.deep_view() =~= old(tokens).deep_view() + a@.unlock_tokens());
}

fn push_integrity_group(tokens: &mut Vec<String>, a: &DecryptArgs)
    ensures
        final(tokens).deep_view() == old(tokens).deep_view() + a@.integrity_group(),
{
    match &a.additional_password {
        Some(secret) => {
            push_word(tokens, "integrity-provider");
            push_flag(tokens, "-current-passphrase=", secret.as_str());
        },
        None => {},
    }
    assert(tokens.deep_view() =~= old(tokens).deep_view() + a@.integrity_group());
}

/// Encodes an unseal request as the engine's command-line tokens.
pub fn build_unseal_cmd(a: DecryptArgs) -> (tokens: Vec<String>)
    ensures
        tokens.deep_view() == a@.tokens(),
{
    let mut tokens: Vec<String> = Vec::new();
    assert(tokens.deep_view() =~= Seq::<Seq<char>>::empty());
    push_word(&mut tokens, "unseal");
    push_word(&mut tokens, "container");
    push_flag(&mut tokens, "-current-path=", a.container_path.as_str());
    push_flag(&mut tokens, "-folder-path=", a.folder_path.as_str());
    push_unlock_tokens(&mut tokens, &a);
    push_integrity_group(&mut tokens, &a);
    push_log_writer(&mut tokens);
    assert(tokens.deep_view() =~= a@.tokens());
    tokens
}

/// Where a direct secret and a master token are both given, the invocation
/// carries the secret as the passphrase and the master token as the value
/// of a plain-text flag reader; the reader's value is the direct secret
/// only where the two are the same text.
pub proof fn lemma_secret_and_master_token(a: DecryptArgsView)
    requires
        a.token is Some,
        a.master_token is Some,
    ensures
        a.tokens().subrange(4, 9) == seq![
            flag("-passphrase="@, a.token->0),
            "token-reader"@,
            "-type=flag"@,
            flag("-format="@, "plaintext"@),
            flag("-flag="@, a.master_token->0),
        ],
        a.tokens()[8] == flag("-flag="@, a.token->0) <==> a.master_token->0 == a.token->0,
{
    let secret = a.token->0;
    let master = a.master_token->0;
    assert(a.tokens().subrange(4, 9) =~= seq![
        flag("-passphrase="@, secret),
        "token-reader"@,
        "-type=flag"@,
        flag("-format="@, "plaintext"@),
        flag("-flag="@, master),
    ]);
    let name = "-flag="@;
    if name + master == name + secret {
        assert(master =~= (name + master).skip(name.len() as int));
        assert(secret =~= (name + secret).skip(name.len() as int));
    }
}

} // verus!
