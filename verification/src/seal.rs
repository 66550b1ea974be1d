//! Seal: create a container from a folder.

use vstd::prelude::*;
use crate::decimal::{decimal, decimal_u8};
use crate::text::str_eq;
use crate::tokens::{
    flag, log_writer_group, optional_flag, push_flag, push_log_writer, push_optional_flag,
    push_word,
};

verus! {

/// A request to seal a folder into a new container.
#[derive(Debug, Clone)]
pub struct EncryptArgs {
    /// Display name of the container.
    pub name: Option<String>,
    /// Where the new container is written.
    pub container_path: String,
    /// The folder to seal.
    pub folder_path: String,
    /// The compression strategy.
    pub compression_type: String,
    /// The unlocking secret.
    pub passphrase: String,
    /// The token-distribution strategy: `master`, `share` or `none`.
    pub token_type: String,
    /// Where tokens are written: `file` or `stdout`.
    pub token_save_type: String,
    /// The token file, required for the `file` sink.
    pub token_save_path: Option<String>,
    /// How many shares to issue; five where none is given.
    pub number_of_shares: Option<u8>,
    /// How many shares unlock the container; three where none is given.
    pub threshold: Option<u8>,
    /// The integrity strategy: `none` or `hmac`.
    pub integrity_provider: String,
    /// The integrity secret, required for `hmac`.
    pub additional_password: Option<String>,
    /// Free-text comment.
    pub comment: Option<String>,
    /// Free-text tags.
    pub tags: Option<String>,
}

/// The mathematical form of [`EncryptArgs`].
pub struct EncryptArgsView {
    pub name: Option<Seq<char>>,
    pub container_path: Seq<char>,
    pub folder_path: Seq<char>,
    pub compression_type: Seq<char>,
    pub passphrase: Seq<char>,
    pub token_type: Seq<char>,
    pub token_save_type: Seq<char>,
    pub token_save_path: Option<Seq<char>>,
    pub number_of_shares: Option<u8>,
    pub threshold: Option<u8>,
    pub integrity_provider: Seq<char>,
    pub additional_password: Option<Seq<char>>,
    pub comment: Option<Seq<char>>,
    pub tags: Option<Seq<char>>,
}

impl View for EncryptArgs {
    type V = EncryptArgsView;

    open spec fn view(&self) -> EncryptArgsView {
        EncryptArgsView {
            name: self.name.deep_view(),
            container_path: self.container_path@,
            folder_path: self.folder_path@,
            compression_type: self.compression_type@,
            passphrase: self.passphrase@,
            token_type: self.token_type@,
            token_save_type: self.token_save_type@,
            token_save_path: self.token_save_path.deep_view(),
            number_of_shares: self.number_of_shares,
            threshold: self.threshold,
            integrity_provider: self.integrity_provider@,
            additional_password: self.additional_password.deep_view(),
            comment: self.comment.deep_view(),
            tags: self.tags.deep_view(),
        }
    }
}

/// The fewest shares, and the lowest threshold, that can be asked for.
pub const MIN_SHARES: u8 = 2;

/// The most shares, and the highest threshold, that can be asked for.
pub const MAX_SHARES: u8 = 16;

impl EncryptArgsView {
    /// Whether the secret is split into shares.
    pub open spec fn shares_secret(self) -> bool {
        self.token_type == "share"@
    }

    /// The number of shares asked for.
    pub open spec fn share_count(self) -> u8 {
        match self.number_of_shares {
            Some(n) => n,
            None => 5,
        }
    }

    /// The reconstruction threshold asked for.
    pub open spec fn share_threshold(self) -> u8 {
        match self.threshold {
            Some(k) => k,
            None => 3,
        }
    }

    /// Tokens go to a file, and no file is named.
    pub open spec fn lacks_token_path(self) -> bool {
        self.token_save_type == "file"@ && self.token_save_path is None
    }

    /// Integrity is keyed, and no key is given.
    pub open spec fn lacks_integrity_secret(self) -> bool {
        self.integrity_provider == "hmac"@ && self.additional_password is None
    }

    /// What is wrong with the request, in the words reported to the caller;
    /// `None` where it is valid. The rules are tried in this order and the
    /// first one broken is reported.
    pub open spec fn violation(self) -> Option<Seq<char>> {
        let n = self.share_count();
        let k = self.share_threshold();
        if self.lacks_token_path() {
            Some("token_save_path is required when token_save_type=file"@)
        } else if self.lacks_integrity_secret() {
            Some("additional_password is required when integrity_provider=hmac"@)
        } else if !self.shares_secret() {
            None
        } else if k > n {
            Some("threshold cannot be greater than number_of_shares"@)
        } else if k < MIN_SHARES || n < MIN_SHARES {
            Some("threshold and number_of_shares must be at least 2"@)
        } else if k > MAX_SHARES || n > MAX_SHARES {
            Some("threshold and number_of_shares cannot exceed 16"@)
        } else {
            None
        }
    }

    /// The secret-sharing group: switched on with both numbers where the
    /// secret is split into shares, switched off otherwise.
    pub open spec fn shamir_group(self) -> Seq<Seq<char>> {
        if self.shares_secret() {
            seq![
                "shamir"@,
                "-is-enabled=true"@,
                flag("-shares="@, decimal(self.share_count() as nat)),
                flag("-threshold="@, decimal(self.share_threshold() as nat)),
            ]
        } else {
            seq!["shamir"@, "-is-enabled=false"@]
        }
    }

    /// The integrity group: the strategy, and for `hmac` the secret.
    pub open spec fn integrity_group(self) -> Seq<Seq<char>> {
        let secret = if self.integrity_provider == "hmac"@ {
            optional_flag("-new-passphrase="@, self.additional_password)
        } else {
            Seq::empty()
        };
        seq!["integrity-provider"@, flag("-type="@, self.integrity_provider)] + secret
    }

    /// The container group: what to seal, where to, and under which secret.
    pub open spec fn container_group(self) -> Seq<Seq<char>> {
        seq!["seal"@, "container"@] + optional_flag("-name="@, self.name) + seq![
            flag("-new-path="@, self.container_path),
            flag("-folder-path="@, self.folder_path),
            flag("-passphrase="@, self.passphrase),
        ] + optional_flag("-comment="@, self.comment) + optional_flag("-tags="@, self.tags)
    }

    /// The token-writer group: the sink, the format, and the file if one is
    /// named.
    pub open spec fn token_writer_group(self) -> Seq<Seq<char>> {
        seq!["token-writer"@, flag("-type="@, self.token_save_type), "-format=json"@]
            + optional_flag("-path="@, self.token_save_path)
    }

    /// The tokens of the invocation, group after group.
    pub open spec fn tokens(self) -> Seq<Seq<char>> {
        self.container_group() + seq!["compression"@, flag("-type="@, self.compression_type)]
            + seq!["token"@, flag("-type="@, self.token_type)] + self.token_writer_group()
            + self.shamir_group() + self.integrity_group() + log_writer_group()
    }
}

/// Checks a seal request against the rules on the token sink, the integrity
/// secret and, where the secret is split into shares, the two numbers.
pub fn validate_encrypt(a: &EncryptArgs) -> (checked: Result<(), String>)
    ensures
        match checked {
            Ok(_) => a@.violation() is None,
            Err(message) => a@.violation() == Some(message@),
        },
{
    if str_eq(a.token_save_type.as_str(), "file") && a.token_save_path.is_none() {
        return Err("token_save_path is required when token_save_type=file".to_owned());
    }
    if str_eq(a.integrity_provider.as_str(), "hmac") && a.additional_password.is_none() {
        return Err("additional_password is required when integrity_provider=hmac".to_owned());
    }
    if str_eq(a.token_type.as_str(), "share") {
        let k: u8 = match a.threshold {
            Some(k) => k,
            None => 3,
        };
        let n: u8 = match a.number_of_shares {
            Some(n) => n,
            None => 5,
        };
        if k > n {
            return Err("threshold cannot be greater than number_of_shares".to_owned());
        }
        if k < MIN_SHARES || n < MIN_SHARES {
            return Err("threshold and number_of_shares must be at least 2".to_owned());
        }
        if k > MAX_SHARES || n > MAX_SHARES {
            return Err("threshold and number_of_shares cannot exceed 16".to_owned());
        }
    }
    Ok(())
}

/// A request is refused exactly when it sends tokens to a file without
/// naming one, keys integrity without a key, or splits the secret into
/// shares with numbers out of order or out of range.
pub proof fn lemma_refused_requests(a: EncryptArgsView)
    ensures
        a.violation() is Some <==> {
            ||| a.lacks_token_path()
            ||| a.lacks_integrity_secret()
            ||| a.shares_secret() && {
                ||| a.share_threshold() > a.share_count()
                ||| !(MIN_SHARES <= a.share_threshold() <= MAX_SHARES)
                ||| !(MIN_SHARES <= a.share_count() <= MAX_SHARES)
            }
        },
{
}

/// For a request that splits the secret into shares, and whose token sink
/// and integrity strategy have what they need, validation fails exactly
/// when the threshold is above the share count or either number lies
/// outside the range from two to sixteen.
pub proof fn lemma_share_rules(a: EncryptArgsView)
    requires
        a.shares_secret(),
        !a.lacks_token_path(),
        !a.lacks_integrity_secret(),
    ensures
        a.violation() is Some <==> {
            ||| a.share_threshold() > a.share_count()
            ||| !(2 <= a.share_threshold() <= 16)
            ||| !(2 <= a.share_count() <= 16)
        },
{
}

fn push_container_group(tokens: &mut Vec<String>, a: &EncryptArgs)
    ensures
        final(tokens).deep_view() == old(tokens).deep_view() + a@.container_group(),
{
    push_word(tokens, "seal");
    push_word(tokens, "container");
    push_optional_flag(tokens, "-name=", &a.name);
    push_flag(tokens, "-new-path=", a.container_path.as_str());
    push_flag(tokens, "-folder-path=", a.folder_path.as_str());
    push_flag(tokens, "-passphrase=", a.passphrase.as_str());
    push_optional_flag(tokens, "-comment=", &a.comment);
    push_optional_flag(tokens, "-tags=", &a.tags);
    assert(tokens.deep_view() =~= old(tokens).deep_view() + a@.container_group());
}

fn push_token_writer_group(tokens: &mut Vec<String>, a: &EncryptArgs)
    ensures
        final(tokens).deep_view() == old(tokens).deep_view() + a@.token_writer_group(),
{
    push_word(tokens, "token-writer");
    push_flag(tokens, "-type=", a.token_save_type.as_str());
    push_word(tokens, "-format=json");
    push_optional_flag(tokens, "-path=", &a.token_save_path);
    assert(tokens.deep_view() =~= old(tokens).deep_view() + a@.token_writer_group());
}

fn push_shamir_group(tokens: &mut Vec<String>, a: &EncryptArgs)
    ensures
        final(tokens).deep_view() == old(tokens).deep_view() + a@.shamir_group(),
{
    push_word(tokens, "shamir");
    if str_eq(a.token_type.as_str(), "share") {
        let n: u8 = match a.number_of_shares {
            Some(n) => n,
            None => 5,
        };
        let k: u8 = match a.threshold {
            Some(k) => k,
            None => 3,
        };
        push_word(tokens, "-is-enabled=true");
        push_flag(tokens, "-shares=", decimal_u8(n).as_str());
        push_flag(tokens, "-threshold=", decimal_u8(k).as_str());
    } else {
        push_word(tokens, "-is-enabled=false");
    }
    assert(tokens.deep_view() =~= old(tokens).deep_view() + a@.shamir_group());
}

fn push_integrity_group(tokens: &mut Vec<String>, a: &EncryptArgs)
    ensures
        final(tokens).deep_view() == old(tokens).deep_view() + a@.integrity_group(),
{
    push_word(tokens, "integrity-provider");
    push_flag(tokens, "-type=", a.integrity_provider.as_str());
    if str_eq(a.integrity_provider.as_str(), "hmac") {
        push_optional_flag(tokens, "-new-passphrase=", &a.additional_password);
    }
    assert(tokens.deep_view() =~= old(tokens).deep_view() + a@.integrity_group());
}

/// Encodes a seal request as the engine's command-line tokens. The request
/// is encoded as it stands; [`validate_encrypt`] says whether it should be.
pub fn build_seal_cmd(a: EncryptArgs) -> (tokens: Vec<String>)
    ensures
        tokens.deep_view() == a@.tokens(),
{
    let mut tokens: Vec<String> = Vec::new();
    assert(tokens.deep_view() =~= Seq::<Seq<char>>::empty());
    push_container_group(&mut tokens, &a);
    assert(tokens.deep_view() =~= a@.container_group());
    push_word(&mut tokens, "compression");
    push_flag(&mut tokens, "-type=", a.compression_type.as_str());
    push_word(&mut tokens, "token");
    push_flag(&mut tokens, "-type=", a.token_type.as_str());
    push_token_writer_group(&mut tokens, &a);
    push_shamir_group(&mut tokens, &a);
    push_integrity_group(&mut tokens, &a);
    push_log_writer(&mut tokens);
    assert(tokens.deep_view() =~= a@.tokens());
    tokens
}

} // verus!
