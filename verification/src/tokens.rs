//! Command-line tokens in the engine's grouped-flag form.
//!
//! An invocation is an ordered list of tokens. A bare word selects a group;
//! the flags after it, each a name ending in `=` and a value, belong to
//! that group until the next selector.

use vstd::prelude::*;
use crate::text::{push_text, with_prefix};

verus! {

/// A flag: its name, then its value.
pub open spec fn flag(name: Seq<char>, value: Seq<char>) -> Seq<char> {
    name + value
}

/// A flag that is present only where its value is.
pub open spec fn optional_flag(name: Seq<char>, value: Option<Seq<char>>) -> Seq<Seq<char>> {
    match value {
        Some(v) => seq![flag(name, v)],
        None => Seq::empty(),
    }
}

/// The group that asks the engine for a machine-readable log on its primary
/// stream. Every invocation ends with it.
pub open spec fn log_writer_group() -> Seq<Seq<char>> {
    seq!["log-writer"@, "-type=stdout"@, "-format=json"@]
}

/// The group that reads tokens from a flag value, in a given format.
pub open spec fn flag_reader_group(format: Seq<char>, value: Seq<char>) -> Seq<Seq<char>> {
    seq!["token-reader"@, "-type=flag"@, flag("-format="@, format), flag("-flag="@, value)]
}

/// The group that reads tokens from a file, in a given format.
pub open spec fn file_reader_group(format: Seq<char>, path: Seq<char>) -> Seq<Seq<char>> {
    seq!["token-reader"@, "-type=file"@, flag("-format="@, format), flag("-path="@, path)]
}

/// The group that hands the engine a secret directly, as plain text.
pub open spec fn secret_reader_group(secret: Seq<char>) -> Seq<Seq<char>> {
    flag_reader_group("plaintext"@, secret)
}

/// Appends a bare word.
pub fn push_word(tokens: &mut Vec<String>, word: &str)
    ensures
        final(tokens).deep_view() == old(tokens).deep_view() + seq![word@],
{
    push_text(tokens, word.to_owned());
    assert(tokens.deep_view() =~= old(tokens).deep_view() + seq![word@]);
}

/// Appends a flag.
pub fn push_flag(tokens: &mut Vec<String>, name: &str, value: &str)
    ensures
        final(tokens).deep_view() == old(tokens).deep_view() + seq![flag(name@, value@)],
{
    push_text(tokens, with_prefix(name, value));
    assert(tokens.deep_view() =~= old(tokens).deep_view() + seq![flag(name@, value@)]);
}

/// Appends a flag where its value is present.
pub fn push_optional_flag(tokens: &mut Vec<String>, name: &str, value: &Option<String>)
    ensures
        final(tokens).deep_view() == old(tokens).deep_view() + optional_flag(
            name@,
            value.deep_view(),
        ),
{
    match value {
        Some(v) => {
            push_flag(tokens, name, v.as_str());
        },
        None => {
            assert(tokens.deep_view() =~= old(tokens).deep_view() + Seq::<Seq<char>>::empty());
        },
    }
}

/// Appends the log-writer group.
pub fn push_log_writer(tokens: &mut Vec<String>)
    ensures
        final(tokens).deep_view() == old(tokens).deep_view() + log_writer_group(),
{
    push_word(tokens, "log-writer");
    push_word(tokens, "-type=stdout");
    push_word(tokens, "-format=json");
    assert(tokens.deep_view() =~= old(tokens).deep_view() + log_writer_group());
}

/// Appends a reader of tokens from a flag value.
pub fn push_flag_reader(tokens: &mut Vec<String>, format: &str, value: &str)
    ensures
        final(tokens).deep_view() == old(tokens).deep_view() + flag_reader_group(format@, value@),
{
    push_word(tokens, "token-reader");
    push_word(tokens, "-type=flag");
    push_flag(tokens, "-format=", format);
    push_flag(tokens, "-flag=", value);
    assert(tokens.deep_view() =~= old(tokens).deep_view() + flag_reader_group(format@, value@));
}

/// Appends a reader of tokens from a file.
pub fn push_file_reader(tokens: &mut Vec<String>, format: &str, path: &str)
    ensures
        final(tokens).deep_view() == old(tokens).deep_view() + file_reader_group(format@, path@),
{
    push_word(tokens, "token-reader");
    push_word(tokens, "-type=file");
    push_flag(tokens, "-format=", format);
    push_flag(tokens, "-path=", path);
    assert(tokens.deep_view() =~= old(tokens).deep_view() + file_reader_group(format@, path@));
}

/// Appends a plain-text reader for a secret.
pub fn push_secret_reader(tokens: &mut Vec<String>, secret: &str)
    ensures
        final(tokens).deep_view() == old(tokens).deep_view() + secret_reader_group(secret@),
{
    push_flag_reader(tokens, "plaintext", secret);
}

} // verus!
