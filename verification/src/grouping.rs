//! The grouped-flag form as a property of every encoding.
//!
//! A token is either a selector, one of a fixed set of bare words, or a
//! flag, which begins with a dash. Text that comes from a request only ever
//! stands inside a flag, after the flag's name: it cannot select a group.

use vstd::prelude::*;
use crate::decimal::decimal;
use crate::inspect::ContainerInfoArgsView;
use crate::request::OperationRequestView;
use crate::reseal::{optional_secret_reader, ResealArgsView};
use crate::seal::EncryptArgsView;
use crate::tokens::{
    file_reader_group, flag, flag_reader_group, log_writer_group, optional_flag,
    secret_reader_group,
};
use crate::unseal::{or_empty, DecryptArgsView};

verus! {

/// Whether a token is a flag: it begins with a dash.
pub open spec fn is_flag(token: Seq<char>) -> bool {
    token.len() > 0 && token[0] == '-'
}

/// Whether a token is one of the words that select a group.
pub open spec fn is_selector(token: Seq<char>) -> bool {
    ||| token == "seal"@
    ||| token == "unseal"@
    ||| token == "reseal"@
    ||| token == "container"@
    ||| token == "info"@
    ||| token == "compression"@
    ||| token == "token"@
    ||| token == "token-writer"@
    ||| token == "token-reader"@
    ||| token == "shamir"@
    ||| token == "integrity-provider"@
    ||| token == "info-writer"@
    ||| token == "log-writer"@
}

/// Whether every token is a selector or a flag.
pub open spec fn all_grouped(tokens: Seq<Seq<char>>) -> bool {
    forall|i: int| 0 <= i < tokens.len() ==> is_flag(#[trigger] tokens[i]) || is_selector(tokens[i])
}

/// Whether a list of tokens has the grouped-flag form: it opens with a
/// selector, so that every flag has a group to belong to, and holds
/// nothing but selectors and flags.
pub open spec fn grouped(tokens: Seq<Seq<char>>) -> bool {
    tokens.len() > 0 && is_selector(tokens[0]) && all_grouped(tokens)
}

/// No selector is a flag.
pub proof fn lemma_selectors_are_no_flags(token: Seq<char>)
    requires
        is_selector(token),
    ensures
        !is_flag(token),
{
    reveal_strlit("seal");
    reveal_strlit("unseal");
    reveal_strlit("reseal");
    reveal_strlit("container");
    reveal_strlit("info");
    reveal_strlit("compression");
    reveal_strlit("token");
    reveal_strlit("token-writer");
    reveal_strlit("token-reader");
    reveal_strlit("shamir");
    reveal_strlit("integrity-provider");
    reveal_strlit("info-writer");
    reveal_strlit("log-writer");
}

proof fn lemma_join(a: Seq<Seq<char>>, b: Seq<Seq<char>>)
    requires
        all_grouped(a),
        all_grouped(b),
    ensures
        all_grouped(a + b),
{
    assert forall|i: int| 0 <= i < (a + b).len() implies is_flag(#[trigger] (a + b)[i])
        || is_selector((a + b)[i]) by {
        if i < a.len() {
            assert((a + b)[i] == a[i]);
        } else {
            assert((a + b)[i] == b[i - a.len()]);
        }
    }
}

proof fn lemma_flag(name: Seq<char>, value: Seq<char>)
    requires
        is_flag(name),
    ensures
        is_flag(flag(name, value)),
{
    assert(flag(name, value)[0] == name[0]);
}

proof fn lemma_optional_flag(name: Seq<char>, value: Option<Seq<char>>)
    requires
        is_flag(name),
    ensures
        all_grouped(optional_flag(name, value)),
{
    if value is Some {
        lemma_flag(name, value->0);
    }
}

proof fn lemma_log_writer()
    ensures
        all_grouped(log_writer_group()),
{
    reveal_strlit("-type=stdout");
    reveal_strlit("-format=json");
}

proof fn lemma_flag_reader(format: Seq<char>, value: Seq<char>)
    ensures
        all_grouped(flag_reader_group(format, value)),
{
    reveal_strlit("-type=flag");
    reveal_strlit("-format=");
    reveal_strlit("-flag=");
    lemma_flag("-format="@, format);
    lemma_flag("-flag="@, value);
}

proof fn lemma_file_reader(format: Seq<char>, path: Seq<char>)
    ensures
        all_grouped(file_reader_group(format, path)),
{
    reveal_strlit("-type=file");
    reveal_strlit("-format=");
    reveal_strlit("-path=");
    lemma_flag("-format="@, format);
    lemma_flag("-path="@, path);
}

proof fn lemma_optional_secret_reader(secret: Option<Seq<char>>)
    ensures
        all_grouped(optional_secret_reader(secret)),
{
    if secret is Some {
        lemma_flag_reader("plaintext"@, secret->0);
    }
}

proof fn lemma_seal(a: EncryptArgsView)
    ensures
        grouped(a.tokens()),
{
    reveal_strlit("-name=");
    reveal_strlit("-new-path=");
    reveal_strlit("-folder-path=");
    reveal_strlit("-passphrase=");
    reveal_strlit("-comment=");
    reveal_strlit("-tags=");
    reveal_strlit("-type=");
    reveal_strlit("-format=json");
    reveal_strlit("-path=");
    reveal_strlit("-is-enabled=true");
    reveal_strlit("-is-enabled=false");
    reveal_strlit("-shares=");
    reveal_strlit("-threshold=");
    reveal_strlit("-new-passphrase=");
    let head = seq!["seal"@, "container"@];
    let name = optional_flag("-name="@, a.name);
    let paths = seq![
        flag("-new-path="@, a.container_path),
        flag("-folder-path="@, a.folder_path),
        flag("-passphrase="@, a.passphrase),
    ];
    let comment = optional_flag("-comment="@, a.comment);
    let tags = optional_flag("-tags="@, a.tags);
    lemma_optional_flag("-name="@, a.name);
    lemma_flag("-new-path="@, a.container_path);
    lemma_flag("-folder-path="@, a.folder_path);
    lemma_flag("-passphrase="@, a.passphrase);
    lemma_optional_flag("-comment="@, a.comment);
    lemma_optional_flag("-tags="@, a.tags);
    lemma_join(head, name);
    lemma_join(head + name, paths);
    lemma_join(head + name + paths, comment);
    lemma_join(head + name + paths + comment, tags);
    assert(all_grouped(a.container_group()));
    assert(a.container_group()[0] == "seal"@);

    let compression = seq!["compression"@, flag("-type="@, a.compression_type)];
    lemma_flag("-type="@, a.compression_type);
    let token = seq!["token"@, flag("-type="@, a.token_type)];
    lemma_flag("-type="@, a.token_type);

    let writer = seq!["token-writer"@, flag("-type="@, a.token_save_type), "-format=json"@];
    lemma_flag("-type="@, a.token_save_type);
    lemma_optional_flag("-path="@, a.token_save_path);
    lemma_join(writer, optional_flag("-path="@, a.token_save_path));
    assert(all_grouped(a.token_writer_group()));

    lemma_flag("-shares="@, decimal(a.share_count() as nat));
    lemma_flag("-threshold="@, decimal(a.share_threshold() as nat));
    assert(all_grouped(a.shamir_group()));

    let integrity = seq!["integrity-provider"@, flag("-type="@, a.integrity_provider)];
    lemma_flag("-type="@, a.integrity_provider);
    lemma_optional_flag("-new-passphrase="@, a.additional_password);
    if a.integrity_provider == "hmac"@ {
        lemma_join(integrity, optional_flag("-new-passphrase="@, a.additional_password));
    } else {
        lemma_join(integrity, Seq::empty());
    }
    assert(all_grouped(a.integrity_group()));

    lemma_log_writer();
    lemma_join(a.container_group(), compression);
    lemma_join(a.container_group() + compression, token);
    lemma_join(a.container_group() + compression + token, a.token_writer_group());
    lemma_join(
        a.container_group() + compression + token + a.token_writer_group(),
        a.shamir_group(),
    );
    lemma_join(
        a.container_group() + compression + token + a.token_writer_group() + a.shamir_group(),
        a.integrity_group(),
    );
    lemma_join(
        a.container_group() + compression + token + a.token_writer_group() + a.shamir_group()
            + a.integrity_group(),
        log_writer_group(),
    );
    assert(a.tokens()[0] == a.container_group()[0]);
}

proof fn lemma_unseal(a: DecryptArgsView)
    ensures
        grouped(a.tokens()),
{
    reveal_strlit("-current-path=");
    reveal_strlit("-folder-path=");
    reveal_strlit("-passphrase=");
    reveal_strlit("-current-passphrase=");
    let head = seq![
        "unseal"@,
        "container"@,
        flag("-current-path="@, a.container_path),
        flag("-folder-path="@, a.folder_path),
    ];
    lemma_flag("-current-path="@, a.container_path);
    lemma_flag("-folder-path="@, a.folder_path);
    assert(all_grouped(head));

    lemma_optional_flag("-passphrase="@, a.token);
    if a.token is Some {
        let passphrase = seq![flag("-passphrase="@, a.token->0)];
        lemma_flag("-passphrase="@, a.token->0);
        lemma_optional_secret_reader(a.token);
        lemma_join(passphrase, secret_reader_group(a.token->0));
        if a.master_token is Some {
            lemma_optional_secret_reader(a.master_token);
            lemma_join(passphrase, secret_reader_group(a.master_token->0));
        }
    }
    if a.token_format is Some {
        lemma_flag_reader(a.token_format->0, or_empty(a.token_flag));
        lemma_file_reader(a.token_format->0, or_empty(a.token_path));
    }
    assert(all_grouped(a.unlock_tokens()));

    if a.additional_password is Some {
        lemma_flag("-current-passphrase="@, a.additional_password->0);
    }
    assert(all_grouped(a.integrity_group()));

    lemma_log_writer();
    lemma_join(head, a.unlock_tokens());
    lemma_join(head + a.unlock_tokens(), a.integrity_group());
    lemma_join(head + a.unlock_tokens() + a.integrity_group(), log_writer_group());
    assert(a.tokens()[0] == head[0]);
}

proof fn lemma_inspect(a: ContainerInfoArgsView)
    ensures
        grouped(a.tokens()),
{
    reveal_strlit("-path=");
    reveal_strlit("-type=stdout");
    reveal_strlit("-format=json");
    let head = seq![
        "container"@,
        "info"@,
        flag("-path="@, a.path),
        "info-writer"@,
        "-type=stdout"@,
        "-format=json"@,
    ];
    lemma_flag("-path="@, a.path);
    assert(all_grouped(head));
    lemma_log_writer();
    lemma_join(head, log_writer_group());
    assert(a.tokens()[0] == head[0]);
}

proof fn lemma_reseal(a: ResealArgsView)
    ensures
        grouped(a.tokens()),
{
    reveal_strlit("-current-path=");
    reveal_strlit("-folder-path=");
    reveal_strlit("-new-path=");
    reveal_strlit("-name=");
    reveal_strlit("-passphrase=");
    reveal_strlit("-comment=");
    reveal_strlit("-tags=");
    reveal_strlit("-current-passphrase=");
    reveal_strlit("-new-passphrase=");
    let head = seq![
        "reseal"@,
        "container"@,
        flag("-current-path="@, a.current_path),
        flag("-folder-path="@, a.folder_path),
    ];
    lemma_flag("-current-path="@, a.current_path);
    lemma_flag("-folder-path="@, a.folder_path);
    assert(all_grouped(head));
    let new_path = optional_flag("-new-path="@, a.new_path);
    let name = optional_flag("-name="@, a.name);
    let passphrase = optional_flag("-passphrase="@, a.passphrase);
    let comment = optional_flag("-comment="@, a.comment);
    let tags = optional_flag("-tags="@, a.tags);
    lemma_optional_flag("-new-path="@, a.new_path);
    lemma_optional_flag("-name="@, a.name);
    lemma_optional_flag("-passphrase="@, a.passphrase);
    lemma_optional_flag("-comment="@, a.comment);
    lemma_optional_flag("-tags="@, a.tags);
    lemma_join(head, new_path);
    lemma_join(head + new_path, name);
    lemma_join(head + new_path + name, passphrase);
    lemma_join(head + new_path + name + passphrase, comment);
    lemma_join(head + new_path + name + passphrase + comment, tags);
    assert(all_grouped(a.container_group()));
    assert(a.container_group()[0] == "reseal"@);

    if a.token_json_path is Some {
        lemma_file_reader("json"@, a.token_json_path->0);
    }
    lemma_optional_secret_reader(a.master_token);
    lemma_optional_secret_reader(a.joined_shares());
    lemma_optional_secret_reader(a.passphrase);
    assert(all_grouped(a.reader_group()));

    let selector = seq!["integrity-provider"@];
    let current = optional_flag("-current-passphrase="@, a.current_integrity_password);
    let next = optional_flag("-new-passphrase="@, a.next_integrity_password());
    lemma_optional_flag("-current-passphrase="@, a.current_integrity_password);
    lemma_optional_flag("-new-passphrase="@, a.next_integrity_password());
    lemma_join(selector, current);
    lemma_join(selector + current, next);
    assert(all_grouped(a.integrity_group()));

    lemma_log_writer();
    lemma_join(a.container_group(), a.reader_group());
    lemma_join(a.container_group() + a.reader_group(), a.integrity_group());
    lemma_join(
        a.container_group() + a.reader_group() + a.integrity_group(),
        log_writer_group(),
    );
    assert(a.tokens()[0] == a.container_group()[0]);
}

/// Every encoding has the grouped-flag form: it opens with a selector and
/// holds nothing but selectors and flags, whatever text the request
/// carries.
pub proof fn lemma_encoding_is_grouped(request: OperationRequestView)
    ensures
        grouped(request.tokens()),
{
    match request {
        OperationRequestView::Seal(a) => lemma_seal(a),
        OperationRequestView::Unseal(a) => lemma_unseal(a),
        OperationRequestView::Inspect(a) => lemma_inspect(a),
        OperationRequestView::Reseal(a) => lemma_reseal(a),
    }
}

} // verus!
