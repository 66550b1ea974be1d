use tvault_bridge::inspect::{build_container_info_cmd, ContainerInfoArgs};
use tvault_bridge::request::{encode, OperationRequest};
use tvault_bridge::reseal::{build_reseal_cmd, ResealArgs};
use tvault_bridge::seal::{build_seal_cmd, validate_encrypt, EncryptArgs};
use tvault_bridge::unseal::{build_unseal_cmd, DecryptArgs};

fn text(s: &str) -> String {
    s.to_string()
}

fn some(s: &str) -> Option<String> {
    Some(s.to_string())
}

fn seal_request() -> EncryptArgs {
    EncryptArgs {
        name: None,
        container_path: text("/v/box.tvlt"),
        folder_path: text("/v/in"),
        compression_type: text("zip"),
        passphrase: text("s3cret"),
        token_type: text("none"),
        token_save_type: text("stdout"),
        token_save_path: None,
        number_of_shares: None,
        threshold: None,
        integrity_provider: text("none"),
        additional_password: None,
        comment: None,
        tags: None,
    }
}

fn share_request(count: Option<u8>, threshold: Option<u8>) -> EncryptArgs {
    let mut a = seal_request();
    a.token_type = text("share");
    a.number_of_shares = count;
    a.threshold = threshold;
    a
}

fn unseal_request() -> DecryptArgs {
    DecryptArgs {
        container_path: text("/v/box.tvlt"),
        folder_path: text("/v/out"),
        token: None,
        master_token: None,
        token_reader_type: None,
        token_format: None,
        token_flag: None,
        token_path: None,
        additional_password: None,
    }
}

fn reseal_request() -> ResealArgs {
    ResealArgs {
        current_path: text("/v/box.tvlt"),
        new_path: None,
        folder_path: text("/v/tmp"),
        name: None,
        passphrase: None,
        comment: None,
        tags: None,
        integrity_provider: None,
        current_integrity_password: None,
        new_integrity_password: None,
        master_token: None,
        shares: None,
        token_type: None,
        token_json_path: None,
    }
}

fn contains_run(tokens: &[String], run: &[&str]) -> bool {
    tokens.windows(run.len()).any(|w| w.iter().zip(run.iter()).all(|(a, b)| a == b))
}

const LOG_WRITER: [&str; 3] = ["log-writer", "-type=stdout", "-format=json"];

#[test]
fn seal_minimal_request_encodes_every_group() {
    let tokens = build_seal_cmd(seal_request());
    assert_eq!(
        tokens,
        vec![
            "seal",
            "container",
            "-new-path=/v/box.tvlt",
            "-folder-path=/v/in",
            "-passphrase=s3cret",
            "compression",
            "-type=zip",
            "token",
            "-type=none",
            "token-writer",
            "-type=stdout",
            "-format=json",
            "shamir",
            "-is-enabled=false",
            "integrity-provider",
            "-type=none",
            "log-writer",
            "-type=stdout",
            "-format=json",
        ]
    );
}

#[test]
fn seal_full_request_places_optional_flags_in_their_groups() {
    let mut a = share_request(Some(16), Some(2));
    a.name = some("Box");
    a.comment = some("first");
    a.tags = some("a,b");
    a.token_save_type = text("file");
    a.token_save_path = some("/v/tokens.json");
    a.integrity_provider = text("hmac");
    a.additional_password = some("second");
    assert_eq!(validate_encrypt(&a), Ok(()));
    let tokens = build_seal_cmd(a);
    assert_eq!(
        tokens,
        vec![
            "seal",
            "container",
            "-name=Box",
            "-new-path=/v/box.tvlt",
            "-folder-path=/v/in",
            "-passphrase=s3cret",
            "-comment=first",
            "-tags=a,b",
            "compression",
            "-type=zip",
            "token",
            "-type=share",
            "token-writer",
            "-type=file",
            "-format=json",
            "-path=/v/tokens.json",
            "shamir",
            "-is-enabled=true",
            "-shares=16",
            "-threshold=2",
            "integrity-provider",
            "-type=hmac",
            "-new-passphrase=second",
            "log-writer",
            "-type=stdout",
            "-format=json",
        ]
    );
}

#[test]
fn seal_integrity_secret_is_passed_only_for_hmac() {
    let mut a = seal_request();
    a.integrity_provider = text("none");
    a.additional_password = some("unused");
    let tokens = build_seal_cmd(a);
    assert!(!tokens.iter().any(|t| t.starts_with("-new-passphrase=")));
}

#[test]
fn seal_token_path_is_passed_whenever_given() {
    let mut a = seal_request();
    a.token_save_path = some("/v/t.json");
    let tokens = build_seal_cmd(a);
    assert!(contains_run(&tokens, &["token-writer", "-type=stdout", "-format=json", "-path=/v/t.json"]));
}

#[test]
fn seal_share_five_three_enables_shamir() {
    let encoded = encode(OperationRequest::Seal(share_request(Some(5), Some(3))));
    let tokens = encoded.expect("a valid request is encoded");
    assert!(contains_run(&tokens, &["shamir", "-is-enabled=true", "-shares=5", "-threshold=3"]));
}

#[test]
fn seal_share_two_five_is_refused() {
    let encoded = encode(OperationRequest::Seal(share_request(Some(2), Some(5))));
    assert_eq!(encoded, Err(text("threshold cannot be greater than number_of_shares")));
}

#[test]
fn seal_share_defaults_are_five_and_three() {
    let a = share_request(None, None);
    assert_eq!(validate_encrypt(&a), Ok(()));
    let tokens = build_seal_cmd(a);
    assert!(contains_run(&tokens, &["shamir", "-is-enabled=true", "-shares=5", "-threshold=3"]));
}

#[test]
fn seal_share_rules_hold_for_every_pair_of_numbers() {
    for n in 0..=u8::MAX {
        for k in 0..=u8::MAX {
            let refused = validate_encrypt(&share_request(Some(n), Some(k))).is_err();
            let expected = k > n || !(2..=16).contains(&k) || !(2..=16).contains(&n);
            assert_eq!(refused, expected, "count {n}, threshold {k}");
        }
    }
}

#[test]
fn seal_share_bounds_are_inclusive() {
    assert_eq!(validate_encrypt(&share_request(Some(2), Some(2))), Ok(()));
    assert_eq!(validate_encrypt(&share_request(Some(16), Some(16))), Ok(()));
    assert_eq!(
        validate_encrypt(&share_request(Some(1), Some(1))),
        Err(text("threshold and number_of_shares must be at least 2"))
    );
    assert_eq!(
        validate_encrypt(&share_request(Some(5), Some(1))),
        Err(text("threshold and number_of_shares must be at least 2"))
    );
    assert_eq!(
        validate_encrypt(&share_request(Some(17), Some(3))),
        Err(text("threshold and number_of_shares cannot exceed 16"))
    );
    assert_eq!(
        validate_encrypt(&share_request(Some(17), Some(17))),
        Err(text("threshold and number_of_shares cannot exceed 16"))
    );
}

#[test]
fn seal_numbers_are_not_checked_without_shares() {
    let mut a = share_request(Some(1), Some(200));
    a.token_type = text("master");
    assert_eq!(validate_encrypt(&a), Ok(()));
}

#[test]
fn seal_file_sink_needs_a_path() {
    let mut a = seal_request();
    a.token_save_type = text("file");
    assert_eq!(
        validate_encrypt(&a),
        Err(text("token_save_path is required when token_save_type=file"))
    );
    a.token_save_path = some("/v/t.json");
    assert_eq!(validate_encrypt(&a), Ok(()));
}

#[test]
fn seal_hmac_needs_a_secret() {
    let mut a = seal_request();
    a.integrity_provider = text("hmac");
    assert_eq!(
        validate_encrypt(&a),
        Err(text("additional_password is required when integrity_provider=hmac"))
    );
    a.additional_password = some("second");
    assert_eq!(validate_encrypt(&a), Ok(()));
}

#[test]
fn seal_rules_are_reported_in_order() {
    let mut a = share_request(Some(2), Some(5));
    a.token_save_type = text("file");
    a.integrity_provider = text("hmac");
    assert_eq!(
        validate_encrypt(&a),
        Err(text("token_save_path is required when token_save_type=file"))
    );
    a.token_save_path = some("/v/t.json");
    assert_eq!(
        validate_encrypt(&a),
        Err(text("additional_password is required when integrity_provider=hmac"))
    );
    a.additional_password = some("second");
    assert_eq!(
        validate_encrypt(&a),
        Err(text("threshold cannot be greater than number_of_shares"))
    );
}

#[test]
fn unseal_secret_and_master_token_are_both_encoded() {
    let mut a = unseal_request();
    a.token = some("direct");
    a.master_token = some("master");
    a.token_reader_type = some("file");
    a.token_format = some("json");
    a.token_path = some("/ignored");
    let tokens = build_unseal_cmd(a);
    assert_eq!(
        tokens,
        vec![
            "unseal",
            "container",
            "-current-path=/v/box.tvlt",
            "-folder-path=/v/out",
            "-passphrase=direct",
            "token-reader",
            "-type=flag",
            "-format=plaintext",
            "-flag=master",
            "log-writer",
            "-type=stdout",
            "-format=json",
        ]
    );
}

#[test]
fn unseal_flag_reader_is_taken_as_asked() {
    let mut a = unseal_request();
    a.master_token = some("master");
    a.token_reader_type = some("flag");
    a.token_format = some("plaintext");
    a.token_flag = some("s1|s2|s3");
    let tokens = build_unseal_cmd(a);
    assert_eq!(
        tokens[4..],
        ["token-reader", "-type=flag", "-format=plaintext", "-flag=s1|s2|s3", "log-writer", "-type=stdout", "-format=json"]
    );
}

#[test]
fn unseal_file_reader_is_taken_as_asked() {
    let mut a = unseal_request();
    a.token = some("direct");
    a.token_reader_type = some("file");
    a.token_format = some("json");
    a.token_path = some("/v/tokens.json");
    let tokens = build_unseal_cmd(a);
    assert_eq!(
        tokens[4..],
        ["token-reader", "-type=file", "-format=json", "-path=/v/tokens.json", "log-writer", "-type=stdout", "-format=json"]
    );
}

#[test]
fn unseal_reader_without_its_value_gets_an_empty_one() {
    let mut a = unseal_request();
    a.token_reader_type = some("flag");
    a.token_format = some("json");
    let tokens = build_unseal_cmd(a);
    assert!(contains_run(&tokens, &["token-reader", "-type=flag", "-format=json", "-flag="]));
    let mut b = unseal_request();
    b.token_reader_type = some("file");
    b.token_format = some("json");
    let tokens = build_unseal_cmd(b);
    assert!(contains_run(&tokens, &["token-reader", "-type=file", "-format=json", "-path="]));
}

#[test]
fn unseal_reader_without_format_falls_back_to_passphrase() {
    let mut a = unseal_request();
    a.token = some("direct");
    a.token_reader_type = some("flag");
    a.token_flag = some("unused");
    let tokens = build_unseal_cmd(a);
    assert_eq!(
        tokens[4..],
        ["-passphrase=direct", "log-writer", "-type=stdout", "-format=json"]
    );
}

#[test]
fn unseal_unknown_reader_falls_back_to_passphrase() {
    let mut a = unseal_request();
    a.token = some("direct");
    a.token_reader_type = some("pipe");
    a.token_format = some("json");
    let tokens = build_unseal_cmd(a);
    assert_eq!(
        tokens[4..],
        ["-passphrase=direct", "log-writer", "-type=stdout", "-format=json"]
    );
    let mut b = unseal_request();
    b.token_reader_type = some("pipe");
    let tokens = build_unseal_cmd(b);
    assert_eq!(tokens[4..], LOG_WRITER);
}

#[test]
fn unseal_lone_secret_is_encoded_twice() {
    let mut a = unseal_request();
    a.token = some("direct");
    let tokens = build_unseal_cmd(a);
    assert_eq!(
        tokens[4..],
        [
            "-passphrase=direct",
            "token-reader",
            "-type=flag",
            "-format=plaintext",
            "-flag=direct",
            "log-writer",
            "-type=stdout",
            "-format=json",
        ]
    );
}

#[test]
fn unseal_integrity_secret_adds_a_group() {
    let mut a = unseal_request();
    a.additional_password = some("second");
    let tokens = build_unseal_cmd(a);
    assert_eq!(
        tokens[4..],
        ["integrity-provider", "-current-passphrase=second", "log-writer", "-type=stdout", "-format=json"]
    );
}

#[test]
fn unseal_master_token_alone_selects_nothing() {
    let mut a = unseal_request();
    a.master_token = some("master");
    let tokens = build_unseal_cmd(a);
    assert_eq!(tokens[4..], LOG_WRITER);
}

#[test]
fn inspect_has_one_fixed_shape() {
    let tokens = build_container_info_cmd(ContainerInfoArgs { path: text("/v/box.tvlt") });
    assert_eq!(
        tokens,
        vec![
            "container",
            "info",
            "-path=/v/box.tvlt",
            "info-writer",
            "-type=stdout",
            "-format=json",
            "log-writer",
            "-type=stdout",
            "-format=json",
        ]
    );
}

#[test]
fn reseal_minimal_request_has_no_optional_group() {
    let tokens = build_reseal_cmd(reseal_request());
    assert_eq!(
        tokens,
        vec![
            "reseal",
            "container",
            "-current-path=/v/box.tvlt",
            "-folder-path=/v/tmp",
            "log-writer",
            "-type=stdout",
            "-format=json",
        ]
    );
}

#[test]
fn reseal_metadata_flags_keep_their_order() {
    let mut a = reseal_request();
    a.new_path = some("/v/new.tvlt");
    a.name = some("Box");
    a.passphrase = some("s3cret");
    a.comment = some("c");
    a.tags = some("t");
    let tokens = build_reseal_cmd(a);
    assert_eq!(
        tokens[4..9],
        ["-new-path=/v/new.tvlt", "-name=Box", "-passphrase=s3cret", "-comment=c", "-tags=t"]
    );
    assert_eq!(tokens[9..], LOG_WRITER);
}

#[test]
fn reseal_master_strategy_reads_the_master_token() {
    let mut a = reseal_request();
    a.token_type = some("master");
    a.master_token = some("master");
    a.passphrase = some("s3cret");
    let tokens = build_reseal_cmd(a);
    assert_eq!(
        tokens[4..],
        [
            "-passphrase=s3cret",
            "token-reader",
            "-type=flag",
            "-format=plaintext",
            "-flag=master",
            "log-writer",
            "-type=stdout",
            "-format=json",
        ]
    );
}

#[test]
fn reseal_share_strategy_prefers_the_token_file() {
    let mut a = reseal_request();
    a.token_type = some("share");
    a.token_json_path = some("/v/tokens.json");
    a.shares = Some(vec![text("s1"), text("s2")]);
    let tokens = build_reseal_cmd(a);
    assert_eq!(
        tokens[4..8],
        ["token-reader", "-type=file", "-format=json", "-path=/v/tokens.json"]
    );
}

#[test]
fn reseal_share_strategy_joins_shares_with_a_bar() {
    let mut a = reseal_request();
    a.token_type = some("share");
    a.shares = Some(vec![text("s1"), text("s2"), text("s3")]);
    let tokens = build_reseal_cmd(a);
    assert_eq!(
        tokens[4..8],
        ["token-reader", "-type=flag", "-format=plaintext", "-flag=s1|s2|s3"]
    );
    let mut one = reseal_request();
    one.token_type = some("share");
    one.shares = Some(vec![text("only")]);
    assert_eq!(build_reseal_cmd(one)[7], "-flag=only");
    let mut none = reseal_request();
    none.token_type = some("share");
    none.shares = Some(vec![]);
    assert_eq!(build_reseal_cmd(none)[7], "-flag=");
}

#[test]
fn reseal_none_strategy_reads_the_secret() {
    let mut a = reseal_request();
    a.token_type = some("none");
    a.passphrase = some("s3cret");
    let tokens = build_reseal_cmd(a);
    assert_eq!(
        tokens[4..9],
        ["-passphrase=s3cret", "token-reader", "-type=flag", "-format=plaintext", "-flag=s3cret"]
    );
}

#[test]
fn reseal_strategy_without_its_input_has_no_reader() {
    for strategy in ["master", "share", "none", "other"] {
        let mut a = reseal_request();
        a.token_type = some(strategy);
        assert_eq!(build_reseal_cmd(a)[4..], LOG_WRITER, "strategy {strategy}");
    }
    let mut a = reseal_request();
    a.token_type = some("other");
    a.master_token = some("master");
    a.shares = Some(vec![text("s1")]);
    assert_eq!(build_reseal_cmd(a)[4..], LOG_WRITER);
}

#[test]
fn reseal_integrity_group_reuses_the_current_secret() {
    let mut a = reseal_request();
    a.integrity_provider = some("hmac");
    a.current_integrity_password = some("cur");
    let tokens = build_reseal_cmd(a);
    assert_eq!(
        tokens[4..],
        [
            "integrity-provider",
            "-current-passphrase=cur",
            "-new-passphrase=cur",
            "log-writer",
            "-type=stdout",
            "-format=json",
        ]
    );
}

#[test]
fn reseal_integrity_group_takes_the_new_secret() {
    let mut a = reseal_request();
    a.integrity_provider = some("hmac");
    a.current_integrity_password = some("cur");
    a.new_integrity_password = some("new");
    let tokens = build_reseal_cmd(a);
    assert_eq!(
        tokens[4..7],
        ["integrity-provider", "-current-passphrase=cur", "-new-passphrase=new"]
    );
    let mut b = reseal_request();
    b.integrity_provider = some("ed25519");
    b.new_integrity_password = some("new");
    assert_eq!(build_reseal_cmd(b)[4..6], ["integrity-provider", "-new-passphrase=new"]);
    let mut c = reseal_request();
    c.integrity_provider = some("hmac");
    assert_eq!(build_reseal_cmd(c)[4..], ["integrity-provider", "log-writer", "-type=stdout", "-format=json"]);
}

#[test]
fn reseal_without_integrity_strategy_passes_no_integrity_secret() {
    let mut a = reseal_request();
    a.integrity_provider = some("none");
    a.current_integrity_password = some("cur");
    a.new_integrity_password = some("new");
    assert_eq!(build_reseal_cmd(a)[4..], LOG_WRITER);
    let mut b = reseal_request();
    b.current_integrity_password = some("cur");
    assert_eq!(build_reseal_cmd(b)[4..], LOG_WRITER);
}

#[test]
fn every_encoding_ends_with_the_log_writer() {
    let requests = vec![
        OperationRequest::Seal(seal_request()),
        OperationRequest::Seal(share_request(Some(5), Some(3))),
        OperationRequest::Unseal(unseal_request()),
        OperationRequest::Inspect(ContainerInfoArgs { path: text("/v/box.tvlt") }),
        OperationRequest::Reseal(reseal_request()),
    ];
    for request in requests {
        let tokens = encode(request).expect("a valid request is encoded");
        assert_eq!(tokens[tokens.len() - 3..], LOG_WRITER);
    }
}

#[test]
fn encode_matches_the_builders() {
    assert_eq!(
        encode(OperationRequest::Unseal(unseal_request())),
        Ok(build_unseal_cmd(unseal_request()))
    );
    assert_eq!(
        encode(OperationRequest::Reseal(reseal_request())),
        Ok(build_reseal_cmd(reseal_request()))
    );
    assert_eq!(
        encode(OperationRequest::Seal(seal_request())),
        Ok(build_seal_cmd(seal_request()))
    );
}

#[test]
fn prefixes_name_the_operations() {
    assert_eq!(OperationRequest::Seal(seal_request()).prefix(), "encrypt");
    assert_eq!(OperationRequest::Unseal(unseal_request()).prefix(), "decrypt");
    assert_eq!(
        OperationRequest::Inspect(ContainerInfoArgs { path: text("p") }).prefix(),
        "info"
    );
    assert_eq!(OperationRequest::Reseal(reseal_request()).prefix(), "reseal");
}

#[test]
fn every_token_is_a_selector_or_a_flag() {
    let selectors = [
        "seal", "unseal", "reseal", "container", "info", "compression", "token", "token-writer",
        "token-reader", "shamir", "integrity-provider", "info-writer", "log-writer",
    ];
    let hostile = "x log-writer -type=file";
    let mut sealing = share_request(Some(5), Some(3));
    sealing.name = some(hostile);
    sealing.compression_type = text("token-reader");
    sealing.token_save_path = some("shamir");
    let mut unsealing = unseal_request();
    unsealing.token = some("integrity-provider");
    unsealing.master_token = some(hostile);
    unsealing.additional_password = some("seal");
    let mut resealing = reseal_request();
    resealing.token_type = some("share");
    resealing.shares = Some(vec![text("container"), text(hostile)]);
    resealing.integrity_provider = some("hmac");
    resealing.current_integrity_password = some("info");
    let requests = vec![
        OperationRequest::Seal(sealing),
        OperationRequest::Unseal(unsealing),
        OperationRequest::Inspect(ContainerInfoArgs { path: text("log-writer") }),
        OperationRequest::Reseal(resealing),
    ];
    for request in requests {
        let tokens = encode(request).expect("a valid request is encoded");
        assert!(selectors.contains(&tokens[0].as_str()));
        for token in &tokens {
            assert!(
                token.starts_with('-') || selectors.contains(&token.as_str()),
                "token {token:?}"
            );
        }
        let selected = tokens.iter().filter(|t| !t.starts_with('-')).count();
        assert!(selected <= 8, "{selected} selectors");
    }
}
