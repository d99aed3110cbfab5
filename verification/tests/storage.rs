use portfolio_log::storage::token::{load_token_ids_by_name, TokenRow};
use portfolio_log::storage::user::user_key;
use portfolio_log::storage::StorageError;
use portfolio_log::text::contains_text;

fn row(columns: &[(&str, Option<&str>)]) -> TokenRow {
    TokenRow {
        columns: columns.iter().map(|(k, v)| (k.to_string(), v.map(|t| t.to_string()))).collect(),
    }
}

fn ids(names: &[&str]) -> Vec<String> {
    names.iter().map(|s| s.to_string()).collect()
}

fn owned(pairs: &[(&str, &str)]) -> Vec<(String, String)> {
    pairs.iter().map(|(k, v)| (k.to_string(), v.to_string())).collect()
}

#[test]
fn user_key_is_the_address_in_lower_case() {
    assert_eq!(user_key("0xABC"), "0xabc");
    assert_eq!(user_key("0xAbC"), "0xabc");
    assert_eq!(user_key("0xabc"), "0xabc");
    assert_eq!(
        user_key("0xDDBD2B932c763bA5b1b7AE3B362eac3e8d40121A"),
        "0xddbd2b932c763ba5b1b7ae3b362eac3e8d40121a"
    );
    assert_eq!(user_key(""), "");
}

#[test]
fn user_key_lowers_letters_beyond_ascii() {
    assert_eq!(user_key("ÀÉÎ"), "àéî");
    assert_eq!(user_key("ΑΒΓ"), "αβγ");
}

#[test]
fn contains_text_finds_whole_texts_only() {
    let chains = ids(&["eth", "bsc"]);
    assert!(contains_text(&chains, "eth"));
    assert!(contains_text(&chains, "bsc"));
    assert!(!contains_text(&chains, "ftm"));
    assert!(!contains_text(&chains, "et"));
    assert!(!contains_text(&chains, "ETH"));
    assert!(!contains_text(&chains, ""));
    assert!(!contains_text(&ids(&[]), "eth"));
}

#[test]
fn row_text_is_that_of_the_named_column() {
    let r = row(&[("id", Some("ETH")), ("eth", Some("eth")), ("bsc", None)]);
    assert_eq!(r.text("eth").map(|s| s.as_str()), Some("eth"));
    assert_eq!(r.text("id").map(|s| s.as_str()), Some("ETH"));
    assert_eq!(r.text("bsc"), None);
    assert_eq!(r.text("ftm"), None);
}

#[test]
fn of_two_columns_of_one_name_the_later_counts() {
    let r = row(&[("eth", Some("first")), ("eth", Some("second"))]);
    assert_eq!(r.text("eth").map(|s| s.as_str()), Some("second"));
    let r = row(&[("eth", Some("first")), ("eth", None)]);
    assert_eq!(r.text("eth"), None);
}

#[test]
fn token_ids_are_those_of_the_supported_chains_that_have_the_token() {
    let r = row(&[
        ("id", Some("ETH")),
        ("eth", Some("eth")),
        ("bsc", Some("0x2170ed0880ac9a755fd29b2688956bd959f933f8")),
        ("ftm", None),
        ("matic", Some("0x7ceb23fd6bc0add59e62ac25578270cff1b9f619")),
    ]);
    let token_ids = load_token_ids_by_name(&r, &ids(&["eth", "bsc", "heco", "ftm", "matic", "avax"]));
    assert_eq!(
        token_ids,
        owned(&[
            ("eth", "eth"),
            ("bsc", "0x2170ed0880ac9a755fd29b2688956bd959f933f8"),
            ("matic", "0x7ceb23fd6bc0add59e62ac25578270cff1b9f619"),
        ])
    );
}

#[test]
fn token_ids_follow_the_order_of_the_chains() {
    let r = row(&[("eth", Some("a")), ("bsc", Some("b")), ("matic", Some("c"))]);
    let token_ids = load_token_ids_by_name(&r, &ids(&["matic", "eth", "bsc"]));
    assert_eq!(token_ids, owned(&[("matic", "c"), ("eth", "a"), ("bsc", "b")]));
}

#[test]
fn a_chain_named_twice_has_one_token_id() {
    let r = row(&[("eth", Some("a")), ("bsc", Some("b"))]);
    let token_ids = load_token_ids_by_name(&r, &ids(&["eth", "bsc", "eth", "ftm", "ftm", "bsc"]));
    assert_eq!(token_ids, owned(&[("eth", "a"), ("bsc", "b")]));
}

#[test]
fn columns_of_unsupported_chains_are_not_read() {
    let r = row(&[("id", Some("ETH")), ("eth", Some("a")), ("ftm", Some("f"))]);
    let token_ids = load_token_ids_by_name(&r, &ids(&["eth"]));
    assert_eq!(token_ids, owned(&[("eth", "a")]));
}

#[test]
fn token_on_no_chain_has_no_token_ids() {
    let r = row(&[("id", Some("ETH")), ("eth", None)]);
    assert!(load_token_ids_by_name(&r, &ids(&["eth", "bsc"])).is_empty());
    assert!(load_token_ids_by_name(&row(&[]), &ids(&["eth", "bsc"])).is_empty());
    let r = row(&[("eth", Some("a"))]);
    assert!(load_token_ids_by_name(&r, &ids(&[])).is_empty());
}

#[test]
fn database_failure_becomes_a_storage_failure() {
    match StorageError::from(sqlx::Error::PoolClosed) {
        StorageError::Sqlx(sqlx::Error::PoolClosed) => {}
        other => panic!("unexpected: {:?}", other),
    }
}
