use httpie::error::CliError;
use httpie::kv::{parse_kv_pair, KvPair};

fn pair(s: &str) -> (String, String) {
    let p = parse_kv_pair(s).expect("a key=value token");
    (p.k, p.v)
}

#[test]
fn simple_pair_splits_at_equals() {
    assert_eq!(pair("a=1"), ("a".to_string(), "1".to_string()));
}

#[test]
fn value_keeps_later_equals_signs() {
    assert_eq!(pair("a=1=2"), ("a".to_string(), "1=2".to_string()));
}

#[test]
fn empty_value_is_accepted() {
    assert_eq!(pair("key="), ("key".to_string(), String::new()));
}

#[test]
fn empty_key_is_accepted() {
    assert_eq!(pair("=v"), (String::new(), "v".to_string()));
}

#[test]
fn non_ascii_text_is_split_by_characters() {
    assert_eq!(pair("名前=值"), ("名前".to_string(), "值".to_string()));
}

#[test]
fn token_without_equals_is_rejected() {
    assert_eq!(
        parse_kv_pair("novalue").unwrap_err(),
        CliError::InvalidKeyValue("novalue".to_string())
    );
}

#[test]
fn empty_token_is_rejected() {
    assert!(matches!(parse_kv_pair(""), Err(CliError::InvalidKeyValue(s)) if s.is_empty()));
}

#[test]
fn from_str_agrees_with_parse() {
    let p: KvPair = "name=bob".parse().unwrap();
    assert_eq!(p.k, "name");
    assert_eq!(p.v, "bob");
    assert!("name".parse::<KvPair>().is_err());
}

#[test]
fn error_carries_the_argument() {
    let e = parse_kv_pair("oops").unwrap_err();
    assert_eq!(e.input(), "oops");
}

#[test]
fn from_str_splits_at_first_equals() {
    let p: KvPair = "x=1=2".parse().unwrap();
    assert_eq!((p.k.as_str(), p.v.as_str()), ("x", "1=2"));
}

#[test]
fn from_str_edge_tokens() {
    assert!(matches!("".parse::<KvPair>(), Err(CliError::InvalidKeyValue(s)) if s.is_empty()));
    let p: KvPair = "=".parse().unwrap();
    assert_eq!((p.k.as_str(), p.v.as_str()), ("", ""));
    let p: KvPair = "ключ=значение".parse().unwrap();
    assert_eq!((p.k.as_str(), p.v.as_str()), ("ключ", "значение"));
}

#[test]
fn from_str_and_parse_kv_pair_agree() {
    for s in ["a=1", "a=1=2", "=", "key=", "none", ""] {
        let a = parse_kv_pair(s);
        let b = s.parse::<KvPair>();
        assert_eq!(a.is_ok(), b.is_ok());
        match (a, b) {
            (Ok(x), Ok(y)) => assert_eq!((x.k, x.v), (y.k, y.v)),
            (Err(x), Err(y)) => assert_eq!(x, y),
            _ => unreachable!(),
        }
    }
}
