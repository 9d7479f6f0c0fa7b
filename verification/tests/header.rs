use lua_resty_protobuf::header::{InvalidHeader, KeyValuePair};

fn pair(name: &str, value: &str) -> KeyValuePair {
    KeyValuePair(name.to_string(), value.to_string())
}

#[test]
fn test_header_try_from_valid() {
    assert_eq!(Ok(pair("a", "b")), KeyValuePair::try_from("a:b"));
}

#[test]
fn test_header_try_from_invalid() {
    assert_eq!(Err(InvalidHeader("a".to_string())), KeyValuePair::try_from("a"));
    assert_eq!(Err(InvalidHeader("a:".to_string())), KeyValuePair::try_from("a:"));
    assert_eq!(Err(InvalidHeader(":b".to_string())), KeyValuePair::try_from(":b"));
}

#[test]
fn header_splits_at_the_first_colon_only() {
    assert_eq!(
        Ok(pair("host", "example.com:8080")),
        KeyValuePair::try_from("host:example.com:8080")
    );
    assert_eq!(Ok(pair("a", ":")), KeyValuePair::try_from("a::"));
    assert_eq!(Err(InvalidHeader("::a".to_string())), KeyValuePair::try_from("::a"));
    assert_eq!(Err(InvalidHeader("".to_string())), KeyValuePair::try_from(""));
    assert_eq!(Err(InvalidHeader(":".to_string())), KeyValuePair::try_from(":"));
}

#[test]
fn header_counts_characters_not_bytes() {
    assert_eq!(Ok(pair("clé", "värde")), KeyValuePair::try_from("clé:värde"));
    assert_eq!(Ok(pair("é", "ü")), KeyValuePair::try_from("é:ü"));
}

#[test]
fn invalid_header_message_names_the_text() {
    assert_eq!(InvalidHeader("a:".to_string()).message(), "Invalid <header>:<name> => a:");
}
