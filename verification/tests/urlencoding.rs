use pleb_signer::urlencoding;

#[test]
fn test_url_encoding() {
    assert_eq!(urlencoding::encode("hello world"), "hello%20world");
    assert_eq!(urlencoding::encode("wss://relay.damus.io"), "wss%3A%2F%2Frelay.damus.io");
}

#[test]
fn unreserved_characters_stand_for_themselves() {
    let plain = "abcxyzABCXYZ0189-_.~";
    assert_eq!(urlencoding::encode(plain), plain);
    assert_eq!(urlencoding::encode(""), "");
}

#[test]
fn other_bytes_are_written_in_upper_case_hex() {
    assert_eq!(urlencoding::encode("a&b=c?d#e"), "a%26b%3Dc%3Fd%23e");
    assert_eq!(urlencoding::encode("%"), "%25");
    assert_eq!(urlencoding::encode("\n"), "%0A");
    assert_eq!(urlencoding::encode("\u{7f}"), "%7F");
    // two bytes and four bytes of UTF-8
    assert_eq!(urlencoding::encode("é"), "%C3%A9");
    assert_eq!(urlencoding::encode("🔑"), "%F0%9F%94%91");
    assert_eq!(urlencoding::encode("{\"name\":\"Pleb Signer\"}"), "%7B%22name%22%3A%22Pleb%20Signer%22%7D");
}
