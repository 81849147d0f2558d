use backend::market::contains_bytes;
use backend::market::is_option_market;

fn bytes(s: &str) -> Vec<u8> {
    s.as_bytes().to_vec()
}

#[test]
fn option_markets_are_evaluated() {
    assert!(is_option_market(&bytes("ETH-USD-3000-C")));
    assert!(is_option_market(&bytes("BTC-USD-45000-P")));
}

#[test]
fn perpetual_markets_are_left_alone() {
    assert!(!is_option_market(&bytes("ETH-USD-PERP")));
    assert!(!is_option_market(&bytes("-PERP")));
    assert!(!is_option_market(&bytes("BTC-PERP-extra")));
}

#[test]
fn marker_must_appear_whole() {
    assert!(is_option_market(&bytes("")));
    assert!(is_option_market(&bytes("PERP")));
    assert!(is_option_market(&bytes("ETH-PER")));
    assert!(is_option_market(&bytes("-perp")));
}

#[test]
fn contains_bytes_finds_substrings() {
    assert!(contains_bytes(&bytes("abcdef"), &bytes("cde")));
    assert!(contains_bytes(&bytes("abcdef"), &bytes("abc")));
    assert!(contains_bytes(&bytes("abcdef"), &bytes("def")));
    assert!(contains_bytes(&bytes("abcdef"), &bytes("")));
    assert!(!contains_bytes(&bytes("abcdef"), &bytes("ce")));
    assert!(!contains_bytes(&bytes("abc"), &bytes("abcd")));
    assert!(!contains_bytes(&bytes(""), &bytes("a")));
}
