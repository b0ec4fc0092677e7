use shareflow::control::DeviceInfo;
use shareflow::peers::{PeerTable, PEER_TTL_MS};
use shareflow::routing::echo_of_key;
use shareflow::text::{
    chars_of, first_char_code, has_substring, same_bytes, same_text, with_decimal,
};

fn device(id: &str, ip: &str) -> DeviceInfo {
    DeviceInfo {
        id: id.to_string(),
        name: id.to_uppercase(),
        ip: ip.to_string(),
        device_type: "DESKTOP".to_string(),
    }
}

#[test]
fn table_holds_each_identifier_once() {
    let mut table = PeerTable::new();
    assert_eq!(table.len(), 0);
    assert!(table.observe(device("b", "10.0.0.2"), 0));
    assert!(table.observe(device("c", "10.0.0.3"), 1));
    assert!(!table.observe(device("b", "10.0.0.9"), 2));
    assert_eq!(table.len(), 2);
    assert_eq!(table.devices(), vec![device("b", "10.0.0.9"), device("c", "10.0.0.3")]);
    assert_eq!(table.position("c"), Some(1));
    assert_eq!(table.position("x"), None);
}

#[test]
fn table_size_is_the_number_of_recent_identifiers() {
    let mut table = PeerTable::new();
    let heard = [("b", 0u64), ("c", 2_000), ("b", 4_000), ("d", 5_000), ("c", 6_000), ("e", 16_000)];
    for (id, at) in heard {
        table.observe(device(id, "10.0.0.1"), at);
    }
    table.prune(16_000);
    // b was last heard at 4000 and d at 5000: both more than ten seconds ago.
    assert_eq!(table.len(), 2);
    assert_eq!(table.devices(), vec![device("c", "10.0.0.1"), device("e", "10.0.0.1")]);
}

#[test]
fn pruning_keeps_rows_up_to_the_limit() {
    assert_eq!(PEER_TTL_MS, 10_000);
    let mut table = PeerTable::new();
    table.observe(device("b", "10.0.0.2"), 1_000);
    table.prune(11_000);
    assert_eq!(table.len(), 1);
    table.prune(11_001);
    assert_eq!(table.len(), 0);
    table.observe(device("c", "10.0.0.3"), 5_000);
    table.prune(4_000);
    assert_eq!(table.len(), 1);
}

#[test]
fn lookup_by_identifier_and_by_address() {
    let mut table = PeerTable::new();
    table.observe(device("b", "10.0.0.2"), 0);
    table.observe(device("c", "10.0.0.3"), 0);
    table.observe(device("d", "10.0.0.3"), 0);
    assert_eq!(table.find_by_id("c"), Some(device("c", "10.0.0.3")));
    assert_eq!(table.find_by_id("z"), None);
    assert_eq!(table.find_by_ip("10.0.0.3"), Some(device("c", "10.0.0.3")));
    assert_eq!(table.find_by_ip("10.0.0.4"), None);
}

#[test]
fn text_comparison() {
    assert!(same_text("abc", "abc"));
    assert!(!same_text("abc", "abd"));
    assert!(!same_text("abc", "ab"));
    assert!(same_text("", ""));
    assert!(same_bytes(&[1, 2], &[1, 2]));
    assert!(!same_bytes(&[1, 2], &[2, 1]));
}

#[test]
fn characters_and_codes() {
    assert_eq!(first_char_code("A"), 65);
    assert_eq!(first_char_code("éa"), 233);
    assert_eq!(first_char_code(""), 0);
    assert_eq!(chars_of("aé"), vec!['a', 'é']);
    let shown = |code: u32| echo_of_key(code, true, 0).key.unwrap();
    assert_eq!(shown(65), "A");
    assert_eq!(shown(0xDF), "ß");
    assert_eq!(shown(0x10FFFF), "\u{10FFFF}");
    assert_eq!(shown(0x110000), "?");
    assert_eq!(shown(0xD800), "?");
    assert_eq!(shown(0xDFFF), "?");
    assert_eq!(shown(0xE000), "\u{E000}");
}

#[test]
fn decimals() {
    assert_eq!(with_decimal("button", 0), "button0");
    assert_eq!(with_decimal("button", 9), "button9");
    assert_eq!(with_decimal("button", 10), "button10");
    assert_eq!(with_decimal("button", 99), "button99");
    assert_eq!(with_decimal("", 100), "100");
    assert_eq!(with_decimal("n", 205), "n205");
    assert_eq!(with_decimal("n", 255), "n255");
}

#[test]
fn substrings() {
    let hay = chars_of("hello world");
    assert!(has_substring(&hay, &chars_of("o w")));
    assert!(has_substring(&hay, &chars_of("")));
    assert!(has_substring(&hay, &chars_of("hello world")));
    assert!(has_substring(&hay, &chars_of("d")));
    assert!(!has_substring(&hay, &chars_of("worlds")));
    assert!(!has_substring(&hay, &chars_of("hello world!")));
    assert!(has_substring(&chars_of(""), &chars_of("")));
    assert!(!has_substring(&chars_of(""), &chars_of("a")));
}
