use win_open::wide::wide;

#[test]
fn ascii_is_one_unit_each_and_terminated() {
    assert_eq!(wide("ab"), vec![0x61, 0x62, 0]);
    assert_eq!(wide(""), vec![0]);
}

#[test]
fn matches_std_encoding() {
    for s in ["C:\\Users\\é", "黑风雷", "😀 x", "\u{FFFF}\u{10000}\u{10FFFF}"] {
        let mut expected: Vec<u16> = s.encode_utf16().collect();
        expected.push(0);
        assert_eq!(wide(s), expected);
    }
}

#[test]
fn surrogate_pair() {
    assert_eq!(wide("\u{1F600}"), vec![0xD83D, 0xDE00, 0]);
}

#[test]
fn terminator_is_the_only_zero() {
    let w = wide("C:\\Program Files\\😀");
    assert_eq!(*w.last().unwrap(), 0);
    assert_eq!(w.iter().filter(|&&u| u == 0).count(), 1);
}
