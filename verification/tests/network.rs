use procwatch::network::{clean_title, is_allowed_in_title, History, HISTORY_LEN};

#[test]
fn title_of_allowed_bytes_is_kept_whole() {
    assert_eq!(clean_title(b"Ethernet (2) adapter"), b"Ethernet (2) adapter".to_vec());
    assert_eq!(clean_title(b"azAZ09 ()"), b"azAZ09 ()".to_vec());
}

#[test]
fn title_ends_before_the_first_byte_not_allowed() {
    assert_eq!(clean_title(b"eth0:avahi"), b"eth0".to_vec());
    assert_eq!(clean_title(b"Wi-Fi 2"), b"Wi".to_vec());
    assert_eq!(clean_title(b"lo\0rest"), b"lo".to_vec());
}

#[test]
fn title_of_nothing_allowed_is_empty() {
    assert_eq!(clean_title(b""), Vec::<u8>::new());
    assert_eq!(clean_title(b"_eth0"), Vec::<u8>::new());
    assert_eq!(clean_title(&[0xc3, 0xa9, b'a']), Vec::<u8>::new());
}

#[test]
fn allowed_bytes_are_letters_digits_space_and_round_brackets() {
    let mut b: u8 = 0;
    loop {
        let c = b as char;
        let expected = c.is_ascii_alphanumeric() || c == ' ' || c == '(' || c == ')';
        assert_eq!(is_allowed_in_title(b), expected);
        if b == 255 {
            break;
        }
        b += 1;
    }
}

#[test]
fn history_starts_empty() {
    let h: History<u64> = History::new();
    assert_eq!(h.len(), 0);
    assert!(h.samples().is_empty());
}

#[test]
fn history_puts_the_newest_sample_first() {
    let mut h: History<u64> = History::new();
    h.record(1);
    h.record(2);
    h.record(3);
    assert_eq!(h.len(), 3);
    let got: Vec<u64> = h.samples().iter().copied().collect();
    assert_eq!(got, vec![3, 2, 1]);
}

#[test]
fn full_history_drops_its_oldest_sample() {
    assert_eq!(HISTORY_LEN, 60);
    let mut h: History<u64> = History::new();
    let mut i: u64 = 0;
    while i < 60 {
        h.record(i);
        i += 1;
    }
    assert_eq!(h.len(), 60);
    assert_eq!(h.samples().back().copied(), Some(0));
    h.record(60);
    assert_eq!(h.len(), 60);
    assert_eq!(h.samples().front().copied(), Some(60));
    assert_eq!(h.samples().back().copied(), Some(1));
    h.record(61);
    assert_eq!(h.len(), 60);
    let got: Vec<u64> = h.samples().iter().copied().collect();
    let expected: Vec<u64> = (2..62).rev().collect();
    assert_eq!(got, expected);
}

#[test]
fn history_holds_floating_point_samples() {
    let mut h: History<f64> = History::new();
    h.record(0.5);
    h.record(1.25);
    let got: Vec<f64> = h.samples().iter().copied().collect();
    assert_eq!(got, vec![1.25, 0.5]);
}
