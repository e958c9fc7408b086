use upnp_controller::text::{
    alike, contains, cut_before, cut_once, find, number, parse_number, parse_u16, parse_u32,
    pieces, same, strip_prefix, trimmed, white,
};
use upnp_controller::time::{Timestamp, MAX_SECS, MIN_SECS};

#[test]
fn white_space_is_that_of_unicode() {
    for c in (0..=0x10ffffu32).filter_map(char::from_u32) {
        assert_eq!(white(c), c.is_whitespace(), "{:?}", c);
    }
}

#[test]
fn searching_agrees_with_the_standard_library() {
    let texts = ["", "a", "aa", "aab", "abab", "ba\u{e9}ba", "://", "http://x/y", "a:b:c"];
    for t in texts {
        for p in texts {
            assert_eq!(
                find(t, p),
                t.find(p).map(|bytes| t[..bytes].chars().count()),
                "{:?} in {:?}",
                p,
                t
            );
            assert_eq!(contains(t, p), t.contains(p));
            assert_eq!(strip_prefix(t, p), t.strip_prefix(p));
            assert_eq!(same(t, p), t == p);
        }
        for c in [':', '/', 'b', '\u{e9}'] {
            assert_eq!(cut_once(t, c), t.split_once(c));
            assert_eq!(cut_before(t, c), t.split(c).next().unwrap());
            assert_eq!(pieces(t, c), t.split(c).map(|s| s.to_string()).collect::<Vec<String>>());
        }
    }
}

#[test]
fn trimming_agrees_with_the_standard_library() {
    for t in ["", " ", "a", " a ", "\t\r\na b\n", "\u{a0}x\u{2003}", "x", "  \u{200b}  "] {
        assert_eq!(trimmed(t), t.trim());
    }
}

#[test]
fn numbers_agree_with_the_standard_library() {
    let texts = [
        "", "+", "-", "0", "00", "+0", "-0", "1", "65535", "65536", "+65535", "++1", "1_000", " 1",
        "4294967295", "4294967296", "18446744073709551615", "18446744073709551616",
        "000000000000000000000000000000001", "99999999999999999999999999", "\u{661}",
    ];
    for t in texts {
        assert_eq!(parse_u16(t), t.parse().ok(), "{:?}", t);
        assert_eq!(parse_u32(t), t.parse().ok(), "{:?}", t);
        assert_eq!(parse_number(t, u64::MAX), t.parse().ok(), "{:?}", t);
    }
    for n in [0, 1, 9, 10, 99, 100, 65535, 1234567890, u64::MAX] {
        assert_eq!(number(n), n.to_string());
        assert_eq!(parse_number(&number(n), u64::MAX), Some(n));
    }
}

#[test]
fn letters_are_compared_without_their_case() {
    for (a, b) in [("Location", "LOCATION"), ("a[", "A{"), ("@", "`"), ("x", "xx"), ("\u{e9}", "\u{c9}")] {
        assert_eq!(alike(a, b), a.eq_ignore_ascii_case(b), "{:?} {:?}", a, b);
    }
}

#[test]
fn instants_lie_in_the_calendar() {
    assert!(Timestamp::new(MAX_SECS, 999_999_999).is_some());
    assert!(Timestamp::new(MAX_SECS + 1, 0).is_none());
    assert!(Timestamp::new(MIN_SECS, 0).is_some());
    assert!(Timestamp::new(MIN_SECS - 1, 0).is_none());
    assert!(Timestamp::new(0, 1_000_000_000).is_none());
}

#[test]
fn seconds_are_counted_as_by_the_calendar_crate() {
    let instants = [(0, 0), (0, 1), (10, 999_999_999), (10, 0), (-5, 500_000_000), (1_700_000_000, 7)];
    for (s1, n1) in instants {
        for (s2, n2) in instants {
            let a = chrono::DateTime::from_timestamp(s1, n1).unwrap();
            let b = chrono::DateTime::from_timestamp(s2, n2).unwrap();
            let x = Timestamp::new(s1, n1).unwrap();
            let y = Timestamp::new(s2, n2).unwrap();
            assert_eq!(x.seconds_since(&y), (a - b).num_seconds());
        }
    }
    assert!(chrono::DateTime::from_timestamp(MAX_SECS, 0).is_some());
    assert!(chrono::DateTime::from_timestamp(MAX_SECS + 1, 0).is_none());
    assert!(chrono::DateTime::from_timestamp(MIN_SECS, 0).is_some());
    assert!(chrono::DateTime::from_timestamp(MIN_SECS - 1, 0).is_none());
    let t = Timestamp::new(100, 3).unwrap().plus_seconds(3600);
    assert_eq!(t, Timestamp::new(3700, 3).unwrap());
}
