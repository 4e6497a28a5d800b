use awsx2::decimal::{decimal, parse_bounded, parse_u16, parse_u32, push_decimal};
use awsx2::error::AppError;
use awsx2::text::{
    chars_of, contains, find_blank, find_char, find_text, matches_at, skip_leading, skip_spaces,
    skip_spaces_back, slice_of, str_eq, string_from, trim,
};

fn chars(s: &str) -> Vec<char> {
    s.chars().collect()
}

#[test]
fn characters_are_read_in_order() {
    assert_eq!(chars_of("a\u{e9}\u{1F600}z"), vec!['a', '\u{e9}', '\u{1F600}', 'z']);
    assert!(chars_of("").is_empty());
    assert_eq!(string_from(&chars("hello"), 1, 4), "ell");
    assert_eq!(string_from(&chars("hello"), 2, 2), "");
    assert_eq!(slice_of(&chars("hello"), 0, 5), chars("hello"));
    assert!(str_eq("a", "a"));
    assert!(!str_eq("a", "A"));
    assert!(str_eq("", ""));
}

#[test]
fn substrings_are_found() {
    let hay = chars("xxbastionxx");
    assert!(contains(&hay, &chars("bastion")));
    assert!(contains(&hay, &chars("")));
    assert!(contains(&hay, &hay));
    assert!(!contains(&hay, &chars("bastions")));
    assert!(!contains(&chars(""), &chars("a")));
    assert!(contains(&chars(""), &chars("")));
    assert!(matches_at(&hay, 2, &chars("bas")));
    assert!(!matches_at(&hay, 3, &chars("bas")));
    assert!(!matches_at(&hay, 10, &chars("xx")));
    assert!(!matches_at(&hay, 99, &chars("")));
    assert!(matches_at(&hay, 11, &chars("")));
    assert_eq!(find_text(&hay, &chars("xx")), 0);
    assert_eq!(find_text(&hay, &chars("nx")), 8);
    assert_eq!(find_text(&hay, &chars("q")), 11);
    assert_eq!(find_char(&hay, 0, 'b'), 2);
    assert_eq!(find_char(&hay, 3, 'b'), 11);
    assert_eq!(find_char(&hay, 11, 'x'), 11);
    assert_eq!(skip_leading(&chars("ababc"), 0, &chars("ab")), 4);
    assert_eq!(skip_leading(&chars("ababc"), 1, &chars("ab")), 1);
    assert_eq!(skip_leading(&chars("abc"), 0, &chars("")), 0);
}

#[test]
fn white_space_is_what_std_says_it_is() {
    assert_eq!(trim("  a b \t\n"), "a b");
    assert_eq!(trim("\u{a0}\u{2003}x\u{3000}"), "x");
    assert_eq!(trim("\u{200b}x"), "\u{200b}x");
    assert_eq!(trim(" \r\n "), "");
    assert_eq!(trim(""), "");
    for s in ["", " ", "a", " a", "a ", "\t\u{85}a\u{1680} b\u{2028}", "_ _"] {
        assert_eq!(trim(s), s.trim());
    }
    let v = chars("  12 34");
    assert_eq!(skip_spaces(&v, 0, v.len()), 2);
    assert_eq!(skip_spaces(&v, 4, v.len()), 5);
    assert_eq!(skip_spaces(&v, 0, 1), 1);
    assert_eq!(find_blank(&v, 2), 4);
    assert_eq!(find_blank(&v, 5), 7);
    assert_eq!(skip_spaces_back(&chars("a  "), 0, 3), 1);
    assert_eq!(skip_spaces_back(&chars("   "), 1, 3), 1);
}

#[test]
fn decimal_numbers_are_read_as_std_reads_them() {
    let cases = [
        "0", "7", "007", "+5", "+", "", "-1", "-0", " 1", "1 ", "65535", "65536", "+65535",
        "4294967295", "4294967296", "99999999999999999999", "1a", "a1", "++1", "1+", "\u{661}",
        "1_000", "0x10",
    ];
    for text in cases {
        assert_eq!(parse_u16(&chars(text)), text.parse::<u16>().ok(), "u16 of {:?}", text);
        assert_eq!(parse_u32(&chars(text)), text.parse::<u32>().ok(), "u32 of {:?}", text);
    }
    let v = chars("ab123cd");
    assert_eq!(parse_bounded(&v, 2, 5, 1000), Some(123));
    assert_eq!(parse_bounded(&v, 2, 5, 122), None);
    assert_eq!(parse_bounded(&v, 2, 5, 123), Some(123));
    assert_eq!(parse_bounded(&v, 2, 2, 1000), None);
    assert_eq!(parse_bounded(&v, 1, 5, 1000), None);
}

#[test]
fn decimal_numbers_are_written_shortest() {
    for n in [0u64, 1, 9, 10, 11, 99, 100, 65535, 4294967296, u64::MAX] {
        assert_eq!(decimal(n), n.to_string());
    }
    let mut s = String::from("port ");
    push_decimal(&mut s, 8080);
    assert_eq!(s, "port 8080");
}

#[test]
fn written_numbers_read_back() {
    for n in [0u16, 1, 80, 443, 8080, 65535] {
        assert_eq!(parse_u16(&chars(&decimal(n as u64))), Some(n));
    }
}

#[test]
fn failures_have_their_messages() {
    assert_eq!(
        AppError::UpstreamQueryFailure("denied".into()).message(),
        "AWS CLI error: denied"
    );
    assert_eq!(AppError::Json("eof".into()).message(), "JSON parse error: eof");
    assert_eq!(AppError::Io("no such file".into()).message(), "IO error: no such file");
    assert_eq!(AppError::NoInstance("web".into()).message(), "No instance found matching: web");
    assert_eq!(
        AppError::MultipleInstances { pattern: "web".into(), matches: 12 }.message(),
        "Multiple instances found matching: web (12 matches)"
    );
    assert_eq!(
        AppError::NoPathFound { host: "h.example.test".into() }.message(),
        "No SSM-online bastions found for h.example.test"
    );
    assert_eq!(
        AppError::NoHopAvailable { host: "lb.example.test".into() }.message(),
        "No connected relay may reach lb.example.test"
    );
    assert_eq!(AppError::PortAlreadyInUse(8080).message(), "Port 8080 already in use");
    assert_eq!(AppError::PortNeverOpened(0).message(), "Port 0 is not open after timeout");
    assert_eq!(
        AppError::RemoteUnreachable(65535).message(),
        "Tunnel error: Remote service unreachable - no response on port 65535 within 5 s"
    );
    assert_eq!(
        AppError::AggregateFallbackFailure { attempts: 3, host: "h".into(), port: 443 }.message(),
        "Tunnel error: All 3 bastion(s) failed to tunnel to h:443"
    );
}
