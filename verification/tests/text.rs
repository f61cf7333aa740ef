use hot_resize::number::{decimal_of, parse_number_in};
use hot_resize::text::{
    aligned_left, aligned_right, chars_of, fold_case, has_substring, includes, joined,
    joined_lines, lines_of, same_text, shaved, split_at, string_of, trimmed, words_of, CharClass,
};

fn text_strings(pieces: Vec<Vec<char>>) -> Vec<String> {
    pieces.iter().map(|p| string_of(p)).collect()
}

#[test]
fn chars_and_strings_round_trip() {
    assert_eq!(chars_of("a\u{e9}z"), vec!['a', '\u{e9}', 'z']);
    assert_eq!(string_of(&vec!['l', 's', 'b', 'l', 'k']), "lsblk");
    assert_eq!(string_of(&chars_of("")), "");
}

#[test]
fn trimming_removes_unicode_whitespace_at_both_ends() {
    assert_eq!(trimmed("  ext4\n"), "ext4");
    assert_eq!(trimmed("\t\u{a0}a b\u{3000}\r\n"), "a b");
    assert_eq!(trimmed(" \n "), "");
    assert_eq!(trimmed(""), "");
    assert_eq!(trimmed("x"), "x");
    for sample in ["  a  ", "\u{2003}b\u{85}", "\u{200b}c ", "no", " \u{1680}\u{2028}\u{2029}\u{202f}\u{205f} "] {
        assert_eq!(trimmed(sample), sample.trim());
    }
}

#[test]
fn stripping_removes_every_quote_at_both_ends() {
    let strip = |s: &str| string_of(&shaved(&chars_of(s), CharClass::Only('"')));
    assert_eq!(strip("\"sda\""), "sda");
    assert_eq!(strip("\"\"\"a\"b\"\""), "a\"b");
    assert_eq!(strip("\"\""), "");
    assert_eq!(strip("plain"), "plain");
}

#[test]
fn splitting_keeps_empty_pieces() {
    let split = |s: &str, c: char| text_strings(split_at(&chars_of(s), CharClass::Only(c)));
    assert_eq!(split("a b  c", ' '), vec!["a", "b", "", "c"]);
    assert_eq!(split("", ' '), vec![""]);
    assert_eq!(split("=", '='), vec!["", ""]);
    assert_eq!(split("K=v=w", '='), vec!["K", "v", "w"]);
    for sample in ["a=b", "==", "x", " lead", "trail "] {
        let want: Vec<String> = sample.split(' ').map(|p| p.to_string()).collect();
        assert_eq!(split(sample, ' '), want);
    }
}

#[test]
fn words_are_what_stands_between_whitespace() {
    let words = |s: &str| text_strings(words_of(&chars_of(s)));
    assert_eq!(words("/dev/vda1 / ext4 rw 0 0"), vec!["/dev/vda1", "/", "ext4", "rw", "0", "0"]);
    assert_eq!(words("  a\t\tb \n"), vec!["a", "b"]);
    assert_eq!(words("   "), Vec::<String>::new());
    for sample in ["a  b", "\tx y\u{a0}z", ""] {
        let want: Vec<String> = sample.split_whitespace().map(|p| p.to_string()).collect();
        assert_eq!(words(sample), want);
    }
}

#[test]
fn lines_end_at_line_feeds() {
    let lines = |s: &str| text_strings(lines_of(&chars_of(s)));
    assert_eq!(lines("a\nb"), vec!["a", "b"]);
    assert_eq!(lines("a\nb\n"), vec!["a", "b"]);
    assert_eq!(lines("a\r\nb\r"), vec!["a", "b\r"]);
    assert_eq!(lines("a\n\nb"), vec!["a", "", "b"]);
    assert_eq!(lines(""), Vec::<String>::new());
    assert_eq!(lines("\n"), vec![""]);
    for sample in ["x\r\n\r\ny", "\r", "one", "a\n\r", "\n\n"] {
        let want: Vec<String> = sample.lines().map(|p| p.to_string()).collect();
        assert_eq!(lines(sample), want);
    }
}

#[test]
fn joining_puts_line_feeds_between_lines() {
    let join = |parts: &[&str]| {
        let lines: Vec<Vec<char>> = parts.iter().map(|p| chars_of(p)).collect();
        string_of(&joined_lines(&lines))
    };
    assert_eq!(join(&[]), "");
    assert_eq!(join(&["a"]), "a");
    assert_eq!(join(&["a", "", "b"]), "a\n\nb");
}

#[test]
fn substring_search_finds_every_position() {
    assert!(includes("growpart: NOCHANGE: partition 1", "NOCHANGE"));
    assert!(includes("abc", ""));
    assert!(includes("", ""));
    assert!(includes("abc", "abc"));
    assert!(includes("aab", "ab"));
    assert!(!includes("abc", "abcd"));
    assert!(!includes("nochange", "NOCHANGE"));
    assert!(has_substring(&chars_of("xxmapperxx"), &chars_of("mapper")));
    assert!(!has_substring(&chars_of("mappe"), &chars_of("mapper")));
}

#[test]
fn case_folding_touches_ascii_capitals_only() {
    assert_eq!(string_of(&fold_case(&chars_of("XFS Filesystem \u{c9}T\u{212a}"))), "xfs filesystem \u{c9}t\u{212a}");
    assert_eq!(string_of(&fold_case(&chars_of("@AZ[`az{"))), "@az[`az{");
}

#[test]
fn decimal_writing_has_no_leading_zeros() {
    assert_eq!(string_of(&decimal_of(0)), "0");
    assert_eq!(string_of(&decimal_of(7)), "7");
    assert_eq!(string_of(&decimal_of(10)), "10");
    assert_eq!(string_of(&decimal_of(4294967295)), "4294967295");
    assert_eq!(string_of(&decimal_of(u64::MAX)), "18446744073709551615");
}

#[test]
fn numbers_are_read_as_the_standard_library_reads_them() {
    let read = |s: &str, max: u64| parse_number_in(&chars_of(s), max);
    assert_eq!(read("1", u32::MAX as u64), Some(1));
    assert_eq!(read("+15", u32::MAX as u64), Some(15));
    assert_eq!(read("007", u32::MAX as u64), Some(7));
    assert_eq!(read("4294967295", u32::MAX as u64), Some(4294967295));
    assert_eq!(read("4294967296", u32::MAX as u64), None);
    assert_eq!(read("18446744073709551615", u64::MAX), Some(u64::MAX));
    assert_eq!(read("18446744073709551616", u64::MAX), None);
    assert_eq!(read("99999999999999999999999", u64::MAX), None);
    assert_eq!(read("", u64::MAX), None);
    assert_eq!(read("+", u64::MAX), None);
    assert_eq!(read("-1", u64::MAX), None);
    assert_eq!(read("1 ", u64::MAX), None);
    assert_eq!(read("1a", u64::MAX), None);
    assert_eq!(read("++1", u64::MAX), None);
    assert_eq!(read("\u{663}", u64::MAX), None);
    for sample in ["0", "+0", "12", "4294967295", "4294967296", "x", "", "+", "1+", "00", "-0"] {
        assert_eq!(read(sample, u32::MAX as u64), sample.parse::<u32>().ok().map(|n| n as u64));
    }
}

#[test]
fn written_numbers_are_read_back() {
    let mut n: u64 = 1;
    for _ in 0..70 {
        for m in [n, n - 1, n / 3, n.wrapping_mul(7)] {
            let written = decimal_of(m);
            assert_eq!(string_of(&written), m.to_string());
            assert_eq!(parse_number_in(&written, u64::MAX), Some(m));
            assert_eq!(parse_number_in(&written, m), Some(m));
            if m > 0 {
                assert_eq!(parse_number_in(&written, m - 1), None);
            }
        }
        n = n.wrapping_mul(2).wrapping_add(n / 5 + 1);
    }
}

#[test]
fn alignment_fills_short_texts_only() {
    let left = |s: &str, w: usize| string_of(&aligned_left(&chars_of(s), w));
    let right = |s: &str, w: usize| string_of(&aligned_right(&chars_of(s), w));
    assert_eq!(left("ab", 5), "ab   ");
    assert_eq!(left("abcdef", 5), "abcdef");
    assert_eq!(left("", 0), "");
    assert_eq!(right("ab", 5), "   ab");
    assert_eq!(right("abcde", 5), "abcde");
    assert_eq!(right("\u{e9}", 3), format!("{:>3}", "\u{e9}"));
    assert_eq!(left("\u{e9}", 3), format!("{:<3}", "\u{e9}"));
}

#[test]
fn texts_are_compared_and_joined_by_their_characters() {
    assert!(same_text("ext4", "ext4"));
    assert!(!same_text("ext4", "ext3"));
    assert!(!same_text("ext4", "ext"));
    assert!(same_text("", ""));
    assert_eq!(joined("/dev/", "vda"), "/dev/vda");
    assert_eq!(joined("", ""), "");
}
