use sysutil::endswith;
use sysutil::strlen;

#[test]
fn suffix_of_file_name_matches() {
    assert!(endswith(b"report.final.pdf", b"pdf"));
    assert!(endswith(b"report.final.pdf", b".pdf"));
    assert!(endswith(b"report.final.pdf", b"final.pdf"));
}

#[test]
fn suffix_in_other_case_does_not_match() {
    assert!(!endswith(b"report.final.pdf", b".PDF"));
    assert!(!endswith(b"Hello", b"hello"));
    assert!(!endswith(b"hello", b"Hello"));
    assert!(endswith(b"Hello", b"Hello"));
}

#[test]
fn longer_suffix_does_not_match() {
    assert!(!endswith(b"a", b"ab"));
    assert!(!endswith(b"a", b"aa"));
    assert!(!endswith(b"", b"a"));
    assert!(!endswith(b"pdf", b".pdf"));
}

#[test]
fn every_string_ends_with_itself() {
    let samples: [&[u8]; 6] = [b"", b"a", b"report.final.pdf", b"Hello", b"\xff\xfe\x80", b"a b\tc\n"];
    for s in samples {
        assert!(endswith(s, s));
    }
}

#[test]
fn every_string_ends_with_the_empty_string() {
    let samples: [&[u8]; 5] = [b"", b"a", b"report.final.pdf", b"\xff", b"abc\0def"];
    for s in samples {
        assert!(endswith(s, b""));
        assert!(endswith(s, b"\0"));
        assert!(endswith(s, b"\0pdf"));
    }
}

#[test]
fn suffix_of_equal_length_means_equality() {
    assert!(endswith(b"abc", b"abc"));
    assert!(!endswith(b"abc", b"abd"));
    assert!(!endswith(b"abc", b"xbc"));
    assert!(!endswith(b"abc", b"aBc"));
}

#[test]
fn only_the_tail_is_compared() {
    assert!(!endswith(b"pdf.report", b"pdf"));
    assert!(!endswith(b"report.pdf.txt", b"pdf"));
    assert!(endswith(b"pdfpdf", b"pdf"));
    assert!(!endswith(b"abcabd", b"abc"));
}

#[test]
fn terminated_buffers_match_like_bare_ones() {
    assert!(endswith(b"report.final.pdf\0", b"pdf\0"));
    assert!(endswith(b"report.final.pdf\0", b"pdf"));
    assert!(endswith(b"report.final.pdf", b"pdf\0"));
    assert!(!endswith(b"report.final.pdf\0", b".PDF\0"));
    assert!(!endswith(b"a\0", b"ab\0"));
}

#[test]
fn bytes_behind_the_terminator_take_no_part() {
    assert!(endswith(b"abc\0xyz", b"bc\0zzz"));
    assert!(!endswith(b"abc\0xyz", b"xyz"));
    assert!(!endswith(b"abc\0xyz", b"xyz\0\0x"));
    assert!(endswith(b"abc\0pdf", b"abc\0txt"));
    assert!(!endswith(b"\0abc", b"abc"));
    assert!(endswith(b"\0abc", b"\0xyz"));
}

#[test]
fn comparison_is_binary() {
    assert!(endswith(b"\x01\x80\xff", b"\x80\xff"));
    assert!(!endswith(b"\x01\x80\xff", b"\x80\xfe"));
    assert!(!endswith(b"\x01\x80\xff", b"\x7f\xff"));
    assert!(endswith("na\u{ef}ve".as_bytes(), "\u{ef}ve".as_bytes()));
    assert!(!endswith("na\u{ef}ve".as_bytes(), b"ive"));
}

#[test]
fn strlen_counts_up_to_the_first_terminator() {
    assert_eq!(strlen(b""), 0);
    assert_eq!(strlen(b"\0"), 0);
    assert_eq!(strlen(b"abc"), 3);
    assert_eq!(strlen(b"abc\0"), 3);
    assert_eq!(strlen(b"abc\0de\0"), 3);
    assert_eq!(strlen(b"\0abc"), 0);
    assert_eq!(strlen(b"report.final.pdf\0"), 16);
    assert_eq!(strlen(b"\xff\xff"), 2);
}

#[test]
fn long_strings_match_on_the_tail() {
    let mut subject = vec![b'x'; 10_000];
    subject.extend_from_slice(b"tail");
    subject.push(0);
    assert_eq!(strlen(&subject), 10_004);
    assert!(endswith(&subject, b"xtail"));
    assert!(endswith(&subject, &subject));
    assert!(!endswith(&subject, b"ytail"));
    assert!(!endswith(b"xtail", &subject));
}
