use headr::{
    body_bytes, bytes_output, diag_line, head_bytes, head_lines, header_line, parse_positive_int,
    render_all, resolve_config, resolve_files, resolve_mode, Config, Fetched, ReadType,
};

#[test]
fn test_parse_positive_int() {
    // 3 is an okay int
    let res = parse_positive_int("3");
    assert!(res.is_ok());
    assert_eq!(res.unwrap(), 3);

    // any string is err
    let res = parse_positive_int("foo");
    assert!(res.is_err());
    assert_eq!(res.unwrap_err().to_string(), "foo".to_string());

    // zero is err
    let res = parse_positive_int("0");
    assert!(res.is_err());
    assert_eq!(res.unwrap_err().to_string(), "0".to_string());
}

#[test]
fn parse_rejects_negative_and_empty() {
    let res = parse_positive_int("-5");
    assert!(res.is_err());
    assert_eq!(res.unwrap_err(), "-5".to_string());

    let res = parse_positive_int("");
    assert!(res.is_err());
    assert_eq!(res.unwrap_err(), "".to_string());

    let res = parse_positive_int("+3");
    assert!(res.is_err());
    assert_eq!(res.unwrap_err(), "+3".to_string());
}

#[test]
fn parse_accepts_large_and_rejects_overflow() {
    assert_eq!(parse_positive_int("10").unwrap(), 10);
    assert_eq!(parse_positive_int("18446744073709551615").unwrap(), usize::MAX);
    let res = parse_positive_int("18446744073709551616");
    assert!(res.is_err());
    assert_eq!(res.unwrap_err(), "18446744073709551616".to_string());
}

#[test]
fn default_mode_is_ten_lines() {
    let mode = resolve_mode(None, None).unwrap();
    assert_eq!(mode, ReadType::Lines(10));
}

#[test]
fn bytes_suppresses_lines() {
    let mode = resolve_mode(Some("5"), Some("5")).unwrap();
    assert_eq!(mode, ReadType::Bytes(5));
}

#[test]
fn lines_mode_when_only_lines_given() {
    let mode = resolve_mode(Some("3"), None).unwrap();
    assert_eq!(mode, ReadType::Lines(3));
}

#[test]
fn invalid_counts_are_returned_verbatim() {
    assert_eq!(resolve_mode(Some("foo"), None).unwrap_err(), "foo".to_string());
    assert_eq!(resolve_mode(None, Some("0")).unwrap_err(), "0".to_string());
    // the losing option's value is not even validated
    assert_eq!(resolve_mode(Some("foo"), Some("4")).unwrap(), ReadType::Bytes(4));
}

#[test]
fn no_sources_defaults_to_stdin_sentinel() {
    let files = resolve_files(Vec::new());
    assert_eq!(files, vec!["-".to_string()]);

    let named = resolve_files(vec!["a".to_string(), "b".to_string()]);
    assert_eq!(named, vec!["a".to_string(), "b".to_string()]);
}

#[test]
fn resolve_config_combines_files_and_mode() {
    let c: Config = resolve_config(Vec::new(), None, None).unwrap();
    assert_eq!(c.files, vec!["-".to_string()]);
    assert_eq!(c.read, ReadType::Lines(10));

    let c = resolve_config(vec!["x".to_string()], None, Some("7")).unwrap();
    assert_eq!(c.files, vec!["x".to_string()]);
    assert_eq!(c.read, ReadType::Bytes(7));

    let err = resolve_config(vec!["x".to_string()], Some("nope"), None).unwrap_err();
    assert_eq!(err, "nope".to_string());
}

#[test]
fn read_type_constructors() {
    assert_eq!(ReadType::new_lines(2), ReadType::Lines(2));
    assert_eq!(ReadType::new_bytes(9), ReadType::Bytes(9));
}

#[test]
fn head_lines_takes_exactly_first_k_lines() {
    let data = b"one\ntwo\nthree\n".to_vec();
    assert_eq!(head_lines(&data, 2), b"one\ntwo\n".to_vec());
    assert_eq!(head_lines(&data, 1), b"one\n".to_vec());
    assert_eq!(head_lines(&data, 3), b"one\ntwo\nthree\n".to_vec());
}

#[test]
fn head_lines_short_source_is_kept_whole() {
    let data = b"one\ntwo".to_vec();
    assert_eq!(head_lines(&data, 10), b"one\ntwo".to_vec());
    assert_eq!(head_lines(&data, 2), b"one\ntwo".to_vec());
    let empty: Vec<u8> = Vec::new();
    assert_eq!(head_lines(&empty, 10), Vec::<u8>::new());
}

#[test]
fn head_lines_keeps_terminators_verbatim() {
    let data = b"a\r\nb\r\nc\r\n".to_vec();
    assert_eq!(head_lines(&data, 2), b"a\r\nb\r\n".to_vec());
}

#[test]
fn head_bytes_takes_exactly_first_k_bytes() {
    let data = b"abcdef".to_vec();
    assert_eq!(head_bytes(&data, 4), b"abcd".to_vec());
    assert_eq!(head_bytes(&data, 6), b"abcdef".to_vec());
    assert_eq!(head_bytes(&data, 100), b"abcdef".to_vec());
    assert_eq!(head_bytes(&data, 1), b"a".to_vec());
}

#[test]
fn bytes_output_decodes_lossily() {
    let data = vec![0xff, b'a'];
    assert_eq!(bytes_output(&data, 10), "\u{FFFD}a".to_string());

    let ok = b"abc".to_vec();
    assert_eq!(bytes_output(&ok, 2), "ab".to_string());
}

#[test]
fn bytes_output_cut_multibyte_yields_placeholder() {
    // 'e' with acute accent encodes as two bytes; cutting after one
    // leaves an invalid sequence that decodes to the placeholder.
    let data = "\u{e9}x".as_bytes().to_vec();
    assert_eq!(bytes_output(&data, 1), "\u{FFFD}".to_string());
    assert_eq!(bytes_output(&data, 2), "\u{e9}".to_string());
}

#[test]
fn header_line_frames_the_name() {
    assert_eq!(header_line("file.txt", true), b"==> file.txt <==\n".to_vec());
    assert_eq!(header_line("file.txt", false), b"\n==> file.txt <==\n".to_vec());
}

#[test]
fn diag_line_names_source_and_cause() {
    assert_eq!(
        diag_line("missing.txt", "No such file or directory (os error 2)"),
        "missing.txt: No such file or directory (os error 2)".to_string()
    );
}

#[test]
fn body_bytes_matches_mode() {
    let data = b"one\ntwo\n".to_vec();
    assert_eq!(body_bytes(&data, &ReadType::Lines(1)), b"one\n".to_vec());
    assert_eq!(body_bytes(&data, &ReadType::Bytes(3)), b"one".to_vec());
}

#[test]
fn single_source_prints_no_header() {
    let srcs = vec![("alone.txt".to_string(), Fetched::Content(b"hello\nworld\n".to_vec()))];
    let (out, errs) = render_all(&srcs, &ReadType::Lines(10));
    assert_eq!(out, b"hello\nworld\n".to_vec());
    assert!(errs.is_empty());
}

#[test]
fn multiple_sources_get_headers_with_blank_separators() {
    let srcs = vec![
        ("a.txt".to_string(), Fetched::Content(b"A\n".to_vec())),
        ("b.txt".to_string(), Fetched::Content(b"B\n".to_vec())),
        ("c.txt".to_string(), Fetched::Content(b"C\n".to_vec())),
    ];
    let (out, errs) = render_all(&srcs, &ReadType::Lines(1));
    let expected = b"==> a.txt <==\nA\n\n==> b.txt <==\nB\n\n==> c.txt <==\nC\n".to_vec();
    assert_eq!(out, expected);
    assert!(errs.is_empty());
}

#[test]
fn failed_first_source_still_prints_second() {
    let srcs = vec![
        (
            "missing.txt".to_string(),
            Fetched::OpenFailed("No such file or directory (os error 2)".to_string()),
        ),
        ("there.txt".to_string(), Fetched::Content(b"line one\nline two\n".to_vec())),
    ];
    let (out, errs) = render_all(&srcs, &ReadType::Lines(10));
    assert_eq!(out, b"\n==> there.txt <==\nline one\nline two\n".to_vec());
    assert_eq!(errs, vec![
        "missing.txt: No such file or directory (os error 2)".to_string()
    ]);
}

#[test]
fn render_bytes_mode_truncates_each_source() {
    let srcs = vec![
        ("a".to_string(), Fetched::Content(b"abcdef".to_vec())),
        ("b".to_string(), Fetched::Content(vec![0xff, b'z'])),
    ];
    let (out, errs) = render_all(&srcs, &ReadType::Bytes(2));
    let mut expected = b"==> a <==\nab\n==> b <==\n".to_vec();
    expected.extend_from_slice("\u{FFFD}z".as_bytes());
    assert_eq!(out, expected);
    assert!(errs.is_empty());
}
