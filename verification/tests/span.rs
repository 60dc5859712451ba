use mypl::span::Span;

#[test]
fn it_new() {
    let span = Span::new(10, 12);
    assert_eq!(10, span.start);
    assert_eq!(12, span.end);
}

#[test]
fn it_length() {
    let cases = [(0, 10, 10), (0, 5, 5), (2, 10, 8)];

    for (idx, &(start, end, expected)) in cases.iter().enumerate() {
        let actual = Span::new(start, end).length();
        assert_eq!(
            expected, actual,
            "case={}, span=({}, {}),  expected length={}, actual length: {}",
            idx, start, end, expected, actual
        );
    }
}

#[test]
fn test_slice_string() {
    let cases = [
        (0, 11, "some string", Some("some string")),
        (0, 100, "some string", None),
        (0, 2, "some string", Some("so")),
        (0, 0, "s", Some("")),
    ];

    for (idx, &(start, end, string, expected)) in cases.iter().enumerate() {
        let actual = Span::new(start, end).slice_string(string);
        assert_eq!(
            expected, actual,
            "case={}, span=({}, {}),  expected slice={:#?}, actual slice: {:#?}",
            idx, start, end, expected, actual
        );
    }
}

#[test]
fn get_size_counts_the_offsets() {
    assert_eq!(3, Span::new(4, 7).get_size());
    assert_eq!(0, Span::new(4, 4).get_size());
}

#[test]
fn slice_string_refuses_a_cut_inside_a_character() {
    // "é" takes two bytes: offset 1 lies inside it.
    assert_eq!(None, Span::new(0, 1).slice_string("é"));
    assert_eq!(None, Span::new(1, 2).slice_string("é"));
    assert_eq!(Some("é"), Span::new(0, 2).slice_string("é"));
}
