use etcdrs::range::{add_one, successor, AsRange, Prefix, TargetRange};

#[test]
fn target_range_from_wire() {
    assert_eq!(TargetRange::from_wire(&[0], &[0]), TargetRange::All);
    assert_eq!(TargetRange::from_wire(b"foo", b""), TargetRange::Single(b"foo"));
    assert_eq!(TargetRange::from_wire(b"foo", &[0]), TargetRange::ToEnd(b"foo"));
    assert_eq!(
        TargetRange::from_wire(b"foo/", b"foo0"),
        TargetRange::Span(b"foo/", b"foo0"),
    );
}

#[test]
fn test_add_one() {
    let cases: &[(&[u8], &[u8])] = &[
        (b"aa", b"ab"),
        (b"a\xff", b"b"),
        (b"\xff", b"\0"),
        (b"\xff\xff\xff", b"\0"),
    ];
    for (input, expected) in cases {
        let output = add_one(input);
        assert_eq!(*expected, output);
    }
}

#[test]
fn successor_appends_a_zero_byte() {
    assert_eq!(successor(b"foo"), b"foo\0".to_vec());
    assert_eq!(successor(b""), vec![0u8]);
}

#[test]
fn range_expressions_encode_to_wire_pairs() {
    assert_eq!((..).as_boundaries(), (vec![0u8], vec![0u8]));
    assert_eq!("foo".as_boundaries(), (b"foo".to_vec(), Vec::new()));
    assert_eq!(("a".."b").as_boundaries(), (b"a".to_vec(), b"b".to_vec()));
    assert_eq!(("a"..="b").as_boundaries(), (b"a".to_vec(), b"c".to_vec()));
    assert_eq!(("a"..).as_boundaries(), (b"a".to_vec(), vec![0u8]));
    assert_eq!((.."m").as_boundaries(), (vec![0u8], b"m".to_vec()));
    assert_eq!((..="m").as_boundaries(), (vec![0u8], b"n".to_vec()));
    assert_eq!(Prefix("foo/").as_boundaries(), (b"foo/".to_vec(), b"foo0".to_vec()));
    assert_eq!(Prefix("\u{ff}".as_bytes()).as_boundaries().1, vec![0xc3u8, 0xc0]);
}

#[test]
fn prefix_of_only_ff_bytes_reaches_the_end() {
    let prefix: &[u8] = b"\xff\xff";
    assert_eq!(Prefix(prefix).as_boundaries(), (vec![0xffu8, 0xff], vec![0u8]));
}
