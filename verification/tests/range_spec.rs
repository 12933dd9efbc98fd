use std::collections::BTreeMap;

use etcdrs::cache::range_spec::RangeSpec;
use etcdrs::range::{AsRange, Prefix, TargetRange};

fn spec(range: impl AsRange) -> RangeSpec {
    RangeSpec::from_range(range)
}

fn bytes(source: &str) -> Vec<u8> {
    source.as_bytes().to_vec()
}

#[test]
fn from_range_decodes_shapes() {
    assert_eq!(spec(..), RangeSpec::All);
    assert_eq!(spec("foo"), RangeSpec::Single(bytes("foo")));
    assert_eq!(spec("a".."b"), RangeSpec::Span(bytes("a"), bytes("b")));
    assert_eq!(spec("a"..), RangeSpec::From(bytes("a")));
    assert_eq!(spec(Prefix("foo/")), RangeSpec::Span(bytes("foo/"), bytes("foo0")));
}

#[test]
fn contains_key_all() {
    assert!(spec(..).contains_key(b"\0"));
    assert!(spec(..).contains_key(b"anything"));
}

#[test]
fn contains_key_single() {
    let single = spec("foo");
    assert!(single.contains_key(b"foo"));
    assert!(!single.contains_key(b"fo"));
    assert!(!single.contains_key(b"foo\0"));
    assert!(!single.contains_key(b"foob"));
}

#[test]
fn contains_key_span_is_half_open() {
    let span = spec("a".."m");
    assert!(span.contains_key(b"a"));
    assert!(span.contains_key(b"a\0"));
    assert!(span.contains_key(b"lzzz"));
    assert!(!span.contains_key(b"m"));
    assert!(!span.contains_key(b"A"));
}

#[test]
fn contains_key_prefix_edges() {
    let prefix = spec(Prefix("foo/"));
    assert!(prefix.contains_key(b"foo/"));
    assert!(prefix.contains_key(b"foo/a"));
    assert!(prefix.contains_key(b"foo/\xff\xff"));
    assert!(!prefix.contains_key(b"foo0"));
    assert!(!prefix.contains_key(b"foo"));
}

#[test]
fn contains_key_from() {
    let from = spec("m"..);
    assert!(from.contains_key(b"m"));
    assert!(from.contains_key(b"zzz"));
    assert!(!from.contains_key(b"lzzz"));
}

#[test]
fn contains_span_all_contains_everything() {
    let all = spec(..);
    assert!(all.contains_span(&spec(..)));
    assert!(all.contains_span(&spec("foo")));
    assert!(all.contains_span(&spec("a".."b")));
    assert!(all.contains_span(&spec("a"..)));
}

#[test]
fn contains_span_bounded_never_contains_unbounded() {
    assert!(!spec("a".."z").contains_span(&spec(..)));
    assert!(!spec("a".."z").contains_span(&spec("a"..)));
    assert!(!spec("foo").contains_span(&spec(..)));
}

#[test]
fn contains_span_from() {
    let from = spec("a"..);
    assert!(from.contains_span(&spec("b"..)));
    assert!(from.contains_span(&spec("b".."x")));
    assert!(from.contains_span(&spec("a")));
    assert!(!from.contains_span(&spec(..)));
    assert!(!spec("b"..).contains_span(&spec("a"..)));
}

#[test]
fn contains_span_prefix() {
    let prefix = spec(Prefix("foo/"));
    assert!(prefix.contains_span(&spec(Prefix("foo/"))));
    assert!(prefix.contains_span(&spec(Prefix("foo/bar/"))));
    assert!(prefix.contains_span(&spec("foo/a")));
    assert!(prefix.contains_span(&spec("foo/a".."foo/m")));
    assert!(!prefix.contains_span(&spec("foo/a".."foo1")));
    assert!(!prefix.contains_span(&spec("fon".."foo/m")));
    assert!(!prefix.contains_span(&spec("foo")));
    assert!(!prefix.contains_span(&spec("foo0")));
}

#[test]
fn contains_span_single() {
    let single = spec("foo");
    assert!(single.contains_span(&spec("foo")));
    assert!(!single.contains_span(&spec("foo\0")));
    assert!(!single.contains_span(&spec("fo".."fop")));
}

#[test]
fn contains_span_upper_boundary_exact() {
    let span = spec("a".."m");
    assert!(span.contains_span(&spec("a".."m")));
    assert!(!span.contains_span(&spec("a".."n")));
    // successor("m") = "m\0" lies just past the exclusive upper bound.
    assert!(!span.contains_span(&spec("m")));
    assert!(span.contains_span(&spec("lzz")));
}

#[test]
fn as_bounds_scans_ordered_map() {
    let mut map = BTreeMap::new();
    for key in ["a", "foo/", "foo/a", "foo/b", "foo0", "m", "z"] {
        map.insert(bytes(key), ());
    }
    let scan = |spec: &RangeSpec| -> Vec<&str> {
        map.range::<[u8], _>(spec.as_bounds())
            .map(|(k, ())| std::str::from_utf8(k).unwrap())
            .collect()
    };

    assert_eq!(scan(&spec(..)), vec!["a", "foo/", "foo/a", "foo/b", "foo0", "m", "z"]);
    assert_eq!(scan(&spec("foo/a")), vec!["foo/a"]);
    assert_eq!(scan(&spec(Prefix("foo/"))), vec!["foo/", "foo/a", "foo/b"]);
    assert_eq!(scan(&spec("foo/a".."m")), vec!["foo/a", "foo/b", "foo0"]);
    assert_eq!(scan(&spec("m"..)), vec!["m", "z"]);
    // Degenerate spans normalize to an empty scan instead of panicking.
    assert_eq!(scan(&spec("m".."a")), Vec::<&str>::new());
}

#[test]
fn seed_list_round_trips_target_range() {
    assert_eq!(spec(..).seed_list().target_range(), TargetRange::All);
    assert_eq!(spec("foo").seed_list().target_range(), TargetRange::Single(b"foo"));
    assert_eq!(
        spec(Prefix("foo/")).seed_list().target_range(),
        TargetRange::Span(b"foo/", b"foo0"),
    );
    assert_eq!(spec("a"..).seed_list().target_range(), TargetRange::ToEnd(b"a"));
}

#[test]
fn watch_of_a_spec_starts_after_the_snapshot() {
    let revision = etcdrs::Revision::new(7).unwrap();
    let watch = spec(Prefix("foo/")).watch(revision);
    let request = watch.request();
    assert_eq!(request.key, bytes("foo/"));
    assert_eq!(request.range_end, bytes("foo0"));
    assert_eq!(request.start_revision, 7);
    assert!(request.progress_notify);
    assert!(request.fragment);
}

#[test]
fn same_as_compares_exact_boundaries() {
    assert!(spec(Prefix("a/")).same_as(&spec(Prefix("a/"))));
    assert!(!spec(Prefix("a/")).same_as(&spec("a/".."a0\0")));
    assert!(spec(..).same_as(&RangeSpec::All));
}

#[test]
fn containment_is_sound_for_keys() {
    // `outer` contains the span of `inner`, so every key of `inner` is a key of `outer`.
    let outer = spec(Prefix("foo/"));
    let inner = spec("foo/a".."foo/m");
    assert!(outer.contains_span(&inner));
    for key in [&b"foo/a"[..], b"foo/b", b"foo/lzz"] {
        assert!(inner.contains_key(key));
        assert!(outer.contains_key(key));
    }
}

#[test]
fn from_spec_reads_and_watches_from_its_lower_key() {
    let from = spec("m"..);
    let list = from.seed_list();
    assert_eq!(list.request().key, bytes("m"));
    assert_eq!(list.request().range_end, vec![0]);
    assert_eq!(RangeSpec::from_target(list.target_range()), from);
    let watch = from.watch(etcdrs::Revision::new(3).unwrap());
    assert_eq!(watch.request().key, bytes("m"));
    assert_eq!(watch.request().range_end, vec![0]);
}

#[test]
fn degenerate_span_scans_nothing_without_panicking() {
    let mut map = BTreeMap::new();
    map.insert(bytes("a"), 1);
    map.insert(bytes("c"), 2);
    let backwards = RangeSpec::from_wire(bytes("c"), bytes("a"));
    assert_eq!(map.range::<[u8], _>(backwards.as_bounds()).count(), 0);
    let empty = RangeSpec::from_wire(bytes("c"), bytes("c"));
    assert_eq!(map.range::<[u8], _>(empty.as_bounds()).count(), 0);
}
