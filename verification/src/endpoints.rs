//! Reading a connection string: a comma-separated list of endpoint URIs, as `etcdctl
//! --endpoints` takes it.
use vstd::prelude::*;
use crate::text::{chars_of, push_char};

verus! {

/// Whether `c` is white space in the sense of Unicode's `White_Space` property.
pub open spec fn is_white_space(c: char) -> bool {
    ('\u{9}' <= c <= '\u{d}') || c == ' ' || c == '\u{85}' || c == '\u{a0}' || c == '\u{1680}'
        || ('\u{2000}' <= c <= '\u{200a}') || c == '\u{2028}' || c == '\u{2029}' || c == '\u{202f}'
        || c == '\u{205f}' || c == '\u{3000}'
}

fn white_space(c: char) -> (r: bool)
    ensures
        r == is_white_space(c),
{
    ('\u{9}' <= c && c <= '\u{d}') || c == ' ' || c == '\u{85}' || c == '\u{a0}' || c == '\u{1680}'
        || ('\u{2000}' <= c && c <= '\u{200a}') || c == '\u{2028}' || c == '\u{2029}' || c
        == '\u{202f}' || c == '\u{205f}' || c == '\u{3000}'
}

/// `s` without its leading white space.
pub open spec fn trim_start(s: Seq<char>) -> Seq<char>
    decreases s.len(),
{
    if s.len() > 0 && is_white_space(s[0]) {
        trim_start(s.drop_first())
    } else {
        s
    }
}

/// `s` without its trailing white space.
pub open spec fn trim_end(s: Seq<char>) -> Seq<char>
    decreases s.len(),
{
    if s.len() > 0 && is_white_space(s.last()) {
        trim_end(s.drop_last())
    } else {
        s
    }
}

/// `s` without leading and trailing white space.
pub open spec fn trim(s: Seq<char>) -> Seq<char> {
    trim_end(trim_start(s))
}

/// The pieces of `s` between commas, in order; a string without commas is one piece.
pub open spec fn split_commas(s: Seq<char>) -> Seq<Seq<char>>
    decreases s.len(),
{
    if s.len() == 0 {
        seq![Seq::<char>::empty()]
    } else {
        let rest = split_commas(s.drop_last());
        if s.last() == ',' {
            rest.push(Seq::<char>::empty())
        } else {
            rest.update(rest.len() - 1, rest.last().push(s.last()))
        }
    }
}

/// The hosts of a connection string: its comma-separated pieces, trimmed, empty ones left out.
pub open spec fn connection_hosts_of(s: Seq<char>) -> Seq<Seq<char>> {
    split_commas(s).map_values(|p: Seq<char>| trim(p)).filter(|h: Seq<char>| h.len() > 0)
}

proof fn lemma_split_nonempty(s: Seq<char>)
    ensures
        split_commas(s).len() > 0,
    decreases s.len(),
{
    if s.len() > 0 {
        lemma_split_nonempty(s.drop_last());
    }
}

/// The bounds `[lo, hi)` of `s[start..end]` without leading and trailing white space.
fn trimmed_bounds(chars: &Vec<char>, start: usize, end: usize) -> (r: (usize, usize))
    requires
        start <= end <= chars@.len(),
    ensures
        start <= r.0 <= r.1 <= end,
        chars@.subrange(r.0 as int, r.1 as int) == trim(chars@.subrange(start as int, end as int)),
{
    let mut lo = start;
    while lo < end && white_space(chars[lo])
        invariant
            start <= lo <= end <= chars@.len(),
            trim_start(chars@.subrange(start as int, end as int)) == trim_start(
                chars@.subrange(lo as int, end as int),
            ),
        decreases end - lo,
    {
        proof {
            let s = chars@.subrange(lo as int, end as int);
            assert(s.drop_first() =~= chars@.subrange(lo + 1, end as int));
        }
        lo = lo + 1;
    }
    proof {
        let s = chars@.subrange(lo as int, end as int);
        assert(trim_start(s) == s);
    }
    let mut hi = end;
    while hi > lo && white_space(chars[hi - 1])
        invariant
            start <= lo <= hi <= end <= chars@.len(),
            trim_end(chars@.subrange(lo as int, end as int)) == trim_end(chars@.subrange(lo as int, hi as int)),
        decreases hi - lo,
    {
        proof {
            let s = chars@.subrange(lo as int, hi as int);
            assert(s.drop_last() =~= chars@.subrange(lo as int, hi - 1));
        }
        hi = hi - 1;
    }
    proof {
        let s = chars@.subrange(lo as int, hi as int);
        assert(trim_end(s) == s);
    }
    (lo, hi)
}

/// The text of `chars[lo..hi]`.
fn string_of(chars: &Vec<char>, lo: usize, hi: usize) -> (r: String)
    requires
        lo <= hi <= chars@.len(),
    ensures
        r@ == chars@.subrange(lo as int, hi as int),
{
    let mut out = String::new();
    let mut i = lo;
    while i < hi
        invariant
            lo <= i <= hi <= chars@.len(),
            out@ == chars@.subrange(lo as int, i as int),
        decreases hi - i,
    {
        push_char(&mut out, chars[i]);
        proof {
            assert(out@ =~= chars@.subrange(lo as int, i + 1));
        }
        i = i + 1;
    }
    out
}

/// The hosts of a connection string: its comma-separated pieces with white space trimmed,
/// empty pieces left out.
pub fn connection_hosts(connection_string: &str) -> (r: Vec<String>)
    ensures
        r@.map_values(|h: String| h@) == connection_hosts_of(connection_string@),
{
    let chars = chars_of(connection_string);
    let mut out: Vec<String> = Vec::new();
    let mut start: usize = 0;
    let mut i: usize = 0;
    while i < chars.len()
        invariant
            start <= i <= chars@.len(),
            chars@ == connection_string@,
            ({
                let pieces = split_commas(chars@.take(i as int));
                &&& pieces.len() > 0
                &&& pieces.last() == chars@.subrange(start as int, i as int)
                &&& out@.map_values(|h: String| h@) == pieces.drop_last().map_values(|p: Seq<char>| trim(p)).filter(
                    |h: Seq<char>| h.len() > 0,
                )
            }),
        decreases chars.len() - i,
    {
        let ghost pieces = split_commas(chars@.take(i as int));
        proof {
            assert(chars@.take(i + 1).drop_last() =~= chars@.take(i as int));
            lemma_split_nonempty(chars@.take(i as int));
        }
        if chars[i] == ',' {
            let (lo, hi) = trimmed_bounds(&chars, start, i);
            let ghost before = out@;
            if lo < hi {
                out.push(string_of(&chars, lo, hi));
            }
            proof {
                let next = split_commas(chars@.take(i + 1));
                assert(next == pieces.push(Seq::<char>::empty()));
                assert(next.drop_last() =~= pieces);
                let f = |p: Seq<char>| trim(p);
                let keep = |h: Seq<char>| h.len() > 0;
                assert(pieces =~= pieces.drop_last().push(pieces.last()));
                assert(pieces.map_values(f) =~= pieces.drop_last().map_values(f).push(trim(pieces.last())));
                pieces.drop_last().map_values(f).lemma_filter_push(trim(pieces.last()), keep);
                assert(out@.map_values(|h: String| h@) =~= if lo < hi {
                    before.map_values(|h: String| h@).push(chars@.subrange(lo as int, hi as int))
                } else {
                    before.map_values(|h: String| h@)
                });
                assert(next.last() =~= chars@.subrange((i + 1) as int, (i + 1) as int));
            }
            start = i + 1;
        } else {
            proof {
                let next = split_commas(chars@.take(i + 1));
                assert(next == pieces.update(pieces.len() - 1, pieces.last().push(chars@[i as int])));
                assert(next.drop_last() =~= pieces.drop_last());
                assert(next.last() =~= chars@.subrange(start as int, i + 1));
            }
        }
        i = i + 1;
    }
    let (lo, hi) = trimmed_bounds(&chars, start, chars.len());
    let ghost before = out@;
    if lo < hi {
        out.push(string_of(&chars, lo, hi));
    }
    proof {
        let pieces = split_commas(chars@.take(chars@.len() as int));
        assert(chars@.take(chars@.len() as int) =~= chars@);
        let f = |p: Seq<char>| trim(p);
        let keep = |h: Seq<char>| h.len() > 0;
        assert(pieces =~= pieces.drop_last().push(pieces.last()));
        assert(pieces.map_values(f) =~= pieces.drop_last().map_values(f).push(trim(pieces.last())));
        pieces.drop_last().map_values(f).lemma_filter_push(trim(pieces.last()), keep);
        assert(out@.map_values(|h: String| h@) =~= if lo < hi {
            before.map_values(|h: String| h@).push(chars@.subrange(lo as int, hi as int))
        } else {
            before.map_values(|h: String| h@)
        });
    }
    out
}


#[verifier::external_type_specification]
#[verifier::external_body]
pub struct ExUri(tonic::transport::Uri);

#[verifier::external_type_specification]
#[verifier::external_body]
pub struct ExInvalidUri(tonic::codegen::http::uri::InvalidUri);

/// The URI the `http` crate's parser reads from `text`, or `None` when it rejects the text.
pub uninterp spec fn parsed_uri(text: Seq<char>) -> Option<tonic::transport::Uri>;

/// Parse `host` as a URI (`str::parse::<tonic::transport::Uri>`, which is `http::Uri`'s
/// `FromStr`). The outcome is a function of the text alone, named by [`parsed_uri`].
#[verifier::external_body]
fn parse_uri(host: &str) -> (r: Result<tonic::transport::Uri, tonic::codegen::http::uri::InvalidUri>)
    ensures
        r is Ok <==> parsed_uri(host@) is Some,
        r matches Ok(u) ==> parsed_uri(host@) == Some(u),
{
    host.parse::<tonic::transport::Uri>()
}

/// Parse a single host as a URI.
pub fn parse_host(host: &str) -> (r: Result<tonic::transport::Uri, tonic::codegen::http::uri::InvalidUri>)
    ensures
        r is Ok <==> parsed_uri(host@) is Some,
        r matches Ok(u) ==> parsed_uri(host@) == Some(u),
{
    parse_uri(host)
}

/// A character that an ASCII metadata value (an HTTP header value) may hold: a tab, or any
/// character from the space on except `DEL`. (Every character beyond ASCII is encoded in bytes
/// from `0x80` up, which are allowed.)
pub open spec fn header_value_char(c: char) -> bool {
    c == '\t' || (' ' <= c && c != '\u{7f}')
}

/// Whether tonic accepts `token` as an ASCII metadata value
/// (`str::parse::<tonic::metadata::AsciiMetadataValue>`, which is `http::HeaderValue::from_str`):
/// exactly when each byte of its UTF-8 text is a tab, or lies from `0x20` on and is not `0x7f`.
#[verifier::external_body]
fn metadata_value_parses(token: &str) -> (r: bool)
    ensures
        r <==> forall|i: int| 0 <= i < token@.len() ==> header_value_char(#[trigger] token@[i]),
{
    token.parse::<tonic::metadata::AsciiMetadataValue>().is_ok()
}

/// Whether `token` can be sent as the value of the `token` metadata entry of a request: each of
/// its characters may stand in a header value.
pub fn valid_auth_token(token: &str) -> (r: bool)
    ensures
        r <==> forall|i: int| 0 <= i < token@.len() ==> header_value_char(#[trigger] token@[i]),
{
    metadata_value_parses(token)
}

/// Parse each host of a connection string (see [`connection_hosts`]) as a URI, in order. Fails
/// with the error of the first host that is not a URI.
pub fn parse_connection_string(connection_string: &str) -> (r: Result<
    Vec<tonic::transport::Uri>,
    tonic::codegen::http::uri::InvalidUri,
>)
    ensures
        r is Ok <==> forall|i: int|
            0 <= i < connection_hosts_of(connection_string@).len() ==> (parsed_uri(
                #[trigger] connection_hosts_of(connection_string@)[i],
            ) is Some),
        r matches Ok(uris) ==> {
            &&& uris@.len() == connection_hosts_of(connection_string@).len()
            &&& forall|i: int|
                0 <= i < uris@.len() ==> parsed_uri(#[trigger] connection_hosts_of(connection_string@)[i])
                    == Some(uris@[i])
        },
{
    let hosts = connection_hosts(connection_string);
    let ghost views = hosts@.map_values(|h: String| h@);
    assert(views == connection_hosts_of(connection_string@));
    let mut uris: Vec<tonic::transport::Uri> = Vec::new();
    let mut i: usize = 0;
    while i < hosts.len()
        invariant
            i <= hosts@.len(),
            views == hosts@.map_values(|h: String| h@),
            views == connection_hosts_of(connection_string@),
            uris@.len() == i,
            forall|j: int| 0 <= j < i ==> parsed_uri(#[trigger] views[j]) == Some(uris@[j]),
        decreases hosts.len() - i,
    {
        assert(views[i as int] == hosts@[i as int]@);
        match parse_uri(hosts[i].as_str()) {
            Ok(uri) => uris.push(uri),
            Err(e) => {
                assert(views.len() == hosts@.len());
                assert(parsed_uri(connection_hosts_of(connection_string@)[i as int]) is None);
                return Err(e);
            },
        }
        i = i + 1;
    }
    Ok(uris)
}

} // verus!
