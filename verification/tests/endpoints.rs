use etcdrs::endpoints::{connection_hosts, parse_connection_string};

#[test]
fn hosts_are_split_on_commas_and_trimmed() {
    assert_eq!(
        connection_hosts("http://host1:2379, http://host2:2379 ,http://host3:2379"),
        vec!["http://host1:2379", "http://host2:2379", "http://host3:2379"]
    );
    assert_eq!(connection_hosts("http://only:2379"), vec!["http://only:2379"]);
}

#[test]
fn empty_pieces_are_skipped() {
    assert!(connection_hosts("").is_empty());
    assert!(connection_hosts(" , ,").is_empty());
    assert_eq!(connection_hosts(",a,,b,"), vec!["a", "b"]);
    assert_eq!(connection_hosts("\u{3000}x\u{a0}\t"), vec!["x"]);
}

#[test]
fn connection_string_parses_every_host() {
    let uris = parse_connection_string("http://host1:2379,http://host2:2379").unwrap();
    assert_eq!(uris.len(), 2);
    assert_eq!(uris[0].host(), Some("host1"));
    assert_eq!(uris[1].port_u16(), Some(2379));
    assert!(parse_connection_string("").unwrap().is_empty());
}

#[test]
fn an_invalid_host_fails_the_whole_string() {
    assert!(parse_connection_string("http://good:2379,http://bad host:2379").is_err());
}

#[test]
fn single_hosts_parse_as_uris() {
    let uri = etcdrs::endpoints::parse_host("http://one:2379").unwrap();
    assert_eq!(uri.host(), Some("one"));
    assert!(etcdrs::endpoints::parse_host("http://bad host").is_err());
}

#[test]
fn auth_tokens_must_fit_in_a_header_value() {
    use_valid("abc.DEF-123_\t ~");
    assert!(!etcdrs::endpoints::valid_auth_token("line\nbreak"));
    assert!(!etcdrs::endpoints::valid_auth_token("del\u{7f}"));
    assert!(etcdrs::endpoints::valid_auth_token("caf\u{e9}"));
    assert!(etcdrs::endpoints::valid_auth_token(""));
}

fn use_valid(token: &str) {
    assert!(etcdrs::endpoints::valid_auth_token(token));
}
