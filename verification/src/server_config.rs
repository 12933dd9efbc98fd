//! Configuration of local etcd servers and clusters for tests: generated names, the command line
//! a server is started with, and the initial-cluster string that ties peers together.
use vstd::prelude::*;
use crate::text::{decimal, push_char, push_decimal, push_str};

verus! {

/// A uniformly random number below `n` (`rand::random_range(0..n)`); `n` must not be zero.
#[verifier::external_body]
fn random_below(n: usize) -> (r: usize)
    requires
        n > 0,
    ensures
        r < n,
{
    rand::random_range(0..n)
}

/// Append `length` random lowercase ASCII letters to `s`.
fn push_random_letters(s: &mut String, length: usize)
    ensures
        final(s)@.len() == old(s)@.len() + length,
        final(s)@.subrange(0, old(s)@.len() as int) == old(s)@,
        forall|i: int| old(s)@.len() <= i < final(s)@.len() ==> 'a' <= #[trigger] final(s)@[i] <= 'z',
{
    let ghost start = s@;
    let mut i: usize = 0;
    while i < length
        invariant
            i <= length,
            s@.len() == start.len() + i,
            s@.subrange(0, start.len() as int) == start,
            forall|k: int| start.len() <= k < s@.len() ==> 'a' <= #[trigger] s@[k] <= 'z',
        decreases length - i,
    {
        let offset = random_below(26) as u8;
        let letter = (97u8 + offset) as char;
        let ghost before = s@;
        push_char(s, letter);
        proof {
            assert(s@.subrange(0, start.len() as int) =~= before.subrange(0, start.len() as int));
        }
        i = i + 1;
    }
}


/// `s` is `prefix` followed by four lowercase ASCII letters.
pub open spec fn generated_from(prefix: Seq<char>, s: Seq<char>) -> bool {
    &&& s.len() == prefix.len() + 4
    &&& s.subrange(0, prefix.len() as int) == prefix
    &&& forall|i: int| prefix.len() <= i < s.len() ==> 'a' <= #[trigger] s[i] <= 'z'
}

/// `prefix` followed by four random lowercase ASCII letters.
fn generate_with_prefix(prefix: &str) -> (r: String)
    ensures
        generated_from(prefix@, r@),
{
    let mut out = prefix.to_owned();
    push_random_letters(&mut out, 4);
    out
}

/// The name of a server, as etcd knows it.
#[derive(Debug)]
pub struct ServerName {
    name: String,
}

impl View for ServerName {
    type V = Seq<char>;

    closed spec fn view(&self) -> Seq<char> {
        self.name@
    }
}

impl ServerName {
    /// A fresh name: `etcd-srvr-` followed by four random lowercase letters.
    pub fn generate() -> (r: Self)
        ensures
            generated_from("etcd-srvr-"@, r@),
    {
        ServerName { name: generate_with_prefix("etcd-srvr-") }
    }

    /// The name as text.
    pub fn as_str(&self) -> (r: &str)
        ensures
            r@ == self@,
    {
        self.name.as_str()
    }
}

/// The URL of a port on the loopback interface.
pub open spec fn local_url(port: u16) -> Seq<char> {
    "http://127.0.0.1:"@ + decimal(port as nat)
}

fn local_url_exec(port: u16) -> (r: String)
    ensures
        r@ == local_url(port),
{
    let mut out = "http://127.0.0.1:".to_owned();
    push_decimal(&mut out, port as u64);
    out
}


#[verifier::external_type_specification]
#[verifier::external_body]
pub struct ExPathBuf(std::path::PathBuf);

/// The configuration of one etcd server on the loopback interface.
#[derive(Debug)]
pub struct EtcdServerConfig {
    name: ServerName,
    working_dir: std::path::PathBuf,
    client_port: u16,
    peer_port: u16,
    cluster_token: Option<String>,
    initial_cluster: Option<String>,
}

/// One argument of the command line a server is started with: text, or the data directory.
pub enum LaunchArg<'a> {
    Text(String),
    Path(&'a std::path::PathBuf),
}

/// The text of each argument; `None` stands for the data directory.
pub open spec fn arg_texts(args: Seq<LaunchArg>) -> Seq<Option<Seq<char>>> {
    args.map_values(
        |a: LaunchArg|
            match a {
                LaunchArg::Text(t) => Some(t@),
                LaunchArg::Path(_) => None,
            },
    )
}

/// The command line of a server named `name`: its name and data directory, client URLs on
/// `client_port`, peer URL on `peer_port`; then the cluster token, if any; then the initial
/// cluster, if any, with the peer URL it advertises.
pub open spec fn launch_texts(
    name: Seq<char>,
    client_port: u16,
    peer_port: u16,
    token: Option<Seq<char>>,
    initial: Option<Seq<char>>,
) -> Seq<Option<Seq<char>>> {
    let base = seq![
        Some("--name"@),
        Some(name),
        Some("--data-dir"@),
        None,
        Some("--listen-client-urls"@),
        Some(local_url(client_port)),
        Some("--advertise-client-urls"@),
        Some(local_url(client_port)),
        Some("--listen-peer-urls"@),
        Some(local_url(peer_port)),
    ];
    let with_token = match token {
        Some(t) => base + seq![Some("--initial-cluster-token"@), Some(t)],
        None => base,
    };
    match initial {
        Some(c) => with_token + seq![
            Some("--initial-cluster"@),
            Some(c),
            Some("--initial-advertise-peer-urls"@),
            Some(local_url(peer_port)),
        ],
        None => with_token,
    }
}

fn text_arg<'a>(t: &str) -> (r: LaunchArg<'a>)
    ensures
        r matches LaunchArg::Text(s) && s@ == t@,
{
    LaunchArg::Text(t.to_owned())
}

/// Every data-directory argument of `args` is `dir`.
pub open spec fn paths_are(args: Seq<LaunchArg>, dir: std::path::PathBuf) -> bool {
    forall|i: int| 0 <= i < args.len() ==> (#[trigger] args[i] matches LaunchArg::Path(p) ==> *p == dir)
}

fn push_text<'a>(args: &mut Vec<LaunchArg<'a>>, t: String)
    ensures
        arg_texts(final(args)@) == arg_texts(old(args)@).push(Some(t@)),
        forall|dir: std::path::PathBuf| paths_are(old(args)@, dir) ==> paths_are(final(args)@, dir),
{
    args.push(LaunchArg::Text(t));
    proof {
        assert(arg_texts(args@) =~= arg_texts(old(args)@).push(Some(t@)));
    }
}

impl EtcdServerConfig {
    /// The server's name.
    pub closed spec fn spec_name(&self) -> Seq<char> {
        self.name@
    }

    /// The server's data directory.
    pub closed spec fn spec_working_dir(&self) -> std::path::PathBuf {
        self.working_dir
    }

    /// The port clients connect to.
    pub closed spec fn spec_client_port(&self) -> u16 {
        self.client_port
    }

    /// The port peers connect to.
    pub closed spec fn spec_peer_port(&self) -> u16 {
        self.peer_port
    }

    /// The token of the cluster the server belongs to, if any.
    pub closed spec fn spec_cluster_token(&self) -> Option<Seq<char>> {
        match self.cluster_token {
            Some(t) => Some(t@),
            None => None,
        }
    }

    /// The initial cluster the server joins, if any.
    pub closed spec fn spec_initial_cluster(&self) -> Option<Seq<char>> {
        match self.initial_cluster {
            Some(c) => Some(c@),
            None => None,
        }
    }

    /// A single server named `name`, keeping its data in `working_dir`, serving clients on
    /// `client_port` and peers on `peer_port`.
    pub fn from_parts(name: ServerName, working_dir: std::path::PathBuf, client_port: u16, peer_port: u16) -> (r:
        Self)
        ensures
            r.spec_name() == name@,
            r.spec_working_dir() == working_dir,
            r.spec_client_port() == client_port,
            r.spec_peer_port() == peer_port,
            r.spec_cluster_token() is None,
            r.spec_initial_cluster() is None,
    {
        EtcdServerConfig {
            name,
            working_dir,
            client_port,
            peer_port,
            cluster_token: None,
            initial_cluster: None,
        }
    }

    /// The server's name.
    pub fn name(&self) -> (r: &ServerName)
        ensures
            r@ == self.spec_name(),
    {
        &self.name
    }

    /// The server's data directory.
    pub fn working_dir(&self) -> (r: &std::path::PathBuf)
        ensures
            *r == self.spec_working_dir(),
    {
        &self.working_dir
    }

    /// The port clients connect to.
    pub fn client_port(&self) -> (r: u16)
        ensures
            r == self.spec_client_port(),
    {
        self.client_port
    }

    /// The port peers connect to.
    pub fn peer_port(&self) -> (r: u16)
        ensures
            r == self.spec_peer_port(),
    {
        self.peer_port
    }

    /// The token of the cluster the server belongs to, if any.
    pub fn cluster_token(&self) -> (r: Option<&str>)
        ensures
            match r {
                Some(t) => self.spec_cluster_token() == Some(t@),
                None => self.spec_cluster_token() is None,
            },
    {
        match &self.cluster_token {
            Some(t) => Some(t.as_str()),
            None => None,
        }
    }

    /// The initial cluster the server joins, if any.
    pub fn initial_cluster(&self) -> (r: Option<&str>)
        ensures
            match r {
                Some(c) => self.spec_initial_cluster() == Some(c@),
                None => self.spec_initial_cluster() is None,
            },
    {
        match &self.initial_cluster {
            Some(c) => Some(c.as_str()),
            None => None,
        }
    }

    /// The URL clients connect to.
    pub fn connect_string(&self) -> (r: String)
        ensures
            r@ == local_url(self.spec_client_port()),
    {
        local_url_exec(self.client_port)
    }

    /// The command-line arguments the server is started with.
    pub fn launch_args(&self) -> (r: Vec<LaunchArg<'_>>)
        ensures
            arg_texts(r@) == launch_texts(
                self.spec_name(),
                self.spec_client_port(),
                self.spec_peer_port(),
                self.spec_cluster_token(),
                self.spec_initial_cluster(),
            ),
            paths_are(r@, self.spec_working_dir()),
    {
        let client_url = local_url_exec(self.client_port);
        let peer_url = local_url_exec(self.peer_port);
        let mut args: Vec<LaunchArg<'_>> = Vec::new();
        assert(paths_are(args@, self.working_dir));
        push_text(&mut args, "--name".to_owned());
        push_text(&mut args, self.name.name.clone());
        push_text(&mut args, "--data-dir".to_owned());
        let ghost before_dir = args@;
        args.push(LaunchArg::Path(&self.working_dir));
        proof {
            assert(arg_texts(args@) =~= arg_texts(before_dir).push(None));
            assert forall|i: int| 0 <= i < args@.len() implies (#[trigger] args@[i] matches LaunchArg::Path(p) ==> *p
                == self.working_dir) by {
                if i < before_dir.len() {
                    assert(args@[i] == before_dir[i]);
                }
            }
        }
        push_text(&mut args, "--listen-client-urls".to_owned());
        push_text(&mut args, client_url.clone());
        push_text(&mut args, "--advertise-client-urls".to_owned());
        push_text(&mut args, client_url);
        push_text(&mut args, "--listen-peer-urls".to_owned());
        push_text(&mut args, peer_url.clone());
        let ghost base = arg_texts(args@);
        match &self.cluster_token {
            Some(token) => {
                push_text(&mut args, "--initial-cluster-token".to_owned());
                push_text(&mut args, token.clone());
            },
            None => {},
        }
        let ghost with_token = arg_texts(args@);
        match &self.initial_cluster {
            Some(initial) => {
                push_text(&mut args, "--initial-cluster".to_owned());
                push_text(&mut args, initial.clone());
                push_text(&mut args, "--initial-advertise-peer-urls".to_owned());
                push_text(&mut args, peer_url);
            },
            None => {},
        }
        proof {
            let expected = launch_texts(
                self.spec_name(),
                self.spec_client_port(),
                self.spec_peer_port(),
                self.spec_cluster_token(),
                self.spec_initial_cluster(),
            );
            assert(arg_texts(args@) =~= expected);
        }
        args
    }
}


/// The initial-cluster entry of a server: `name=` and its peer URL.
pub open spec fn member_entry(c: EtcdServerConfig) -> Seq<char> {
    c.spec_name() + "="@ + local_url(c.spec_peer_port())
}

/// A server that joins a cluster advertises to its peers the URL it listens on for them, on its
/// peer port, and that is the URL its own entry in the initial-cluster string names; clients are
/// served on the client port.
pub proof fn lemma_member_advertises_its_peer_url(c: EtcdServerConfig)
    requires
        c.spec_initial_cluster() is Some,
    ensures
        ({
            let t = launch_texts(
                c.spec_name(),
                c.spec_client_port(),
                c.spec_peer_port(),
                c.spec_cluster_token(),
                c.spec_initial_cluster(),
            );
            &&& t[t.len() - 2] == Some("--initial-advertise-peer-urls"@)
            &&& t.last() == Some(local_url(c.spec_peer_port()))
            &&& t[8] == Some("--listen-peer-urls"@)
            &&& t[9] == t.last()
            &&& t[4] == Some("--listen-client-urls"@)
            &&& t[5] == Some(local_url(c.spec_client_port()))
            &&& member_entry(c) == c.spec_name() + "="@ + t.last().unwrap()
        }),
{
}

/// The initial-cluster string of `servers`: their entries, in order, separated by commas.
pub open spec fn initial_cluster_text(servers: Seq<EtcdServerConfig>) -> Seq<char>
    decreases servers.len(),
{
    if servers.len() == 0 {
        Seq::empty()
    } else if servers.len() == 1 {
        member_entry(servers[0])
    } else {
        initial_cluster_text(servers.drop_last()) + ","@ + member_entry(servers.last())
    }
}

fn initial_cluster_of(servers: &Vec<EtcdServerConfig>) -> (r: String)
    ensures
        r@ == initial_cluster_text(servers@),
{
    let mut out = String::new();
    let mut i: usize = 0;
    while i < servers.len()
        invariant
            i <= servers@.len(),
            out@ == initial_cluster_text(servers@.take(i as int)),
        decreases servers.len() - i,
    {
        let ghost before = out@;
        if i > 0 {
            push_str(&mut out, ",");
        }
        push_str(&mut out, servers[i].name.as_str());
        push_str(&mut out, "=");
        let url = local_url_exec(servers[i].peer_port);
        push_str(&mut out, url.as_str());
        proof {
            let next = servers@.take(i + 1);
            assert(next.drop_last() =~= servers@.take(i as int));
            assert(next.last() == servers@[i as int]);
            if i == 0 {
                assert(before == Seq::<char>::empty());
                assert(out@ =~= member_entry(servers@[0]));
            } else {
                assert(out@ =~= before + ","@ + member_entry(servers@[i as int]));
            }
        }
        i = i + 1;
    }
    proof {
        assert(servers@.take(servers@.len() as int) =~= servers@);
    }
    out
}

/// No two servers of `servers` share a name.
pub open spec fn distinct_names(servers: Seq<EtcdServerConfig>) -> bool {
    forall|i: int, j: int|
        0 <= i < j < servers.len() ==> (#[trigger] servers[i]).spec_name() != (#[trigger] servers[j]).spec_name()
}

/// The server at `k` is the last of the first `n` servers with its name.
pub open spec fn last_of_name(servers: Seq<EtcdServerConfig>, k: int, n: int) -> bool {
    forall|k2: int| k < k2 < n ==> (#[trigger] servers[k2]).spec_name() != servers[k].spec_name()
}

/// `r` is `c` joined to the cluster with `token` and the initial cluster `initial`.
pub open spec fn joined(c: EtcdServerConfig, token: Seq<char>, initial: Seq<char>, r: EtcdServerConfig) -> bool {
    &&& r.spec_name() == c.spec_name()
    &&& r.spec_working_dir() == c.spec_working_dir()
    &&& r.spec_client_port() == c.spec_client_port()
    &&& r.spec_peer_port() == c.spec_peer_port()
    &&& r.spec_cluster_token() == Some(token)
    &&& r.spec_initial_cluster() == Some(initial)
}

/// The servers of `out` are the first `n` of `servers` joined to the cluster, one per name, the
/// last of each name winning.
pub open spec fn keeps_last_of_each_name(
    out: Seq<EtcdServerConfig>,
    servers: Seq<EtcdServerConfig>,
    n: int,
    token: Seq<char>,
    initial: Seq<char>,
) -> bool {
    &&& distinct_names(out)
    &&& forall|i: int|
        0 <= i < out.len() ==> exists|k: int|
            0 <= k < n && last_of_name(servers, k, n) && joined(servers[k], token, initial, #[trigger] out[i])
    &&& forall|k: int|
        0 <= k < n && last_of_name(servers, k, n) ==> exists|i: int|
            0 <= i < out.len() && joined(#[trigger] servers[k], token, initial, out[i])
}

/// The configuration of a cluster of etcd servers on the loopback interface.
#[derive(Debug)]
pub struct EtcdClusterConfig {
    cluster_token: String,
    configs: Vec<EtcdServerConfig>,
}

impl EtcdClusterConfig {
    #[verifier::type_invariant]
    spec fn inv(self) -> bool {
        distinct_names(self.configs@)
    }

    /// The token shared by the servers of the cluster.
    pub closed spec fn spec_cluster_token(&self) -> Seq<char> {
        self.cluster_token@
    }

    /// The servers of the cluster.
    pub closed spec fn spec_configs(&self) -> Seq<EtcdServerConfig> {
        self.configs@
    }

    /// A cluster of `servers`: a generated token (`cluster-` and four random lowercase letters)
    /// and the initial-cluster string listing every server are given to each of them. The
    /// servers are keyed by name: of servers sharing a name, the last one is kept.
    pub fn with_peers(servers: Vec<EtcdServerConfig>) -> (r: Self)
        ensures
            generated_from("cluster-"@, r.spec_cluster_token()),
            keeps_last_of_each_name(
                r.spec_configs(),
                servers@,
                servers@.len() as int,
                r.spec_cluster_token(),
                initial_cluster_text(servers@),
            ),
    {
        let cluster_token = generate_with_prefix("cluster-");
        let initial = initial_cluster_of(&servers);
        let ghost src = servers@;
        let ghost token = cluster_token@;
        let mut configs: Vec<EtcdServerConfig> = Vec::new();
        broadcast use vstd::std_specs::vec::axiom_spec_into_iter;
        for server in it: servers.into_iter()
            invariant
                it.seq() == src,
                token == cluster_token@,
                keeps_last_of_each_name(configs@, src, it.index() as int, token, initial@),
        {
            let ghost idx = it.index() as int;
            let ghost before = configs@;
            let mut c = server;
            c.cluster_token = Some(cluster_token.clone());
            c.initial_cluster = Some(initial.clone());
            assert(joined(src[idx], token, initial@, c));
            let mut j: usize = 0;
            let mut found = false;
            while j < configs.len()
                invariant_except_break
                    !found,
                invariant
                    configs@ == before,
                    j <= configs@.len(),
                    forall|t: int| 0 <= t < j ==> (#[trigger] configs@[t]).spec_name() != c.spec_name(),
                ensures
                    found ==> j < configs@.len() && configs@[j as int].spec_name() == c.spec_name(),
                    !found ==> j == configs@.len(),
                decreases configs.len() - j,
            {
                if configs[j].name.name == c.name.name {
                    found = true;
                    break;
                }
                j = j + 1;
            }
            if found {
                configs.set(j, c);
                proof {
                    lemma_replace_keeps(before, configs@, src, idx, j as int, token, initial@);
                }
            } else {
                configs.push(c);
                proof {
                    lemma_push_keeps(before, configs@, src, idx, token, initial@);
                }
            }
        }
        EtcdClusterConfig { cluster_token, configs }
    }
}

impl EtcdClusterConfig {
    /// The token shared by the servers of the cluster.
    pub fn cluster_token(&self) -> (r: &str)
        ensures
            r@ == self.spec_cluster_token(),
    {
        self.cluster_token.as_str()
    }

    /// The servers of the cluster.
    pub fn configs(&self) -> (r: &[EtcdServerConfig])
        ensures
            r@ == self.spec_configs(),
            distinct_names(r@),
    {
        proof {
            use_type_invariant(self);
        }
        self.configs.as_slice()
    }

    /// Split the configuration into the cluster token and the servers.
    pub fn into_parts(self) -> (r: (String, Vec<EtcdServerConfig>))
        ensures
            r.0@ == self.spec_cluster_token(),
            r.1@ == self.spec_configs(),
            distinct_names(r.1@),
    {
        proof {
            use_type_invariant(&self);
        }
        (self.cluster_token, self.configs)
    }
}

proof fn lemma_replace_keeps(
    before: Seq<EtcdServerConfig>,
    after: Seq<EtcdServerConfig>,
    src: Seq<EtcdServerConfig>,
    idx: int,
    j: int,
    token: Seq<char>,
    initial: Seq<char>,
)
    requires
        0 <= idx < src.len(),
        0 <= j < before.len(),
        keeps_last_of_each_name(before, src, idx, token, initial),
        before[j].spec_name() == src[idx].spec_name(),
        after.len() == before.len(),
        joined(src[idx], token, initial, after[j]),
        forall|t: int| 0 <= t < before.len() && t != j ==> #[trigger] after[t] == before[t],
    ensures
        keeps_last_of_each_name(after, src, idx + 1, token, initial),
{
    assert forall|a: int, b: int| 0 <= a < b < after.len() implies (#[trigger] after[a]).spec_name() != (#[trigger] after[b]).spec_name() by {
        assert(before[a].spec_name() != before[b].spec_name());
    }
    assert forall|i: int| 0 <= i < after.len() implies exists|k: int|
        0 <= k < idx + 1 && last_of_name(src, k, idx + 1) && joined(src[k], token, initial, #[trigger] after[i]) by {
        if i == j {
            assert(last_of_name(src, idx, idx + 1));
        } else {
            let k = choose|k: int| 0 <= k < idx && last_of_name(src, k, idx) && joined(src[k], token, initial, before[i]);
            assert(before[i].spec_name() != before[j].spec_name());
            assert(last_of_name(src, k, idx + 1));
        }
    }
    assert forall|k: int| 0 <= k < idx + 1 && last_of_name(src, k, idx + 1) implies exists|i: int|
        0 <= i < after.len() && joined(#[trigger] src[k], token, initial, after[i]) by {
        if k == idx {
            assert(joined(src[k], token, initial, after[j]));
        } else {
            assert(last_of_name(src, k, idx));
            let i = choose|i: int| 0 <= i < before.len() && joined(src[k], token, initial, before[i]);
            assert(src[idx].spec_name() != src[k].spec_name());
            assert(i != j);
            assert(joined(src[k], token, initial, after[i]));
        }
    }
}

proof fn lemma_push_keeps(
    before: Seq<EtcdServerConfig>,
    after: Seq<EtcdServerConfig>,
    src: Seq<EtcdServerConfig>,
    idx: int,
    token: Seq<char>,
    initial: Seq<char>,
)
    requires
        0 <= idx < src.len(),
        keeps_last_of_each_name(before, src, idx, token, initial),
        forall|t: int| 0 <= t < before.len() ==> (#[trigger] before[t]).spec_name() != src[idx].spec_name(),
        after.len() == before.len() + 1,
        joined(src[idx], token, initial, after[before.len() as int]),
        forall|t: int| 0 <= t < before.len() ==> #[trigger] after[t] == before[t],
    ensures
        keeps_last_of_each_name(after, src, idx + 1, token, initial),
{
    let n = before.len() as int;
    assert forall|a: int, b: int| 0 <= a < b < after.len() implies (#[trigger] after[a]).spec_name() != (#[trigger] after[b]).spec_name() by {
        if b < n {
            assert(before[a].spec_name() != before[b].spec_name());
        } else {
            assert(after[a] == before[a]);
        }
    }
    assert forall|i: int| 0 <= i < after.len() implies exists|k: int|
        0 <= k < idx + 1 && last_of_name(src, k, idx + 1) && joined(src[k], token, initial, #[trigger] after[i]) by {
        if i == n {
            assert(last_of_name(src, idx, idx + 1));
        } else {
            let k = choose|k: int| 0 <= k < idx && last_of_name(src, k, idx) && joined(src[k], token, initial, before[i]);
            assert(before[i].spec_name() != src[idx].spec_name());
            assert(last_of_name(src, k, idx + 1));
            assert(after[i] == before[i]);
        }
    }
    assert forall|k: int| 0 <= k < idx + 1 && last_of_name(src, k, idx + 1) implies exists|i: int|
        0 <= i < after.len() && joined(#[trigger] src[k], token, initial, after[i]) by {
        if k == idx {
            assert(joined(src[k], token, initial, after[n]));
        } else {
            assert(last_of_name(src, k, idx));
            let i = choose|i: int| 0 <= i < before.len() && joined(src[k], token, initial, before[i]);
            assert(after[i] == before[i]);
        }
    }
}

} // verus!
