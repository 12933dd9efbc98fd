//! Cluster membership: listing, adding, removing, updating and promoting members.
use vstd::prelude::*;
use crate::convert::{header_matches, header_ok};
use crate::ids::{MemberId, ResponseHeader};
use crate::pb::{MemberAddReply, MemberAddRequest, MembersReply, PbMember};

verus! {

/// A member of the cluster.
#[derive(Debug)]
pub struct Member {
    id: MemberId,
    name: String,
    peer_urls: Vec<String>,
    client_urls: Vec<String>,
    is_learner: bool,
}

/// `m` is the decoding of the wire member `pb`.
pub open spec fn member_matches(m: Member, pb: PbMember) -> bool {
    &&& m.spec_id()@ == pb.id
    &&& m.spec_name() == pb.name@
    &&& m.spec_peer_urls() == pb.peer_urls@
    &&& m.spec_client_urls() == pb.client_urls@
    &&& m.spec_is_learner() == pb.is_learner
}

/// Every wire member of `members` has an ID.
pub open spec fn all_members_ok(members: Seq<PbMember>) -> bool {
    forall|i: int| 0 <= i < members.len() ==> (#[trigger] members[i]).id != 0
}

/// `out` is the element-wise decoding of the wire members `members`.
pub open spec fn members_match(out: Seq<Member>, members: Seq<PbMember>) -> bool {
    &&& out.len() == members.len()
    &&& forall|i: int| 0 <= i < members.len() ==> member_matches(#[trigger] out[i], members[i])
}

impl Member {
    /// The member's ID.
    pub closed spec fn spec_id(&self) -> MemberId {
        self.id
    }

    /// The member's name.
    pub closed spec fn spec_name(&self) -> Seq<char> {
        self.name@
    }

    /// The URLs the member listens on for peers.
    pub closed spec fn spec_peer_urls(&self) -> Seq<String> {
        self.peer_urls@
    }

    /// The URLs the member listens on for clients.
    pub closed spec fn spec_client_urls(&self) -> Seq<String> {
        self.client_urls@
    }

    /// Whether the member is a learner.
    pub closed spec fn spec_is_learner(&self) -> bool {
        self.is_learner
    }

    /// Decode a wire member; etcd sends a member ID with every member.
    pub fn from_pb(pb: PbMember) -> (r: Self)
        requires
            pb.id != 0,
        ensures
            member_matches(r, pb),
    {
        Member {
            id: MemberId::new(pb.id).unwrap(),
            name: pb.name,
            peer_urls: pb.peer_urls,
            client_urls: pb.client_urls,
            is_learner: pb.is_learner,
        }
    }

    /// The member's ID.
    pub fn id(&self) -> (r: MemberId)
        ensures
            r == self.spec_id(),
    {
        self.id
    }

    /// The member's name.
    pub fn name(&self) -> (r: &str)
        ensures
            r@ == self.spec_name(),
    {
        self.name.as_str()
    }

    /// The URLs the member listens on for peers.
    pub fn peer_urls(&self) -> (r: &[String])
        ensures
            r@ == self.spec_peer_urls(),
    {
        self.peer_urls.as_slice()
    }

    /// The URLs the member listens on for clients.
    pub fn client_urls(&self) -> (r: &[String])
        ensures
            r@ == self.spec_client_urls(),
    {
        self.client_urls.as_slice()
    }

    /// Whether the member is a learner.
    pub fn is_learner(&self) -> (r: bool)
        ensures
            r == self.spec_is_learner(),
    {
        self.is_learner
    }
}

fn members_from_pb(members: Vec<PbMember>) -> (r: Vec<Member>)
    requires
        all_members_ok(members@),
    ensures
        members_match(r@, members@),
{
    let ghost src = members@;
    let mut out: Vec<Member> = Vec::new();
    broadcast use vstd::std_specs::vec::axiom_spec_into_iter;
    for m in it: members.into_iter()
        invariant
            it.seq() == src,
            all_members_ok(src),
            out@.len() == it.index(),
            forall|i: int| 0 <= i < out@.len() ==> member_matches(#[trigger] out@[i], src[i]),
    {
        out.push(Member::from_pb(m));
    }
    out
}

/// A request to list the members of the cluster.
pub struct MemberList<C> {
    client: C,
    linearizable: bool,
}

impl MemberList<()> {
    /// A member listing served by any member, with no client attached.
    pub fn new() -> (r: Self)
        ensures
            !r.spec_linearizable(),
    {
        MemberList { client: (), linearizable: false }
    }
}

impl<C> MemberList<C> {
    /// The client this operation runs on.
    pub closed spec fn spec_client(&self) -> C {
        self.client
    }

    /// Whether the listing goes through consensus.
    pub closed spec fn spec_linearizable(&self) -> bool {
        self.linearizable
    }

    /// Attach a `client` to this operation.
    pub fn with_client<C2>(self, client: C2) -> (r: MemberList<C2>)
        ensures
            r.spec_client() == client,
            r.spec_linearizable() == self.spec_linearizable(),
    {
        MemberList { client, linearizable: self.linearizable }
    }

    /// Serve the listing through consensus, so that it reflects every committed change.
    pub fn linearizable(self) -> (r: Self)
        ensures
            r.spec_client() == self.spec_client(),
            r.spec_linearizable(),
    {
        MemberList { client: self.client, linearizable: true }
    }

    /// Whether the listing goes through consensus.
    pub fn is_linearizable(&self) -> (r: bool)
        ensures
            r == self.spec_linearizable(),
    {
        self.linearizable
    }

    /// The client this operation runs on.
    pub fn into_client(self) -> (r: C)
        ensures
            r == self.spec_client(),
    {
        self.client
    }
}

/// The response from listing the members: the members of the cluster.
#[derive(Debug)]
pub struct MemberListResponse {
    header: ResponseHeader,
    members: Vec<Member>,
}

impl MemberListResponse {
    /// The header of this response.
    pub closed spec fn spec_header(&self) -> ResponseHeader {
        self.header
    }

    /// The members of the cluster.
    pub closed spec fn spec_members(&self) -> Seq<Member> {
        self.members@
    }

    /// Decode the reply to listing the members.
    pub fn from_pb(resp: MembersReply) -> (r: Self)
        requires
            resp.header matches Some(h) && header_ok(h),
            all_members_ok(resp.members@),
        ensures
            header_matches(r.spec_header(), resp.header.unwrap()),
            members_match(r.spec_members(), resp.members@),
    {
        let header = ResponseHeader::from_pb(resp.header.unwrap());
        MemberListResponse { header, members: members_from_pb(resp.members) }
    }

    /// The response header containing cluster metadata and the store revision.
    pub fn header(&self) -> (r: &ResponseHeader)
        ensures
            *r == self.spec_header(),
    {
        &self.header
    }

    /// The members of the cluster.
    pub fn members(&self) -> (r: &[Member])
        ensures
            r@ == self.spec_members(),
    {
        self.members.as_slice()
    }

    /// Consume the response and return the members of the cluster.
    pub fn into_members(self) -> (r: Vec<Member>)
        ensures
            r@ == self.spec_members(),
    {
        self.members
    }
}

/// A request to add a member to the cluster.
pub struct MemberAdd<C> {
    client: C,
    request: MemberAddRequest,
}

impl MemberAdd<()> {
    /// Add a voting member reachable at `peer_urls`.
    pub fn new(peer_urls: Vec<String>) -> (r: Self)
        ensures
            r.spec_request().peer_urls@ == peer_urls@,
            !r.spec_request().is_learner,
    {
        MemberAdd { client: (), request: MemberAddRequest { peer_urls, is_learner: false } }
    }
}

impl<C> MemberAdd<C> {
    /// The client this operation runs on.
    pub closed spec fn spec_client(&self) -> C {
        self.client
    }

    /// The add request this operation sends.
    pub closed spec fn spec_request(&self) -> MemberAddRequest {
        self.request
    }

    /// Attach a `client` to this operation.
    pub fn with_client<C2>(self, client: C2) -> (r: MemberAdd<C2>)
        ensures
            r.spec_client() == client,
            r.spec_request() == self.spec_request(),
    {
        MemberAdd { client, request: self.request }
    }

    /// Add the member as a learner (`true`) or a voting member (`false`).
    pub fn is_learner(self, is_learner: bool) -> (r: Self)
        ensures
            r.spec_client() == self.spec_client(),
            r.spec_request() == (MemberAddRequest { is_learner, ..self.spec_request() }),
    {
        let mut request = self.request;
        request.is_learner = is_learner;
        MemberAdd { client: self.client, request }
    }

    /// The URLs the new member listens on for peers.
    pub fn peer_urls(&self) -> (r: &[String])
        ensures
            r@ == self.spec_request().peer_urls@,
    {
        self.request.peer_urls.as_slice()
    }

    /// Whether the member is added as a learner.
    pub fn is_learner_member(&self) -> (r: bool)
        ensures
            r == self.spec_request().is_learner,
    {
        self.request.is_learner
    }

    /// Consume this operation and return the request it sends.
    pub fn into_request(self) -> (r: MemberAddRequest)
        ensures
            r == self.spec_request(),
    {
        self.request
    }
}

/// The response from adding a member: the new member and every member of the cluster.
#[derive(Debug)]
pub struct MemberAddResponse {
    header: ResponseHeader,
    member: Member,
    members: Vec<Member>,
}

impl MemberAddResponse {
    /// The header of this response.
    pub closed spec fn spec_header(&self) -> ResponseHeader {
        self.header
    }

    /// The member added.
    pub closed spec fn spec_member(&self) -> Member {
        self.member
    }

    /// The members of the cluster.
    pub closed spec fn spec_members(&self) -> Seq<Member> {
        self.members@
    }

    /// Decode the reply to adding a member; etcd always reports the member it added.
    pub fn from_pb(resp: MemberAddReply) -> (r: Self)
        requires
            resp.header matches Some(h) && header_ok(h),
            resp.member matches Some(m) && m.id != 0,
            all_members_ok(resp.members@),
        ensures
            header_matches(r.spec_header(), resp.header.unwrap()),
            member_matches(r.spec_member(), resp.member.unwrap()),
            members_match(r.spec_members(), resp.members@),
    {
        let header = ResponseHeader::from_pb(resp.header.unwrap());
        let member = Member::from_pb(resp.member.unwrap());
        MemberAddResponse { header, member, members: members_from_pb(resp.members) }
    }

    /// The response header containing cluster metadata and the store revision.
    pub fn header(&self) -> (r: &ResponseHeader)
        ensures
            *r == self.spec_header(),
    {
        &self.header
    }

    /// The member added.
    pub fn member(&self) -> (r: &Member)
        ensures
            *r == self.spec_member(),
    {
        &self.member
    }

    /// The members of the cluster.
    pub fn members(&self) -> (r: &[Member])
        ensures
            r@ == self.spec_members(),
    {
        self.members.as_slice()
    }
}

/// A request to remove a member from the cluster.
pub struct MemberRemove<C> {
    client: C,
    member_id: MemberId,
}

impl MemberRemove<()> {
    /// The operation on the member `member_id`, with no client attached.
    pub fn new(member_id: MemberId) -> (r: Self)
        ensures
            r.spec_member_id() == member_id,
    {
        MemberRemove { client: (), member_id }
    }
}

impl<C> MemberRemove<C> {
    /// The client this operation runs on.
    pub closed spec fn spec_client(&self) -> C {
        self.client
    }

    /// The member addressed.
    pub closed spec fn spec_member_id(&self) -> MemberId {
        self.member_id
    }

    /// Attach a `client` to this operation.
    pub fn with_client<C2>(self, client: C2) -> (r: MemberRemove<C2>)
        ensures
            r.spec_client() == client,
            r.spec_member_id() == self.spec_member_id(),
    {
        MemberRemove { client, member_id: self.member_id }
    }

    /// The member addressed.
    pub fn member_id(&self) -> (r: MemberId)
        ensures
            r == self.spec_member_id(),
    {
        self.member_id
    }

    /// The client this operation runs on.
    pub fn into_client(self) -> (r: C)
        ensures
            r == self.spec_client(),
    {
        self.client
    }
}

/// The response from removing a member: the members of the cluster.
#[derive(Debug)]
pub struct MemberRemoveResponse {
    header: ResponseHeader,
    members: Vec<Member>,
}

impl MemberRemoveResponse {
    /// The header of this response.
    pub closed spec fn spec_header(&self) -> ResponseHeader {
        self.header
    }

    /// The members of the cluster.
    pub closed spec fn spec_members(&self) -> Seq<Member> {
        self.members@
    }

    /// Decode the reply to removing a member.
    pub fn from_pb(resp: MembersReply) -> (r: Self)
        requires
            resp.header matches Some(h) && header_ok(h),
            all_members_ok(resp.members@),
        ensures
            header_matches(r.spec_header(), resp.header.unwrap()),
            members_match(r.spec_members(), resp.members@),
    {
        let header = ResponseHeader::from_pb(resp.header.unwrap());
        MemberRemoveResponse { header, members: members_from_pb(resp.members) }
    }

    /// The response header containing cluster metadata and the store revision.
    pub fn header(&self) -> (r: &ResponseHeader)
        ensures
            *r == self.spec_header(),
    {
        &self.header
    }

    /// The members of the cluster.
    pub fn members(&self) -> (r: &[Member])
        ensures
            r@ == self.spec_members(),
    {
        self.members.as_slice()
    }
}

/// A request to change the peer URLs of a member.
pub struct MemberUpdate<C> {
    client: C,
    member_id: MemberId,
    peer_urls: Vec<String>,
}

impl MemberUpdate<()> {
    /// Set the peer URLs of the member `member_id` to `peer_urls`.
    pub fn new(member_id: MemberId, peer_urls: Vec<String>) -> (r: Self)
        ensures
            r.spec_member_id() == member_id,
            r.spec_peer_urls() == peer_urls@,
    {
        MemberUpdate { client: (), member_id, peer_urls }
    }
}

impl<C> MemberUpdate<C> {
    /// The client this operation runs on.
    pub closed spec fn spec_client(&self) -> C {
        self.client
    }

    /// The member addressed.
    pub closed spec fn spec_member_id(&self) -> MemberId {
        self.member_id
    }

    /// The new peer URLs.
    pub closed spec fn spec_peer_urls(&self) -> Seq<String> {
        self.peer_urls@
    }

    /// Attach a `client` to this operation.
    pub fn with_client<C2>(self, client: C2) -> (r: MemberUpdate<C2>)
        ensures
            r.spec_client() == client,
            r.spec_member_id() == self.spec_member_id(),
            r.spec_peer_urls() == self.spec_peer_urls(),
    {
        MemberUpdate { client, member_id: self.member_id, peer_urls: self.peer_urls }
    }

    /// The member addressed.
    pub fn member_id(&self) -> (r: MemberId)
        ensures
            r == self.spec_member_id(),
    {
        self.member_id
    }

    /// The new peer URLs.
    pub fn peer_urls(&self) -> (r: &[String])
        ensures
            r@ == self.spec_peer_urls(),
    {
        self.peer_urls.as_slice()
    }

    /// Split this operation into its client, the member and the new peer URLs.
    pub fn into_parts(self) -> (r: (C, MemberId, Vec<String>))
        ensures
            r.0 == self.spec_client(),
            r.1 == self.spec_member_id(),
            r.2@ == self.spec_peer_urls(),
    {
        (self.client, self.member_id, self.peer_urls)
    }
}

/// The response from updating a member: the members of the cluster.
#[derive(Debug)]
pub struct MemberUpdateResponse {
    header: ResponseHeader,
    members: Vec<Member>,
}

impl MemberUpdateResponse {
    /// The header of this response.
    pub closed spec fn spec_header(&self) -> ResponseHeader {
        self.header
    }

    /// The members of the cluster.
    pub closed spec fn spec_members(&self) -> Seq<Member> {
        self.members@
    }

    /// Decode the reply to updating a member.
    pub fn from_pb(resp: MembersReply) -> (r: Self)
        requires
            resp.header matches Some(h) && header_ok(h),
            all_members_ok(resp.members@),
        ensures
            header_matches(r.spec_header(), resp.header.unwrap()),
            members_match(r.spec_members(), resp.members@),
    {
        let header = ResponseHeader::from_pb(resp.header.unwrap());
        MemberUpdateResponse { header, members: members_from_pb(resp.members) }
    }

    /// The response header containing cluster metadata and the store revision.
    pub fn header(&self) -> (r: &ResponseHeader)
        ensures
            *r == self.spec_header(),
    {
        &self.header
    }

    /// The members of the cluster.
    pub fn members(&self) -> (r: &[Member])
        ensures
            r@ == self.spec_members(),
    {
        self.members.as_slice()
    }
}

/// A request to promote a learner to a voting member.
pub struct MemberPromote<C> {
    client: C,
    member_id: MemberId,
}

impl MemberPromote<()> {
    /// The operation on the member `member_id`, with no client attached.
    pub fn new(member_id: MemberId) -> (r: Self)
        ensures
            r.spec_member_id() == member_id,
    {
        MemberPromote { client: (), member_id }
    }
}

impl<C> MemberPromote<C> {
    /// The client this operation runs on.
    pub closed spec fn spec_client(&self) -> C {
        self.client
    }

    /// The member addressed.
    pub closed spec fn spec_member_id(&self) -> MemberId {
        self.member_id
    }

    /// Attach a `client` to this operation.
    pub fn with_client<C2>(self, client: C2) -> (r: MemberPromote<C2>)
        ensures
            r.spec_client() == client,
            r.spec_member_id() == self.spec_member_id(),
    {
        MemberPromote { client, member_id: self.member_id }
    }

    /// The member addressed.
    pub fn member_id(&self) -> (r: MemberId)
        ensures
            r == self.spec_member_id(),
    {
        self.member_id
    }

    /// The client this operation runs on.
    pub fn into_client(self) -> (r: C)
        ensures
            r == self.spec_client(),
    {
        self.client
    }
}

/// The response from promoting a member: the members of the cluster.
#[derive(Debug)]
pub struct MemberPromoteResponse {
    header: ResponseHeader,
    members: Vec<Member>,
}

impl MemberPromoteResponse {
    /// The header of this response.
    pub closed spec fn spec_header(&self) -> ResponseHeader {
        self.header
    }

    /// The members of the cluster.
    pub closed spec fn spec_members(&self) -> Seq<Member> {
        self.members@
    }

    /// Decode the reply to promoting a member.
    pub fn from_pb(resp: MembersReply) -> (r: Self)
        requires
            resp.header matches Some(h) && header_ok(h),
            all_members_ok(resp.members@),
        ensures
            header_matches(r.spec_header(), resp.header.unwrap()),
            members_match(r.spec_members(), resp.members@),
    {
        let header = ResponseHeader::from_pb(resp.header.unwrap());
        MemberPromoteResponse { header, members: members_from_pb(resp.members) }
    }

    /// The response header containing cluster metadata and the store revision.
    pub fn header(&self) -> (r: &ResponseHeader)
        ensures
            *r == self.spec_header(),
    {
        &self.header
    }

    /// The members of the cluster.
    pub fn members(&self) -> (r: &[Member])
        ensures
            r@ == self.spec_members(),
    {
        self.members.as_slice()
    }
}

/// A cluster is ready when it reports the expected number of members and each of them has
/// started: it has a name and client URLs (a member that was added but has not started yet has
/// neither).
pub open spec fn cluster_ready(members: Seq<Member>, expected: usize) -> bool {
    &&& members.len() == expected
    &&& forall|i: int|
        0 <= i < members.len() ==> (#[trigger] members[i]).spec_name().len() > 0
            && members[i].spec_client_urls().len() > 0
}

/// Whether a member listing shows a ready cluster of `expected` members.
pub fn members_ready(members: &[Member], expected: usize) -> (r: bool)
    ensures
        r == cluster_ready(members@, expected),
{
    if members.len() != expected {
        return false;
    }
    let mut i: usize = 0;
    while i < members.len()
        invariant
            i <= members@.len(),
            forall|j: int|
                0 <= j < i ==> (#[trigger] members@[j]).spec_name().len() > 0
                    && members@[j].spec_client_urls().len() > 0,
        decreases members.len() - i,
    {
        let m = &members[i];
        if m.name().is_empty() || m.client_urls().len() == 0 {
            return false;
        }
        i = i + 1;
    }
    true
}

} // verus!
