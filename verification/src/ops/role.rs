//! Roles and their permissions.
use vstd::prelude::*;
use crate::convert::{header_matches, header_ok};
use crate::ids::ResponseHeader;
use crate::pb::{AuthRoleRevokePermissionRequest, HeaderOnlyResponse, PbPermission, RoleGetReply, RoleListReply};
use crate::range::{decodes_wire, AsRange, TargetRange};

verus! {

/// What a permission allows.
#[derive(Clone, Copy, Debug, PartialEq, Eq, Structural, Hash)]
pub enum PermissionType {
    Read,
    Write,
    ReadWrite,
}

/// The wire number of a permission type.
pub open spec fn permission_type_number(t: PermissionType) -> i32 {
    match t {
        PermissionType::Read => 0,
        PermissionType::Write => 1,
        PermissionType::ReadWrite => 2,
    }
}

/// The permission type a wire number in `0..=2` stands for.
pub open spec fn permission_type_of(n: i32) -> PermissionType {
    if n == 0 {
        PermissionType::Read
    } else if n == 1 {
        PermissionType::Write
    } else {
        PermissionType::ReadWrite
    }
}

/// The wire numbering of permission types is etcd's (`READ` 0, `WRITE` 1, `READWRITE` 2), a
/// bijection between the three types and `0..=2`.
pub proof fn lemma_permission_type_numbering(t: PermissionType, n: i32)
    ensures
        permission_type_of(permission_type_number(t)) == t,
        0 <= permission_type_number(t) <= 2,
        0 <= n <= 2 ==> permission_type_number(permission_type_of(n)) == n,
        permission_type_number(PermissionType::Read) == 0,
        permission_type_number(PermissionType::Write) == 1,
        permission_type_number(PermissionType::ReadWrite) == 2,
{
}

/// A permission on a key range.
#[derive(Debug)]
pub struct Permission {
    perm_type: PermissionType,
    key: Vec<u8>,
    range_end: Vec<u8>,
}

impl Permission {
    /// What the permission allows.
    pub closed spec fn spec_type(&self) -> PermissionType {
        self.perm_type
    }

    /// The wire `key` of the range.
    pub closed spec fn spec_key(&self) -> Seq<u8> {
        self.key@
    }

    /// The wire `range_end` of the range.
    pub closed spec fn spec_range_end(&self) -> Seq<u8> {
        self.range_end@
    }

    fn new<Q: AsRange>(perm_type: PermissionType, range: Q) -> (r: Self)
        ensures
            r.spec_type() == perm_type,
            range.encodes_to(r.spec_key(), r.spec_range_end()),
    {
        let (key, range_end) = range.as_boundaries();
        Permission { perm_type, key, range_end }
    }

    /// Permission to read `range`.
    pub fn read<Q: AsRange>(range: Q) -> (r: Self)
        ensures
            r.spec_type() == PermissionType::Read,
            range.encodes_to(r.spec_key(), r.spec_range_end()),
    {
        Self::new(PermissionType::Read, range)
    }

    /// Permission to write `range`.
    pub fn write<Q: AsRange>(range: Q) -> (r: Self)
        ensures
            r.spec_type() == PermissionType::Write,
            range.encodes_to(r.spec_key(), r.spec_range_end()),
    {
        Self::new(PermissionType::Write, range)
    }

    /// Permission to read and write `range`.
    pub fn read_write<Q: AsRange>(range: Q) -> (r: Self)
        ensures
            r.spec_type() == PermissionType::ReadWrite,
            range.encodes_to(r.spec_key(), r.spec_range_end()),
    {
        Self::new(PermissionType::ReadWrite, range)
    }

    /// What the permission allows.
    pub fn permission_type(&self) -> (r: PermissionType)
        ensures
            r == self.spec_type(),
    {
        self.perm_type
    }

    /// The range the permission covers.
    pub fn target_range(&self) -> (r: TargetRange<'_>)
        ensures
            decodes_wire(r, self.spec_key(), self.spec_range_end()),
    {
        TargetRange::from_wire(self.key.as_slice(), self.range_end.as_slice())
    }

    /// Decode a wire permission; etcd only sends the three known types.
    pub fn from_pb(pb: PbPermission) -> (r: Self)
        requires
            0 <= pb.perm_type <= 2,
        ensures
            r.spec_type() == permission_type_of(pb.perm_type),
            r.spec_key() == pb.key@,
            r.spec_range_end() == pb.range_end@,
    {
        let perm_type = if pb.perm_type == 0 {
            PermissionType::Read
        } else if pb.perm_type == 1 {
            PermissionType::Write
        } else {
            PermissionType::ReadWrite
        };
        Permission { perm_type, key: pb.key, range_end: pb.range_end }
    }

    /// Encode this permission for the wire.
    pub fn into_pb(self) -> (r: PbPermission)
        ensures
            r.perm_type == permission_type_number(self.spec_type()),
            r.key@ == self.spec_key(),
            r.range_end@ == self.spec_range_end(),
    {
        let perm_type = match self.perm_type {
            PermissionType::Read => 0,
            PermissionType::Write => 1,
            PermissionType::ReadWrite => 2,
        };
        PbPermission { perm_type, key: self.key, range_end: self.range_end }
    }
}

/// `out` is the element-wise decoding of the wire permissions `perms`.
pub open spec fn permissions_match(out: Seq<Permission>, perms: Seq<PbPermission>) -> bool {
    &&& out.len() == perms.len()
    &&& forall|i: int|
        0 <= i < perms.len() ==> {
            &&& (#[trigger] out[i]).spec_type() == permission_type_of(perms[i].perm_type)
            &&& out[i].spec_key() == perms[i].key@
            &&& out[i].spec_range_end() == perms[i].range_end@
        }
}

fn permissions_from_pb(perms: Vec<PbPermission>) -> (r: Vec<Permission>)
    requires
        forall|i: int| 0 <= i < perms@.len() ==> 0 <= (#[trigger] perms@[i]).perm_type <= 2,
    ensures
        permissions_match(r@, perms@),
{
    let ghost src = perms@;
    let mut out: Vec<Permission> = Vec::new();
    broadcast use vstd::std_specs::vec::axiom_spec_into_iter;
    for p in it: perms.into_iter()
        invariant
            it.seq() == src,
            forall|i: int| 0 <= i < src.len() ==> 0 <= (#[trigger] src[i]).perm_type <= 2,
            out@.len() == it.index(),
            forall|i: int|
                0 <= i < out@.len() ==> {
                    &&& (#[trigger] out@[i]).spec_type() == permission_type_of(src[i].perm_type)
                    &&& out@[i].spec_key() == src[i].key@
                    &&& out@[i].spec_range_end() == src[i].range_end@
                },
    {
        out.push(Permission::from_pb(p));
    }
    out
}

/// A request to add a role.
pub struct RoleAdd<C> {
    client: C,
    name: String,
}

impl RoleAdd<()> {
    /// The operation on the role `name`, with no client attached.
    pub fn new(name: &str) -> (r: Self)
        ensures
            r.spec_name() == name@,
    {
        RoleAdd { client: (), name: name.to_owned() }
    }
}

impl<C> RoleAdd<C> {
    /// The client this operation runs on.
    pub closed spec fn spec_client(&self) -> C {
        self.client
    }

    /// The name of the role.
    pub closed spec fn spec_name(&self) -> Seq<char> {
        self.name@
    }

    /// Attach a `client` to this operation.
    pub fn with_client<C2>(self, client: C2) -> (r: RoleAdd<C2>)
        ensures
            r.spec_client() == client,
            r.spec_name() == self.spec_name(),
    {
        RoleAdd { client, name: self.name }
    }

    /// The name of the role.
    pub fn name(&self) -> (r: &str)
        ensures
            r@ == self.spec_name(),
    {
        self.name.as_str()
    }

    /// Split this operation into its client and the role name.
    pub fn into_parts(self) -> (r: (C, String))
        ensures
            r.0 == self.spec_client(),
            r.1@ == self.spec_name(),
    {
        (self.client, self.name)
    }
}

/// The response from adding a role.
#[derive(Clone, Copy, Debug)]
pub struct RoleAddResponse {
    header: ResponseHeader,
}

impl RoleAddResponse {
    /// The header of this response.
    pub closed spec fn spec_header(&self) -> ResponseHeader {
        self.header
    }

    /// Decode the reply to adding a role.
    pub fn from_pb(resp: HeaderOnlyResponse) -> (r: Self)
        requires
            resp.header matches Some(h) && header_ok(h),
        ensures
            header_matches(r.spec_header(), resp.header.unwrap()),
    {
        RoleAddResponse { header: ResponseHeader::from_pb(resp.header.unwrap()) }
    }

    /// The response header containing cluster metadata and the store revision.
    pub fn header(&self) -> (r: &ResponseHeader)
        ensures
            *r == self.spec_header(),
    {
        &self.header
    }
}

/// A request to read the permissions of a role.
pub struct RoleGet<C> {
    client: C,
    name: String,
}

impl RoleGet<()> {
    /// The operation on the role `name`, with no client attached.
    pub fn new(name: &str) -> (r: Self)
        ensures
            r.spec_name() == name@,
    {
        RoleGet { client: (), name: name.to_owned() }
    }
}

impl<C> RoleGet<C> {
    /// The client this operation runs on.
    pub closed spec fn spec_client(&self) -> C {
        self.client
    }

    /// The name of the role.
    pub closed spec fn spec_name(&self) -> Seq<char> {
        self.name@
    }

    /// Attach a `client` to this operation.
    pub fn with_client<C2>(self, client: C2) -> (r: RoleGet<C2>)
        ensures
            r.spec_client() == client,
            r.spec_name() == self.spec_name(),
    {
        RoleGet { client, name: self.name }
    }

    /// The name of the role.
    pub fn name(&self) -> (r: &str)
        ensures
            r@ == self.spec_name(),
    {
        self.name.as_str()
    }

    /// Split this operation into its client and the role name.
    pub fn into_parts(self) -> (r: (C, String))
        ensures
            r.0 == self.spec_client(),
            r.1@ == self.spec_name(),
    {
        (self.client, self.name)
    }
}

/// The response from reading a role: its permissions.
#[derive(Debug)]
pub struct RoleGetResponse {
    header: ResponseHeader,
    permissions: Vec<Permission>,
}

impl RoleGetResponse {
    /// The header of this response.
    pub closed spec fn spec_header(&self) -> ResponseHeader {
        self.header
    }

    /// The permissions of the role.
    pub closed spec fn spec_permissions(&self) -> Seq<Permission> {
        self.permissions@
    }

    /// Decode the reply to reading a role.
    pub fn from_pb(resp: RoleGetReply) -> (r: Self)
        requires
            resp.header matches Some(h) && header_ok(h),
            forall|i: int| 0 <= i < resp.perm@.len() ==> 0 <= (#[trigger] resp.perm@[i]).perm_type <= 2,
        ensures
            header_matches(r.spec_header(), resp.header.unwrap()),
            permissions_match(r.spec_permissions(), resp.perm@),
    {
        let header = ResponseHeader::from_pb(resp.header.unwrap());
        RoleGetResponse { header, permissions: permissions_from_pb(resp.perm) }
    }

    /// The response header containing cluster metadata and the store revision.
    pub fn header(&self) -> (r: &ResponseHeader)
        ensures
            *r == self.spec_header(),
    {
        &self.header
    }

    /// The permissions of the role.
    pub fn permissions(&self) -> (r: &[Permission])
        ensures
            r@ == self.spec_permissions(),
    {
        self.permissions.as_slice()
    }

    /// Consume the response and return the permissions of the role.
    pub fn into_permissions(self) -> (r: Vec<Permission>)
        ensures
            r@ == self.spec_permissions(),
    {
        self.permissions
    }
}

/// A request to list the roles.
pub struct RoleList<C> {
    client: C,
}

impl RoleList<()> {
    /// A role listing with no client attached.
    pub fn new() -> (r: Self) {
        RoleList { client: () }
    }
}

impl<C> RoleList<C> {
    /// The client this operation runs on.
    pub closed spec fn spec_client(&self) -> C {
        self.client
    }

    /// Attach a `client` to this operation.
    pub fn with_client<C2>(self, client: C2) -> (r: RoleList<C2>)
        ensures
            r.spec_client() == client,
    {
        RoleList { client }
    }

    /// The client this operation runs on.
    pub fn into_client(self) -> (r: C)
        ensures
            r == self.spec_client(),
    {
        self.client
    }
}

/// The response from listing the roles.
#[derive(Debug)]
pub struct RoleListResponse {
    header: ResponseHeader,
    roles: Vec<String>,
}

impl RoleListResponse {
    /// The header of this response.
    pub closed spec fn spec_header(&self) -> ResponseHeader {
        self.header
    }

    /// The names of the roles.
    pub closed spec fn spec_roles(&self) -> Seq<String> {
        self.roles@
    }

    /// Decode the reply to listing the roles.
    pub fn from_pb(resp: RoleListReply) -> (r: Self)
        requires
            resp.header matches Some(h) && header_ok(h),
        ensures
            header_matches(r.spec_header(), resp.header.unwrap()),
            r.spec_roles() == resp.roles@,
    {
        RoleListResponse { header: ResponseHeader::from_pb(resp.header.unwrap()), roles: resp.roles }
    }

    /// The response header containing cluster metadata and the store revision.
    pub fn header(&self) -> (r: &ResponseHeader)
        ensures
            *r == self.spec_header(),
    {
        &self.header
    }

    /// The names of the roles.
    pub fn roles(&self) -> (r: &[String])
        ensures
            r@ == self.spec_roles(),
    {
        self.roles.as_slice()
    }

    /// Consume the response and return the names of the roles.
    pub fn into_roles(self) -> (r: Vec<String>)
        ensures
            r@ == self.spec_roles(),
    {
        self.roles
    }
}

/// A request to delete a role.
pub struct RoleDelete<C> {
    client: C,
    name: String,
}

impl RoleDelete<()> {
    /// The operation on the role `name`, with no client attached.
    pub fn new(name: &str) -> (r: Self)
        ensures
            r.spec_name() == name@,
    {
        RoleDelete { client: (), name: name.to_owned() }
    }
}

impl<C> RoleDelete<C> {
    /// The client this operation runs on.
    pub closed spec fn spec_client(&self) -> C {
        self.client
    }

    /// The name of the role.
    pub closed spec fn spec_name(&self) -> Seq<char> {
        self.name@
    }

    /// Attach a `client` to this operation.
    pub fn with_client<C2>(self, client: C2) -> (r: RoleDelete<C2>)
        ensures
            r.spec_client() == client,
            r.spec_name() == self.spec_name(),
    {
        RoleDelete { client, name: self.name }
    }

    /// The name of the role.
    pub fn name(&self) -> (r: &str)
        ensures
            r@ == self.spec_name(),
    {
        self.name.as_str()
    }

    /// Split this operation into its client and the role name.
    pub fn into_parts(self) -> (r: (C, String))
        ensures
            r.0 == self.spec_client(),
            r.1@ == self.spec_name(),
    {
        (self.client, self.name)
    }
}

/// The response from deleting a role.
#[derive(Clone, Copy, Debug)]
pub struct RoleDeleteResponse {
    header: ResponseHeader,
}

impl RoleDeleteResponse {
    /// The header of this response.
    pub closed spec fn spec_header(&self) -> ResponseHeader {
        self.header
    }

    /// Decode the reply to deleting a role.
    pub fn from_pb(resp: HeaderOnlyResponse) -> (r: Self)
        requires
            resp.header matches Some(h) && header_ok(h),
        ensures
            header_matches(r.spec_header(), resp.header.unwrap()),
    {
        RoleDeleteResponse { header: ResponseHeader::from_pb(resp.header.unwrap()) }
    }

    /// The response header containing cluster metadata and the store revision.
    pub fn header(&self) -> (r: &ResponseHeader)
        ensures
            *r == self.spec_header(),
    {
        &self.header
    }
}

/// A request to grant a permission to a role.
pub struct RoleGrantPermission<C> {
    client: C,
    name: String,
    permission: Permission,
}

impl RoleGrantPermission<()> {
    /// Grant `permission` to the role `name`.
    pub fn new(name: &str, permission: Permission) -> (r: Self)
        ensures
            r.spec_name() == name@,
            r.spec_permission() == permission,
    {
        RoleGrantPermission { client: (), name: name.to_owned(), permission }
    }
}

impl<C> RoleGrantPermission<C> {
    /// The client this operation runs on.
    pub closed spec fn spec_client(&self) -> C {
        self.client
    }

    /// The name of the role.
    pub closed spec fn spec_name(&self) -> Seq<char> {
        self.name@
    }

    /// The permission granted.
    pub closed spec fn spec_permission(&self) -> Permission {
        self.permission
    }

    /// Attach a `client` to this operation.
    pub fn with_client<C2>(self, client: C2) -> (r: RoleGrantPermission<C2>)
        ensures
            r.spec_client() == client,
            r.spec_name() == self.spec_name(),
            r.spec_permission() == self.spec_permission(),
    {
        RoleGrantPermission { client, name: self.name, permission: self.permission }
    }

    /// The name of the role.
    pub fn name(&self) -> (r: &str)
        ensures
            r@ == self.spec_name(),
    {
        self.name.as_str()
    }

    /// The permission granted.
    pub fn permission(&self) -> (r: &Permission)
        ensures
            *r == self.spec_permission(),
    {
        &self.permission
    }

    /// Split this operation into its client, the role name and the permission.
    pub fn into_parts(self) -> (r: (C, String, Permission))
        ensures
            r.0 == self.spec_client(),
            r.1@ == self.spec_name(),
            r.2 == self.spec_permission(),
    {
        (self.client, self.name, self.permission)
    }
}

/// The response from granting a permission.
#[derive(Clone, Copy, Debug)]
pub struct RoleGrantPermissionResponse {
    header: ResponseHeader,
}

impl RoleGrantPermissionResponse {
    /// The header of this response.
    pub closed spec fn spec_header(&self) -> ResponseHeader {
        self.header
    }

    /// Decode the reply to granting a permission.
    pub fn from_pb(resp: HeaderOnlyResponse) -> (r: Self)
        requires
            resp.header matches Some(h) && header_ok(h),
        ensures
            header_matches(r.spec_header(), resp.header.unwrap()),
    {
        RoleGrantPermissionResponse { header: ResponseHeader::from_pb(resp.header.unwrap()) }
    }

    /// The response header containing cluster metadata and the store revision.
    pub fn header(&self) -> (r: &ResponseHeader)
        ensures
            *r == self.spec_header(),
    {
        &self.header
    }
}

/// A request to revoke a role's permission on a range.
pub struct RoleRevokePermission<C> {
    client: C,
    request: AuthRoleRevokePermissionRequest,
}

impl RoleRevokePermission<()> {
    /// Revoke the permission of the role `name` on `range`.
    pub fn new<Q: AsRange>(name: &str, range: Q) -> (r: Self)
        ensures
            r.spec_request().role@ == name@,
            range.encodes_to(r.spec_request().key@, r.spec_request().range_end@),
    {
        let (key, range_end) = range.as_boundaries();
        RoleRevokePermission {
            client: (),
            request: AuthRoleRevokePermissionRequest { role: name.to_owned(), key, range_end },
        }
    }
}

impl<C> RoleRevokePermission<C> {
    /// The client this operation runs on.
    pub closed spec fn spec_client(&self) -> C {
        self.client
    }

    /// The revocation request this operation sends.
    pub closed spec fn spec_request(&self) -> AuthRoleRevokePermissionRequest {
        self.request
    }

    /// Attach a `client` to this operation.
    pub fn with_client<C2>(self, client: C2) -> (r: RoleRevokePermission<C2>)
        ensures
            r.spec_client() == client,
            r.spec_request() == self.spec_request(),
    {
        RoleRevokePermission { client, request: self.request }
    }

    /// The name of the role.
    pub fn name(&self) -> (r: &str)
        ensures
            r@ == self.spec_request().role@,
    {
        self.request.role.as_str()
    }

    /// The range whose permission is revoked.
    pub fn target_range(&self) -> (r: TargetRange<'_>)
        ensures
            decodes_wire(r, self.spec_request().key@, self.spec_request().range_end@),
    {
        TargetRange::from_wire(self.request.key.as_slice(), self.request.range_end.as_slice())
    }

    /// Consume this operation and return the request it sends.
    pub fn into_request(self) -> (r: AuthRoleRevokePermissionRequest)
        ensures
            r == self.spec_request(),
    {
        self.request
    }
}

/// The response from revoking a permission.
#[derive(Clone, Copy, Debug)]
pub struct RoleRevokePermissionResponse {
    header: ResponseHeader,
}

impl RoleRevokePermissionResponse {
    /// The header of this response.
    pub closed spec fn spec_header(&self) -> ResponseHeader {
        self.header
    }

    /// Decode the reply to revoking a permission.
    pub fn from_pb(resp: HeaderOnlyResponse) -> (r: Self)
        requires
            resp.header matches Some(h) && header_ok(h),
        ensures
            header_matches(r.spec_header(), resp.header.unwrap()),
    {
        RoleRevokePermissionResponse { header: ResponseHeader::from_pb(resp.header.unwrap()) }
    }

    /// The response header containing cluster metadata and the store revision.
    pub fn header(&self) -> (r: &ResponseHeader)
        ensures
            *r == self.spec_header(),
    {
        &self.header
    }
}

} // verus!
