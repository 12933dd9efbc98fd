//! Adding users and granting them roles.
use vstd::prelude::*;
use crate::convert::{header_matches, header_ok};
use crate::ids::ResponseHeader;
use crate::pb::{AuthUserAddRequest, AuthUserGrantRoleRequest, HeaderOnlyResponse};

verus! {

/// A request to add a user.
pub struct UserAdd<C> {
    client: C,
    request: AuthUserAddRequest,
}

/// Whether a user-add request creates a user without a password.
pub open spec fn adds_without_password(req: AuthUserAddRequest) -> bool {
    req.no_password == Some(true)
}

impl UserAdd<()> {
    /// Add the user `name`, with an empty password and no options.
    pub fn new(name: &str) -> (r: Self)
        ensures
            r.spec_request().name@ == name@,
            r.spec_request().password@ == Seq::<char>::empty(),
            r.spec_request().no_password is None,
    {
        UserAdd {
            client: (),
            request: AuthUserAddRequest { name: name.to_owned(), password: String::new(), no_password: None },
        }
    }
}

impl<C> UserAdd<C> {
    /// The client this operation runs on.
    pub closed spec fn spec_client(&self) -> C {
        self.client
    }

    /// The user-add request this operation sends.
    pub closed spec fn spec_request(&self) -> AuthUserAddRequest {
        self.request
    }

    /// Attach a `client` to this operation.
    pub fn with_client<C2>(self, client: C2) -> (r: UserAdd<C2>)
        ensures
            r.spec_client() == client,
            r.spec_request() == self.spec_request(),
    {
        UserAdd { client, request: self.request }
    }

    /// Set the password; this clears a no-password option.
    pub fn password(self, password: &str) -> (r: Self)
        ensures
            r.spec_client() == self.spec_client(),
            r.spec_request().name == self.spec_request().name,
            r.spec_request().password@ == password@,
            r.spec_request().no_password is None,
    {
        let mut request = self.request;
        request.password = password.to_owned();
        request.no_password = None;
        UserAdd { client: self.client, request }
    }

    /// Create the user without a password; this clears the password.
    pub fn no_password(self) -> (r: Self)
        ensures
            r.spec_client() == self.spec_client(),
            r.spec_request().name == self.spec_request().name,
            r.spec_request().password@ == Seq::<char>::empty(),
            r.spec_request().no_password == Some(true),
    {
        let mut request = self.request;
        request.password = String::new();
        request.no_password = Some(true);
        UserAdd { client: self.client, request }
    }

    /// The name of the user to add.
    pub fn name(&self) -> (r: &str)
        ensures
            r@ == self.spec_request().name@,
    {
        self.request.name.as_str()
    }

    /// The password that will be set, or `None` when the user is created without one.
    pub fn configured_password(&self) -> (r: Option<&str>)
        ensures
            r is None <==> adds_without_password(self.spec_request()),
            r matches Some(p) ==> p@ == self.spec_request().password@,
    {
        if self.is_no_password() {
            None
        } else {
            Some(self.request.password.as_str())
        }
    }

    /// Whether the user is created without a password.
    pub fn is_no_password(&self) -> (r: bool)
        ensures
            r == adds_without_password(self.spec_request()),
    {
        match self.request.no_password {
            Some(flag) => flag,
            None => false,
        }
    }

    /// Consume this operation and return the request it sends.
    pub fn into_request(self) -> (r: AuthUserAddRequest)
        ensures
            r == self.spec_request(),
    {
        self.request
    }
}

/// A request to grant a role to a user.
pub struct UserGrantRole<C> {
    client: C,
    request: AuthUserGrantRoleRequest,
}

impl UserGrantRole<()> {
    /// Grant `role` to `user`.
    pub fn new(user: &str, role: &str) -> (r: Self)
        ensures
            r.spec_request().user@ == user@,
            r.spec_request().role@ == role@,
    {
        UserGrantRole {
            client: (),
            request: AuthUserGrantRoleRequest { user: user.to_owned(), role: role.to_owned() },
        }
    }
}

impl<C> UserGrantRole<C> {
    /// The client this operation runs on.
    pub closed spec fn spec_client(&self) -> C {
        self.client
    }

    /// The grant request this operation sends.
    pub closed spec fn spec_request(&self) -> AuthUserGrantRoleRequest {
        self.request
    }

    /// Attach a `client` to this operation.
    pub fn with_client<C2>(self, client: C2) -> (r: UserGrantRole<C2>)
        ensures
            r.spec_client() == client,
            r.spec_request() == self.spec_request(),
    {
        UserGrantRole { client, request: self.request }
    }

    /// The user the role is granted to.
    pub fn user(&self) -> (r: &str)
        ensures
            r@ == self.spec_request().user@,
    {
        self.request.user.as_str()
    }

    /// The role granted.
    pub fn role(&self) -> (r: &str)
        ensures
            r@ == self.spec_request().role@,
    {
        self.request.role.as_str()
    }

    /// Consume this operation and return the request it sends.
    pub fn into_request(self) -> (r: AuthUserGrantRoleRequest)
        ensures
            r == self.spec_request(),
    {
        self.request
    }
}

/// The response from adding a user.
#[derive(Clone, Copy, Debug)]
pub struct UserAddResponse {
    header: ResponseHeader,
}

impl UserAddResponse {
    /// The header of this response.
    pub closed spec fn spec_header(&self) -> ResponseHeader {
        self.header
    }

    /// Decode the reply to adding a user.
    pub fn from_pb(resp: HeaderOnlyResponse) -> (r: Self)
        requires
            resp.header matches Some(h) && header_ok(h),
        ensures
            header_matches(r.spec_header(), resp.header.unwrap()),
    {
        UserAddResponse { header: ResponseHeader::from_pb(resp.header.unwrap()) }
    }

    /// The response header containing cluster metadata and the store revision.
    pub fn header(&self) -> (r: &ResponseHeader)
        ensures
            *r == self.spec_header(),
    {
        &self.header
    }
}

/// The response from granting a role to a user.
#[derive(Clone, Copy, Debug)]
pub struct UserGrantRoleResponse {
    header: ResponseHeader,
}

impl UserGrantRoleResponse {
    /// The header of this response.
    pub closed spec fn spec_header(&self) -> ResponseHeader {
        self.header
    }

    /// Decode the reply to granting a role.
    pub fn from_pb(resp: HeaderOnlyResponse) -> (r: Self)
        requires
            resp.header matches Some(h) && header_ok(h),
        ensures
            header_matches(r.spec_header(), resp.header.unwrap()),
    {
        UserGrantRoleResponse { header: ResponseHeader::from_pb(resp.header.unwrap()) }
    }

    /// The response header containing cluster metadata and the store revision.
    pub fn header(&self) -> (r: &ResponseHeader)
        ensures
            *r == self.spec_header(),
    {
        &self.header
    }
}

} // verus!
