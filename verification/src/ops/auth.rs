//! Enabling and disabling authentication, and authenticating.
use vstd::prelude::*;
use crate::convert::{header_matches, header_ok};
use crate::ids::ResponseHeader;
use crate::pb::{AuthenticateReply, HeaderOnlyResponse};

verus! {

/// The response from enabling authentication.
#[derive(Clone, Copy, Debug)]
pub struct AuthEnableResponse {
    header: ResponseHeader,
}

impl AuthEnableResponse {
    /// The header of this response.
    pub closed spec fn spec_header(&self) -> ResponseHeader {
        self.header
    }

    /// Decode the reply to enabling authentication.
    pub fn from_pb(resp: HeaderOnlyResponse) -> (r: Self)
        requires
            resp.header matches Some(h) && header_ok(h),
        ensures
            header_matches(r.spec_header(), resp.header.unwrap()),
    {
        AuthEnableResponse { header: ResponseHeader::from_pb(resp.header.unwrap()) }
    }

    /// The response header containing cluster metadata and the store revision.
    pub fn header(&self) -> (r: &ResponseHeader)
        ensures
            *r == self.spec_header(),
    {
        &self.header
    }
}

/// The response from disabling authentication.
#[derive(Clone, Copy, Debug)]
pub struct AuthDisableResponse {
    header: ResponseHeader,
}

impl AuthDisableResponse {
    /// The header of this response.
    pub closed spec fn spec_header(&self) -> ResponseHeader {
        self.header
    }

    /// Decode the reply to disabling authentication.
    pub fn from_pb(resp: HeaderOnlyResponse) -> (r: Self)
        requires
            resp.header matches Some(h) && header_ok(h),
        ensures
            header_matches(r.spec_header(), resp.header.unwrap()),
    {
        AuthDisableResponse { header: ResponseHeader::from_pb(resp.header.unwrap()) }
    }

    /// The response header containing cluster metadata and the store revision.
    pub fn header(&self) -> (r: &ResponseHeader)
        ensures
            *r == self.spec_header(),
    {
        &self.header
    }
}

/// The response from authenticating: the token to send with later requests.
#[derive(Debug)]
pub struct AuthenticateResponse {
    header: ResponseHeader,
    token: String,
}

impl AuthenticateResponse {
    /// The header of this response.
    pub closed spec fn spec_header(&self) -> ResponseHeader {
        self.header
    }

    /// The token issued.
    pub closed spec fn spec_token(&self) -> Seq<char> {
        self.token@
    }

    /// Decode the reply to an authentication.
    pub fn from_pb(resp: AuthenticateReply) -> (r: Self)
        requires
            resp.header matches Some(h) && header_ok(h),
        ensures
            header_matches(r.spec_header(), resp.header.unwrap()),
            r.spec_token() == resp.token@,
    {
        AuthenticateResponse { header: ResponseHeader::from_pb(resp.header.unwrap()), token: resp.token }
    }

    /// The response header containing cluster metadata and the store revision.
    pub fn header(&self) -> (r: &ResponseHeader)
        ensures
            *r == self.spec_header(),
    {
        &self.header
    }

    /// The token issued.
    pub fn token(&self) -> (r: &str)
        ensures
            r@ == self.spec_token(),
    {
        self.token.as_str()
    }

    /// Consume the response and return the token.
    pub fn into_token(self) -> (r: String)
        ensures
            r@ == self.spec_token(),
    {
        self.token
    }
}

} // verus!
