use etcdrs::ops::auth::{AuthEnableResponse, AuthenticateResponse};
use etcdrs::ops::cluster::{members_ready, Member, MemberAdd, MemberAddResponse, MemberList, MemberListResponse};
use etcdrs::ops::role::{
    Permission, PermissionType, RoleGetResponse, RoleGrantPermission, RoleListResponse, RoleRevokePermission,
};
use etcdrs::ops::user::{UserAdd, UserGrantRole};
use etcdrs::pb::{
    AuthenticateReply, HeaderOnlyResponse, MemberAddReply, MembersReply, PbMember, PbPermission, PbResponseHeader,
    RoleGetReply, RoleListReply,
};
use etcdrs::range::{Prefix, TargetRange};

fn header(revision: i64) -> PbResponseHeader {
    PbResponseHeader { cluster_id: 1, member_id: 2, revision, raft_term: 3 }
}

fn member(id: u64, name: &str, client_url: Option<&str>) -> PbMember {
    PbMember {
        id,
        name: name.to_string(),
        peer_urls: vec![format!("http://{name}:2380")],
        client_urls: client_url.map(|u| vec![u.to_string()]).unwrap_or_default(),
        is_learner: false,
    }
}

#[test]
fn user_add_with_and_without_password() {
    let add = UserAdd::new("alice").password("secret");
    assert_eq!(add.name(), "alice");
    assert_eq!(add.configured_password(), Some("secret"));
    assert!(!add.is_no_password());
    let request = add.into_request();
    assert_eq!(request.password, "secret");
    assert_eq!(request.no_password, None);
    let add = UserAdd::new("bob").no_password();
    assert!(add.is_no_password());
    assert_eq!(add.configured_password(), None);
    assert_eq!(add.into_request().no_password, Some(true));
}

#[test]
fn grant_role_names_user_and_role() {
    let grant = UserGrantRole::new("alice", "reader");
    assert_eq!(grant.user(), "alice");
    assert_eq!(grant.role(), "reader");
}

#[test]
fn permissions_round_trip_through_the_wire() {
    let permission = Permission::read_write(Prefix("app/"));
    assert_eq!(permission.permission_type(), PermissionType::ReadWrite);
    assert_eq!(permission.target_range(), TargetRange::Span(b"app/", b"app0"));
    let pb = permission.into_pb();
    assert_eq!(pb.perm_type, 2);
    let back = Permission::from_pb(pb);
    assert_eq!(back.permission_type(), PermissionType::ReadWrite);
    assert_eq!(back.target_range(), TargetRange::Span(b"app/", b"app0"));
    assert_eq!(Permission::read("k").into_pb().perm_type, 0);
    assert_eq!(Permission::write("k").into_pb().perm_type, 1);
}

#[test]
fn role_replies() {
    let got = RoleGetResponse::from_pb(RoleGetReply {
        header: Some(header(4)),
        perm: vec![PbPermission { perm_type: 1, key: b"k".to_vec(), range_end: vec![] }],
    });
    assert_eq!(got.permissions().len(), 1);
    assert_eq!(got.permissions()[0].permission_type(), PermissionType::Write);
    assert_eq!(got.permissions()[0].target_range(), TargetRange::Single(b"k"));
    let list = RoleListResponse::from_pb(RoleListReply {
        header: Some(header(4)),
        roles: vec!["a".to_string(), "b".to_string()],
    });
    assert_eq!(list.roles(), &["a".to_string(), "b".to_string()]);
    let grant = RoleGrantPermission::new("r", Permission::read("x"));
    assert_eq!(grant.name(), "r");
    assert_eq!(grant.permission().target_range(), TargetRange::Single(b"x"));
    let revoke = RoleRevokePermission::new("r", Prefix("x/"));
    assert_eq!(revoke.target_range(), TargetRange::Span(b"x/", b"x0"));
}

#[test]
fn auth_replies() {
    let enabled = AuthEnableResponse::from_pb(HeaderOnlyResponse { header: Some(header(6)) });
    assert_eq!(enabled.header().revision().get(), 6);
    let auth = AuthenticateResponse::from_pb(AuthenticateReply { header: Some(header(6)), token: "tok".to_string() });
    assert_eq!(auth.token(), "tok");
    assert_eq!(auth.into_token(), "tok");
}

#[test]
fn member_replies_and_readiness() {
    let list = MemberListResponse::from_pb(MembersReply {
        header: Some(header(1)),
        members: vec![member(1, "one", Some("http://one:2379")), member(2, "two", Some("http://two:2379"))],
    });
    assert_eq!(list.members().len(), 2);
    assert_eq!(list.members()[1].id().get(), 2);
    assert_eq!(list.members()[0].name(), "one");
    assert!(members_ready(list.members(), 2));
    assert!(!members_ready(list.members(), 3));
    let added = MemberAddResponse::from_pb(MemberAddReply {
        header: Some(header(1)),
        member: Some(member(3, "", None)),
        members: vec![member(1, "one", Some("http://one:2379")), member(3, "", None)],
    });
    assert_eq!(added.member().id().get(), 3);
    // A member that has not started has no name and no client URLs.
    assert!(!members_ready(added.members(), 2));
    let alone: Vec<Member> = vec![Member::from_pb(member(9, "nine", Some("http://nine:2379")))];
    assert!(members_ready(&alone, 1));
}

#[test]
fn member_requests() {
    assert!(!MemberList::new().is_linearizable());
    assert!(MemberList::new().linearizable().is_linearizable());
    let add = MemberAdd::new(vec!["http://new:2380".to_string()]).is_learner(true);
    assert!(add.is_learner_member());
    let request = add.into_request();
    assert!(request.is_learner);
    assert_eq!(request.peer_urls, vec!["http://new:2380".to_string()]);
}
