use etcdrs::errors::ClusterErrorKind::{
    Authentication, DataLoss, Exhausted, LearnerNotReady, MemberAlreadyExists, MemberNotFound, MemberNotLearner,
    PeerUrlExists, Timeout, UnhealthyCluster, Unknown,
};
use etcdrs::errors::{ClusterError, ClusterErrorKind};
use tonic::Code;

fn kind_of(code: tonic::Code, message: &str) -> ClusterErrorKind {
    ClusterError::from_status(tonic::Status::new(code, message)).kind()
}

#[test]
fn etcd_membership_rejections_are_classified() {
    for (code, message, expected) in [
        (Code::NotFound, "etcdserver: member not found", MemberNotFound),
        (
            Code::FailedPrecondition,
            "etcdserver: member ID already exist",
            MemberAlreadyExists,
        ),
        (
            Code::FailedPrecondition,
            "etcdserver: Peer URLs already exists",
            PeerUrlExists,
        ),
        (
            Code::FailedPrecondition,
            "etcdserver: can only promote a learner member",
            MemberNotLearner,
        ),
        (
            Code::FailedPrecondition,
            "etcdserver: can only promote a learner member which is in sync with leader",
            LearnerNotReady,
        ),
        (Code::Unavailable, "etcdserver: unhealthy cluster", UnhealthyCluster),
        (
            Code::Unknown,
            "etcdserver: re-configuration failed due to not enough started members",
            UnhealthyCluster,
        ),
    ] {
        assert_eq!(kind_of(code, message), expected, "{code:?} {message:?}");
    }
}

#[test]
fn too_many_learners_has_no_kind_of_its_own_yet() {
    assert_eq!(
        kind_of(
            tonic::Code::FailedPrecondition,
            "etcdserver: too many learner members in cluster"
        ),
        ClusterErrorKind::Unknown
    );
}

#[test]
fn invalid_argument_is_authentication_only_for_auth_messages() {
    for (message, expected) in [
        ("etcdserver: user name is empty", Authentication),
        ("etcdserver: revision of auth store is old", Authentication),
        ("etcdserver: invalid auth management", Authentication),
        ("etcdserver: given member URLs are invalid", Unknown),
        ("etcdserver: request is too large", Unknown),
        ("etcdserver: invalid client api version", Unknown),
    ] {
        assert_eq!(kind_of(tonic::Code::InvalidArgument, message), expected, "{message:?}");
    }
}

#[test]
fn not_enough_started_members_is_accepted_under_either_code() {
    let message = "etcdserver: re-configuration failed due to not enough started members";
    assert_eq!(
        kind_of(tonic::Code::FailedPrecondition, message),
        ClusterErrorKind::UnhealthyCluster
    );
}

#[test]
fn unrelated_unknown_stays_unknown() {
    assert_eq!(
        kind_of(tonic::Code::Unknown, "transport error"),
        ClusterErrorKind::Unknown
    );
}

#[test]
fn unrelated_unavailable_stays_unavailable() {
    for message in ["transport error", "etcdserver: no leader"] {
        assert_eq!(
            kind_of(tonic::Code::Unavailable, message),
            ClusterErrorKind::Unavailable,
            "{message:?}"
        );
    }
}

#[test]
fn messages_etcd_never_sends_are_unknown() {
    for message in [
        "etcdserver: ID exists",
        "etcdserver: ID removed",
        "etcdserver: peerURL exists",
        "etcdserver: learner not ready",
        "etcdserver: not a learner",
    ] {
        assert_eq!(
            kind_of(tonic::Code::FailedPrecondition, message),
            ClusterErrorKind::Unknown,
            "{message:?}"
        );
    }
}

#[test]
fn code_only_classifications() {
    for (code, expected) in [
        (Code::Unauthenticated, Authentication),
        (Code::PermissionDenied, Authentication),
        (Code::ResourceExhausted, Exhausted),
        (Code::DataLoss, DataLoss),
        (Code::Cancelled, Timeout),
        (Code::DeadlineExceeded, Timeout),
        (Code::Internal, Unknown),
    ] {
        assert_eq!(kind_of(code, "etcdserver: unhealthy cluster"), expected, "{code:?}");
    }
}
