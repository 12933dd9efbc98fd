//! Drivers: the service boundary that executes operations. A client implements them by sending
//! each operation to a server; another backend can implement them differently.
use vstd::prelude::*;
use crate::errors::{ClusterError, GetError, RoleError, TransactionError, UserError};
use crate::ops::cluster::{
    MemberAdd, MemberAddResponse, MemberList, MemberListResponse, MemberPromote, MemberPromoteResponse,
    MemberRemove, MemberRemoveResponse, MemberUpdate, MemberUpdateResponse,
};
use crate::ops::get::{Get, GetResponse};
use crate::ops::role::{
    RoleAdd, RoleAddResponse, RoleDelete, RoleDeleteResponse, RoleGet, RoleGetResponse, RoleGrantPermission,
    RoleGrantPermissionResponse, RoleList, RoleListResponse, RoleRevokePermission,
    RoleRevokePermissionResponse,
};
use crate::ops::transaction::{Transaction, TransactionResponse};
use crate::ops::user::{UserAdd, UserAddResponse, UserGrantRole, UserGrantRoleResponse};

verus! {

/// Driver for get operations.
pub trait GetDriver {
    /// The future returned by [`execute_get`][Self::execute_get].
    type GetFuture: std::future::Future<Output = Result<GetResponse, GetError>> + Send;

    /// Execute a get operation.
    fn execute_get(self, get: Get<()>) -> Self::GetFuture;
}

/// Driver for transactions.
pub trait TransactionDriver {
    /// The future returned by [`execute_transaction`][Self::execute_transaction].
    type CommitFuture: std::future::Future<Output = Result<TransactionResponse, TransactionError>> + Send;

    /// Execute a transaction.
    fn execute_transaction(self, txn: Transaction<()>) -> Self::CommitFuture;
}

/// Driver for user and role operations.
pub trait AuthDriver {
    type UserAddFuture: std::future::Future<Output = Result<UserAddResponse, UserError>> + Send;
    type UserGrantRoleFuture: std::future::Future<Output = Result<UserGrantRoleResponse, UserError>> + Send;
    type RoleAddFuture: std::future::Future<Output = Result<RoleAddResponse, RoleError>> + Send;
    type RoleGetFuture: std::future::Future<Output = Result<RoleGetResponse, RoleError>> + Send;
    type RoleListFuture: std::future::Future<Output = Result<RoleListResponse, RoleError>> + Send;
    type RoleDeleteFuture: std::future::Future<Output = Result<RoleDeleteResponse, RoleError>> + Send;
    type RoleGrantPermissionFuture: std::future::Future<Output = Result<RoleGrantPermissionResponse, RoleError>> + Send;
    type RoleRevokePermissionFuture: std::future::Future<Output = Result<RoleRevokePermissionResponse, RoleError>> + Send;

    fn execute_user_add(self, op: UserAdd<()>) -> Self::UserAddFuture;

    fn execute_user_grant_role(self, op: UserGrantRole<()>) -> Self::UserGrantRoleFuture;

    fn execute_role_add(self, op: RoleAdd<()>) -> Self::RoleAddFuture;

    fn execute_role_get(self, op: RoleGet<()>) -> Self::RoleGetFuture;

    fn execute_role_list(self, op: RoleList<()>) -> Self::RoleListFuture;

    fn execute_role_delete(self, op: RoleDelete<()>) -> Self::RoleDeleteFuture;

    fn execute_role_grant_permission(self, op: RoleGrantPermission<()>) -> Self::RoleGrantPermissionFuture;

    fn execute_role_revoke_permission(self, op: RoleRevokePermission<()>) -> Self::RoleRevokePermissionFuture;
}

/// Driver for cluster membership operations.
pub trait ClusterDriver {
    type MemberListFuture: std::future::Future<Output = Result<MemberListResponse, ClusterError>> + Send;
    type MemberAddFuture: std::future::Future<Output = Result<MemberAddResponse, ClusterError>> + Send;
    type MemberRemoveFuture: std::future::Future<Output = Result<MemberRemoveResponse, ClusterError>> + Send;
    type MemberUpdateFuture: std::future::Future<Output = Result<MemberUpdateResponse, ClusterError>> + Send;
    type MemberPromoteFuture: std::future::Future<Output = Result<MemberPromoteResponse, ClusterError>> + Send;

    fn execute_member_list(self, op: MemberList<()>) -> Self::MemberListFuture;

    fn execute_member_add(self, op: MemberAdd<()>) -> Self::MemberAddFuture;

    fn execute_member_remove(self, op: MemberRemove<()>) -> Self::MemberRemoveFuture;

    fn execute_member_update(self, op: MemberUpdate<()>) -> Self::MemberUpdateFuture;

    fn execute_member_promote(self, op: MemberPromote<()>) -> Self::MemberPromoteFuture;
}

} // verus!
