//! The raw objects, as `k8s_openapi` defines them, and what the records read
//! from them.
//!
//! The object types are opaque to the verifier. What the library reads of an
//! object is named by a model: a mathematical value with the fields of
//! interest. The accessors below read one field each, and their contracts tie
//! what they return to the model. These contracts are stated, not proved:
//! they say what the field access, the `clone` or the `==` of the outside type
//! does.

use k8s_openapi::api::rbac::v1::{ClusterRole, ClusterRoleBinding, Role, RoleBinding, RoleRef};
use k8s_openapi::apimachinery::pkg::apis::meta::v1::{ObjectMeta, Time};
use k8s_openapi::chrono::Utc;
use vstd::prelude::*;

verus! {

/// `k8s_openapi`'s `Time`: an instant, held as a `chrono::DateTime<Utc>`.
#[verifier::external_type_specification]
#[verifier::external_body]
pub struct ExTime(Time);

/// `k8s_openapi`'s `ObjectMeta`: the metadata that every object carries.
#[verifier::external_type_specification]
#[verifier::external_body]
pub struct ExObjectMeta(ObjectMeta);

/// `k8s_openapi`'s `RoleRef`: the reference of a binding to its role.
#[verifier::external_type_specification]
#[verifier::external_body]
pub struct ExRoleRef(RoleRef);

/// `k8s_openapi`'s `Role`: a role within a namespace.
#[verifier::external_type_specification]
#[verifier::external_body]
pub struct ExRole(Role);

/// `k8s_openapi`'s `ClusterRole`: a role for the whole cluster.
#[verifier::external_type_specification]
#[verifier::external_body]
pub struct ExClusterRole(ClusterRole);

/// `k8s_openapi`'s `RoleBinding`: a binding within a namespace.
#[verifier::external_type_specification]
#[verifier::external_body]
pub struct ExRoleBinding(RoleBinding);

/// `k8s_openapi`'s `ClusterRoleBinding`: a binding for the whole cluster.
#[verifier::external_type_specification]
#[verifier::external_body]
pub struct ExClusterRoleBinding(ClusterRoleBinding);

/// What the records read of an object's metadata.
pub struct MetaModel {
    /// `metadata.namespace`, where it is set.
    pub namespace: Option<Seq<char>>,
    /// `metadata.name`, where it is set.
    pub name: Option<Seq<char>>,
    /// `metadata.creationTimestamp`, where it is set, in seconds since the
    /// Unix epoch.
    pub created: Option<int>,
}

/// What the records read of a binding's reference to a role.
pub struct RoleRefModel {
    /// `roleRef.kind`.
    pub kind: Seq<char>,
    /// `roleRef.name`.
    pub name: Seq<char>,
}

/// What the records read of a binding: its metadata and its role reference.
pub struct BindingModel {
    /// `metadata`.
    pub metadata: MetaModel,
    /// `roleRef`.
    pub role_ref: RoleRefModel,
}

/// The instant that a `Time` holds, in whole seconds since the Unix epoch,
/// leap seconds not counted.
pub uninterp spec fn epoch_seconds(time: Time) -> int;

/// The fields of an `ObjectMeta` that the records read.
pub uninterp spec fn meta_model(meta: ObjectMeta) -> MetaModel;

/// The fields of a `RoleRef` that the records read.
pub uninterp spec fn role_ref_model(role_ref: RoleRef) -> RoleRefModel;

/// The metadata of a `Role`.
pub uninterp spec fn role_model(role: Role) -> MetaModel;

/// The metadata of a `ClusterRole`.
pub uninterp spec fn cluster_role_model(cluster_role: ClusterRole) -> MetaModel;

/// The metadata and the role reference of a `RoleBinding`.
pub uninterp spec fn role_binding_model(binding: RoleBinding) -> BindingModel;

/// The metadata and the role reference of a `ClusterRoleBinding`.
pub uninterp spec fn cluster_role_binding_model(binding: ClusterRoleBinding) -> BindingModel;

/// The text of an optional field, empty where the field is not set.
pub open spec fn text_or_empty(field: Option<Seq<char>>) -> Seq<char> {
    match field {
        Some(text) => text,
        None => Seq::empty(),
    }
}

/// `chrono::Utc::now`, wrapped in a `Time`: the wall clock. Nothing is
/// stated of the instant it returns. chrono panics here if the system clock
/// stands before 1970.
#[verifier::external_body]
pub(crate) fn current_time() -> Time {
    Time(Utc::now())
}

/// `chrono::DateTime::timestamp` on the instant inside a `Time`: the number
/// of non-leap seconds since 1970-01-01 00:00:00 UTC, which `epoch_seconds`
/// names.
#[verifier::external_body]
pub(crate) fn time_seconds(time: &Time) -> (res: i64)
    ensures
        res == epoch_seconds(*time),
{
    time.0.timestamp()
}

/// The field `name` of an `ObjectMeta`, cloned.
#[verifier::external_body]
pub(crate) fn meta_name(meta: &ObjectMeta) -> (res: Option<String>)
    ensures
        match res {
            Some(text) => meta_model(*meta).name == Some(text@),
            None => meta_model(*meta).name is None,
        },
{
    meta.name.clone()
}

/// The field `namespace` of an `ObjectMeta`, cloned.
#[verifier::external_body]
pub(crate) fn meta_namespace(meta: &ObjectMeta) -> (res: Option<String>)
    ensures
        match res {
            Some(text) => meta_model(*meta).namespace == Some(text@),
            None => meta_model(*meta).namespace is None,
        },
{
    meta.namespace.clone()
}

/// The field `creation_timestamp` of an `ObjectMeta`, by reference.
#[verifier::external_body]
pub(crate) fn meta_creation_timestamp(meta: &ObjectMeta) -> (res: Option<&Time>)
    ensures
        match res {
            Some(time) => meta_model(*meta).created == Some(epoch_seconds(*time)),
            None => meta_model(*meta).created is None,
        },
{
    meta.creation_timestamp.as_ref()
}

/// The field `kind` of a `RoleRef`, cloned.
#[verifier::external_body]
pub(crate) fn role_ref_kind(role_ref: &RoleRef) -> (res: String)
    ensures
        res@ == role_ref_model(*role_ref).kind,
{
    role_ref.kind.clone()
}

/// The field `name` of a `RoleRef`, cloned.
#[verifier::external_body]
pub(crate) fn role_ref_name(role_ref: &RoleRef) -> (res: String)
    ensures
        res@ == role_ref_model(*role_ref).name,
{
    role_ref.name.clone()
}

/// The field `metadata` of a `Role`.
#[verifier::external_body]
pub(crate) fn role_metadata(role: &Role) -> (res: &ObjectMeta)
    ensures
        meta_model(*res) == role_model(*role),
{
    &role.metadata
}

/// The field `metadata` of a `ClusterRole`.
#[verifier::external_body]
pub(crate) fn cluster_role_metadata(cluster_role: &ClusterRole) -> (res: &ObjectMeta)
    ensures
        meta_model(*res) == cluster_role_model(*cluster_role),
{
    &cluster_role.metadata
}

/// The field `metadata` of a `RoleBinding`.
#[verifier::external_body]
pub(crate) fn role_binding_metadata(binding: &RoleBinding) -> (res: &ObjectMeta)
    ensures
        meta_model(*res) == role_binding_model(*binding).metadata,
{
    &binding.metadata
}

/// The field `role_ref` of a `RoleBinding`.
#[verifier::external_body]
pub(crate) fn role_binding_role_ref(binding: &RoleBinding) -> (res: &RoleRef)
    ensures
        role_ref_model(*res) == role_binding_model(*binding).role_ref,
{
    &binding.role_ref
}

/// The field `metadata` of a `ClusterRoleBinding`.
#[verifier::external_body]
pub(crate) fn cluster_role_binding_metadata(binding: &ClusterRoleBinding) -> (res: &ObjectMeta)
    ensures
        meta_model(*res) == cluster_role_binding_model(*binding).metadata,
{
    &binding.metadata
}

/// The field `role_ref` of a `ClusterRoleBinding`.
#[verifier::external_body]
pub(crate) fn cluster_role_binding_role_ref(binding: &ClusterRoleBinding) -> (res: &RoleRef)
    ensures
        role_ref_model(*res) == cluster_role_binding_model(*binding).role_ref,
{
    &binding.role_ref
}

/// `Role::clone`, which `derive` wrote for the outside type: a copy, field
/// by field, equal to the object it was made from.
#[verifier::external_body]
pub(crate) fn clone_role(role: &Role) -> (res: Role)
    ensures
        res == *role,
{
    role.clone()
}

/// `ClusterRole::clone`, which `derive` wrote for the outside type: a copy,
/// field by field, equal to the object it was made from.
#[verifier::external_body]
pub(crate) fn clone_cluster_role(cluster_role: &ClusterRole) -> (res: ClusterRole)
    ensures
        res == *cluster_role,
{
    cluster_role.clone()
}

/// `RoleBinding::clone`, which `derive` wrote for the outside type: a copy,
/// field by field, equal to the object it was made from.
#[verifier::external_body]
pub(crate) fn clone_role_binding(binding: &RoleBinding) -> (res: RoleBinding)
    ensures
        res == *binding,
{
    binding.clone()
}

/// `ClusterRoleBinding::clone`, which `derive` wrote for the outside type: a
/// copy, field by field, equal to the object it was made from.
#[verifier::external_body]
pub(crate) fn clone_cluster_role_binding(binding: &ClusterRoleBinding) -> (res: ClusterRoleBinding)
    ensures
        res == *binding,
{
    binding.clone()
}

/// `Role::eq`, which `derive` wrote: true exactly when every field of the
/// two objects is equal.
#[verifier::external_body]
pub(crate) fn role_eq(a: &Role, b: &Role) -> (res: bool)
    ensures
        res == (*a == *b),
{
    a == b
}

/// `ClusterRole::eq`, which `derive` wrote: true exactly when every field of
/// the two objects is equal.
#[verifier::external_body]
pub(crate) fn cluster_role_eq(a: &ClusterRole, b: &ClusterRole) -> (res: bool)
    ensures
        res == (*a == *b),
{
    a == b
}

/// `RoleBinding::eq`, which `derive` wrote: true exactly when every field of
/// the two objects is equal.
#[verifier::external_body]
pub(crate) fn role_binding_eq(a: &RoleBinding, b: &RoleBinding) -> (res: bool)
    ensures
        res == (*a == *b),
{
    a == b
}

/// `ClusterRoleBinding::eq`, which `derive` wrote: true exactly when every
/// field of the two objects is equal.
#[verifier::external_body]
pub(crate) fn cluster_role_binding_eq(a: &ClusterRoleBinding, b: &ClusterRoleBinding) -> (res:
    bool)
    ensures
        res == (*a == *b),
{
    a == b
}

} // verus!
