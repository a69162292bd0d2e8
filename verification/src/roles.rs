//! The records for the four kinds of access-control objects.

use crate::age::{age_at, to_age};
use crate::models::KubeResource;
use crate::raw::{
    clone_cluster_role, clone_cluster_role_binding, clone_role, clone_role_binding,
    cluster_role_binding_eq, cluster_role_binding_metadata, cluster_role_binding_model,
    cluster_role_binding_role_ref, cluster_role_eq, cluster_role_metadata, cluster_role_model,
    current_time, meta_creation_timestamp, meta_name, meta_namespace, role_binding_eq,
    role_binding_metadata, role_binding_model, role_binding_role_ref, role_eq, role_metadata,
    role_model, role_ref_kind, role_ref_name, text_or_empty,
};
use k8s_openapi::api::rbac::v1::{ClusterRole, ClusterRoleBinding, Role, RoleBinding};
use k8s_openapi::apimachinery::pkg::apis::meta::v1::Time;
use vstd::prelude::*;
use vstd::std_specs::cmp::PartialEqSpecImpl;
use vstd::string::StringExecFns;

verus! {

/// How a cluster role binding names the role it refers to: the kind of the
/// role, a slash, and its name. The kind is there because such a binding may
/// refer to a role of either kind.
pub open spec fn qualified_role(kind: Seq<char>, name: Seq<char>) -> Seq<char> {
    kind + seq!['/'] + name
}

/// The text of an optional field, empty where the field is not set.
fn text_or_default(field: Option<String>) -> (res: String)
    ensures
        match field {
            Some(text) => res@ == text@,
            None => res@ == Seq::<char>::empty(),
        },
{
    match field {
        Some(text) => text,
        None => String::new(),
    }
}

/// The record of a `Role`.
#[derive(Debug)]
pub struct KubeRoles {
    /// The namespace of the role, empty where the object names none.
    pub namespace: String,
    /// The name of the role, empty where the object has none.
    pub name: String,
    /// The age of the role when the record was made.
    pub age: String,
    /// The role itself.
    pub k8s_obj: Role,
}

/// The record of a `RoleBinding`.
#[derive(Debug)]
pub struct KubeRoleBindings {
    /// The namespace of the binding, empty where the object names none.
    pub namespace: String,
    /// The name of the binding, empty where the object has none.
    pub name: String,
    /// The name of the role that the binding refers to.
    pub role: String,
    /// The age of the binding when the record was made.
    pub age: String,
    /// The binding itself.
    pub k8s_obj: RoleBinding,
}

/// The record of a `ClusterRole`.
#[derive(Debug)]
pub struct KubeClusterRoles {
    /// The name of the cluster role, empty where the object has none.
    pub name: String,
    /// The age of the cluster role when the record was made.
    pub age: String,
    /// The cluster role itself.
    pub k8s_obj: ClusterRole,
}

/// The record of a `ClusterRoleBinding`.
#[derive(Debug)]
pub struct KubeClusterRoleBinding {
    /// The name of the binding, empty where the object has none.
    pub name: String,
    /// The role that the binding refers to, as kind, slash and name.
    pub role: String,
    /// The age of the binding when the record was made.
    pub age: String,
    /// The binding itself.
    pub k8s_obj: ClusterRoleBinding,
}

/// What a `KubeRoles` holds.
pub struct KubeRolesView {
    pub namespace: Seq<char>,
    pub name: Seq<char>,
    pub age: Seq<char>,
    pub k8s_obj: Role,
}

/// What a `KubeRoleBindings` holds.
pub struct KubeRoleBindingsView {
    pub namespace: Seq<char>,
    pub name: Seq<char>,
    pub role: Seq<char>,
    pub age: Seq<char>,
    pub k8s_obj: RoleBinding,
}

/// What a `KubeClusterRoles` holds.
pub struct KubeClusterRolesView {
    pub name: Seq<char>,
    pub age: Seq<char>,
    pub k8s_obj: ClusterRole,
}

/// What a `KubeClusterRoleBinding` holds.
pub struct KubeClusterRoleBindingView {
    pub name: Seq<char>,
    pub role: Seq<char>,
    pub age: Seq<char>,
    pub k8s_obj: ClusterRoleBinding,
}

impl View for KubeRoles {
    type V = KubeRolesView;

    open spec fn view(&self) -> KubeRolesView {
        KubeRolesView {
            namespace: self.namespace@,
            name: self.name@,
            age: self.age@,
            k8s_obj: self.k8s_obj,
        }
    }
}

impl View for KubeRoleBindings {
    type V = KubeRoleBindingsView;

    open spec fn view(&self) -> KubeRoleBindingsView {
        KubeRoleBindingsView {
            namespace: self.namespace@,
            name: self.name@,
            role: self.role@,
            age: self.age@,
            k8s_obj: self.k8s_obj,
        }
    }
}

impl View for KubeClusterRoles {
    type V = KubeClusterRolesView;

    open spec fn view(&self) -> KubeClusterRolesView {
        KubeClusterRolesView { name: self.name@, age: self.age@, k8s_obj: self.k8s_obj }
    }
}

impl View for KubeClusterRoleBinding {
    type V = KubeClusterRoleBindingView;

    open spec fn view(&self) -> KubeClusterRoleBindingView {
        KubeClusterRoleBindingView {
            name: self.name@,
            role: self.role@,
            age: self.age@,
            k8s_obj: self.k8s_obj,
        }
    }
}

impl KubeResource<Role> for KubeRoles {
    open spec fn converted(item: Role, now: int) -> KubeRolesView {
        let metadata = role_model(item);
        KubeRolesView {
            namespace: text_or_empty(metadata.namespace),
            name: text_or_empty(metadata.name),
            age: age_at(metadata.created, now),
            k8s_obj: item,
        }
    }

    open spec fn retained(&self) -> Role {
        self.k8s_obj
    }

    fn from_api_at(role: &Role, now: &Time) -> (res: Self)
        ensures
            role_model(*role).namespace is None
                ==> res.namespace@ == Seq::<char>::empty(),
            role_model(*role).name is None
                ==> res.name@ == Seq::<char>::empty(),
            role_model(*role).created is None
                ==> res.age@ == Seq::<char>::empty(),
    {
        let metadata = role_metadata(role);
        KubeRoles {
            namespace: text_or_default(meta_namespace(metadata)),
            name: text_or_default(meta_name(metadata)),
            age: to_age(meta_creation_timestamp(metadata), now),
            k8s_obj: clone_role(role),
        }
    }

    fn from_api(role: &Role) -> (res: Self)
        ensures
            role_model(*role).namespace is None
                ==> res.namespace@ == Seq::<char>::empty(),
            role_model(*role).name is None
                ==> res.name@ == Seq::<char>::empty(),
            role_model(*role).created is None
                ==> res.age@ == Seq::<char>::empty(),
    {
        let now = current_time();
        Self::from_api_at(role, &now)
    }

    fn get_k8s_obj(&self) -> (res: &Role) {
        &self.k8s_obj
    }
}

impl KubeResource<ClusterRole> for KubeClusterRoles {
    open spec fn converted(item: ClusterRole, now: int) -> KubeClusterRolesView {
        let metadata = cluster_role_model(item);
        KubeClusterRolesView {
            name: text_or_empty(metadata.name),
            age: age_at(metadata.created, now),
            k8s_obj: item,
        }
    }

    open spec fn retained(&self) -> ClusterRole {
        self.k8s_obj
    }

    fn from_api_at(clusterrole: &ClusterRole, now: &Time) -> (res: Self)
        ensures
            cluster_role_model(*clusterrole).name is None
                ==> res.name@ == Seq::<char>::empty(),
            cluster_role_model(*clusterrole).created is None
                ==> res.age@ == Seq::<char>::empty(),
    {
        let metadata = cluster_role_metadata(clusterrole);
        KubeClusterRoles {
            name: text_or_default(meta_name(metadata)),
            age: to_age(meta_creation_timestamp(metadata), now),
            k8s_obj: clone_cluster_role(clusterrole),
        }
    }

    fn from_api(clusterrole: &ClusterRole) -> (res: Self)
        ensures
            cluster_role_model(*clusterrole).name is None
                ==> res.name@ == Seq::<char>::empty(),
            cluster_role_model(*clusterrole).created is None
                ==> res.age@ == Seq::<char>::empty(),
    {
        let now = current_time();
        Self::from_api_at(clusterrole, &now)
    }

    fn get_k8s_obj(&self) -> (res: &ClusterRole) {
        &self.k8s_obj
    }
}

impl KubeResource<RoleBinding> for KubeRoleBindings {
    open spec fn converted(item: RoleBinding, now: int) -> KubeRoleBindingsView {
        let model = role_binding_model(item);
        KubeRoleBindingsView {
            namespace: text_or_empty(model.metadata.namespace),
            name: text_or_empty(model.metadata.name),
            role: model.role_ref.name,
            age: age_at(model.metadata.created, now),
            k8s_obj: item,
        }
    }

    open spec fn retained(&self) -> RoleBinding {
        self.k8s_obj
    }

    fn from_api_at(rolebinding: &RoleBinding, now: &Time) -> (res: Self)
        ensures
            role_binding_model(*rolebinding).metadata.namespace is None
                ==> res.namespace@ == Seq::<char>::empty(),
            role_binding_model(*rolebinding).metadata.name is None
                ==> res.name@ == Seq::<char>::empty(),
            role_binding_model(*rolebinding).metadata.created is None
                ==> res.age@ == Seq::<char>::empty(),
    {
        let metadata = role_binding_metadata(rolebinding);
        KubeRoleBindings {
            namespace: text_or_default(meta_namespace(metadata)),
            name: text_or_default(meta_name(metadata)),
            role: role_ref_name(role_binding_role_ref(rolebinding)),
            age: to_age(meta_creation_timestamp(metadata), now),
            k8s_obj: clone_role_binding(rolebinding),
        }
    }

    fn from_api(rolebinding: &RoleBinding) -> (res: Self)
        ensures
            role_binding_model(*rolebinding).metadata.namespace is None
                ==> res.namespace@ == Seq::<char>::empty(),
            role_binding_model(*rolebinding).metadata.name is None
                ==> res.name@ == Seq::<char>::empty(),
            role_binding_model(*rolebinding).metadata.created is None
                ==> res.age@ == Seq::<char>::empty(),
    {
        let now = current_time();
        Self::from_api_at(rolebinding, &now)
    }

    fn get_k8s_obj(&self) -> (res: &RoleBinding) {
        &self.k8s_obj
    }
}

impl KubeResource<ClusterRoleBinding> for KubeClusterRoleBinding {
    open spec fn converted(item: ClusterRoleBinding, now: int) -> KubeClusterRoleBindingView {
        let model = cluster_role_binding_model(item);
        KubeClusterRoleBindingView {
            name: text_or_empty(model.metadata.name),
            role: qualified_role(model.role_ref.kind, model.role_ref.name),
            age: age_at(model.metadata.created, now),
            k8s_obj: item,
        }
    }

    open spec fn retained(&self) -> ClusterRoleBinding {
        self.k8s_obj
    }

    fn from_api_at(clusterrolebinding: &ClusterRoleBinding, now: &Time) -> (res: Self)
        ensures
            cluster_role_binding_model(*clusterrolebinding).metadata.name is None
                ==> res.name@ == Seq::<char>::empty(),
            cluster_role_binding_model(*clusterrolebinding).metadata.created is None
                ==> res.age@ == Seq::<char>::empty(),
    {
        let metadata = cluster_role_binding_metadata(clusterrolebinding);
        let role_ref = cluster_role_binding_role_ref(clusterrolebinding);
        let mut role = role_ref_kind(role_ref);
        proof {
            reveal_strlit("/");
        }
        role.append("/");
        role.append(role_ref_name(role_ref).as_str());
        assert(role@ =~= qualified_role(
            cluster_role_binding_model(*clusterrolebinding).role_ref.kind,
            cluster_role_binding_model(*clusterrolebinding).role_ref.name,
        ));
        KubeClusterRoleBinding {
            name: text_or_default(meta_name(metadata)),
            role,
            age: to_age(meta_creation_timestamp(metadata), now),
            k8s_obj: clone_cluster_role_binding(clusterrolebinding),
        }
    }

    fn from_api(clusterrolebinding: &ClusterRoleBinding) -> (res: Self)
        ensures
            cluster_role_binding_model(*clusterrolebinding).metadata.name is None
                ==> res.name@ == Seq::<char>::empty(),
            cluster_role_binding_model(*clusterrolebinding).metadata.created is None
                ==> res.age@ == Seq::<char>::empty(),
    {
        let now = current_time();
        Self::from_api_at(clusterrolebinding, &now)
    }

    fn get_k8s_obj(&self) -> (res: &ClusterRoleBinding) {
        &self.k8s_obj
    }
}

impl Clone for KubeRoles {
    fn clone(&self) -> (res: Self)
        ensures
            res@ == self@,
            self.well_formed() ==> res.well_formed(),
    {
        KubeRoles {
            namespace: self.namespace.clone(),
            name: self.name.clone(),
            age: self.age.clone(),
            k8s_obj: clone_role(&self.k8s_obj),
        }
    }
}

impl Clone for KubeRoleBindings {
    fn clone(&self) -> (res: Self)
        ensures
            res@ == self@,
            self.well_formed() ==> res.well_formed(),
    {
        KubeRoleBindings {
            namespace: self.namespace.clone(),
            name: self.name.clone(),
            role: self.role.clone(),
            age: self.age.clone(),
            k8s_obj: clone_role_binding(&self.k8s_obj),
        }
    }
}

impl Clone for KubeClusterRoles {
    fn clone(&self) -> (res: Self)
        ensures
            res@ == self@,
            self.well_formed() ==> res.well_formed(),
    {
        KubeClusterRoles {
            name: self.name.clone(),
            age: self.age.clone(),
            k8s_obj: clone_cluster_role(&self.k8s_obj),
        }
    }
}

impl Clone for KubeClusterRoleBinding {
    fn clone(&self) -> (res: Self)
        ensures
            res@ == self@,
            self.well_formed() ==> res.well_formed(),
    {
        KubeClusterRoleBinding {
            name: self.name.clone(),
            role: self.role.clone(),
            age: self.age.clone(),
            k8s_obj: clone_cluster_role_binding(&self.k8s_obj),
        }
    }
}

impl PartialEq for KubeRoles {
    fn eq(&self, other: &Self) -> (res: bool) {
        self.namespace == other.namespace && self.name == other.name && self.age == other.age
            && role_eq(&self.k8s_obj, &other.k8s_obj)
    }
}

impl PartialEqSpecImpl for KubeRoles {
    open spec fn obeys_eq_spec() -> bool {
        true
    }

    /// Two records are equal exactly when they hold the same namespace, name
    /// and age and equal raw objects.
    open spec fn eq_spec(&self, other: &Self) -> bool {
        self@ == other@
    }
}

impl PartialEq for KubeRoleBindings {
    fn eq(&self, other: &Self) -> (res: bool) {
        self.namespace == other.namespace && self.name == other.name && self.role == other.role
            && self.age == other.age && role_binding_eq(&self.k8s_obj, &other.k8s_obj)
    }
}

impl PartialEqSpecImpl for KubeRoleBindings {
    open spec fn obeys_eq_spec() -> bool {
        true
    }

    /// Two records are equal exactly when they hold the same namespace,
    /// name, role and age and equal raw objects.
    open spec fn eq_spec(&self, other: &Self) -> bool {
        self@ == other@
    }
}

impl PartialEq for KubeClusterRoles {
    fn eq(&self, other: &Self) -> (res: bool) {
        self.name == other.name && self.age == other.age && cluster_role_eq(
            &self.k8s_obj,
            &other.k8s_obj,
        )
    }
}

impl PartialEqSpecImpl for KubeClusterRoles {
    open spec fn obeys_eq_spec() -> bool {
        true
    }

    /// Two records are equal exactly when they hold the same name and age
    /// and equal raw objects.
    open spec fn eq_spec(&self, other: &Self) -> bool {
        self@ == other@
    }
}

impl PartialEq for KubeClusterRoleBinding {
    fn eq(&self, other: &Self) -> (res: bool) {
        self.name == other.name && self.role == other.role && self.age == other.age
            && cluster_role_binding_eq(&self.k8s_obj, &other.k8s_obj)
    }
}

impl PartialEqSpecImpl for KubeClusterRoleBinding {
    open spec fn obeys_eq_spec() -> bool {
        true
    }

    /// Two records are equal exactly when they hold the same name, role and
    /// age and equal raw objects.
    open spec fn eq_spec(&self, other: &Self) -> bool {
        self@ == other@
    }
}

} // verus!
