//! Display records for Kubernetes access-control objects.
//!
//! A raw `Role`, `ClusterRole`, `RoleBinding` or `ClusterRoleBinding` is turned
//! into a record that holds the fields a list view shows (name, namespace,
//! referenced role, age) next to an owned copy of the object itself.
//!
//! - [`models`] holds the conversion that every kind of record offers.
//! - [`roles`] holds the four records.
//! - [`age`] writes the age of an object as text, and [`age_reading`] shows
//!   what such a text stands for.
//! - [`raw`] holds the raw object types and what is read from them.

pub mod age;
pub mod age_reading;
pub mod models;
pub mod raw;
pub mod roles;

pub use crate::age::{seconds_to_age, to_age};
pub use crate::models::{convert_all_at, KubeResource};
pub use crate::roles::{KubeClusterRoleBinding, KubeClusterRoles, KubeRoleBindings, KubeRoles};
