//! Verified core of the ALCOMD daemon: domain values, access control,
//! request validation, session bookkeeping and workflow decisions.

pub mod access;
pub mod archive;
pub mod backup;
pub mod candidate_query;
pub mod candidates;
pub mod client_config;
pub mod copy;
pub mod delete;
pub mod domain;
pub mod extension_install;
pub mod extensions;
pub mod host_protocol;
pub mod ids;
pub mod locks;
pub mod migration;
pub mod migration_run;
pub mod order;
pub mod package;
pub mod packages;
pub mod registry;
pub mod settings;
pub mod template;
pub mod text;
pub mod ui_bridge;
pub mod ui_flow;
pub mod ui_session;
pub mod unity;
pub mod user_packages;
pub mod uuids;

pub use domain::{
    DomainValueError, IdempotencyKey, OperationState, Permission, PrincipalId, RecoveryAction,
    ResourceKey, Revision,
};
pub use ids::{
    BackupId, OperationId, PlanId, ProjectId, RepositoryId, TemplateId, UnityInstallationId,
    UnityLaunchId, UserPackageId,
};
