//! The service configuration: its types, defaults, local overrides and validation.
pub mod checks;
pub mod defaults;
pub mod local;
pub mod paths;
pub mod types;
pub mod validation;

pub use types::{
    BuildConfig, CaddyConfig, Config, PocketBaseConfig, RemoteConfig, ResolvedPocketBase,
    ResolvedService, ResolvedServiceKind, ResolvedWarpProxy, ServiceConfig, ServiceKind,
    ServiceMap, WarpProxyConfig,
};
pub use local::{LocalConfig, LocalRemoteConfig};
pub use validation::ResolvedPaths;
