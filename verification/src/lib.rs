//! Certificate-authority bundle resolution for an HTTP client.
//!
//! Given a runtime environment, the library decides which CA bundle a TLS
//! context should trust: the platform's default trust store, a bundle
//! provided by an installed CA certificates package, or an embedded fallback
//! bundle cached on local disk. The decision procedure is pure: the caller
//! gathers the inputs (environment, package registry answer, cache state)
//! and performs the filesystem writes and TLS calls that the returned
//! resolution asks for.

pub mod ident;
pub mod paths;
pub mod resolver;

pub use crate::ident::{PackageIdent, cacerts_package_ident, parse_package_ident};
pub use crate::paths::{cache_ssl_dir, cached_cert_path, pkg_cert_path};
pub use crate::resolver::{
    CaSource, CacheWrite, Error, RegistryLookup, Resolution, SSL_CERT_DIR_VAR, SSL_CERT_FILE_VAR,
    env_override_requested, resolve_ca, resolve_ca_system_default,
};
