//! Filesystem paths the resolver speaks about.
//!
//! All paths are deterministic functions of an optional filesystem-root
//! override. The cache directory is a fixed, documented location that
//! external tooling may inspect or clear; the package certificate path is
//! the conventional bundle location inside an installed package.

use vstd::prelude::*;

verus! {

/// The view of an optional string slice: its character sequence, if present.
pub open spec fn opt_view(o: Option<&str>) -> Option<Seq<char>> {
    match o {
        Some(s) => Some(s@),
        None => None,
    }
}

/// Directory that caches the fallback CA bundle: a fixed location under the
/// filesystem root, honouring an optional root override.
pub open spec fn spec_cache_ssl_dir(fs_root_override: Option<Seq<char>>) -> Seq<char> {
    match fs_root_override {
        Some(root) => root + "/hab/cache/ssl"@,
        None => "/hab/cache/ssl"@,
    }
}

/// Path of the cached fallback bundle inside the cache directory.
pub open spec fn spec_cached_cert_path(fs_root_override: Option<Seq<char>>) -> Seq<char> {
    spec_cache_ssl_dir(fs_root_override) + "/cert.pem"@
}

/// Path of the bundle that an installed CA certificates package provides,
/// relative to the package's installation root.
pub open spec fn spec_pkg_cert_path(install_root: Seq<char>) -> Seq<char> {
    install_root + "/ssl/cert.pem"@
}

/// The cache directory for the fallback CA bundle.
pub fn cache_ssl_dir(fs_root_override: Option<&str>) -> (r: String)
    ensures
        r@ == spec_cache_ssl_dir(opt_view(fs_root_override)),
{
    match fs_root_override {
        Some(root) => {
            let mut dir = String::from_str(root);
            dir.append("/hab/cache/ssl");
            dir
        }
        None => String::from_str("/hab/cache/ssl"),
    }
}

/// The path under which the fallback CA bundle is cached.
pub fn cached_cert_path(fs_root_override: Option<&str>) -> (r: String)
    ensures
        r@ == spec_cached_cert_path(opt_view(fs_root_override)),
{
    let mut p = cache_ssl_dir(fs_root_override);
    p.append("/cert.pem");
    p
}

/// The bundle path provided by a package installed at `install_root`.
pub fn pkg_cert_path(install_root: &str) -> (r: String)
    ensures
        r@ == spec_pkg_cert_path(install_root@),
{
    let mut p = String::from_str(install_root);
    p.append("/ssl/cert.pem");
    p
}

} // verus!
