//! The CA resolver.
//!
//! An ordered decision, first match wins: an operator's environment override
//! selects the platform trust store; else a bundle provided by an installed
//! CA certificates package; else an embedded fallback bundle cached on local
//! disk, written only when the cache file is absent. The decision is a pure
//! function of its inputs; the caller gathers those inputs and performs the
//! write and the TLS configuration that the resolution asks for.

use vstd::prelude::*;

verus! {

use crate::paths::{
    cache_ssl_dir, cached_cert_path, opt_view, pkg_cert_path, spec_cache_ssl_dir,
    spec_cached_cert_path, spec_pkg_cert_path,
};

/// The first designated environment variable whose presence selects the
/// platform trust store.
pub const SSL_CERT_FILE_VAR: &'static str = "SSL_CERT_FILE";

/// The second designated environment variable whose presence selects the
/// platform trust store.
pub const SSL_CERT_DIR_VAR: &'static str = "SSL_CERT_DIR";

/// Errors of CA resolution.
#[derive(Debug)]
pub enum Error {
    /// The package identifier text is malformed.
    InvalidIdent,
    /// The package registry failed for a reason other than "not installed";
    /// the payload is its message, passed through opaquely.
    Registry(String),
    /// A filesystem operation demanded by a resolution failed; the payload
    /// is the failed operation's message.
    Io(String),
}

/// What the package registry answered when asked for the CA certificates
/// package.
pub enum RegistryLookup {
    /// The package is installed; the payload is its installation root.
    Installed(String),
    /// The package is not installed.
    NotInstalled,
    /// The query itself failed; the payload is the registry's message.
    Failed(String),
}

/// Ghost model of a registry answer.
#[verifier::ext_equal]
pub enum SpecRegistryLookup {
    Installed(Seq<char>),
    NotInstalled,
    Failed(Seq<char>),
}

impl View for RegistryLookup {
    type V = SpecRegistryLookup;

    open spec fn view(&self) -> SpecRegistryLookup {
        match self {
            RegistryLookup::Installed(root) => SpecRegistryLookup::Installed(root@),
            RegistryLookup::NotInstalled => SpecRegistryLookup::NotInstalled,
            RegistryLookup::Failed(msg) => SpecRegistryLookup::Failed(msg@),
        }
    }
}

/// The CA source a TLS context should use.
pub enum CaSource {
    /// Use the platform trust store (the TLS library's default verify paths).
    SystemDefault,
    /// Load the PEM bundle at this path.
    FilePath(String),
}

/// Ghost model of a CA source.
#[verifier::ext_equal]
pub enum SpecCaSource {
    SystemDefault,
    FilePath(Seq<char>),
}

impl View for CaSource {
    type V = SpecCaSource;

    open spec fn view(&self) -> SpecCaSource {
        match self {
            CaSource::SystemDefault => SpecCaSource::SystemDefault,
            CaSource::FilePath(p) => SpecCaSource::FilePath(p@),
        }
    }
}

/// A filesystem write the caller must perform before using the resolved
/// source: create `dir` (and every missing parent), then write `contents`
/// to `file`.
pub struct CacheWrite {
    pub dir: String,
    pub file: String,
    pub contents: Vec<u8>,
}

/// Ghost model of a demanded cache write.
#[verifier::ext_equal]
pub struct SpecCacheWrite {
    pub dir: Seq<char>,
    pub file: Seq<char>,
    pub contents: Seq<u8>,
}

impl View for CacheWrite {
    type V = SpecCacheWrite;

    open spec fn view(&self) -> SpecCacheWrite {
        SpecCacheWrite { dir: self.dir@, file: self.file@, contents: self.contents@ }
    }
}

/// A completed resolution: the source to configure, and the cache write, if
/// any, that must happen first.
pub struct Resolution {
    pub source: CaSource,
    pub write: Option<CacheWrite>,
}

/// Ghost model of a resolution.
#[verifier::ext_equal]
pub struct SpecResolution {
    pub source: SpecCaSource,
    pub write: Option<SpecCacheWrite>,
}

impl View for Resolution {
    type V = SpecResolution;

    open spec fn view(&self) -> SpecResolution {
        SpecResolution {
            source: self.source@,
            write: match self.write {
                Some(w) => Some(w@),
                None => None,
            },
        }
    }
}

/// Ghost outcome of the decision procedure.
#[verifier::ext_equal]
pub enum SpecOutcome {
    Resolved(SpecResolution),
    RegistryFailed(Seq<char>),
}

/// The decision procedure, first match wins: an environment override selects
/// the platform trust store; else an installed package provides the bundle;
/// else the embedded bundle is cached on disk, written only when the cache
/// file is absent; a registry failure is propagated.
pub open spec fn spec_resolve(
    env_override: bool,
    registry: SpecRegistryLookup,
    cache_file_exists: bool,
    fs_root_override: Option<Seq<char>>,
    bundle: Seq<u8>,
) -> SpecOutcome {
    if env_override {
        SpecOutcome::Resolved(
            SpecResolution { source: SpecCaSource::SystemDefault, write: None },
        )
    } else {
        match registry {
            SpecRegistryLookup::Installed(root) => SpecOutcome::Resolved(
                SpecResolution {
                    source: SpecCaSource::FilePath(spec_pkg_cert_path(root)),
                    write: None,
                },
            ),
            SpecRegistryLookup::NotInstalled => SpecOutcome::Resolved(
                SpecResolution {
                    source: SpecCaSource::FilePath(spec_cached_cert_path(fs_root_override)),
                    write: if cache_file_exists {
                        None
                    } else {
                        Some(
                            SpecCacheWrite {
                                dir: spec_cache_ssl_dir(fs_root_override),
                                file: spec_cached_cert_path(fs_root_override),
                                contents: bundle,
                            },
                        )
                    },
                },
            ),
            SpecRegistryLookup::Failed(msg) => SpecOutcome::RegistryFailed(msg),
        }
    }
}

/// Holds when the executable result `r` realises the ghost outcome `o`.
pub open spec fn models_outcome(r: Result<Resolution, Error>, o: SpecOutcome) -> bool {
    match o {
        SpecOutcome::Resolved(m) => r matches Ok(res) && res@ == m,
        SpecOutcome::RegistryFailed(msg) => r matches Err(e)
            && (e matches Error::Registry(s) && s@ == msg),
    }
}

/// An operator override is requested when either designated environment
/// variable is set, with any value: the empty string counts as set.
pub fn env_override_requested(cert_file_set: bool, cert_dir_set: bool) -> (r: bool)
    ensures
        r == (cert_file_set || cert_dir_set),
{
    cert_file_set || cert_dir_set
}

/// Copies the bundle bytes that a cache write will carry.
fn copy_bytes(src: &Vec<u8>) -> (r: Vec<u8>)
    ensures
        r@ == src@,
{
    let mut r: Vec<u8> = Vec::new();
    let mut i: usize = 0;
    while i < src.len()
        invariant
            i <= src.len(),
            r@ == src@.subrange(0, i as int),
        decreases src.len() - i,
    {
        r.push(src[i]);
        proof {
            assert(r@ =~= src@.subrange(0, i + 1));
        }
        i = i + 1;
    }
    proof {
        assert(src@.subrange(0, src@.len() as int) =~= src@);
    }
    r
}

/// Resolves the CA source for one TLS context.
///
/// The caller supplies what the environment, the package registry and the
/// cache currently say, and the embedded bundle's bytes; the result says
/// what to configure and what, if anything, to write first.
pub fn resolve_ca(
    env_override: bool,
    registry: &RegistryLookup,
    cache_file_exists: bool,
    fs_root_override: Option<&str>,
    bundle: &Vec<u8>,
) -> (r: Result<Resolution, Error>)
    ensures
        models_outcome(
            r,
            spec_resolve(
                env_override,
                registry@,
                cache_file_exists,
                opt_view(fs_root_override),
                bundle@,
            ),
        ),
{
    if env_override {
        Ok(Resolution { source: CaSource::SystemDefault, write: None })
    } else {
        match registry {
            RegistryLookup::Installed(root) => {
                let p = pkg_cert_path(root.as_str());
                Ok(Resolution { source: CaSource::FilePath(p), write: None })
            }
            RegistryLookup::NotInstalled => {
                let file = cached_cert_path(fs_root_override);
                if cache_file_exists {
                    Ok(Resolution { source: CaSource::FilePath(file), write: None })
                } else {
                    let dir = cache_ssl_dir(fs_root_override);
                    let contents = copy_bytes(bundle);
                    let path = file.clone();
                    Ok(
                        Resolution {
                            source: CaSource::FilePath(path),
                            write: Some(CacheWrite { dir, file, contents }),
                        },
                    )
                }
            }
            RegistryLookup::Failed(msg) => Err(Error::Registry(msg.clone())),
        }
    }
}

/// The resolver for the platform family whose native trust store
/// integration is considered sufficient: it unconditionally selects the
/// platform trust store and never touches the package or cache mechanism.
pub fn resolve_ca_system_default(_fs_root_override: Option<&str>) -> (r: Result<
    Resolution,
    Error,
>)
    ensures
        r matches Ok(res) && res@ == (SpecResolution {
            source: SpecCaSource::SystemDefault,
            write: None,
        }),
{
    Ok(Resolution { source: CaSource::SystemDefault, write: None })
}

/// Law: an environment override always selects the platform trust store and
/// demands no write, whatever the registry or the cache says.
pub proof fn lemma_env_override_wins(
    registry: SpecRegistryLookup,
    cache_file_exists: bool,
    fs_root_override: Option<Seq<char>>,
    bundle: Seq<u8>,
)
    ensures
        spec_resolve(true, registry, cache_file_exists, fs_root_override, bundle)
            == SpecOutcome::Resolved(
            SpecResolution { source: SpecCaSource::SystemDefault, write: None },
        ),
{
}

/// Law: without an override, an installed package at root `root` resolves
/// to the bundle inside that installation, and demands no write.
pub proof fn lemma_installed_package_path(
    cache_file_exists: bool,
    root: Seq<char>,
    fs_root_override: Option<Seq<char>>,
    bundle: Seq<u8>,
)
    ensures
        spec_resolve(
            false,
            SpecRegistryLookup::Installed(root),
            cache_file_exists,
            fs_root_override,
            bundle,
        ) == SpecOutcome::Resolved(
            SpecResolution {
                source: SpecCaSource::FilePath(root + "/ssl/cert.pem"@),
                write: None,
            },
        ),
{
}

/// Law: caching is idempotent. Without an override and without the package,
/// the call that finds the cache file absent and every later call that
/// finds it present resolve to the same cached path; only the first demands
/// a write, and that write names the cache directory, targets that same
/// path, and carries exactly the embedded bundle's bytes.
pub proof fn lemma_cache_idempotent(fs_root_override: Option<Seq<char>>, bundle: Seq<u8>)
    ensures
        ({
            let first = spec_resolve(
                false,
                SpecRegistryLookup::NotInstalled,
                false,
                fs_root_override,
                bundle,
            );
            let later = spec_resolve(
                false,
                SpecRegistryLookup::NotInstalled,
                true,
                fs_root_override,
                bundle,
            );
            &&& first == SpecOutcome::Resolved(
                SpecResolution {
                    source: SpecCaSource::FilePath(spec_cached_cert_path(fs_root_override)),
                    write: Some(
                        SpecCacheWrite {
                            dir: spec_cache_ssl_dir(fs_root_override),
                            file: spec_cached_cert_path(fs_root_override),
                            contents: bundle,
                        },
                    ),
                },
            )
            &&& later == SpecOutcome::Resolved(
                SpecResolution {
                    source: SpecCaSource::FilePath(spec_cached_cert_path(fs_root_override)),
                    write: None,
                },
            )
        }),
{
}

/// Law: every write a resolution demands carries exactly the embedded
/// bundle's bytes, targets the resolved cached path, and names the cache
/// directory whose creation must precede it.
pub proof fn lemma_write_shape(
    env_override: bool,
    registry: SpecRegistryLookup,
    cache_file_exists: bool,
    fs_root_override: Option<Seq<char>>,
    bundle: Seq<u8>,
)
    ensures
        match spec_resolve(env_override, registry, cache_file_exists, fs_root_override, bundle) {
            SpecOutcome::Resolved(res) => match res.write {
                Some(w) => {
                    &&& w.contents == bundle
                    &&& w.dir == spec_cache_ssl_dir(fs_root_override)
                    &&& w.file == spec_cached_cert_path(fs_root_override)
                    &&& res.source == SpecCaSource::FilePath(w.file)
                },
                None => true,
            },
            SpecOutcome::RegistryFailed(_) => true,
        },
{
}

/// Law: resolution fails exactly when there is no environment override and
/// the registry query itself failed; every other input resolves.
pub proof fn lemma_failure_exactly_on_registry(
    env_override: bool,
    registry: SpecRegistryLookup,
    cache_file_exists: bool,
    fs_root_override: Option<Seq<char>>,
    bundle: Seq<u8>,
)
    ensures
        (spec_resolve(env_override, registry, cache_file_exists, fs_root_override, bundle)
            is RegistryFailed) <==> (!env_override && registry is Failed),
{
}

} // verus!
