use habitat_http_client::{
    CaSource, Error, RegistryLookup, cache_ssl_dir, cached_cert_path, cacerts_package_ident,
    env_override_requested, parse_package_ident, pkg_cert_path, resolve_ca,
    resolve_ca_system_default,
};

fn bundle() -> Vec<u8> {
    b"-----BEGIN CERTIFICATE-----\nMIIB\n-----END CERTIFICATE-----\n".to_vec()
}

#[test]
fn env_override_returns_system_default() {
    let b = bundle();
    // Regardless of registry and cache state.
    let cases = vec![
        RegistryLookup::Installed(String::from("/hab/pkgs/core/cacerts/x/y")),
        RegistryLookup::NotInstalled,
        RegistryLookup::Failed(String::from("registry down")),
    ];
    for registry in &cases {
        let r = resolve_ca(true, registry, true, Some("/tmp/root"), &b).unwrap();
        assert!(matches!(r.source, CaSource::SystemDefault));
        assert!(r.write.is_none());
    }
}

#[test]
fn env_override_from_either_variable() {
    // Presence of either designated variable requests the override; an
    // empty value still counts as "set", so presence alone decides.
    assert!(env_override_requested(true, false));
    assert!(env_override_requested(false, true));
    assert!(env_override_requested(true, true));
    assert!(!env_override_requested(false, false));
}

#[test]
fn installed_package_provides_bundle_path() {
    let b = bundle();
    let registry = RegistryLookup::Installed(String::from("/hab/pkgs/core/cacerts/2021/release"));
    let r = resolve_ca(false, &registry, false, None, &b).unwrap();
    match r.source {
        CaSource::FilePath(p) => {
            assert_eq!(p, "/hab/pkgs/core/cacerts/2021/release/ssl/cert.pem");
        }
        CaSource::SystemDefault => panic!("expected a file path"),
    }
    assert!(r.write.is_none());
}

#[test]
fn cache_fallback_first_call_writes_embedded_bundle() {
    let b = bundle();
    let r = resolve_ca(false, &RegistryLookup::NotInstalled, false, Some("/tmp/root"), &b)
        .unwrap();
    match r.source {
        CaSource::FilePath(p) => assert_eq!(p, "/tmp/root/hab/cache/ssl/cert.pem"),
        CaSource::SystemDefault => panic!("expected a file path"),
    }
    let w = r.write.expect("first call must demand the cache write");
    assert_eq!(w.dir, "/tmp/root/hab/cache/ssl");
    assert_eq!(w.file, "/tmp/root/hab/cache/ssl/cert.pem");
    // Byte-for-byte the embedded bundle.
    assert_eq!(w.contents, b);
}

#[test]
fn cache_fallback_later_call_skips_write() {
    let b = bundle();
    let r = resolve_ca(false, &RegistryLookup::NotInstalled, true, Some("/tmp/root"), &b)
        .unwrap();
    match r.source {
        CaSource::FilePath(p) => assert_eq!(p, "/tmp/root/hab/cache/ssl/cert.pem"),
        CaSource::SystemDefault => panic!("expected a file path"),
    }
    assert!(r.write.is_none());
}

#[test]
fn cache_fallback_without_root_override() {
    let b = bundle();
    let r = resolve_ca(false, &RegistryLookup::NotInstalled, false, None, &b).unwrap();
    match r.source {
        CaSource::FilePath(p) => assert_eq!(p, "/hab/cache/ssl/cert.pem"),
        CaSource::SystemDefault => panic!("expected a file path"),
    }
    let w = r.write.expect("cache write expected");
    assert_eq!(w.dir, "/hab/cache/ssl");
    assert_eq!(w.contents, b);
}

#[test]
fn repeated_resolution_is_idempotent() {
    let b = bundle();
    let registry = RegistryLookup::NotInstalled;
    // First call: the cache file does not exist yet, so the resolution
    // demands the write that creates it.
    let first = resolve_ca(false, &registry, false, Some("/tmp/root"), &b).unwrap();
    let first_path = match first.source {
        CaSource::FilePath(p) => p,
        CaSource::SystemDefault => panic!("expected a file path"),
    };
    let w = first.write.expect("first call must demand the cache write");
    assert_eq!(w.file, first_path);
    assert_eq!(w.contents, b);
    // Later calls: the file now exists; same path, nothing rewritten.
    let later = resolve_ca(false, &registry, true, Some("/tmp/root"), &b).unwrap();
    match later.source {
        CaSource::FilePath(p) => assert_eq!(p, first_path),
        CaSource::SystemDefault => panic!("expected a file path"),
    }
    assert!(later.write.is_none());
}

#[test]
fn empty_bundle_is_written_verbatim() {
    let b: Vec<u8> = Vec::new();
    let r = resolve_ca(false, &RegistryLookup::NotInstalled, false, None, &b).unwrap();
    let w = r.write.expect("cache write expected");
    assert!(w.contents.is_empty());
}

#[test]
fn registry_failure_propagates() {
    let b = bundle();
    let registry = RegistryLookup::Failed(String::from("registry timed out"));
    let r = resolve_ca(false, &registry, false, None, &b);
    match r {
        Err(Error::Registry(msg)) => assert_eq!(msg, "registry timed out"),
        _ => panic!("expected the registry error to propagate"),
    }
}

#[test]
fn platform_variant_always_system_default() {
    for root in [None, Some("/tmp/root")] {
        let r = resolve_ca_system_default(root).unwrap();
        assert!(matches!(r.source, CaSource::SystemDefault));
        assert!(r.write.is_none());
    }
}

#[test]
fn cacerts_ident_parses() {
    let id = cacerts_package_ident().unwrap();
    assert_eq!(id.origin, "core");
    assert_eq!(id.name, "cacerts");
}

#[test]
fn parse_accepts_two_part_idents() {
    let id = parse_package_ident("acme/widgets").unwrap();
    assert_eq!(id.origin, "acme");
    assert_eq!(id.name, "widgets");
}

#[test]
fn parse_rejects_malformed_idents() {
    for text in ["", "core", "/cacerts", "core/", "core//cacerts", "a/b/c", "/"] {
        match parse_package_ident(text) {
            Err(Error::InvalidIdent) => {}
            _ => panic!("expected {text:?} to be rejected"),
        }
    }
}

#[test]
fn path_helpers_exact_values() {
    assert_eq!(cache_ssl_dir(None), "/hab/cache/ssl");
    assert_eq!(cache_ssl_dir(Some("/tmp/root")), "/tmp/root/hab/cache/ssl");
    assert_eq!(cached_cert_path(None), "/hab/cache/ssl/cert.pem");
    assert_eq!(cached_cert_path(Some("/tmp/root")), "/tmp/root/hab/cache/ssl/cert.pem");
    assert_eq!(pkg_cert_path("/x"), "/x/ssl/cert.pem");
}
