//! Package identifiers.
//!
//! The CA certificates package is named by a two-part identifier,
//! `origin/name`: a namespace, one separating slash, and a package name,
//! both parts non-empty. The parser accepts exactly the well-formed texts
//! and pins down the (unique) decomposition of an accepted text.

use vstd::prelude::*;

verus! {

use crate::resolver::Error;

/// A package identifier: a namespace (origin) and a package name.
pub struct PackageIdent {
    pub origin: String,
    pub name: String,
}

/// Holds when no character of `s` is the segment separator `'/'`.
pub open spec fn slash_free(s: Seq<char>) -> bool {
    forall|i: int| 0 <= i < s.len() ==> s[i] != '/'
}

/// Holds when `s` is exactly `origin`, one separating `'/'`, and `name`,
/// with both parts non-empty and free of separators.
pub open spec fn ident_decomposes(s: Seq<char>, origin: Seq<char>, name: Seq<char>) -> bool {
    &&& origin.len() > 0
    &&& name.len() > 0
    &&& slash_free(origin)
    &&& slash_free(name)
    &&& s == origin + seq!['/'] + name
}

/// Holds when `s` is a well-formed two-part package identifier.
pub open spec fn valid_ident_text(s: Seq<char>) -> bool {
    exists|origin: Seq<char>, name: Seq<char>| ident_decomposes(s, origin, name)
}

/// A well-formed identifier decomposes in exactly one way: the separator is
/// the only `'/'` in the text, and it determines both parts.
pub proof fn lemma_decomposition_unique(s: Seq<char>, origin: Seq<char>, name: Seq<char>)
    requires
        ident_decomposes(s, origin, name),
    ensures
        s.len() == origin.len() + 1 + name.len(),
        s[origin.len() as int] == '/',
        forall|k: int| 0 <= k < s.len() && s[k] == '/' ==> k == origin.len(),
        origin == s.subrange(0, origin.len() as int),
        name == s.subrange(origin.len() as int + 1, s.len() as int),
{
    let sep = seq!['/'];
    let olen = origin.len() as int;
    assert(s[olen] == '/') by {
        assert(s[olen] == ((origin + sep) + name)[olen]);
        assert(((origin + sep) + name)[olen] == (origin + sep)[olen]);
        assert((origin + sep)[olen] == sep[0]);
    }
    assert forall|k: int| 0 <= k < s.len() && s[k] == '/' implies k == origin.len() by {
        if k < olen {
            assert(s[k] == ((origin + sep) + name)[k]);
            assert(((origin + sep) + name)[k] == (origin + sep)[k]);
            assert((origin + sep)[k] == origin[k]);
        } else if k > olen {
            assert(s[k] == ((origin + sep) + name)[k]);
            assert(((origin + sep) + name)[k] == name[k - olen - 1]);
        }
    }
    assert(origin =~= s.subrange(0, olen)) by {
        assert forall|i: int| 0 <= i < olen implies s[i] == origin[i] by {
            assert(s[i] == ((origin + sep) + name)[i]);
            assert(((origin + sep) + name)[i] == (origin + sep)[i]);
            assert((origin + sep)[i] == origin[i]);
        }
    }
    assert(name =~= s.subrange(olen + 1, s.len() as int)) by {
        assert forall|i: int| olen + 1 <= i < s.len() implies s[i] == name[i - olen - 1] by {
            assert(s[i] == ((origin + sep) + name)[i]);
            assert(((origin + sep) + name)[i] == name[i - olen - 1]);
        }
    }
}

/// In a well-formed identifier text the separator is unique and strictly
/// inside the text.
pub proof fn lemma_valid_slash_shape(s: Seq<char>)
    requires
        valid_ident_text(s),
    ensures
        exists|k: int| 0 < k < s.len() as int - 1 && #[trigger] s[k] == '/',
        forall|k1: int, k2: int|
            0 <= k1 < s.len() && s[k1] == '/' && 0 <= k2 < s.len() && s[k2] == '/' ==> k1 == k2,
{
    let (origin, name) = choose|origin: Seq<char>, name: Seq<char>| ident_decomposes(s, origin, name);
    lemma_decomposition_unique(s, origin, name);
    let olen = origin.len() as int;
    assert(0 < olen < s.len() as int - 1 && s[olen] == '/');
}

/// Finds the first `'/'` at or after `start`.
fn find_slash_from(s: &str, start: usize) -> (r: Option<usize>)
    requires
        start <= s@.len(),
    ensures
        match r {
            Some(i) => start <= i < s@.len() && s@[i as int] == '/'
                && (forall|j: int| start <= j < i ==> s@[j] != '/'),
            None => forall|j: int| start <= j < s@.len() ==> s@[j] != '/',
        },
{
    let n = s.unicode_len();
    let mut i: usize = start;
    while i < n
        invariant
            start <= i <= n,
            n == s@.len(),
            forall|j: int| start <= j < i ==> s@[j] != '/',
        decreases n - i,
    {
        if s.get_char(i) == '/' {
            return Some(i);
        }
        i = i + 1;
    }
    None
}

/// Parses a two-part package identifier, `origin/name`.
///
/// Returns `Ok` exactly on well-formed identifier text, and then carries the
/// unique decomposition; every rejection is `Error::InvalidIdent`.
pub fn parse_package_ident(s: &str) -> (r: Result<PackageIdent, Error>)
    ensures
        r matches Ok(id) ==> ident_decomposes(s@, id.origin@, id.name@),
        r is Ok <==> valid_ident_text(s@),
        r matches Err(e) ==> e is InvalidIdent,
{
    let n = s.unicode_len();
    match find_slash_from(s, 0) {
        None => {
            proof {
                if valid_ident_text(s@) {
                    lemma_valid_slash_shape(s@);
                }
            }
            Err(Error::InvalidIdent)
        }
        Some(i) => {
            if i == 0 || i + 1 == n {
                proof {
                    if valid_ident_text(s@) {
                        lemma_valid_slash_shape(s@);
                    }
                }
                Err(Error::InvalidIdent)
            } else {
                match find_slash_from(s, i + 1) {
                    Some(_) => {
                        proof {
                            if valid_ident_text(s@) {
                                lemma_valid_slash_shape(s@);
                            }
                        }
                        Err(Error::InvalidIdent)
                    }
                    None => {
                        let origin = s.substring_char(0, i).to_owned();
                        let name = s.substring_char(i + 1, n).to_owned();
                        proof {
                            let o = s@.subrange(0, i as int);
                            let nm = s@.subrange(i + 1, n as int);
                            assert(slash_free(o)) by {
                                assert forall|k: int| 0 <= k < o.len() implies o[k] != '/' by {
                                    assert(o[k] == s@[k]);
                                }
                            }
                            assert(slash_free(nm)) by {
                                assert forall|k: int| 0 <= k < nm.len() implies nm[k] != '/' by {
                                    assert(nm[k] == s@[k + i + 1]);
                                }
                            }
                            assert(s@ =~= o + seq!['/'] + nm) by {
                                assert forall|k: int| 0 <= k < s@.len()
                                    implies (o + seq!['/'] + nm)[k] == s@[k] by {
                                    let sep = seq!['/'];
                                    if k < i {
                                        assert(((o + sep) + nm)[k] == (o + sep)[k]);
                                        assert((o + sep)[k] == o[k]);
                                    } else if k == i {
                                        assert(((o + sep) + nm)[k] == (o + sep)[k]);
                                        assert((o + sep)[k] == sep[0]);
                                    } else {
                                        assert(((o + sep) + nm)[k] == nm[k - i - 1]);
                                    }
                                }
                            }
                            assert(ident_decomposes(s@, o, nm));
                            assert(valid_ident_text(s@));
                        }
                        Ok(PackageIdent { origin, name })
                    }
                }
            }
        }
    }
}

/// The fixed identifier of the trusted CA certificates package.
pub fn cacerts_package_ident() -> (r: Result<PackageIdent, Error>)
    ensures
        r matches Ok(id) && id.origin@ == "core"@ && id.name@ == "cacerts"@,
{
    let r = parse_package_ident("core/cacerts");
    proof {
        reveal_strlit("core/cacerts");
        reveal_strlit("core");
        reveal_strlit("cacerts");
        let s = "core/cacerts"@;
        let o = "core"@;
        let nm = "cacerts"@;
        assert(slash_free(o)) by {
            assert forall|k: int| 0 <= k < o.len() implies o[k] != '/' by {
                if k == 0 {
                    assert(o[0] == 'c');
                } else if k == 1 {
                    assert(o[1] == 'o');
                } else if k == 2 {
                    assert(o[2] == 'r');
                } else {
                    assert(o[3] == 'e');
                }
            }
        }
        assert(slash_free(nm)) by {
            assert forall|k: int| 0 <= k < nm.len() implies nm[k] != '/' by {
                if k == 0 {
                    assert(nm[0] == 'c');
                } else if k == 1 {
                    assert(nm[1] == 'a');
                } else if k == 2 {
                    assert(nm[2] == 'c');
                } else if k == 3 {
                    assert(nm[3] == 'e');
                } else if k == 4 {
                    assert(nm[4] == 'r');
                } else if k == 5 {
                    assert(nm[5] == 't');
                } else {
                    assert(nm[6] == 's');
                }
            }
        }
        assert(s =~= o + seq!['/'] + nm) by {
            let sep = seq!['/'];
            assert forall|k: int| 0 <= k < s.len() implies ((o + sep) + nm)[k] == s[k] by {
                if k < 4 {
                    assert(((o + sep) + nm)[k] == (o + sep)[k]);
                    assert((o + sep)[k] == o[k]);
                } else if k == 4 {
                    assert(((o + sep) + nm)[k] == (o + sep)[k]);
                    assert((o + sep)[k] == sep[0]);
                    assert(s[4] == '/');
                } else {
                    assert(((o + sep) + nm)[k] == nm[k - 5]);
                }
            }
        }
        assert(ident_decomposes(s, o, nm));
        assert(valid_ident_text(s));
        if let Ok(id) = &r {
            lemma_decomposition_unique(s, id.origin@, id.name@);
            lemma_decomposition_unique(s, o, nm);
            assert(id.origin@.len() == o.len());
            assert(id.origin@ == o);
            assert(id.name@ == nm);
        }
    }
    r
}

} // verus!
