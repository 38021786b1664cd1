//! The protocol's document identifiers: opaque URL-like strings. The only
//! structure the core reads is the local-file scheme: a uri names a local
//! path exactly when it begins with `file://`, and the path is what
//! follows. This is a deliberate byte-level model: percent-encoding,
//! authorities and URL normalization are not interpreted, so a uri is
//! taken exactly as the client spells it. Everything else about uris
//! passes through untouched.

use vstd::prelude::*;

verus! {

/// The bytes of `file://`.
pub open spec fn file_scheme() -> Seq<u8> {
    seq![102u8, 105u8, 108u8, 101u8, 58u8, 47u8, 47u8]
}

/// The local path a uri names, if any: what follows `file://`.
pub open spec fn spec_uri_to_path(uri: Seq<u8>) -> Option<Seq<u8>> {
    if uri.len() >= 7 && uri.subrange(0, 7) == file_scheme() {
        Some(uri.subrange(7, uri.len() as int))
    } else {
        None
    }
}

/// The uri of a local path: `file://` put back in front.
pub open spec fn spec_path_to_uri(path: Seq<u8>) -> Seq<u8> {
    file_scheme() + path
}

/// Resolve a uri to the local path it names; `None` when the uri does not
/// use the local-file scheme.
pub fn uri_to_path(uri: &Vec<u8>) -> (r: Option<Vec<u8>>)
    ensures
        match r {
            Some(p) => spec_uri_to_path(uri@) == Some(p@),
            None => spec_uri_to_path(uri@) is None,
        },
{
    let scheme: [u8; 7] = [102, 105, 108, 101, 58, 47, 47];
    proof {
        assert(scheme@ =~= file_scheme());
    }
    if uri.len() < 7 {
        return None;
    }
    let mut i: usize = 0;
    while i < 7
        invariant
            0 <= i <= 7 <= uri@.len(),
            scheme@ == file_scheme(),
            forall|k: int| 0 <= k < i ==> uri@[k] == scheme@[k],
        decreases 7 - i,
    {
        if uri[i] != scheme[i] {
            proof {
                assert(uri@.subrange(0, 7)[i as int] != file_scheme()[i as int]);
            }
            return None;
        }
        i += 1;
    }
    proof {
        assert(uri@.subrange(0, 7) =~= file_scheme());
    }
    let mut path: Vec<u8> = Vec::new();
    let mut k: usize = 7;
    while k < uri.len()
        invariant
            7 <= k <= uri@.len(),
            path@ =~= uri@.subrange(7, k as int),
        decreases uri@.len() - k,
    {
        path.push(uri[k]);
        proof {
            assert(path@ =~= uri@.subrange(7, k + 1));
        }
        k += 1;
    }
    proof {
        assert(path@ =~= uri@.subrange(7, uri@.len() as int));
    }
    Some(path)
}

/// The uri under which a local path is reported back to the client.
pub fn path_to_uri(path: &Vec<u8>) -> (r: Vec<u8>)
    ensures
        r@ == spec_path_to_uri(path@),
{
    let scheme: [u8; 7] = [102, 105, 108, 101, 58, 47, 47];
    proof {
        assert(scheme@ =~= file_scheme());
    }
    let mut uri: Vec<u8> = Vec::new();
    let mut i: usize = 0;
    while i < 7
        invariant
            0 <= i <= 7,
            scheme@ == file_scheme(),
            uri@ =~= scheme@.subrange(0, i as int),
        decreases 7 - i,
    {
        uri.push(scheme[i]);
        proof {
            assert(uri@ =~= scheme@.subrange(0, i + 1));
        }
        i += 1;
    }
    proof {
        assert(uri@ =~= file_scheme());
    }
    let mut k: usize = 0;
    while k < path.len()
        invariant
            0 <= k <= path@.len(),
            uri@ =~= file_scheme() + path@.subrange(0, k as int),
        decreases path@.len() - k,
    {
        uri.push(path[k]);
        proof {
            assert(uri@ =~= file_scheme() + path@.subrange(0, k + 1));
        }
        k += 1;
    }
    proof {
        assert(uri@ =~= file_scheme() + path@);
    }
    uri
}

/// Round trip: the uri of a path resolves back to that path.
pub proof fn lemma_uri_path_roundtrip(path: Seq<u8>)
    ensures
        spec_uri_to_path(spec_path_to_uri(path)) == Some(path),
{
    let uri = spec_path_to_uri(path);
    assert(uri.subrange(0, 7) =~= file_scheme());
    assert(uri.subrange(7, uri.len() as int) =~= path);
}

} // verus!
