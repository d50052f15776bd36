//! TLS trust policy: which certificate authorities a client talks to a host
//! through. Every host gets the platform's default roots. A host that
//! matches the local-development pattern (`localhost:` prefix) additionally
//! gets every certificate of a caller-supplied PEM test bundle, so
//! integration tests can use self-signed certificates without weakening
//! trust for real hosts.

use vstd::prelude::*;

verus! {

#[verifier::external_type_specification]
#[verifier::external_body]
pub struct ExRootCertStore(rustls::RootCertStore);

#[verifier::external_type_specification]
#[verifier::external_body]
pub struct ExRustlsError(rustls::Error);

/// The DER certificates whose trust anchors a root store holds, in the
/// order they were added.
pub uninterp spec fn root_store_certs(rs: rustls::RootCertStore) -> Seq<Seq<u8>>;

/// The DER contents of the certificate blocks of a PEM bundle, in order: a
/// function of the bytes alone.
pub uninterp spec fn pem_certs_of(pem: Seq<u8>) -> Seq<Seq<u8>>;

/// Whether the bytes read as well-formed PEM: a function of the bytes
/// alone.
pub uninterp spec fn pem_parse_ok(pem: Seq<u8>) -> bool;

/// Whether a DER certificate parses as a trust anchor: a function of the
/// bytes alone.
pub uninterp spec fn anchor_parse_ok(der: Seq<u8>) -> bool;

/// Every certificate of the list parses as a trust anchor.
pub open spec fn all_anchors_ok(ders: Seq<Seq<u8>>) -> bool {
    forall|i: int| 0 <= i < ders.len() ==> anchor_parse_ok(#[trigger] ders[i])
}

/// Building the trust store failed.
#[derive(Debug, Clone, Copy, PartialEq, Eq, Structural)]
pub enum TrustStoreError {
    /// The PEM bundle could not be read as PEM.
    MalformedBundle,
    /// A certificate of the bundle was rejected as a trust anchor.
    RejectedCertificate,
}

/// The set of certificate authorities trusted for one host.
#[derive(Debug)]
pub enum TrustStore {
    /// Only the platform's default roots.
    PlatformDefault,
    /// The platform's default roots plus these extra local-development
    /// roots.
    Augmented { roots: rustls::RootCertStore },
}

/// Relies on rustls::RootCertStore::empty: a store with no anchors.
#[verifier::external_body]
fn root_store_empty() -> (r: rustls::RootCertStore)
    ensures
        root_store_certs(r) == Seq::<Seq<u8>>::empty(),
{
    rustls::RootCertStore::empty()
}

/// Relies on rustls::RootCertStore::add: it parses the DER certificate --
/// succeeding exactly when the bytes parse as a trust anchor -- and appends
/// the derived anchor; on failure it returns the error before pushing,
/// leaving the store unchanged.
#[verifier::external_body]
fn root_store_add(rs: &mut rustls::RootCertStore, der: &Vec<u8>) -> (r: Result<
    (),
    rustls::Error,
>)
    ensures
        r is Ok <==> anchor_parse_ok(der@),
        r is Ok ==> root_store_certs(*final(rs)) == root_store_certs(*old(rs)).push(der@),
        r is Err ==> root_store_certs(*final(rs)) == root_store_certs(*old(rs)),
{
    rs.add(rustls::pki_types::CertificateDer::from(der.clone()))
}

/// Relies on rustls::RootCertStore::len: the number of anchors in the
/// store, one for each certificate added.
#[verifier::external_body]
fn root_store_len(rs: &rustls::RootCertStore) -> (n: usize)
    ensures
        n == root_store_certs(*rs).len(),
{
    rs.len()
}

/// Relies on rustls_pemfile::certs: the DER contents of each certificate
/// block of the PEM bundle, a function of the bytes alone; non-certificate
/// blocks are skipped and a bundle with none yields an empty list. Reading
/// from a byte slice, the call fails exactly when the bytes are not
/// well-formed PEM; that failure is mapped to the library's error.
#[verifier::external_body]
fn pem_certs(pem: &[u8]) -> (r: Result<Vec<Vec<u8>>, TrustStoreError>)
    ensures
        r is Ok <==> pem_parse_ok(pem@),
        r matches Ok(v) ==> v@.len() == pem_certs_of(pem@).len() && (forall|i: int|
            0 <= i < v@.len() ==> #[trigger] v@[i]@ == pem_certs_of(pem@)[i]),
        r matches Err(e) ==> e == TrustStoreError::MalformedBundle,
{
    let mut rd = pem;
    rustls_pemfile::certs(&mut rd).map_err(|_| TrustStoreError::MalformedBundle)
}

/// Does the host match the local-development pattern?
pub open spec fn is_local_host(h: Seq<char>) -> bool {
    "localhost:"@.is_prefix_of(h)
}

/// Exec mirror of [`is_local_host`].
pub fn host_is_local(host: &str) -> (b: bool)
    ensures
        b == is_local_host(host@),
{
    proof {
        reveal_strlit("localhost:");
    }
    let pat = "localhost:";
    let n = host.unicode_len();
    if n < 10 {
        return false;
    }
    let mut i: usize = 0;
    while i < 10
        invariant
            i <= 10,
            n == host@.len(),
            n >= 10,
            pat@ == "localhost:"@,
            pat@.len() == 10,
            forall|k: int| 0 <= k < i ==> host@[k] == #[trigger] pat@[k],
        decreases 10 - i,
    {
        if host.get_char(i) != pat.get_char(i) {
            assert(!"localhost:"@.is_prefix_of(host@));
            return false;
        }
        i = i + 1;
    }
    assert("localhost:"@.is_prefix_of(host@)) by {
        assert("localhost:"@ =~= host@.subrange(0, 10));
    }
    true
}

impl TrustStore {
    /// The extra local-development roots: none for a default store, the
    /// added DER certificates for an augmented one.
    pub open spec fn extra_roots(&self) -> Seq<Seq<u8>> {
        match self {
            TrustStore::PlatformDefault => Seq::empty(),
            TrustStore::Augmented { roots } => root_store_certs(*roots),
        }
    }

    /// How many extra roots the store carries.
    pub fn extra_root_count(&self) -> (n: usize)
        ensures
            n == self.extra_roots().len(),
    {
        match self {
            TrustStore::PlatformDefault => 0,
            TrustStore::Augmented { roots } => root_store_len(roots),
        }
    }
}

/// Build the trust store for a host. The embedded test bundle's
/// certificates are added if and only if the host matches the
/// local-development pattern; for every other host the store holds exactly
/// the platform defaults. For a local host the build succeeds exactly when
/// the bundle reads as PEM and each of its certificates parses as a trust
/// anchor, and each failure names which of the two went wrong.
pub fn build_trust_store(host: &str, ca_pem: &[u8]) -> (r: Result<TrustStore, TrustStoreError>)
    ensures
        !is_local_host(host@) ==> (r matches Ok(t) && t is PlatformDefault),
        is_local_host(host@) ==> (r matches Ok(t) ==> t matches TrustStore::Augmented { roots }
            && root_store_certs(roots) == pem_certs_of(ca_pem@)),
        r matches Ok(t) && t is Augmented ==> is_local_host(host@),
        is_local_host(host@) && pem_parse_ok(ca_pem@) && all_anchors_ok(pem_certs_of(ca_pem@))
            ==> r is Ok,
        (r matches Err(TrustStoreError::MalformedBundle)) <==> (is_local_host(host@)
            && !pem_parse_ok(ca_pem@)),
        (r matches Err(TrustStoreError::RejectedCertificate)) <==> (is_local_host(host@)
            && pem_parse_ok(ca_pem@) && !all_anchors_ok(pem_certs_of(ca_pem@))),
{
    if !host_is_local(host) {
        return Ok(TrustStore::PlatformDefault);
    }
    let ders = match pem_certs(ca_pem) {
        Err(e) => {
            return Err(e);
        },
        Ok(d) => d,
    };
    let ghost target = pem_certs_of(ca_pem@);
    let mut roots = root_store_empty();
    let mut i: usize = 0;
    assert(root_store_certs(roots) =~= target.subrange(0, 0));
    while i < ders.len()
        invariant
            is_local_host(host@),
            pem_parse_ok(ca_pem@),
            i <= ders.len(),
            ders@.len() == target.len(),
            target == pem_certs_of(ca_pem@),
            forall|k: int| 0 <= k < ders@.len() ==> #[trigger] ders@[k]@ == target[k],
            forall|k: int| 0 <= k < i ==> anchor_parse_ok(#[trigger] target[k]),
            root_store_certs(roots) == target.subrange(0, i as int),
        decreases ders.len() - i,
    {
        match root_store_add(&mut roots, &ders[i]) {
            Ok(()) => {
                assert(target.subrange(0, i as int).push(ders@[i as int]@) =~= target.subrange(
                    0,
                    i + 1,
                ));
                assert(anchor_parse_ok(target[i as int]));
            },
            Err(_) => {
                assert(!anchor_parse_ok(target[i as int]));
                return Err(TrustStoreError::RejectedCertificate);
            },
        }
        i = i + 1;
    }
    assert(target.subrange(0, ders@.len() as int) =~= target);
    assert(all_anchors_ok(target));
    Ok(TrustStore::Augmented { roots })
}

} // verus!
