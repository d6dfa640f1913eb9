//! Simple crypto provider utilities for rustls.

use rustls::crypto::CryptoProvider;
use vstd::prelude::*;

verus! {

/// The algorithms that TLS is built from.
#[verifier::external_type_specification]
#[verifier::external_body]
pub struct ExCryptoProvider(CryptoProvider);

/// A shared reference to a crypto provider.
pub type Provider = std::sync::Arc<CryptoProvider>;

/// The length of a SHA-256 hash.
pub const SHA256_LEN: usize = 32;

/// The number of SHA-256 among the hash algorithms of TLS.
pub const SHA256: u8 = 0x04;

/// The cipher suites that a `rustls::crypto::CryptoProvider` holds: for each the number of its hash
/// algorithm, if it is one of TLS 1.3.
pub uninterp spec fn suites(provider: CryptoProvider) -> Seq<Option<u8>>;

/// The SHA-256 hash of `data`, as the `rustls::crypto::hash::Hash::hash` of a SHA-256 implementation
/// computes it.
pub uninterp spec fn sha256_of(data: Seq<u8>) -> Seq<u8>;

/// Whether `rustls::ConfigBuilder::with_protocol_versions` takes the provider for TLS 1.3 alone.
pub uninterp spec fn supports_tls13(provider: CryptoProvider) -> bool;

/// Says that the provider has an implementation of SHA-256.
pub open spec fn has_sha256(provider: Provider) -> bool {
    suites(*provider).contains(Some(SHA256))
}

/// `rustls::crypto::CryptoProvider::get_default` looks up the provider that was installed for the
/// process. Nothing is claimed of it.
#[verifier::external_body]
fn installed_provider() -> (r: Option<Provider>) {
    CryptoProvider::get_default().cloned()
}

/// `rustls::crypto::ring::default_provider` has an implementation of SHA-256 and all that TLS 1.3 takes.
#[verifier::external_body]
fn ring_provider() -> (r: Provider)
    ensures
        has_sha256(r),
        supports_tls13(*r),
{
    std::sync::Arc::new(rustls::crypto::ring::default_provider())
}

/// Counts the `cipher_suites` of a `rustls::crypto::CryptoProvider`.
#[verifier::external_body]
fn suite_count(provider: &Provider) -> (r: usize)
    ensures
        r == suites(**provider).len(),
{
    provider.cipher_suites.len()
}

/// Asks `rustls::SupportedCipherSuite::tls13` for a suite of TLS 1.3 and, if it is one, its hash for the
/// number of its algorithm.
#[verifier::external_body]
fn suite_hash(provider: &Provider, i: usize) -> (r: Option<u8>)
    requires
        i < suites(**provider).len(),
    ensures
        r == suites(**provider)[i as int],
{
    Some(u8::from(provider.cipher_suites[i].tls13()?.common.hash_provider.algorithm()))
}

/// `rustls::crypto::hash::Hash::hash` of a suite whose algorithm is SHA-256 computes that, in 32 bytes.
#[verifier::external_body]
fn hash_with(provider: &Provider, i: usize, data: &[u8]) -> (r: Vec<u8>)
    requires
        i < suites(**provider).len(),
        suites(**provider)[i as int] == Some(SHA256),
    ensures
        r@ == sha256_of(data@),
        r@.len() == SHA256_LEN,
{
    let suite = provider.cipher_suites[i].tls13().unwrap();
    suite.common.hash_provider.hash(data).as_ref().to_vec()
}

/// Says that `provider` is one that `ring` can give.
pub closed spec fn is_ring(provider: Provider) -> bool {
    call_ensures(ring_provider, (), provider)
}

/// The provider that was installed, or else the one of `ring`, which has an implementation of SHA-256 and
/// all that TLS 1.3 takes.
pub fn provider_or_ring(installed: Option<Provider>) -> (r: Provider)
    ensures
        (match installed {
            Some(provider) => r == provider,
            None => is_ring(r) && has_sha256(r) && supports_tls13(*r),
        }),
{
    match installed {
        Some(provider) => provider,
        None => {
            let provider = ring_provider();
            assert(is_ring(provider));
            provider
        },
    }
}

/// Says that `installed` is what looking up the provider of the process can answer.
pub closed spec fn can_be_installed(installed: Option<Provider>) -> bool {
    call_ensures(installed_provider, (), installed)
}

/// Says that `provider` is a default: the one that the lookup found installed for the process, or, where
/// it found none, the one of `ring`.
pub open spec fn is_default(provider: Provider) -> bool {
    exists|installed: Option<Provider>| #[trigger]
        can_be_installed(installed) && match installed {
            Some(found) => provider == found,
            None => is_ring(provider) && has_sha256(provider) && supports_tls13(*provider),
        }
}

/// Returns the default crypto provider.
///
/// This checks for a process-wide default provider first, then falls back to `ring`. Which one there is
/// depends on the process, so no more is claimed of it.
pub fn default_provider() -> (r: Provider)
    ensures
        is_default(r),
{
    let installed = installed_provider();
    assert(can_be_installed(installed));
    provider_or_ring(installed)
}

/// The first cipher suite of TLS 1.3 that hashes by SHA-256, if there is one.
pub fn sha256_suite(provider: &Provider) -> (r: Option<usize>)
    ensures
        (match r {
            Some(i) => i < suites(**provider).len() && suites(**provider)[i as int] == Some(SHA256)
                && forall|j: int| 0 <= j < i ==> suites(**provider)[j] != Some(SHA256),
            None => !has_sha256(*provider),
        }),
{
    let n: usize = suite_count(provider);
    let mut i: usize = 0;
    while i < n
        invariant
            i <= n,
            n == suites(**provider).len(),
            forall|j: int| 0 <= j < i ==> suites(**provider)[j] != Some(SHA256),
        decreases n - i,
    {
        if let Some(algorithm) = suite_hash(provider, i) {
            if algorithm == SHA256 {
                return Some(i);
            }
        }
        i = i + 1;
    }
    None
}

/// Whether the provider has an implementation of SHA-256.
pub fn supports_sha256(provider: &Provider) -> (r: bool)
    ensures
        r == has_sha256(*provider),
{
    match sha256_suite(provider) {
        Some(i) => {
            assert(suites(**provider)[i as int] == Some(SHA256));
            true
        },
        None => false,
    }
}

/// Computes the SHA-256 hash of a certificate using the provided crypto provider, which must have an
/// implementation of it. The hash is the same whichever provider computes it.
pub fn sha256(provider: &Provider, cert: &[u8]) -> (r: Vec<u8>)
    requires
        has_sha256(*provider),
    ensures
        r@ == sha256_of(cert@),
        r@.len() == SHA256_LEN,
{
    match sha256_suite(provider) {
        Some(i) => hash_with(provider, i, cert),
        None => {
            // There is one.
            assert(false);
            Vec::new()
        },
    }
}

/// The default provider is the one that was installed for the process, itself, and only where there is none
/// the one of `ring`, which can hash by SHA-256 and speak TLS 1.3.
pub proof fn law_installed_provider_comes_first(
    default: Provider,
    installed: Provider,
    kept: Provider,
    fallback: Provider,
)
    requires
        call_ensures(default_provider, (), default),
        call_ensures(provider_or_ring, (Some(installed),), kept),
        call_ensures(provider_or_ring, (None,), fallback),
    ensures
        kept == installed,
        is_ring(fallback),
        has_sha256(fallback),
        supports_tls13(*fallback),
        exists|found: Option<Provider>| #[trigger]
            can_be_installed(found) && (found is Some ==> default == found->0) && (found is None
                ==> is_ring(default)),
{
}

/// Where a provider has a suite of TLS 1.3 that hashes by SHA-256, wherever in its list, a certificate has one
/// hash, of 32 bytes, that is the same whichever such provider computes it. The suite that is taken is the
/// first of them.
pub proof fn law_hash_is_the_same_for_every_provider(
    a: Provider,
    b: Provider,
    i: int,
    cert: &[u8],
    x: Vec<u8>,
    y: Vec<u8>,
    supported: bool,
    suite: Option<usize>,
)
    requires
        0 <= i < suites(*a).len(),
        suites(*a)[i] == Some(4u8),
        call_ensures(sha256, (&a, cert), x),
        call_ensures(sha256, (&b, cert), y),
        call_ensures(supports_sha256, (&a,), supported),
        call_ensures(sha256_suite, (&a,), suite),
    ensures
        x@ == sha256_of(cert@),
        y@ == x@,
        x@.len() == 32,
        supported,
        suite matches Some(j) && j <= i && suites(*a)[j as int] == Some(4u8),
{
    assert(suites(*a)[i] == Some(SHA256));
    assert(suites(*a).contains(Some(SHA256)));
}

/// A provider without a suite of TLS 1.3 that hashes by SHA-256 has no such hash.
pub proof fn law_provider_without_sha256_says_so(
    provider: Provider,
    supported: bool,
    suite: Option<usize>,
)
    requires
        forall|i: int| 0 <= i < suites(*provider).len() ==> #[trigger] suites(*provider)[i] != Some(4u8),
        call_ensures(supports_sha256, (&provider,), supported),
        call_ensures(sha256_suite, (&provider,), suite),
    ensures
        !supported,
        suite is None,
{
}

/// What can be installed is what the lookup gives, and the provider of `ring` is what `ring` gives.
proof fn lemma_lookup_and_ring(installed: Option<Provider>, provider: Provider)
    ensures
        can_be_installed(installed) == call_ensures(installed_provider, (), installed),
        is_ring(provider) == call_ensures(ring_provider, (), provider),
        is_ring(provider) ==> has_sha256(provider) && supports_tls13(*provider),
        has_sha256(provider) <==> exists|i: int|
            0 <= i < suites(*provider).len() && #[trigger] suites(*provider)[i] == Some(4u8),
{
    if exists|i: int| 0 <= i < suites(*provider).len() && #[trigger] suites(*provider)[i] == Some(4u8) {
        let i = choose|i: int|
            0 <= i < suites(*provider).len() && #[trigger] suites(*provider)[i] == Some(4u8);
        assert(suites(*provider)[i] == Some(SHA256));
    }
}

} // verus!
