//! How a client decides which servers to trust and where to connect to.

use vstd::prelude::*;

use crate::connect::ConnectRequest;
use crate::crypto;
use crate::crypto::{default_provider, sha256, Provider};
use crate::error::{ClientError, ConnectError, ConnectionError, SettingsError};

verus! {

/// The port of a URL that names none.
pub const DEFAULT_PORT: u16 = 443;

/// A store of trusted root certificates.
#[verifier::external_type_specification]
#[verifier::external_body]
pub struct ExRootCertStore(rustls::RootCertStore);

/// The trust anchors that a `rustls::RootCertStore` holds, in order: of each the subject, the public key
/// and the name constraints, if any.
pub uninterp spec fn anchors(roots: rustls::RootCertStore) -> Seq<
    (Seq<u8>, Seq<u8>, Option<Seq<u8>>),
>;

/// The trust anchor that `rustls::RootCertStore::add` makes of a certificate, if it can.
pub uninterp spec fn anchor_of(cert: Seq<u8>) -> Option<(Seq<u8>, Seq<u8>, Option<Seq<u8>>)>;

/// `rustls::RootCertStore::empty` holds no anchors.
pub assume_specification[ rustls::RootCertStore::empty ]() -> (r: rustls::RootCertStore)
    ensures
        anchors(r).len() == 0,
;

/// `rustls::RootCertStore::add` adds the anchor of a certificate at the end, unless the certificate
/// cannot be parsed.
#[verifier::external_body]
fn add_root(roots: &mut rustls::RootCertStore, cert: &[u8]) -> (r: bool)
    ensures
        r == anchor_of(cert@) is Some,
        anchors(*final(roots)) == (match anchor_of(cert@) {
            Some(anchor) => anchors(*old(roots)).push(anchor),
            None => anchors(*old(roots)),
        }),
{
    roots.add(rustls::pki_types::CertificateDer::from(cert)).is_ok()
}

/// The anchors of those of `certs` that can be parsed, in order.
pub open spec fn anchors_of(certs: Seq<Vec<u8>>) -> Seq<(Seq<u8>, Seq<u8>, Option<Seq<u8>>)>
    decreases certs.len(),
{
    if certs.len() == 0 {
        Seq::empty()
    } else {
        match anchor_of(certs.last()@) {
            Some(anchor) => anchors_of(certs.drop_last()).push(anchor),
            None => anchors_of(certs.drop_last()),
        }
    }
}

/// The SHA-256 hashes of `certs`, in order.
pub open spec fn hashes_of(certs: Seq<Vec<u8>>) -> Seq<Seq<u8>> {
    certs.map_values(|cert: Vec<u8>| crypto::sha256_of(cert@))
}

/// Why a server's certificate is refused.
#[derive(Debug, Clone, Copy, PartialEq, Eq, Structural)]
pub enum CertificateError {
    UnknownIssuer,
}

/// Accepts the servers whose certificates have one of the given hashes.
pub struct ServerFingerprints {
    pub provider: Provider,
    pub fingerprints: Vec<Vec<u8>>,
}

impl ServerFingerprints {
    /// Says that one of the fingerprints is `hash`.
    pub open spec fn contains(self, hash: Seq<u8>) -> bool {
        exists|i: int|
            0 <= i < self.fingerprints@.len() && #[trigger] self.fingerprints@[i]@ == hash
    }

    /// Accepts a certificate exactly if its SHA-256 hash is one of the fingerprints.
    pub fn verify_server_cert(&self, end_entity: &[u8]) -> (r: Result<(), CertificateError>)
        requires
            crypto::has_sha256(self.provider),
        ensures
            r == if self.contains(crypto::sha256_of(end_entity@)) {
                Ok::<(), CertificateError>(())
            } else {
                Err(CertificateError::UnknownIssuer)
            },
    {
        let hash = sha256(&self.provider, end_entity);
        let mut i: usize = 0;
        while i < self.fingerprints.len()
            invariant
                i <= self.fingerprints@.len(),
                hash@ == crypto::sha256_of(end_entity@),
                forall|j: int| 0 <= j < i ==> #[trigger] self.fingerprints@[j]@ != hash@,
            decreases self.fingerprints@.len() - i,
        {
            if same_bytes(self.fingerprints[i].as_slice(), hash.as_slice()) {
                assert(self.fingerprints@[i as int]@ == hash@);
                return Ok(());
            }
            i = i + 1;
        }
        Err(CertificateError::UnknownIssuer)
    }
}

/// Whether two slices hold the same bytes.
fn same_bytes(a: &[u8], b: &[u8]) -> (r: bool)
    ensures
        r == (a@ == b@),
{
    if a.len() != b.len() {
        return false;
    }
    let mut i: usize = 0;
    while i < a.len()
        invariant
            i <= a@.len(),
            a@.len() == b@.len(),
            forall|j: int| 0 <= j < i ==> a@[j] == b@[j],
        decreases a@.len() - i,
    {
        if a[i] != b[i] {
            return false;
        }
        i = i + 1;
    }
    assert(a@ =~= b@);
    true
}

/// Accepts any server.
pub struct NoCertificateVerification(pub Provider);

impl NoCertificateVerification {
    /// Accepts any certificate.
    pub fn verify_server_cert(&self, _end_entity: &[u8]) -> (r: Result<(), CertificateError>)
        ensures
            r == Ok::<(), CertificateError>(()),
    {
        Ok(())
    }
}

/// Which servers a client accepts.
pub enum Trust {
    /// Those whose certificate chain ends in one of these roots.
    Roots(rustls::RootCertStore),
    /// Those whose certificate is pinned.
    Fingerprints(ServerFingerprints),
    /// All of them.
    Anyone(NoCertificateVerification),
}

/// Construct a WebTransport [`Client`] using sane defaults.
pub struct ClientBuilder {
    pub provider: Provider,
}

impl Clone for ClientBuilder {
    fn clone(&self) -> (r: Self)
        ensures
            r == *self,
    {
        ClientBuilder { provider: self.provider.clone() }
    }
}

impl Default for ClientBuilder {
    fn default() -> (r: Self)
        ensures
            crypto::is_default(r.provider),
    {
        ClientBuilder::new()
    }
}

impl ClientBuilder {
    /// Create a client builder, which can be used to establish multiple sessions. It takes the default
    /// provider, and which one that is depends on the process.
    pub fn new() -> (r: Self)
        ensures
            crypto::is_default(r.provider),
    {
        ClientBuilder { provider: default_provider() }
    }

    /// Accept any certificate from the server if it uses a known root CA, one of `native`. Roots that
    /// cannot be parsed are left out.
    pub fn with_system_roots(self, native: Vec<Vec<u8>>) -> (r: Client)
        ensures
            r.provider == self.provider,
            r.trust matches Trust::Roots(roots) && anchors(roots) == anchors_of(native@),
    {
        let mut roots = rustls::RootCertStore::empty();
        assert(anchors(roots) =~= anchors_of(native@.take(0)));
        let mut i: usize = 0;
        while i < native.len()
            invariant
                i <= native@.len(),
                anchors(roots) == anchors_of(native@.take(i as int)),
            decreases native@.len() - i,
        {
            add_root(&mut roots, native[i].as_slice());
            i = i + 1;
            assert(native@.take(i as int).drop_last() =~= native@.take(i - 1));
        }
        assert(native@.take(i as int) =~= native@);
        Client { provider: self.provider, trust: Trust::Roots(roots) }
    }

    /// Supply certificates for accepted servers instead of using root CAs.
    pub fn with_server_certificates(self, certs: Vec<Vec<u8>>) -> (r: Client)
        requires
            certs@.len() > 0 ==> crypto::has_sha256(self.provider),
        ensures
            r.pins(self.provider, hashes_of(certs@)),
    {
        let mut hashes: Vec<Vec<u8>> = Vec::new();
        let mut i: usize = 0;
        while i < certs.len()
            invariant
                i <= certs@.len(),
                certs@.len() > 0 ==> crypto::has_sha256(self.provider),
                hashes@.len() == i,
                forall|j: int|
                    0 <= j < i ==> #[trigger] hashes@[j]@ == crypto::sha256_of(certs@[j]@),
            decreases certs@.len() - i,
        {
            hashes.push(sha256(&self.provider, certs[i].as_slice()));
            i = i + 1;
        }
        let client = self.with_server_certificate_hashes(hashes);
        assert(hashes@.map_values(|hash: Vec<u8>| hash@) =~= hashes_of(certs@));
        client
    }

    /// Supply sha256 hashes for accepted certificates instead of using root CAs.
    pub fn with_server_certificate_hashes(self, hashes: Vec<Vec<u8>>) -> (r: Client)
        ensures
            r.pins(self.provider, hashes@.map_values(|hash: Vec<u8>| hash@)),
    {
        let provider = self.provider.clone();
        let trust = Trust::Fingerprints(ServerFingerprints { provider, fingerprints: hashes });
        Client { provider: self.provider, trust }
    }

    /// Access dangerous configuration options, such as disabling certificate verification.
    pub fn dangerous(self) -> (r: DangerousClientBuilder)
        ensures
            r.inner == self,
    {
        DangerousClientBuilder { inner: self }
    }
}

/// Builder for dangerous TLS configuration options.
pub struct DangerousClientBuilder {
    pub inner: ClientBuilder,
}

impl DangerousClientBuilder {
    /// Disable certificate verification entirely.
    ///
    /// This makes the connection vulnerable to man-in-the-middle attacks. Only use this in secure
    /// environments, such as in local development or over a VPN connection.
    pub fn with_no_certificate_verification(self) -> (r: Client)
        ensures
            r.provider == self.inner.provider,
            r.trust matches Trust::Anyone(noop) && noop.0 == self.inner.provider,
    {
        let noop = NoCertificateVerification(self.inner.provider.clone());
        Client { provider: self.inner.provider, trust: Trust::Anyone(noop) }
    }
}

/// The host of a URL.
pub enum Host {
    /// A domain name.
    Domain(String),
    /// The text of an IPv4 address, and its bytes.
    Ipv4(String, [u8; 4]),
    /// The text of an IPv6 address, and its bytes.
    Ipv6(String, [u8; 16]),
}

/// The host of a URL, in contracts.
pub enum HostView {
    Domain(Seq<char>),
    Ipv4(Seq<char>, Seq<u8>),
    Ipv6(Seq<char>, Seq<u8>),
}

impl View for Host {
    type V = HostView;

    open spec fn view(&self) -> HostView {
        match *self {
            Host::Domain(domain) => HostView::Domain(domain@),
            Host::Ipv4(text, octets) => HostView::Ipv4(text@, octets@),
            Host::Ipv6(text, octets) => HostView::Ipv6(text@, octets@),
        }
    }
}

/// The host that `url::Url::host` finds in a URL, if it has one.
pub uninterp spec fn host_of(url: Seq<char>) -> Option<HostView>;

/// The port that `url::Url::port` finds in a URL, if it names one that is not the default of its scheme.
pub uninterp spec fn port_of(url: Seq<char>) -> Option<u16>;

/// `url::Url::host` finds the host of a URL. It depends on the text of the URL alone; a text that is no
/// URL has none.
#[verifier::external_body]
fn url_host(url: &str) -> (r: Option<Host>)
    ensures
        (match r {
            Some(host) => host_of(url@) == Some(host@),
            None => host_of(url@) is None,
        }),
{
    match url::Url::parse(url).ok()?.host()? {
        url::Host::Domain(domain) => Some(Host::Domain(domain.to_string())),
        url::Host::Ipv4(ip) => Some(Host::Ipv4(ip.to_string(), ip.octets())),
        url::Host::Ipv6(ip) => Some(Host::Ipv6(ip.to_string(), ip.octets())),
    }
}

/// `url::Url::port` finds the port of a URL. It depends on the text of the URL alone; a text that is no
/// URL has none.
#[verifier::external_body]
fn url_port(url: &str) -> (r: Option<u16>)
    ensures
        r == port_of(url@),
{
    url::Url::parse(url).ok()?.port()
}

/// Where to connect to.
pub enum Target {
    /// Look the domain up, and connect to the first address found.
    Lookup { domain: String, port: u16 },
    /// Connect to this IPv4 address; `server_name` is its text.
    Ipv4 { server_name: String, ipv4: [u8; 4], port: u16 },
    /// Connect to this IPv6 address; `server_name` is its text.
    Ipv6 { server_name: String, ipv6: [u8; 16], port: u16 },
}

/// A client for connecting to a WebTransport server.
pub struct Client {
    pub provider: Provider,
    pub trust: Trust,
}

impl Client {
    /// Says that the client accepts the servers whose certificates have one of `hashes`, and consults no
    /// root.
    pub open spec fn pins(self, provider: Provider, hashes: Seq<Seq<u8>>) -> bool {
        &&& self.provider == provider
        &&& self.trust matches Trust::Fingerprints(pins)
        &&& pins.provider == provider
        &&& pins.fingerprints@.map_values(|hash: Vec<u8>| hash@) == hashes
    }

    /// Says that `r` is where to connect to for `host` and `port`, which a URL may leave out.
    pub open spec fn targets(
        host: Option<HostView>,
        port: Option<u16>,
        r: Result<Target, ClientError>,
    ) -> bool {
        let actual = match port {
            Some(port) => port,
            None => DEFAULT_PORT,
        };
        match host {
            None => r matches Err(ClientError::InvalidDnsName(name)) && name@ == Seq::<char>::empty(),
            Some(HostView::Domain(text)) => r matches Ok(Target::Lookup { domain, port: p })
                && domain@ == text && p == actual,
            Some(HostView::Ipv4(text, bytes)) => r matches Ok(
                Target::Ipv4 { server_name, ipv4, port: p },
            ) && server_name@ == text && ipv4@ == bytes && p == actual,
            Some(HostView::Ipv6(text, bytes)) => r matches Ok(
                Target::Ipv6 { server_name, ipv6, port: p },
            ) && server_name@ == text && ipv6@ == bytes && p == actual,
        }
    }

    /// Where to connect to for the host and port of a URL.
    pub fn target(host: Option<Host>, port: Option<u16>) -> (r: Result<Target, ClientError>)
        ensures
            Self::targets(
                match host {
                    Some(host) => Some(host@),
                    None => None,
                },
                port,
                r,
            ),
    {
        let port: u16 = match port {
            Some(port) => port,
            None => DEFAULT_PORT,
        };
        match host {
            None => Err(ClientError::InvalidDnsName(String::new())),
            Some(Host::Domain(domain)) => Ok(Target::Lookup { domain, port }),
            Some(Host::Ipv4(server_name, octets)) => Ok(
                Target::Ipv4 { server_name, ipv4: octets, port },
            ),
            Some(Host::Ipv6(server_name, octets)) => Ok(
                Target::Ipv6 { server_name, ipv6: octets, port },
            ),
        }
    }

    /// Where to connect to for the session that `request` asks for.
    pub fn connect(&self, request: &ConnectRequest) -> (r: Result<Target, ClientError>)
        ensures
            Self::targets(host_of(request.url@), port_of(request.url@), r),
    {
        let port = url_port(request.url.as_str());
        let host = url_host(request.url.as_str());
        Self::target(host, port)
    }

    /// The server name and address to connect to after looking up a domain, given the first address
    /// that was found, if any.
    pub fn resolved<A>(domain: String, found: Option<A>) -> (r: Result<(String, A), ClientError>)
        ensures
            (match found {
                Some(remote) => r == Ok::<(String, A), ClientError>((domain, remote)),
                None => r == Err::<(String, A), ClientError>(ClientError::InvalidDnsName(domain)),
            }),
    {
        match found {
            Some(remote) => Ok((domain, remote)),
            None => Err(ClientError::InvalidDnsName(domain)),
        }
    }
}

impl From<ConnectionError> for ClientError {
    fn from(e: ConnectionError) -> (r: Self) {
        ClientError::Connection(e)
    }
}

impl vstd::std_specs::convert::FromSpecImpl<ConnectionError> for ClientError {
    open spec fn obeys_from_spec() -> bool {
        true
    }

    open spec fn from_spec(e: ConnectionError) -> Self {
        ClientError::Connection(e)
    }
}

impl From<SettingsError> for ClientError {
    fn from(e: SettingsError) -> (r: Self) {
        ClientError::SettingsError(e)
    }
}

impl vstd::std_specs::convert::FromSpecImpl<SettingsError> for ClientError {
    open spec fn obeys_from_spec() -> bool {
        true
    }

    open spec fn from_spec(e: SettingsError) -> Self {
        ClientError::SettingsError(e)
    }
}

impl From<ConnectError> for ClientError {
    fn from(e: ConnectError) -> (r: Self) {
        ClientError::HttpError(e)
    }
}

impl vstd::std_specs::convert::FromSpecImpl<ConnectError> for ClientError {
    open spec fn obeys_from_spec() -> bool {
        true
    }

    open spec fn from_spec(e: ConnectError) -> Self {
        ClientError::HttpError(e)
    }
}

/// A client that was given certificates is the one that was given their hashes: both accept the same
/// servers, and no root plays a part. Each of the certificates is accepted, and no other unless it has the
/// hash of one of them.
pub proof fn law_pinned_certificates_are_accepted(
    provider: Provider,
    certs: Seq<Vec<u8>>,
    by_certs: Client,
    by_hashes: Client,
    cert: Seq<u8>,
)
    requires
        by_certs.pins(provider, hashes_of(certs)),
        by_hashes.pins(provider, hashes_of(certs)),
    ensures
        by_certs.provider == by_hashes.provider,
        ({
            &&& by_certs.trust matches Trust::Fingerprints(a)
            &&& by_hashes.trust matches Trust::Fingerprints(b)
            &&& a.contains(crypto::sha256_of(cert)) == b.contains(crypto::sha256_of(cert))
            &&& (exists|i: int| 0 <= i < certs.len() && #[trigger] certs[i]@ == cert) ==> a.contains(
                crypto::sha256_of(cert),
            )
            &&& a.contains(crypto::sha256_of(cert)) ==> exists|i: int|
                0 <= i < certs.len() && crypto::sha256_of(#[trigger] certs[i]@)
                    == crypto::sha256_of(cert)
        }),
{
    let hash = crypto::sha256_of(cert);
    if let Trust::Fingerprints(a) = by_certs.trust {
        if let Trust::Fingerprints(b) = by_hashes.trust {
            lemma_pins(a, hashes_of(certs), hash);
            lemma_pins(b, hashes_of(certs), hash);
            if exists|i: int| 0 <= i < certs.len() && #[trigger] certs[i]@ == cert {
                let i = choose|i: int| 0 <= i < certs.len() && #[trigger] certs[i]@ == cert;
                assert(hashes_of(certs)[i] == hash);
            }
            if hashes_of(certs).contains(hash) {
                let i = choose|i: int|
                    0 <= i < hashes_of(certs).len() && hashes_of(certs)[i] == hash;
                assert(crypto::sha256_of(certs[i]@) == hash);
            }
        }
    }
}

/// The fingerprints hold a hash exactly if it is one of those that they were made of.
proof fn lemma_pins(pins: ServerFingerprints, hashes: Seq<Seq<u8>>, hash: Seq<u8>)
    requires
        pins.fingerprints@.map_values(|hash: Vec<u8>| hash@) == hashes,
    ensures
        pins.contains(hash) == hashes.contains(hash),
{
    if pins.contains(hash) {
        let i = choose|i: int|
            0 <= i < pins.fingerprints@.len() && #[trigger] pins.fingerprints@[i]@ == hash;
        assert(hashes[i] == hash);
    }
    if hashes.contains(hash) {
        let i = choose|i: int| 0 <= i < hashes.len() && hashes[i] == hash;
        assert(pins.fingerprints@[i]@ == hash);
    }
}

/// The anchor of each certificate that has one is there, wherever the certificate stands, nothing else is,
/// and as many are there as have one.
proof fn lemma_anchors_of(certs: Seq<Vec<u8>>)
    ensures
        forall|i: int|
            0 <= i < certs.len() && anchor_of((#[trigger] certs[i])@) is Some ==> anchors_of(
                certs,
            ).contains(anchor_of(certs[i]@)->0),
        forall|j: int|
            0 <= j < anchors_of(certs).len() ==> exists|i: int|
                0 <= i < certs.len() && anchor_of((#[trigger] certs[i])@) == Some(
                    #[trigger] anchors_of(certs)[j],
                ),
        anchors_of(certs).len() == certs.filter(|cert: Vec<u8>| anchor_of(cert@) is Some).len(),
    decreases certs.len(),
{
    reveal(Seq::filter);
    if certs.len() > 0 {
        let front = certs.drop_last();
        lemma_anchors_of(front);
        assert forall|i: int|
            0 <= i < certs.len() && anchor_of((#[trigger] certs[i])@) is Some implies anchors_of(
            certs,
        ).contains(anchor_of(certs[i]@)->0) by {
            if i < front.len() {
                assert(front[i] == certs[i]);
                let j = choose|j: int|
                    0 <= j < anchors_of(front).len() && anchors_of(front)[j] == anchor_of(
                        certs[i]@,
                    )->0;
                assert(anchors_of(certs)[j] == anchors_of(front)[j]);
            } else {
                assert(anchors_of(certs).last() == anchor_of(certs[i]@)->0);
            }
        }
        assert forall|j: int| 0 <= j < anchors_of(certs).len() implies exists|i: int|
            0 <= i < certs.len() && anchor_of((#[trigger] certs[i])@) == Some(
                #[trigger] anchors_of(certs)[j],
            ) by {
            if j < anchors_of(front).len() {
                let i = choose|i: int|
                    0 <= i < front.len() && anchor_of((#[trigger] front[i])@) == Some(
                        anchors_of(front)[j],
                    );
                assert(front[i] == certs[i]);
                assert(anchors_of(certs)[j] == anchors_of(front)[j]);
                assert(anchor_of(certs[i]@) == Some(anchors_of(certs)[j]));
            } else {
                let i = certs.len() - 1;
                assert(anchor_of(certs[i]@) == Some(anchors_of(certs)[j]));
            }
        }
    }
}

/// A client that trusts the roots of the system trusts each of them that can be read, wherever in the list
/// it stands, and nothing else: there are as many anchors as certificates that can be read.
pub proof fn law_every_system_root_is_trusted(
    builder: ClientBuilder,
    native: Vec<Vec<u8>>,
    client: Client,
)
    requires
        call_ensures(ClientBuilder::with_system_roots, (builder, native), client),
    ensures
        ({
            &&& client.trust matches Trust::Roots(roots)
            &&& forall|i: int|
                0 <= i < native@.len() && anchor_of((#[trigger] native@[i])@) is Some ==> anchors(
                    roots,
                ).contains(anchor_of(native@[i]@)->0)
            &&& forall|j: int|
                0 <= j < anchors(roots).len() ==> exists|i: int|
                    0 <= i < native@.len() && anchor_of((#[trigger] native@[i])@) == Some(
                        #[trigger] anchors(roots)[j],
                    )
            &&& anchors(roots).len() == native@.filter(
                |cert: Vec<u8>| anchor_of(cert@) is Some,
            ).len()
        }),
        client.provider == builder.provider,
{
    lemma_anchors_of(native@);
}

/// A client with pinned certificates accepts each of them, wherever in the list it stands, and any other only
/// if it has the hash of one of them. Giving the certificates and giving their hashes comes to the same, and
/// no root plays a part.
pub proof fn law_every_pinned_certificate_is_accepted(
    builder: ClientBuilder,
    certs: Vec<Vec<u8>>,
    hashes: Vec<Vec<u8>>,
    by_certs: Client,
    by_hashes: Client,
    cert: &[u8],
    a: Result<(), CertificateError>,
    b: Result<(), CertificateError>,
)
    requires
        call_ensures(ClientBuilder::with_server_certificates, (builder, certs), by_certs),
        call_ensures(ClientBuilder::with_server_certificate_hashes, (builder, hashes), by_hashes),
        by_certs.trust matches Trust::Fingerprints(pins) ==> call_ensures(
            ServerFingerprints::verify_server_cert,
            (&pins, cert),
            a,
        ),
        by_hashes.trust matches Trust::Fingerprints(pins) ==> call_ensures(
            ServerFingerprints::verify_server_cert,
            (&pins, cert),
            b,
        ),
    ensures
        by_certs.trust is Fingerprints,
        by_hashes.trust is Fingerprints,
        by_certs.provider == builder.provider,
        by_hashes.provider == builder.provider,
        forall|i: int| 0 <= i < certs@.len() && (#[trigger] certs@[i])@ == cert@ ==> a is Ok,
        a is Ok ==> exists|i: int|
            0 <= i < certs@.len() && crypto::sha256_of((#[trigger] certs@[i])@) == crypto::sha256_of(
                cert@,
            ),
        forall|i: int|
            0 <= i < hashes@.len() && (#[trigger] hashes@[i])@ == crypto::sha256_of(cert@) ==> b is Ok,
        b is Ok ==> exists|i: int|
            0 <= i < hashes@.len() && (#[trigger] hashes@[i])@ == crypto::sha256_of(cert@),
        a is Err ==> a == Err::<(), CertificateError>(CertificateError::UnknownIssuer),
        b is Err ==> b == Err::<(), CertificateError>(CertificateError::UnknownIssuer),
{
    let hash = crypto::sha256_of(cert@);
    if let Trust::Fingerprints(pins) = by_certs.trust {
        lemma_pins(pins, hashes_of(certs@), hash);
        assert forall|i: int| 0 <= i < certs@.len() && (#[trigger] certs@[i])@ == cert@ implies a is Ok by {
            assert(hashes_of(certs@)[i] == hash);
        }
        if a is Ok {
            let i = choose|i: int| 0 <= i < hashes_of(certs@).len() && hashes_of(certs@)[i] == hash;
            assert(crypto::sha256_of(certs@[i]@) == hash);
        }
    }
    if let Trust::Fingerprints(pins) = by_hashes.trust {
        let given = hashes@.map_values(|hash: Vec<u8>| hash@);
        lemma_pins(pins, given, hash);
        assert forall|i: int| 0 <= i < hashes@.len() && (#[trigger] hashes@[i])@ == hash implies b is Ok by {
            assert(given[i] == hash);
        }
        if b is Ok {
            let i = choose|i: int| 0 <= i < given.len() && given[i] == hash;
            assert(hashes@[i]@ == hash);
        }
    }
}

/// A client without verification accepts any certificate, and only one that was asked for as dangerous has
/// none.
pub proof fn law_only_the_dangerous_client_accepts_anyone(
    builder: ClientBuilder,
    dangerous: DangerousClientBuilder,
    client: Client,
    anyone: NoCertificateVerification,
    cert: &[u8],
    r: Result<(), CertificateError>,
    native: Vec<Vec<u8>>,
    rooted: Client,
    hashes: Vec<Vec<u8>>,
    pinned: Client,
)
    requires
        call_ensures(ClientBuilder::dangerous, (builder,), dangerous),
        call_ensures(
            DangerousClientBuilder::with_no_certificate_verification,
            (dangerous,),
            client,
        ),
        call_ensures(NoCertificateVerification::verify_server_cert, (&anyone, cert), r),
        call_ensures(ClientBuilder::with_system_roots, (builder, native), rooted),
        call_ensures(ClientBuilder::with_server_certificate_hashes, (builder, hashes), pinned),
    ensures
        client.trust is Anyone,
        client.provider == builder.provider,
        r == Ok::<(), CertificateError>(()),
        !(rooted.trust is Anyone),
        !(pinned.trust is Anyone),
{
}

/// Whatever kind of host a URL has, the port to connect to is the one that it names, and 443 if it names none;
/// the host is the one that it names, by its domain or by its address. Only without a host is there no
/// target.
pub proof fn law_target_is_the_host_and_port_of_the_url(
    host: Option<Host>,
    port: Option<u16>,
    r: Result<Target, ClientError>,
)
    requires
        call_ensures(Client::target, (host, port), r),
    ensures
        r is Ok <==> host is Some,
        r matches Err(e) ==> (e matches ClientError::InvalidDnsName(name) && name@.len() == 0),
        r matches Ok(target) ==> ({
            let named = match target {
                Target::Lookup { port, .. } => port,
                Target::Ipv4 { port, .. } => port,
                Target::Ipv6 { port, .. } => port,
            };
            &&& port is Some ==> named == port->0
            &&& port is None ==> named == 443
        }),
        host matches Some(Host::Domain(text)) ==> (r matches Ok(Target::Lookup { domain, .. })
            && domain@ == text@),
        host matches Some(Host::Ipv4(text, octets)) ==> (r matches Ok(
            Target::Ipv4 { server_name, ipv4, .. },
        ) && server_name@ == text@ && ipv4@ == octets@),
        host matches Some(Host::Ipv6(text, octets)) ==> (r matches Ok(
            Target::Ipv6 { server_name, ipv6, .. },
        ) && server_name@ == text@ && ipv6@ == octets@),
{
}

/// A client connects to the host and the port of the URL that is asked for, whatever its kind of host, and to
/// port 443 only if the URL names none. It makes no difference which servers the client trusts, nor what else
/// the request holds.
pub proof fn law_client_connects_where_the_url_says(
    client: Client,
    other: Client,
    request: ConnectRequest,
    same: ConnectRequest,
    r: Result<Target, ClientError>,
    s: Result<Target, ClientError>,
)
    requires
        call_ensures(Client::connect, (&client, &request), r),
        call_ensures(Client::connect, (&other, &same), s),
        same.url@ == request.url@,
    ensures
        r is Ok <==> host_of(request.url@) is Some,
        s is Ok <==> r is Ok,
        r matches Ok(target) ==> ({
            let named = match target {
                Target::Lookup { port, .. } => port,
                Target::Ipv4 { port, .. } => port,
                Target::Ipv6 { port, .. } => port,
            };
            &&& port_of(request.url@) is Some ==> named == port_of(request.url@)->0
            &&& port_of(request.url@) is None ==> named == 443
        }),
        (match (host_of(request.url@), r) {
            (Some(HostView::Domain(text)), Ok(Target::Lookup { domain, .. })) => domain@ == text,
            (Some(HostView::Ipv4(text, octets)), Ok(Target::Ipv4 { server_name, ipv4, .. })) =>
            server_name@ == text && ipv4@ == octets,
            (Some(HostView::Ipv6(text, octets)), Ok(Target::Ipv6 { server_name, ipv6, .. })) =>
            server_name@ == text && ipv6@ == octets,
            (None, Err(_)) => true,
            _ => false,
        }),
{
}

/// A domain is connected to at the address that was found first, under its own name, and one that has none
/// is an error that names it.
pub proof fn law_domain_is_connected_to_where_it_was_found<A>(
    domain: String,
    address: A,
    found: Result<(String, A), ClientError>,
    none: Result<(String, A), ClientError>,
)
    requires
        call_ensures(Client::resolved::<A>, (domain, Some(address)), found),
        call_ensures(Client::resolved::<A>, (domain, None), none),
    ensures
        found == Ok::<(String, A), ClientError>((domain, address)),
        none == Err::<(String, A), ClientError>(ClientError::InvalidDnsName(domain)),
{
}

/// A client builder has the default provider, however it was made, and a copy has the same.
pub proof fn law_client_builders_have_the_default_provider(
    builder: ClientBuilder,
    copied: ClientBuilder,
    other: ClientBuilder,
)
    requires
        call_ensures(ClientBuilder::new, (), builder) || call_ensures(
            ClientBuilder::default,
            (),
            builder,
        ),
        call_ensures(ClientBuilder::clone, (&other,), copied),
    ensures
        exists|installed: Option<Provider>| #[trigger]
            crypto::can_be_installed(installed) && match installed {
                Some(found) => builder.provider == found,
                None => crypto::is_ring(builder.provider),
            },
        copied == other,
{
}

/// The errors of a handshake are handed on as what they are.
pub proof fn law_client_errors_are_handed_on(
    e: ConnectionError,
    s: SettingsError,
    c: ConnectError,
    from_connection: ClientError,
    from_settings: ClientError,
    from_connect: ClientError,
)
    requires
        call_ensures(<ClientError as From<ConnectionError>>::from, (e,), from_connection),
        call_ensures(<ClientError as From<SettingsError>>::from, (s,), from_settings),
        call_ensures(<ClientError as From<ConnectError>>::from, (c,), from_connect),
    ensures
        from_connection == ClientError::Connection(e),
        from_settings == ClientError::SettingsError(s),
        from_connect == ClientError::HttpError(c),
{
}

} // verus!
