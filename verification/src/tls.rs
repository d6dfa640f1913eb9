//! The TLS configuration of an endpoint, which has to negotiate HTTP/3.

use vstd::prelude::*;

use crate::client;
use crate::crypto;
use crate::crypto::Provider;
use crate::error::{ClientError, ServerError};
use crate::ALPN;

verus! {

/// The TLS configuration of a server.
#[verifier::external_type_specification]
#[verifier::external_body]
pub struct ExServerConfig(rustls::ServerConfig);

/// The TLS configuration of a client.
#[verifier::external_type_specification]
#[verifier::external_body]
pub struct ExClientConfig(rustls::ClientConfig);

/// The private key of a server.
#[verifier::external_type_specification]
#[verifier::external_body]
pub struct ExPrivateKeyDer<'a>(rustls::pki_types::PrivateKeyDer<'a>);

/// The number of TLS 1.3 among the protocol versions.
pub const TLS13: u16 = 0x0304;

/// The configuration of a server, in contracts.
pub struct ServerView {
    /// The algorithms that it uses.
    pub provider: rustls::crypto::CryptoProvider,
    /// The protocol versions that it negotiates.
    pub versions: Seq<u16>,
    /// Whether it asks clients for a certificate.
    pub asks_clients: bool,
    /// The certificate chain that it presents to every client.
    pub chain: Seq<Seq<u8>>,
    /// The application protocols that it negotiates, in order.
    pub protocols: Seq<Seq<u8>>,
}

/// The configuration of a client, in contracts.
pub struct ClientView {
    /// The algorithms that it uses.
    pub provider: rustls::crypto::CryptoProvider,
    /// The protocol versions that it negotiates.
    pub versions: Seq<u16>,
    /// Whether it has a certificate for servers that ask.
    pub has_certificate: bool,
    /// The trust anchors by which it judges servers, if it does by any.
    pub anchors: Option<Seq<(Seq<u8>, Seq<u8>, Option<Seq<u8>>)>>,
    /// The application protocols that it negotiates, in order.
    pub protocols: Seq<Seq<u8>>,
}

/// What a `rustls::ServerConfig` holds.
pub uninterp spec fn server_view(config: rustls::ServerConfig) -> ServerView;

/// What a `rustls::ClientConfig` holds.
pub uninterp spec fn client_view(config: rustls::ClientConfig) -> ClientView;

/// Whether a `rustls::ServerConfig` signs by the private key.
pub uninterp spec fn signs_by(
    config: rustls::ServerConfig,
    key: rustls::pki_types::PrivateKeyDer<'static>,
) -> bool;

/// Whether `rustls::ConfigBuilder::with_single_cert` takes the chain and the key: the provider can load
/// the key, and as far as can be told it belongs to the first certificate.
pub uninterp spec fn key_fits(
    provider: rustls::crypto::CryptoProvider,
    chain: Seq<Seq<u8>>,
    key: rustls::pki_types::PrivateKeyDer<'static>,
) -> bool;

/// The bytes of each of `certs`.
pub open spec fn chain_of(certs: Seq<Vec<u8>>) -> Seq<Seq<u8>> {
    certs.map_values(|cert: Vec<u8>| cert@)
}

/// Says that a server can use the provider, the certificate chain and the private key.
pub open spec fn can_serve(
    provider: Provider,
    chain: Seq<Seq<u8>>,
    key: rustls::pki_types::PrivateKeyDer<'static>,
) -> bool {
    crypto::supports_tls13(*provider) && key_fits(*provider, chain, key)
}

/// Builds a configuration by `rustls::ServerConfig::builder_with_provider`: by `with_protocol_versions`
/// for TLS 1.3 only, by `with_no_client_auth` without a look at clients, and by `with_single_cert` with
/// one certificate chain and key for all of them. It negotiates no application protocol yet. Whether it
/// can be built depends on the provider, the chain and the key alone.
#[verifier::external_body]
fn build_server_config(
    provider: &Provider,
    chain: Vec<Vec<u8>>,
    key: rustls::pki_types::PrivateKeyDer<'static>,
) -> (r: Result<rustls::ServerConfig, rustls::Error>)
    ensures
        r is Ok == (crypto::supports_tls13(**provider) && key_fits(
            **provider,
            chain_of(chain@),
            key,
        )),
        r matches Ok(config) ==> signs_by(config, key),
        r matches Ok(config) ==> server_view(config) == (ServerView {
            provider: **provider,
            versions: seq![TLS13],
            asks_clients: false,
            chain: chain_of(chain@),
            protocols: Seq::empty(),
        }),
{
    rustls::ServerConfig::builder_with_provider(provider.clone())
        .with_protocol_versions(&[&rustls::version::TLS13])?
        .with_no_client_auth()
        .with_single_cert(
            chain.into_iter().map(rustls::pki_types::CertificateDer::from).collect(),
            key,
        )
}

/// Builds a configuration by `rustls::ClientConfig::builder_with_provider`: by `with_protocol_versions`
/// for TLS 1.3 only, by `with_root_certificates` with these trust anchors, and by `with_no_client_auth`
/// without a certificate of its own. It negotiates no application protocol yet. Whether it can be built
/// depends on the provider alone.
#[verifier::external_body]
fn build_client_config(provider: &Provider, roots: rustls::RootCertStore) -> (r: Result<
    rustls::ClientConfig,
    rustls::Error,
>)
    ensures
        r is Ok == crypto::supports_tls13(**provider),
        r matches Ok(config) ==> client_view(config) == (ClientView {
            provider: **provider,
            versions: seq![TLS13],
            has_certificate: false,
            anchors: Some(client::anchors(roots)),
            protocols: Seq::empty(),
        }),
{
    Ok(rustls::ClientConfig::builder_with_provider(provider.clone())
        .with_protocol_versions(&[&rustls::version::TLS13])?
        .with_root_certificates(roots)
        .with_no_client_auth())
}

/// Sets the `alpn_protocols` of a `rustls::ServerConfig` to one protocol, and nothing else.
#[verifier::external_body]
fn set_server_protocol(config: &mut rustls::ServerConfig, protocol: &[u8])
    ensures
        server_view(*final(config)) == (ServerView {
            protocols: seq![protocol@],
            ..server_view(*old(config))
        }),
        forall|key: rustls::pki_types::PrivateKeyDer<'static>| #[trigger]
            signs_by(*final(config), key) == signs_by(*old(config), key),
{
    config.alpn_protocols = vec![protocol.to_vec()];
}

/// Sets the `alpn_protocols` of a `rustls::ClientConfig` to one protocol, and nothing else.
#[verifier::external_body]
fn set_client_protocol(config: &mut rustls::ClientConfig, protocol: &[u8])
    ensures
        client_view(*final(config)) == (ClientView {
            protocols: seq![protocol@],
            ..client_view(*old(config))
        }),
{
    config.alpn_protocols = vec![protocol.to_vec()];
}

/// HTTP/3, and nothing else.
pub open spec fn http3_only() -> Seq<Seq<u8>> {
    seq![vstd::utf8::encode_utf8(ALPN@)]
}

/// Says that `config` is that of a server with this provider, certificate chain and private key, which
/// speaks TLS 1.3 and HTTP/3 and nothing else, and asks no client for a certificate.
pub open spec fn serves(
    config: rustls::ServerConfig,
    provider: Provider,
    chain: Seq<Seq<u8>>,
    key: rustls::pki_types::PrivateKeyDer<'static>,
) -> bool {
    &&& server_view(config) == (ServerView {
        provider: *provider,
        versions: seq![TLS13],
        asks_clients: false,
        chain,
        protocols: http3_only(),
    })
    &&& signs_by(config, key)
}

/// Says that `e` is why the TLS library refuses to serve with these.
pub closed spec fn refuses_server(
    provider: Provider,
    chain: Vec<Vec<u8>>,
    key: rustls::pki_types::PrivateKeyDer<'static>,
    e: rustls::Error,
) -> bool {
    call_ensures(
        build_server_config,
        (&provider, chain, key),
        Err::<rustls::ServerConfig, rustls::Error>(e),
    )
}

/// Says that `e` is why the TLS library refuses to connect with these.
pub closed spec fn refuses_client(
    provider: Provider,
    roots: rustls::RootCertStore,
    e: rustls::Error,
) -> bool {
    call_ensures(
        build_client_config,
        (&provider, roots),
        Err::<rustls::ClientConfig, rustls::Error>(e),
    )
}

/// The configuration of a server with this certificate chain and private key, which negotiates HTTP/3
/// over TLS 1.3 and nothing else. There is one if the provider supports TLS 1.3 and can use the key for
/// the chain.
pub fn server_config(
    provider: &Provider,
    chain: Vec<Vec<u8>>,
    key: rustls::pki_types::PrivateKeyDer<'static>,
) -> (r: Result<rustls::ServerConfig, ServerError>)
    ensures
        r is Ok == can_serve(*provider, chain_of(chain@), key),
        (match r {
            Ok(config) => serves(config, *provider, chain_of(chain@), key),
            Err(e) => e matches ServerError::Rustls(error) && refuses_server(
                *provider,
                chain,
                key,
                error,
            ),
        }),
{
    let ghost certs = chain;
    match build_server_config(provider, chain, key) {
        Ok(config) => {
            let mut config = config;
            set_server_protocol(&mut config, ALPN.as_bytes());
            Ok(config)
        },
        Err(e) => {
            assert(refuses_server(*provider, certs, key, e));
            Err(ServerError::Rustls(e))
        },
    }
}

/// The configuration of a client, made to negotiate HTTP/3 and nothing else.
pub fn client_config(config: rustls::ClientConfig) -> (r: rustls::ClientConfig)
    ensures
        client_view(r) == (ClientView { protocols: http3_only(), ..client_view(config) }),
{
    let mut config = config;
    set_client_protocol(&mut config, ALPN.as_bytes());
    config
}

/// The configuration of a client that accepts the servers with a certificate chain to one of `roots`,
/// and which negotiates HTTP/3 over TLS 1.3 and nothing else. There is one if the provider supports TLS
/// 1.3.
pub fn rooted_client_config(provider: &Provider, roots: rustls::RootCertStore) -> (r: Result<
    rustls::ClientConfig,
    ClientError,
>)
    ensures
        r is Ok == crypto::supports_tls13(**provider),
        (match r {
            Ok(config) => client_view(config) == (ClientView {
                provider: **provider,
                versions: seq![TLS13],
                has_certificate: false,
                anchors: Some(client::anchors(roots)),
                protocols: http3_only(),
            }),
            Err(e) => e matches ClientError::Rustls(error) && refuses_client(
                *provider,
                roots,
                error,
            ),
        }),
{
    let ghost trusted = roots;
    match build_client_config(provider, roots) {
        Ok(config) => Ok(client_config(config)),
        Err(e) => {
            assert(refuses_client(*provider, trusted, e));
            Err(ClientError::Rustls(e))
        },
    }
}

/// A server that can be configured presents the given chain to every client, signs by the given key, uses the
/// given provider, asks no client for a certificate, and speaks TLS 1.3 and `h3` and nothing else. It can be
/// configured exactly if the provider supports TLS 1.3 and the key fits.
pub proof fn law_server_speaks_http3_with_its_chain(
    provider: Provider,
    chain: Vec<Vec<u8>>,
    key: rustls::pki_types::PrivateKeyDer<'static>,
    r: Result<rustls::ServerConfig, ServerError>,
)
    requires
        call_ensures(server_config, (&provider, chain, key), r),
    ensures
        r is Ok <==> crypto::supports_tls13(*provider) && key_fits(
            *provider,
            chain@.map_values(|cert: Vec<u8>| cert@),
            key,
        ),
        r matches Err(e) ==> (e matches ServerError::Rustls(error) && refuses_server(
            provider,
            chain,
            key,
            error,
        )),
        r matches Ok(config) ==> {
            &&& server_view(config).provider == *provider
            &&& server_view(config).versions == seq![0x0304u16]
            &&& !server_view(config).asks_clients
            &&& server_view(config).chain.len() == chain@.len()
            &&& forall|i: int|
                0 <= i < chain@.len() ==> #[trigger] server_view(config).chain[i] == chain@[i]@
            &&& server_view(config).protocols.len() == 1
            &&& server_view(config).protocols[0] == vstd::utf8::encode_utf8(ALPN@)
            &&& signs_by(config, key)
        },
{
}

/// A client that can be configured judges servers by the given roots, uses the given provider, has no
/// certificate of its own, and speaks TLS 1.3 and `h3` and nothing else. It can be configured exactly if the
/// provider supports TLS 1.3.
pub proof fn law_client_speaks_http3_with_its_roots(
    provider: Provider,
    roots: rustls::RootCertStore,
    r: Result<rustls::ClientConfig, ClientError>,
    other: rustls::ClientConfig,
    made: rustls::ClientConfig,
)
    requires
        call_ensures(rooted_client_config, (&provider, roots), r),
        call_ensures(client_config, (other,), made),
    ensures
        r is Ok <==> crypto::supports_tls13(*provider),
        r matches Err(e) ==> (e matches ClientError::Rustls(error) && refuses_client(
            provider,
            roots,
            error,
        )),
        r matches Ok(config) ==> {
            &&& client_view(config).provider == *provider
            &&& client_view(config).versions == seq![0x0304u16]
            &&& !client_view(config).has_certificate
            &&& client_view(config).anchors == Some(client::anchors(roots))
            &&& client_view(config).protocols.len() == 1
            &&& client_view(config).protocols[0] == vstd::utf8::encode_utf8(ALPN@)
        },
        client_view(made).protocols.len() == 1,
        client_view(made).protocols[0] == vstd::utf8::encode_utf8(ALPN@),
        client_view(made).provider == client_view(other).provider,
        client_view(made).versions == client_view(other).versions,
        client_view(made).has_certificate == client_view(other).has_certificate,
        client_view(made).anchors == client_view(other).anchors,
{
}

/// Why the TLS library refuses is what building the configuration gives.
proof fn lemma_refusals(
    provider: Provider,
    chain: Vec<Vec<u8>>,
    key: rustls::pki_types::PrivateKeyDer<'static>,
    roots: rustls::RootCertStore,
    e: rustls::Error,
)
    ensures
        refuses_server(provider, chain, key, e) == call_ensures(
            build_server_config,
            (&provider, chain, key),
            Err::<rustls::ServerConfig, rustls::Error>(e),
        ),
        refuses_client(provider, roots, e) == call_ensures(
            build_client_config,
            (&provider, roots),
            Err::<rustls::ClientConfig, rustls::Error>(e),
        ),
{
}

} // verus!
