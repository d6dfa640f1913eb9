use web_transport_quic::client::{CertificateError, Host, ServerFingerprints, Target, Trust};
use web_transport_quic::crypto::{
    default_provider, provider_or_ring, sha256, sha256_suite, supports_sha256, Provider,
};
use web_transport_quic::error::{ClientError, ServerError};
use web_transport_quic::tls::{client_config, rooted_client_config, server_config};
use web_transport_quic::{
    Client, ClientBuilder, ConnectRequest, NoCertificateVerification, ServerBuilder,
};

fn client() -> Client {
    ClientBuilder::new().with_server_certificate_hashes(Vec::new())
}

fn target(url: &str) -> Result<Target, ClientError> {
    client().connect(&ConnectRequest::new(url.to_string()))
}

/// The SHA-256 hash of "abc".
const ABC: [u8; 32] = [
    0xba, 0x78, 0x16, 0xbf, 0x8f, 0x01, 0xcf, 0xea, 0x41, 0x41, 0x40, 0xde, 0x5d, 0xae, 0x22, 0x23,
    0xb0, 0x03, 0x61, 0xa3, 0x96, 0x17, 0x7a, 0x9c, 0xb4, 0x10, 0xff, 0x61, 0xf2, 0x00, 0x15, 0xad,
];

#[test]
fn a_domain_is_looked_up() {
    match target("https://example.com/path") {
        Ok(Target::Lookup { domain, port }) => {
            assert_eq!(domain, "example.com");
            assert_eq!(port, 443);
        }
        _ => panic!("a domain is looked up"),
    }
    assert!(matches!(
        target("https://example.com:4433"),
        Ok(Target::Lookup { port: 4433, .. })
    ));
}

#[test]
fn an_address_is_connected_to() {
    match target("https://127.0.0.1:8080/") {
        Ok(Target::Ipv4 { server_name, ipv4, port }) => {
            assert_eq!(server_name, "127.0.0.1");
            assert_eq!(ipv4, [127, 0, 0, 1]);
            assert_eq!(port, 8080);
        }
        _ => panic!("an address is connected to"),
    }
    match target("https://[::1]/") {
        Ok(Target::Ipv6 { server_name, ipv6, port }) => {
            assert_eq!(server_name, "::1");
            assert_eq!(ipv6, [0, 0, 0, 0, 0, 0, 0, 0, 0, 0, 0, 0, 0, 0, 0, 1]);
            assert_eq!(port, 443);
        }
        _ => panic!("an address is connected to"),
    }
}

#[test]
fn a_url_without_a_host_is_invalid() {
    match target("data:text/plain,Stuff") {
        Err(ClientError::InvalidDnsName(name)) => assert_eq!(name, ""),
        _ => panic!("there is no host"),
    }
}

#[test]
fn the_port_defaults_to_443() {
    let host = || Some(Host::Domain("example.com".to_string()));
    assert!(matches!(Client::target(host(), None), Ok(Target::Lookup { port: 443, .. })));
    assert!(matches!(Client::target(host(), Some(1)), Ok(Target::Lookup { port: 1, .. })));
    assert!(matches!(Client::target(None, Some(1)), Err(ClientError::InvalidDnsName(_))));
}

#[test]
fn a_domain_that_cannot_be_resolved_is_invalid() {
    match Client::resolved("example.com".to_string(), Some(7)) {
        Ok((name, remote)) => {
            assert_eq!(name, "example.com");
            assert_eq!(remote, 7);
        }
        _ => panic!("the domain was resolved"),
    }
    match Client::resolved::<u8>("example.com".to_string(), None) {
        Err(ClientError::InvalidDnsName(name)) => assert_eq!(name, "example.com"),
        _ => panic!("the domain was not resolved"),
    }
}

fn ring() -> Provider {
    provider_or_ring(None)
}

#[test]
fn certificates_are_hashed_by_sha256() {
    let provider = ring();
    assert!(supports_sha256(&provider));
    // The first suite hashes by SHA-384.
    assert_eq!(sha256_suite(&provider), Some(1));
    assert_eq!(sha256(&provider, b"abc"), ABC.to_vec());
}

#[test]
fn a_provider_without_tls13_has_no_sha256() {
    let mut bare = rustls::crypto::ring::default_provider();
    bare.cipher_suites.retain(|suite| suite.tls13().is_none());
    let bare = Provider::new(bare);
    assert!(!supports_sha256(&bare));
    assert_eq!(sha256_suite(&bare), None);
    // It is kept all the same if it is the one that was installed.
    assert!(!supports_sha256(&provider_or_ring(Some(bare))));
}

#[test]
fn the_default_provider_can_hash() {
    assert!(supports_sha256(&default_provider()));
}

#[test]
fn pinned_certificates_are_accepted() {
    let client = ClientBuilder::new()
        .with_server_certificates(vec![b"abc".to_vec(), b"other".to_vec()]);
    let pins = match client.trust {
        Trust::Fingerprints(pins) => pins,
        _ => panic!("the certificates are pinned"),
    };
    assert_eq!(pins.fingerprints[0], ABC.to_vec());
    assert_eq!(pins.verify_server_cert(b"abc"), Ok(()));
    assert_eq!(pins.verify_server_cert(b"other"), Ok(()));
    assert_eq!(pins.verify_server_cert(b"abd"), Err(CertificateError::UnknownIssuer));
}

#[test]
fn pinned_hashes_are_compared_in_full() {
    let builder = ClientBuilder::new();
    let client = builder.with_server_certificate_hashes(vec![ABC[..31].to_vec(), Vec::new()]);
    match client.trust {
        Trust::Fingerprints(pins) => {
            assert_eq!(pins.verify_server_cert(b"abc"), Err(CertificateError::UnknownIssuer));
        }
        _ => panic!("the hashes are pinned"),
    }
    let none = ServerFingerprints { provider: ring(), fingerprints: Vec::new() };
    assert_eq!(none.verify_server_cert(b"abc"), Err(CertificateError::UnknownIssuer));
}

#[test]
fn a_dangerous_client_accepts_anyone() {
    let client = ClientBuilder::new().dangerous().with_no_certificate_verification();
    match client.trust {
        Trust::Anyone(noop) => assert_eq!(noop.verify_server_cert(b"abc"), Ok(())),
        _ => panic!("anyone is accepted"),
    }
    assert_eq!(NoCertificateVerification(ring()).verify_server_cert(b""), Ok(()));
}

/// A self-signed certificate for the name "root", in hexadecimal digits.
const ROOT: &str = "308201343081e7a00302010202145af12d188bf5447812cb0ddec5ecf8827884d5b7300506032b6570300f310d\
    300b06035504030c04726f6f743020170d3236313131353030333131395a180f32313236313032323030333131\
    395a300f310d300b06035504030c04726f6f74302a300506032b65700321002e5dccad24b38ca20077208a6eb1\
    8318a6b1470501e8eae2f6c311860dd20a62a3533051301d0603551d0e04160414a4aae7fd2558b1fe99cd57f9\
    c6b32082ee97d724301f0603551d23041830168014a4aae7fd2558b1fe99cd57f9c6b32082ee97d724300f0603\
    551d130101ff040530030101ff300506032b6570034100cebdc7ba1362be96d7a75af659d5e38b9d7025f4db8c\
    4813903d661f1a4e06fd1ce4af9a45c3df69943a2e766a6f04c2c902774c03042d03f0c1f1ce07fb660a";

fn bytes_of(digits: &str) -> Vec<u8> {
    let digit = |c: char| c.to_digit(16).unwrap() as u8;
    let digits: Vec<u8> = digits.chars().map(digit).collect();
    digits.chunks(2).map(|pair| pair[0] * 16 + pair[1]).collect()
}

fn root() -> Vec<u8> {
    bytes_of(ROOT)
}

#[test]
fn roots_that_cannot_be_parsed_are_left_out() {
    let native = vec![b"abc".to_vec(), root(), Vec::new()];
    match ClientBuilder::new().with_system_roots(native).trust {
        Trust::Roots(roots) => {
            assert_eq!(roots.len(), 1);
            let subject = roots.roots[0].subject.as_ref();
            assert!(subject.ends_with(b"root"));
        }
        _ => panic!("roots are trusted"),
    }
}

#[test]
fn a_client_negotiates_http3_and_nothing_else() {
    let mut config = rustls::ClientConfig::builder_with_provider(ring())
        .with_protocol_versions(&[&rustls::version::TLS13])
        .unwrap()
        .with_root_certificates(rustls::RootCertStore::empty())
        .with_no_client_auth();
    config.alpn_protocols = vec![b"h2".to_vec()];
    assert_eq!(client_config(config).alpn_protocols, vec![b"h3".to_vec()]);
}

#[test]
fn a_server_needs_a_key_that_fits_its_certificate() {
    let key = rustls::pki_types::PrivatePkcs8KeyDer::from(b"no key".to_vec());
    let refused = server_config(&ring(), vec![root()], key.into());
    assert!(matches!(refused, Err(ServerError::Rustls(_))));
}

/// The certificate of an authority.
const AUTHORITY: &str = "3081eb30819ea003020102020101300506032b657030143112301006035504030c09617574686f726974793020\
    170d3230303130313030303030305a180f32393939303130313030303030305a30143112301006035504030c09\
    617574686f72697479302a300506032b6570032100ed4928c628d1c2c6eae90338905995612959273a5c63f936\
    36c14614ac8737d1a3133011300f0603551d130101ff040530030101ff300506032b65700341003f1353100717\
    9be04293736ff990e19d1cdd8b8c23d637bba7514e05d11ee4f6ff9f5090ef5296c8f46765c4b4d9b2bafa4b9f\
    be83ef1e408fb9070555e4720b";

/// The certificate that the authority issued for the key of 32 times seven and the name "localhost".
const LEAF: &str = "3081fe3081b1a003020102020102300506032b657030143112301006035504030c09617574686f726974793020\
    170d3230303130313030303030305a180f32393939303130313030303030305a30143112301006035504030c09\
    6c6f63616c686f7374302a300506032b6570032100ea4a6c63e29c520abef5507b132ec5f9954776aebebe7b92\
    421eea691446d22ca3263024300c0603551d130101ff0402300030140603551d11040d300b82096c6f63616c68\
    6f7374300506032b6570034100890e44a647ce55563eb8dfd8e13c0440f6b61ac761b63ab4e347f83e1bd2e21a\
    7d90dc19df42fd34b11ef22852913e21cad9e2676c03804f6612532b5ffe5e0f";

fn leaf_server() -> rustls::ServerConfig {
    let mut key = bytes_of("302e020100300506032b657004220420");
    key.extend_from_slice(&[7; 32]);
    let key = rustls::pki_types::PrivatePkcs8KeyDer::from(key);
    server_config(&ring(), vec![bytes_of(LEAF)], key.into()).unwrap()
}

#[test]
fn a_server_builder_serves_with_its_own_provider() {
    let mut key = bytes_of("302e020100300506032b657004220420");
    key.extend_from_slice(&[7; 32]);
    let key = rustls::pki_types::PrivatePkcs8KeyDer::from(key);
    let mut builder = ServerBuilder::new();
    builder.provider = ring();
    let config = builder.tls_config(vec![bytes_of(LEAF)], key.into()).unwrap();
    assert_eq!(config.alpn_protocols, vec![b"h3".to_vec()]);
    assert!(std::sync::Arc::ptr_eq(config.crypto_provider(), &builder.provider));
}

#[test]
fn a_client_connects_with_its_own_provider() {
    let provider = ring();
    let config = rooted_client_config(&provider, rustls::RootCertStore::empty()).unwrap();
    assert!(std::sync::Arc::ptr_eq(config.crypto_provider(), &provider));
}

#[test]
fn the_hash_is_the_same_wherever_its_suite_stands() {
    let mut provider = rustls::crypto::ring::default_provider();
    provider.cipher_suites.reverse();
    let last = sha256(&provider.clone().into(), b"abc");
    assert_eq!(last, ABC.to_vec());
    assert_eq!(last.len(), 32);
    provider.cipher_suites.reverse();
    assert_eq!(sha256(&provider.into(), b"abc"), last);
}

#[test]
fn a_client_builder_has_a_default() {
    assert!(supports_sha256(&ClientBuilder::default().provider));
}

/// Lets a client that trusts `native` and the server shake hands in memory.
fn shake_hands(native: Vec<Vec<u8>>) -> Result<rustls::ClientConnection, rustls::Error> {
    let roots = match ClientBuilder::new().with_system_roots(native).trust {
        Trust::Roots(roots) => roots,
        _ => panic!("roots are trusted"),
    };
    let config = rooted_client_config(&ring(), roots).unwrap();
    let name = rustls::pki_types::ServerName::try_from("localhost").unwrap();
    let mut client = rustls::ClientConnection::new(config.into(), name)?;
    let mut server = rustls::ServerConnection::new(leaf_server().into())?;
    while client.is_handshaking() {
        let mut sent = Vec::new();
        client.write_tls(&mut sent).unwrap();
        server.read_tls(&mut sent.as_slice()).unwrap();
        server.process_new_packets()?;
        let mut answer = Vec::new();
        while server.wants_write() {
            server.write_tls(&mut answer).unwrap();
        }
        client.read_tls(&mut answer.as_slice()).unwrap();
        client.process_new_packets()?;
    }
    Ok(client)
}

#[test]
fn a_client_with_the_right_root_meets_the_server_on_http3() {
    let client = shake_hands(vec![bytes_of(AUTHORITY)]).unwrap();
    assert_eq!(client.alpn_protocol(), Some(b"h3".as_slice()));
    assert_eq!(client.protocol_version(), Some(rustls::ProtocolVersion::TLSv1_3));
    let chain = client.peer_certificates().unwrap();
    assert_eq!(chain.len(), 1);
    assert_eq!(chain[0].to_vec(), bytes_of(LEAF));
}

#[test]
fn a_client_without_the_root_refuses_the_server() {
    assert!(shake_hands(vec![root()]).is_err());
    assert!(shake_hands(Vec::new()).is_err());
}

#[test]
fn configurations_need_a_provider_for_tls13() {
    let mut provider = rustls::crypto::ring::default_provider();
    provider.cipher_suites.clear();
    let refused = rooted_client_config(&provider.into(), rustls::RootCertStore::empty());
    assert!(matches!(refused, Err(ClientError::Rustls(_))));
}
