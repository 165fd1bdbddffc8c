use vstd::prelude::*;

use crate::address::SocketAddress;
use crate::context::PeerContext;
use crate::error::Error;

verus! {

/// The encoding of a certificate or key held in memory.
#[derive(Clone, Copy, Debug, PartialEq, Eq, Structural)]
pub enum FileFormat {
    Pem,
    Der,
}

/// Where the TLS certificate chain comes from.
#[derive(Clone, Debug)]
pub enum CertificateChain {
    /// A file, in PEM format.
    File(String),
    /// Certificates held in memory.
    Memory { chain: Vec<Vec<u8>>, format: FileFormat },
}

/// Where the TLS private key comes from.
#[derive(Clone, Debug)]
pub enum PrivateKey {
    /// A file, in PEM format.
    File(String),
    /// A key held in memory.
    Memory { key: Vec<u8>, format: FileFormat },
}

/// Checks that both credentials are configured: the certificate chain first,
/// then the private key.
pub fn check_credentials(
    certificate_chain: &Option<CertificateChain>,
    private_key: &Option<PrivateKey>,
) -> (r: Result<(), Error>)
    ensures
        certificate_chain is None ==> r matches Err(Error::CertificateMissing),
        certificate_chain is Some && private_key is None ==> r matches Err(
            Error::PrivateKeyMissing,
        ),
        certificate_chain is Some && private_key is Some ==> r is Ok,
{
    if certificate_chain.is_none() {
        Err(Error::CertificateMissing)
    } else if private_key.is_none() {
        Err(Error::PrivateKeyMissing)
    } else {
        Ok(())
    }
}

/// Everything a peer is started with.
pub struct PeerConfig<F, S> {
    pub quic_listen_port: Option<u16>,
    pub certificate_chain: CertificateChain,
    pub private_key: PrivateKey,
    pub client_ca_cert_files: Vec<String>,
    pub server_ca_cert_files: Vec<String>,
    pub remote_peers: Vec<SocketAddress>,
    pub context: PeerContext<F, S>,
}

impl<F, S> PeerConfig<F, S> {
    /// The bearer to connect to after the connection to bearer number `failed`
    /// died: the next one in the list, after the last the first again; `None`
    /// when no bearer is configured.
    pub fn next_remote_peer(&self, failed: usize) -> (r: Option<usize>)
        ensures
            self.remote_peers@.len() == 0 ==> r is None,
            self.remote_peers@.len() > 0 ==> (r matches Some(i) && i == ((failed as int
                % self.remote_peers@.len() as int) + 1) % self.remote_peers@.len() as int),
    {
        let n = self.remote_peers.len();
        if n == 0 {
            None
        } else {
            Some(((failed % n) + 1) % n)
        }
    }
}

/// Collects the configuration of a peer. Each setter replaces what an earlier
/// call of it, or of its in-memory or file counterpart, set; the one exception is
/// a private key given from memory, which a key file does not replace.
pub struct PeerBuilder<F, S> {
    quic_listen_port: Option<u16>,
    certificate_chain: Option<CertificateChain>,
    private_key: Option<PrivateKey>,
    client_ca_cert_files: Vec<String>,
    server_ca_cert_files: Vec<String>,
    remote_peers: Vec<SocketAddress>,
    context: PeerContext<F, S>,
}

impl<F, S> PeerBuilder<F, S> {
    pub closed spec fn spec_quic_listen_port(&self) -> Option<u16> {
        self.quic_listen_port
    }

    pub closed spec fn spec_certificate_chain(&self) -> Option<CertificateChain> {
        self.certificate_chain
    }

    pub closed spec fn spec_private_key(&self) -> Option<PrivateKey> {
        self.private_key
    }

    pub closed spec fn spec_client_ca_cert_files(&self) -> Seq<String> {
        self.client_ca_cert_files@
    }

    pub closed spec fn spec_server_ca_cert_files(&self) -> Seq<String> {
        self.server_ca_cert_files@
    }

    pub closed spec fn spec_remote_peers(&self) -> Seq<SocketAddress> {
        self.remote_peers@
    }

    pub closed spec fn spec_context(&self) -> PeerContext<F, S> {
        self.context
    }

    /// A builder with nothing set and no service registered.
    pub fn new() -> (r: PeerBuilder<F, S>)
        ensures
            r.spec_context().wf(),
            r.spec_context().services() == Map::<Seq<char>, F>::empty(),
            r.spec_quic_listen_port() is None,
            r.spec_certificate_chain() is None,
            r.spec_private_key() is None,
            r.spec_client_ca_cert_files() == Seq::<String>::empty(),
            r.spec_server_ca_cert_files() == Seq::<String>::empty(),
            r.spec_remote_peers() == Seq::<SocketAddress>::empty(),
    {
        PeerBuilder {
            quic_listen_port: None,
            certificate_chain: None,
            private_key: None,
            client_ca_cert_files: Vec::new(),
            server_ca_cert_files: Vec::new(),
            remote_peers: Vec::new(),
            context: PeerContext::new(),
        }
    }

    /// Sets the port that QUIC listens on.
    pub fn set_quic_listen_port(self, port: u16) -> (r: PeerBuilder<F, S>)
        ensures
            r.spec_quic_listen_port() == Some(port),
            r.spec_certificate_chain() == self.spec_certificate_chain(),
            r.spec_private_key() == self.spec_private_key(),
            r.spec_client_ca_cert_files() == self.spec_client_ca_cert_files(),
            r.spec_server_ca_cert_files() == self.spec_server_ca_cert_files(),
            r.spec_remote_peers() == self.spec_remote_peers(),
            r.spec_context() == self.spec_context(),
    {
        PeerBuilder { quic_listen_port: Some(port), ..self }
    }

    /// Sets the file of the TLS certificate chain.
    pub fn set_certificate_chain_file(self, path: String) -> (r: PeerBuilder<F, S>)
        ensures
            r.spec_quic_listen_port() == self.spec_quic_listen_port(),
            r.spec_certificate_chain() == Some(CertificateChain::File(path)),
            r.spec_private_key() == self.spec_private_key(),
            r.spec_client_ca_cert_files() == self.spec_client_ca_cert_files(),
            r.spec_server_ca_cert_files() == self.spec_server_ca_cert_files(),
            r.spec_remote_peers() == self.spec_remote_peers(),
            r.spec_context() == self.spec_context(),
    {
        PeerBuilder { certificate_chain: Some(CertificateChain::File(path)), ..self }
    }

    /// Sets the TLS certificate chain from memory.
    pub fn set_certificate_chain(self, chain: Vec<Vec<u8>>, format: FileFormat) -> (r:
        PeerBuilder<F, S>)
        ensures
            r.spec_quic_listen_port() == self.spec_quic_listen_port(),
            r.spec_certificate_chain() == Some(CertificateChain::Memory { chain, format }),
            r.spec_private_key() == self.spec_private_key(),
            r.spec_client_ca_cert_files() == self.spec_client_ca_cert_files(),
            r.spec_server_ca_cert_files() == self.spec_server_ca_cert_files(),
            r.spec_remote_peers() == self.spec_remote_peers(),
            r.spec_context() == self.spec_context(),
    {
        PeerBuilder { certificate_chain: Some(CertificateChain::Memory { chain, format }), ..self }
    }

    /// Sets the file of the TLS private key, in PEM format. A key already given
    /// from memory takes precedence and is kept.
    pub fn set_private_key_file(self, path: String) -> (r: PeerBuilder<F, S>)
        ensures
            r.spec_quic_listen_port() == self.spec_quic_listen_port(),
            r.spec_certificate_chain() == self.spec_certificate_chain(),
            r.spec_private_key() == (if self.spec_private_key() matches Some(
                PrivateKey::Memory { .. },
            ) {
                self.spec_private_key()
            } else {
                Some(PrivateKey::File(path))
            }),
            r.spec_client_ca_cert_files() == self.spec_client_ca_cert_files(),
            r.spec_server_ca_cert_files() == self.spec_server_ca_cert_files(),
            r.spec_remote_peers() == self.spec_remote_peers(),
            r.spec_context() == self.spec_context(),
    {
        let keep = match &self.private_key {
            Some(PrivateKey::Memory { .. }) => true,
            _ => false,
        };
        if keep {
            self
        } else {
            PeerBuilder { private_key: Some(PrivateKey::File(path)), ..self }
        }
    }

    /// Sets the TLS private key from memory.
    pub fn set_private_key(self, key: Vec<u8>, format: FileFormat) -> (r: PeerBuilder<F, S>)
        ensures
            r.spec_quic_listen_port() == self.spec_quic_listen_port(),
            r.spec_certificate_chain() == self.spec_certificate_chain(),
            r.spec_private_key() == Some(PrivateKey::Memory { key, format }),
            r.spec_client_ca_cert_files() == self.spec_client_ca_cert_files(),
            r.spec_server_ca_cert_files() == self.spec_server_ca_cert_files(),
            r.spec_remote_peers() == self.spec_remote_peers(),
            r.spec_context() == self.spec_context(),
    {
        PeerBuilder { private_key: Some(PrivateKey::Memory { key, format }), ..self }
    }

    /// Sets the CA certificate files that authenticate incoming connections.
    pub fn set_client_ca_cert_files(self, files: Vec<String>) -> (r: PeerBuilder<F, S>)
        ensures
            r.spec_quic_listen_port() == self.spec_quic_listen_port(),
            r.spec_certificate_chain() == self.spec_certificate_chain(),
            r.spec_private_key() == self.spec_private_key(),
            r.spec_client_ca_cert_files() == files@,
            r.spec_server_ca_cert_files() == self.spec_server_ca_cert_files(),
            r.spec_remote_peers() == self.spec_remote_peers(),
            r.spec_context() == self.spec_context(),
    {
        PeerBuilder { client_ca_cert_files: files, ..self }
    }

    /// Sets the CA certificate files that authenticate outgoing connections.
    pub fn set_server_ca_cert_files(self, files: Vec<String>) -> (r: PeerBuilder<F, S>)
        ensures
            r.spec_quic_listen_port() == self.spec_quic_listen_port(),
            r.spec_certificate_chain() == self.spec_certificate_chain(),
            r.spec_private_key() == self.spec_private_key(),
            r.spec_client_ca_cert_files() == self.spec_client_ca_cert_files(),
            r.spec_server_ca_cert_files() == files@,
            r.spec_remote_peers() == self.spec_remote_peers(),
            r.spec_context() == self.spec_context(),
    {
        PeerBuilder { server_ca_cert_files: files, ..self }
    }

    /// Adds a bearer that the peer may hold its connection to; when one
    /// connection dies, the next address is tried.
    pub fn add_remote_peer(self, peer: SocketAddress) -> (r: PeerBuilder<F, S>)
        ensures
            r.spec_remote_peers() == self.spec_remote_peers().push(peer),
            r.spec_quic_listen_port() == self.spec_quic_listen_port(),
            r.spec_certificate_chain() == self.spec_certificate_chain(),
            r.spec_private_key() == self.spec_private_key(),
            r.spec_client_ca_cert_files() == self.spec_client_ca_cert_files(),
            r.spec_server_ca_cert_files() == self.spec_server_ca_cert_files(),
            r.spec_context() == self.spec_context(),
    {
        let mut b = self;
        b.remote_peers.push(peer);
        b
    }

    /// Offers the service `factory` under `name`, replacing one registered
    /// earlier under that name.
    pub fn register_service(self, name: String, factory: F) -> (r: PeerBuilder<F, S>)
        requires
            self.spec_context().wf(),
        ensures
            r.spec_context().wf(),
            r.spec_context().services() == self.spec_context().services().insert(name@, factory),
            r.spec_context().executor() == self.spec_context().executor(),
            r.spec_remote_peers() == self.spec_remote_peers(),
            r.spec_quic_listen_port() == self.spec_quic_listen_port(),
            r.spec_certificate_chain() == self.spec_certificate_chain(),
            r.spec_private_key() == self.spec_private_key(),
            r.spec_client_ca_cert_files() == self.spec_client_ca_cert_files(),
            r.spec_server_ca_cert_files() == self.spec_server_ca_cert_files(),
    {
        let mut b = self;
        b.context.register_service(name, factory);
        b
    }

    /// The configuration, once a certificate chain and a private key are set;
    /// `CertificateMissing` or `PrivateKeyMissing` otherwise.
    pub fn build(self) -> (r: Result<PeerConfig<F, S>, Error>)
        ensures
            self.spec_certificate_chain() is None ==> r matches Err(Error::CertificateMissing),
            self.spec_certificate_chain() is Some && self.spec_private_key() is None ==> r matches Err(
                Error::PrivateKeyMissing,
            ),
            self.spec_certificate_chain() is Some && self.spec_private_key() is Some ==> (r matches Ok(
                cfg,
            ) && cfg.quic_listen_port == self.spec_quic_listen_port() && Some(cfg.certificate_chain)
                == self.spec_certificate_chain() && Some(cfg.private_key) == self.spec_private_key()
                && cfg.client_ca_cert_files@
                == self.spec_client_ca_cert_files() && cfg.server_ca_cert_files@
                == self.spec_server_ca_cert_files() && cfg.remote_peers@ == self.spec_remote_peers()
                && cfg.context == self.spec_context()),
    {
        match check_credentials(&self.certificate_chain, &self.private_key) {
            Err(e) => Err(e),
            Ok(()) => match (self.certificate_chain, self.private_key) {
                (Some(certificate_chain), Some(private_key)) => Ok(PeerConfig {
                    quic_listen_port: self.quic_listen_port,
                    certificate_chain,
                    private_key,
                    client_ca_cert_files: self.client_ca_cert_files,
                    server_ca_cert_files: self.server_ca_cert_files,
                    remote_peers: self.remote_peers,
                    context: self.context,
                }),
                _ => Err(Error::CertificateMissing),
            },
        }
    }
}

/// Where a bearer's QUIC endpoint listens.
#[derive(Clone, Copy, Debug)]
pub enum QuicListen {
    /// This port, on all interfaces.
    Port(u16),
    /// This address.
    Address(SocketAddress),
}

/// How a bearer reaches the key-value store that its ring shares.
#[derive(Clone, Debug)]
pub struct RingConfig {
    pub redis_address: SocketAddress,
    pub password: String,
}

/// Everything a bearer is started with.
pub struct BearerConfig {
    pub bearer_addr: SocketAddress,
    pub quic_listen: Option<QuicListen>,
    pub certificate_chain: CertificateChain,
    pub private_key: PrivateKey,
    pub client_ca_cert_files: Vec<String>,
    pub ring: Option<RingConfig>,
}

/// Collects the configuration of a bearer reachable at a given address. Each
/// setter replaces what an earlier call of it, or of its counterpart, set; the
/// one exception is a private key given from memory, which a key file does not
/// replace.
pub struct Builder {
    bearer_addr: SocketAddress,
    quic_listen: Option<QuicListen>,
    certificate_chain: Option<CertificateChain>,
    private_key: Option<PrivateKey>,
    client_ca_cert_files: Vec<String>,
    ring: Option<RingConfig>,
}

impl Builder {
    pub closed spec fn spec_bearer_addr(&self) -> SocketAddress {
        self.bearer_addr
    }

    pub closed spec fn spec_quic_listen(&self) -> Option<QuicListen> {
        self.quic_listen
    }

    pub closed spec fn spec_certificate_chain(&self) -> Option<CertificateChain> {
        self.certificate_chain
    }

    pub closed spec fn spec_private_key(&self) -> Option<PrivateKey> {
        self.private_key
    }

    pub closed spec fn spec_client_ca_cert_files(&self) -> Seq<String> {
        self.client_ca_cert_files@
    }

    pub closed spec fn spec_ring(&self) -> Option<RingConfig> {
        self.ring
    }

    /// A builder for the bearer reachable at `bearer_addr`, with nothing else set.
    pub fn new(bearer_addr: SocketAddress) -> (r: Builder)
        ensures
            r.spec_bearer_addr() == bearer_addr,
            r.spec_quic_listen() is None,
            r.spec_certificate_chain() is None,
            r.spec_private_key() is None,
            r.spec_client_ca_cert_files() == Seq::<String>::empty(),
            r.spec_ring() is None,
    {
        Builder {
            bearer_addr,
            quic_listen: None,
            certificate_chain: None,
            private_key: None,
            client_ca_cert_files: Vec::new(),
            ring: None,
        }
    }

    /// Sets the address that QUIC listens on.
    pub fn set_quic_listen_address(self, address: SocketAddress) -> (r: Builder)
        ensures
            r.spec_bearer_addr() == self.spec_bearer_addr(),
            r.spec_quic_listen() == (Some(QuicListen::Address(address))),
            r.spec_certificate_chain() == self.spec_certificate_chain(),
            r.spec_private_key() == self.spec_private_key(),
            r.spec_client_ca_cert_files() == self.spec_client_ca_cert_files(),
            r.spec_ring() == self.spec_ring(),
    {
        Builder { quic_listen: Some(QuicListen::Address(address)), ..self }
    }

    /// Sets the port that QUIC listens on, on all interfaces.
    pub fn set_quic_listen_port(self, port: u16) -> (r: Builder)
        ensures
            r.spec_bearer_addr() == self.spec_bearer_addr(),
            r.spec_quic_listen() == (Some(QuicListen::Port(port))),
            r.spec_certificate_chain() == self.spec_certificate_chain(),
            r.spec_private_key() == self.spec_private_key(),
            r.spec_client_ca_cert_files() == self.spec_client_ca_cert_files(),
            r.spec_ring() == self.spec_ring(),
    {
        Builder { quic_listen: Some(QuicListen::Port(port)), ..self }
    }

    /// Sets the file of the TLS certificate chain, in PEM format.
    pub fn set_cert_chain_file(self, path: String) -> (r: Builder)
        ensures
            r.spec_bearer_addr() == self.spec_bearer_addr(),
            r.spec_quic_listen() == self.spec_quic_listen(),
            r.spec_certificate_chain() == (Some(CertificateChain::File(path))),
            r.spec_private_key() == self.spec_private_key(),
            r.spec_client_ca_cert_files() == self.spec_client_ca_cert_files(),
            r.spec_ring() == self.spec_ring(),
    {
        Builder { certificate_chain: Some(CertificateChain::File(path)), ..self }
    }

    /// Sets the TLS certificate chain from memory.
    pub fn set_cert_chain(self, chain: Vec<Vec<u8>>, format: FileFormat) -> (r: Builder)
        ensures
            r.spec_bearer_addr() == self.spec_bearer_addr(),
            r.spec_quic_listen() == self.spec_quic_listen(),
            r.spec_certificate_chain() == (Some(CertificateChain::Memory { chain, format })),
            r.spec_private_key() == self.spec_private_key(),
            r.spec_client_ca_cert_files() == self.spec_client_ca_cert_files(),
            r.spec_ring() == self.spec_ring(),
    {
        Builder { certificate_chain: Some(CertificateChain::Memory { chain, format }), ..self }
    }

    /// Sets the file of the TLS private key, in PEM format. A key already given
    /// from memory takes precedence and is kept.
    pub fn set_private_key_file(self, path: String) -> (r: Builder)
        ensures
            r.spec_bearer_addr() == self.spec_bearer_addr(),
            r.spec_quic_listen() == self.spec_quic_listen(),
            r.spec_certificate_chain() == self.spec_certificate_chain(),
            r.spec_private_key() == (if self.spec_private_key() matches Some(
                PrivateKey::Memory { .. },
            ) {
                self.spec_private_key()
            } else {
                Some(PrivateKey::File(path))
            }),
            r.spec_client_ca_cert_files() == self.spec_client_ca_cert_files(),
            r.spec_ring() == self.spec_ring(),
    {
        let keep = match &self.private_key {
            Some(PrivateKey::Memory { .. }) => true,
            _ => false,
        };
        if keep {
            self
        } else {
            Builder { private_key: Some(PrivateKey::File(path)), ..self }
        }
    }

    /// Sets the TLS private key from memory.
    pub fn set_private_key(self, key: Vec<u8>, format: FileFormat) -> (r: Builder)
        ensures
            r.spec_bearer_addr() == self.spec_bearer_addr(),
            r.spec_quic_listen() == self.spec_quic_listen(),
            r.spec_certificate_chain() == self.spec_certificate_chain(),
            r.spec_private_key() == (Some(PrivateKey::Memory { key, format })),
            r.spec_client_ca_cert_files() == self.spec_client_ca_cert_files(),
            r.spec_ring() == self.spec_ring(),
    {
        Builder { private_key: Some(PrivateKey::Memory { key, format }), ..self }
    }

    /// Sets the CA certificate files that authenticate connecting peers.
    pub fn set_client_ca_cert_files(self, files: Vec<String>) -> (r: Builder)
        ensures
            r.spec_bearer_addr() == self.spec_bearer_addr(),
            r.spec_quic_listen() == self.spec_quic_listen(),
            r.spec_certificate_chain() == self.spec_certificate_chain(),
            r.spec_private_key() == self.spec_private_key(),
            r.spec_client_ca_cert_files() == (files@),
            r.spec_ring() == self.spec_ring(),
    {
        Builder { client_ca_cert_files: files, ..self }
    }

    /// Makes the bearer take part in the ring whose store is at `redis_address`.
    pub fn join_ring(self, redis_address: SocketAddress, password: String) -> (r: Builder)
        ensures
            r.spec_bearer_addr() == self.spec_bearer_addr(),
            r.spec_quic_listen() == self.spec_quic_listen(),
            r.spec_certificate_chain() == self.spec_certificate_chain(),
            r.spec_private_key() == self.spec_private_key(),
            r.spec_client_ca_cert_files() == self.spec_client_ca_cert_files(),
            r.spec_ring() == (Some(RingConfig { redis_address, password })),
    {
        Builder { ring: Some(RingConfig { redis_address, password }), ..self }
    }

    /// The configuration, once a certificate chain and a private key are set;
    /// `CertificateMissing` or `PrivateKeyMissing` otherwise.
    pub fn build(self) -> (r: Result<BearerConfig, Error>)
        ensures
            self.spec_certificate_chain() is None ==> r matches Err(Error::CertificateMissing),
            self.spec_certificate_chain() is Some && self.spec_private_key() is None ==> r matches Err(
                Error::PrivateKeyMissing,
            ),
            self.spec_certificate_chain() is Some && self.spec_private_key() is Some ==> (r matches Ok(
                cfg,
            ) && cfg.bearer_addr == self.spec_bearer_addr() && cfg.quic_listen
                == self.spec_quic_listen() && Some(cfg.certificate_chain)
                == self.spec_certificate_chain() && Some(cfg.private_key) == self.spec_private_key()
                && cfg.client_ca_cert_files@ == self.spec_client_ca_cert_files() && cfg.ring
                == self.spec_ring()),
    {
        match check_credentials(&self.certificate_chain, &self.private_key) {
            Err(e) => Err(e),
            Ok(()) => match (self.certificate_chain, self.private_key) {
                (Some(certificate_chain), Some(private_key)) => Ok(BearerConfig {
                    bearer_addr: self.bearer_addr,
                    quic_listen: self.quic_listen,
                    certificate_chain,
                    private_key,
                    client_ca_cert_files: self.client_ca_cert_files,
                    ring: self.ring,
                }),
                _ => Err(Error::CertificateMissing),
            },
        }
    }
}

} // verus!
