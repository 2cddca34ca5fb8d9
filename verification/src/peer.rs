//! Peer configuration and build phase: collects certificates, the private
//! key, trust sets, the listen port, the bearer candidates and the service
//! registrations, then seals them into a [`Peer`].
//!
//! The build phase is the only phase that mutates the service registry;
//! a built peer hands every connection handler the same sealed registry.
//! Reading key and certificate files and the TLS work itself belong to the
//! transport outside this crate; the peer records where the material is
//! and in which format.

use vstd::prelude::*;
use vstd::string::StringSliceAdditionalSpecFns;

use crate::context::{PeerContext, ServiceEntry};
use crate::endpoint::{parse_endpoint, spec_parse_endpoint, BearerEndpoint};
use crate::error::Error;
use crate::protocol::ServiceName;
use crate::rendezvous::ConnectionIdAllocator;

verus! {

/// How key or certificate bytes are serialized.
#[derive(Clone, Copy, Debug, PartialEq, Eq, Structural)]
pub enum FileFormat {
    PEM,
    DER,
}

/// Where the peer's private key comes from. Key material given in memory
/// wins over a configured file.
#[derive(Clone, Debug, PartialEq, Eq)]
pub enum KeySource {
    InMemory { format: FileFormat, data: Vec<u8> },
    InFile { path: String },
}

/// Where the peer's certificate chain comes from, if anywhere.
#[derive(Clone, Debug, PartialEq, Eq)]
pub enum CertChainSource {
    InMemory { format: FileFormat, chain: Vec<Vec<u8>> },
    InFile { path: String },
}

/// Collects a peer's configuration before it starts running.
pub struct PeerBuilder<S> {
    pub cert_chain_file: Option<String>,
    pub cert_chain: Option<(FileFormat, Vec<Vec<u8>>)>,
    pub private_key_file: Option<String>,
    pub private_key: Option<(FileFormat, Vec<u8>)>,
    pub client_ca_cert_files: Vec<String>,
    pub server_ca_cert_files: Vec<String>,
    pub quic_listen_port: Option<u16>,
    pub remote_peers: Vec<BearerEndpoint>,
    pub services: PeerContext<S>,
}

/// A peer's sealed configuration: what the runtime outside this crate
/// needs to listen, to hold a bearer link, and to dispatch services.
pub struct Peer<S> {
    pub key: KeySource,
    pub cert_chain: Option<CertChainSource>,
    pub client_ca_cert_files: Vec<String>,
    pub server_ca_cert_files: Vec<String>,
    pub quic_listen_port: Option<u16>,
    pub remote_peers: Vec<BearerEndpoint>,
    pub services: PeerContext<S>,
    pub connection_ids: ConnectionIdAllocator,
}

impl<S> Peer<S> {
    /// Starts collecting configuration for a peer.
    pub fn builder() -> (r: PeerBuilder<S>)
        ensures
            r.cert_chain_file is None,
            r.cert_chain is None,
            r.private_key_file is None,
            r.private_key is None,
            r.client_ca_cert_files@.len() == 0,
            r.server_ca_cert_files@.len() == 0,
            r.quic_listen_port is None,
            r.remote_peers@.len() == 0,
            r.services@.len() == 0,
    {
        PeerBuilder {
            cert_chain_file: None,
            cert_chain: None,
            private_key_file: None,
            private_key: None,
            client_ca_cert_files: Vec::new(),
            server_ca_cert_files: Vec::new(),
            quic_listen_port: None,
            remote_peers: Vec::new(),
            services: PeerContext::new(),
        }
    }
}

impl<S> PeerBuilder<S> {
    /// Sets the TLS certificate chain filename.
    pub fn set_cert_chain_file(self, path: String) -> (r: PeerBuilder<S>)
        ensures
            r == (PeerBuilder { cert_chain_file: Some(path), ..self }),
    {
        PeerBuilder { cert_chain_file: Some(path), ..self }
    }

    /// Sets the TLS certificate chain filename.
    pub fn set_certificate_chain_file(self, path: String) -> (r: PeerBuilder<S>)
        ensures
            r == (PeerBuilder { cert_chain_file: Some(path), ..self }),
    {
        PeerBuilder { cert_chain_file: Some(path), ..self }
    }

    /// Sets the TLS certificate chain from memory. At build time it wins
    /// over any certificate chain filename set before or after.
    pub fn set_cert_chain(self, chain: Vec<Vec<u8>>, format: FileFormat) -> (r: PeerBuilder<S>)
        ensures
            r == (PeerBuilder { cert_chain: Some((format, chain)), ..self }),
    {
        PeerBuilder { cert_chain: Some((format, chain)), ..self }
    }

    /// Sets the TLS certificate chain from memory. At build time it wins
    /// over any certificate chain filename set before or after.
    pub fn set_certificate_chain(self, chain: Vec<Vec<u8>>, format: FileFormat) -> (r:
        PeerBuilder<S>)
        ensures
            r == (PeerBuilder { cert_chain: Some((format, chain)), ..self }),
    {
        PeerBuilder { cert_chain: Some((format, chain)), ..self }
    }

    /// Sets the TLS private key filename. The key file is expected in PEM
    /// format.
    pub fn set_private_key_file(self, path: String) -> (r: PeerBuilder<S>)
        ensures
            r == (PeerBuilder { private_key_file: Some(path), ..self }),
    {
        PeerBuilder { private_key_file: Some(path), ..self }
    }

    /// Sets the TLS private key from memory. At build time it wins over
    /// any private key filename set before or after.
    pub fn set_private_key(self, key: Vec<u8>, format: FileFormat) -> (r: PeerBuilder<S>)
        ensures
            r == (PeerBuilder { private_key: Some((format, key)), ..self }),
    {
        PeerBuilder { private_key: Some((format, key)), ..self }
    }

    /// Sets the client CA certificate files, used to authenticate
    /// connecting clients. With none given, every authenticated client is
    /// accepted.
    pub fn set_client_ca_cert_files(self, files: Vec<String>) -> (r: PeerBuilder<S>)
        ensures
            r == (PeerBuilder { client_ca_cert_files: files, ..self }),
    {
        PeerBuilder { client_ca_cert_files: files, ..self }
    }

    /// Sets the server CA certificate files, used to authenticate servers.
    /// With none given, every authenticated server is trusted.
    pub fn set_server_ca_cert_files(self, files: Vec<String>) -> (r: PeerBuilder<S>)
        ensures
            r == (PeerBuilder { server_ca_cert_files: files, ..self }),
    {
        PeerBuilder { server_ca_cert_files: files, ..self }
    }

    /// Sets the port the transport listens on. Without it the transport
    /// picks one.
    pub fn set_quic_listen_port(self, port: u16) -> (r: PeerBuilder<S>)
        ensures
            r == (PeerBuilder { quic_listen_port: Some(port), ..self }),
    {
        PeerBuilder { quic_listen_port: Some(port), ..self }
    }

    /// Registers a service under its name. The peer will answer
    /// `RequestService` for this name by starting the given server.
    /// Registering a taken name overwrites the earlier registration.
    pub fn register_service(self, name: ServiceName, server: S) -> (r: PeerBuilder<S>)
        requires
            name.wf(),
        ensures
            r.services@ == self.services@.push(ServiceEntry { name, server }),
            r.services.spec_lookup(name@) == Some(server),
            r.cert_chain_file == self.cert_chain_file,
            r.cert_chain == self.cert_chain,
            r.private_key_file == self.private_key_file,
            r.private_key == self.private_key,
            r.client_ca_cert_files == self.client_ca_cert_files,
            r.server_ca_cert_files == self.server_ca_cert_files,
            r.quic_listen_port == self.quic_listen_port,
            r.remote_peers == self.remote_peers,
    {
        let mut b = self;
        b.services.register(name, server);
        b
    }

    /// Adds a bearer candidate. The running peer holds a connection to one
    /// of its bearers; when that connection closes, it moves to the next
    /// candidate, which keeps the peer reachable.
    pub fn add_remote_peer(self, peer: BearerEndpoint) -> (r: PeerBuilder<S>)
        ensures
            r.remote_peers@ == self.remote_peers@.push(peer),
            r.cert_chain_file == self.cert_chain_file,
            r.cert_chain == self.cert_chain,
            r.private_key_file == self.private_key_file,
            r.private_key == self.private_key,
            r.client_ca_cert_files == self.client_ca_cert_files,
            r.server_ca_cert_files == self.server_ca_cert_files,
            r.quic_listen_port == self.quic_listen_port,
            r.services == self.services,
    {
        let mut b = self;
        b.remote_peers.push(peer);
        b
    }

    /// Adds a bearer candidate given as a `host:port` string. The port is
    /// required; a string without one is rejected as a configuration
    /// error, and the builder is handed back unchanged inside it.
    pub fn add_remote_peer_by_url(self, url: &str) -> (r: Result<PeerBuilder<S>, Error>)
        ensures
            r matches Ok(b) ==> ({
                &&& spec_parse_endpoint(url.spec_bytes()) matches Some((host, port))
                &&& b.remote_peers@.len() == self.remote_peers@.len() + 1
                &&& b.remote_peers@.last().host@ == host
                &&& b.remote_peers@.last().port == port
                &&& b.remote_peers@.take(self.remote_peers@.len() as int) == self.remote_peers@
                &&& b.cert_chain_file == self.cert_chain_file
                &&& b.cert_chain == self.cert_chain
                &&& b.private_key_file == self.private_key_file
                &&& b.private_key == self.private_key
                &&& b.client_ca_cert_files == self.client_ca_cert_files
                &&& b.server_ca_cert_files == self.server_ca_cert_files
                &&& b.quic_listen_port == self.quic_listen_port
                &&& b.services == self.services
            }),
            r is Err <==> spec_parse_endpoint(url.spec_bytes()) is None,
            r matches Err(e) ==> e == Error::Configuration,
    {
        let ep = match parse_endpoint(url.as_bytes()) {
            Ok(ep) => ep,
            Err(e) => {
                return Err(e);
            },
        };
        let mut b = self;
        b.remote_peers.push(ep);
        proof {
            assert(b.remote_peers@.take(b.remote_peers@.len() - 1) =~= self.remote_peers@);
        }
        Ok(b)
    }

    /// Seals the configuration into a peer.
    ///
    /// A private key is required: key material from memory wins, a key
    /// file comes second, and with neither the build fails. The
    /// certificate chain is picked the same way but may be absent. The
    /// sealed peer starts with a fresh connection-id allocator.
    pub fn build(self) -> (r: Result<Peer<S>, Error>)
        ensures
            r is Err <==> self.private_key is None && self.private_key_file is None,
            r matches Err(e) ==> e == Error::Configuration,
            r matches Ok(p) ==> ({
                &&& p.key == (match self.private_key {
                    Some((format, data)) => KeySource::InMemory { format, data },
                    None => KeySource::InFile { path: self.private_key_file->Some_0 },
                })
                &&& p.cert_chain == (match self.cert_chain {
                    Some((format, chain)) => Some(CertChainSource::InMemory { format, chain }),
                    None => match self.cert_chain_file {
                        Some(path) => Some(CertChainSource::InFile { path }),
                        None => None,
                    },
                })
                &&& p.client_ca_cert_files == self.client_ca_cert_files
                &&& p.server_ca_cert_files == self.server_ca_cert_files
                &&& p.quic_listen_port == self.quic_listen_port
                &&& p.remote_peers == self.remote_peers
                &&& p.services == self.services
                &&& p.connection_ids@ == 0
            }),
    {
        let key = match self.private_key {
            Some((format, data)) => KeySource::InMemory { format, data },
            None => match self.private_key_file {
                Some(path) => KeySource::InFile { path },
                None => {
                    return Err(Error::Configuration);
                },
            },
        };
        let cert_chain = match self.cert_chain {
            Some((format, chain)) => Some(CertChainSource::InMemory { format, chain }),
            None => match self.cert_chain_file {
                Some(path) => Some(CertChainSource::InFile { path }),
                None => None,
            },
        };
        Ok(
            Peer {
                key,
                cert_chain,
                client_ca_cert_files: self.client_ca_cert_files,
                server_ca_cert_files: self.server_ca_cert_files,
                quic_listen_port: self.quic_listen_port,
                remote_peers: self.remote_peers,
                services: self.services,
                connection_ids: ConnectionIdAllocator::new(),
            },
        )
    }
}

} // verus!
