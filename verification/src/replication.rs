//! The first stages of building the replication server: a local immutable
//! store, then TLS that is either fully configured (mutual TLS) or absent.
use vstd::prelude::*;
use vstd::string::*;

verus! {

/// Builder of the replication server; `State` is the stage reached.
#[derive(Debug)]
pub struct GrpcReplicationServerBuilder<State>(State);

/// The first stage: the builder wants the immutable store.
#[derive(Debug)]
pub struct WantsImmutableStore(());

/// The second stage: the builder holds a local immutable store and wants
/// the TLS configuration.
#[derive(Debug)]
pub struct WantsTlsConfig<S> {
    local_immutable_store: S,
}

/// The paths of the three files of mutual TLS.
#[derive(Debug)]
pub struct TlsFiles<P> {
    pub cert: P,
    pub key: P,
    pub cert_chain: P,
}

/// The third stage: the builder holds the store and the TLS decision, and
/// wants the HTTP/2 configuration.
#[derive(Debug)]
pub struct WantsHttp2Config<S, P> {
    local_immutable_store: S,
    tls_files: Option<TlsFiles<P>>,
}

/// The text std gives a `bool`.
pub open spec fn bool_text(b: bool) -> Seq<char> {
    if b { "true"@ } else { "false"@ }
}

/// The message that rejects a partial TLS configuration.
pub open spec fn partial_tls_message(cert: bool, key: bool, chain: bool) -> Seq<char> {
    "Replication TLS is partially configured: cert="@ + bool_text(cert) + ", key="@ + bool_text(key)
        + ", cert_chain="@ + bool_text(chain) + ". Provide all three or none"@
}

fn bool_str(b: bool) -> (r: &'static str)
    ensures
        r@ == bool_text(b),
{
    if b { "true" } else { "false" }
}

impl GrpcReplicationServerBuilder<WantsImmutableStore> {
    /// The builder at its first stage, wanting the immutable store.
    pub closed spec fn spec_first_stage() -> Self {
        GrpcReplicationServerBuilder(WantsImmutableStore(()))
    }

    /// Starts building: the builder at its first stage.
    pub fn new() -> (r: Self)
        ensures
            r == Self::spec_first_stage(),
    {
        GrpcReplicationServerBuilder(WantsImmutableStore(()))
    }

    /// Takes the immutable store, which must be a local one (`is_local`
    /// says whether it is).
    pub fn with_local_immutable_store<S>(self, immutable_store: S, is_local: bool) -> (r: Result<
        GrpcReplicationServerBuilder<WantsTlsConfig<S>>,
        String,
    >)
        ensures
            is_local ==> (r matches Ok(b) && b.spec_store() == immutable_store),
            !is_local ==> (r matches Err(m) && m@ == "Immutable store must be a local store"@),
    {
        if !is_local {
            return Err(String::from_str("Immutable store must be a local store"));
        }
        Ok(GrpcReplicationServerBuilder(WantsTlsConfig { local_immutable_store: immutable_store }))
    }
}

impl<S> GrpcReplicationServerBuilder<WantsTlsConfig<S>> {
    /// The store this builder holds.
    pub closed spec fn spec_store(&self) -> S {
        self.0.local_immutable_store
    }

    /// Takes the TLS configuration: either all three of certificate, key and
    /// CA chain (mutual TLS), or none of them (no TLS, which the caller must
    /// have judged acceptable). Anything in between is refused rather than
    /// silently downgraded.
    pub fn with_tls_config<P>(self, cert_path: Option<P>, key_path: Option<P>, cert_chain_path: Option<P>) -> (r: Result<
        GrpcReplicationServerBuilder<WantsHttp2Config<S, P>>,
        String,
    >)
        ensures
            match (cert_path, key_path, cert_chain_path) {
                (Some(c), Some(k), Some(ch)) => r matches Ok(b) && b.spec_store() == self.spec_store()
                    && b.spec_tls() == Some(TlsFiles { cert: c, key: k, cert_chain: ch }),
                (None, None, None) => r matches Ok(b) && b.spec_store() == self.spec_store()
                    && b.spec_tls() is None,
                _ => r matches Err(m) && m@ == partial_tls_message(
                    cert_path is Some,
                    key_path is Some,
                    cert_chain_path is Some,
                ),
            },
    {
        let store = self.0.local_immutable_store;
        match (cert_path, key_path, cert_chain_path) {
            (Some(cert), Some(key), Some(cert_chain)) => Ok(GrpcReplicationServerBuilder(WantsHttp2Config {
                local_immutable_store: store,
                tls_files: Some(TlsFiles { cert, key, cert_chain }),
            })),
            (None, None, None) => Ok(GrpcReplicationServerBuilder(WantsHttp2Config {
                local_immutable_store: store,
                tls_files: None,
            })),
            (cert, key, chain) => {
                let mut m = String::from_str("Replication TLS is partially configured: cert=");
                m.append(bool_str(cert.is_some()));
                m.append(", key=");
                m.append(bool_str(key.is_some()));
                m.append(", cert_chain=");
                m.append(bool_str(chain.is_some()));
                m.append(". Provide all three or none");
                Err(m)
            },
        }
    }
}

impl<S, P> GrpcReplicationServerBuilder<WantsHttp2Config<S, P>> {
    /// The store this builder holds.
    pub closed spec fn spec_store(&self) -> S {
        self.0.local_immutable_store
    }

    /// The TLS files this builder holds, if TLS is configured.
    pub closed spec fn spec_tls(&self) -> Option<TlsFiles<P>> {
        self.0.tls_files
    }

    /// The store and the TLS files, for setting up the transport.
    pub fn into_parts(self) -> (r: (S, Option<TlsFiles<P>>))
        ensures
            r.0 == self.spec_store(),
            r.1 == self.spec_tls(),
    {
        (self.0.local_immutable_store, self.0.tls_files)
    }
}

} // verus!
