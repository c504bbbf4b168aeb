//! A byte stream that is either a raw TCP stream or a TCP stream under TLS.
//!
//! The TLS handshake is network work and is done by the caller. This module
//! decides whether a handshake is owed and what the stream is afterwards.

use tokio::net::TcpStream;
use tokio_native_tls::TlsStream;
use vstd::prelude::*;

verus! {

/// tokio's connected TCP socket, carried through as an opaque value.
#[verifier::external_type_specification]
#[verifier::external_body]
pub struct ExTcpStream(TcpStream);

/// tokio-native-tls's stream over an inner stream `S`, carried through as an
/// opaque value.
#[verifier::external_type_specification]
#[verifier::external_body]
#[verifier::reject_recursive_types(S)]
pub struct ExTlsStream<S>(TlsStream<S>);

/// native-tls's error, here that of a failed handshake, carried through as
/// an opaque value.
#[verifier::external_type_specification]
#[verifier::external_body]
pub struct ExTlsError(native_tls::Error);

/// Either a raw TCP stream or a TCP stream with TLS enabled.
#[derive(Debug)]
pub enum TlsOrTcpStream {
    TcpStream(TcpStream),
    TlsStream(TlsStream<TcpStream>),
}

/// What an upgrade asks of the caller.
#[derive(Debug)]
pub enum UpgradeStep {
    /// The stream was raw: the handshake is to be made on this socket.
    Handshake(TcpStream),
    /// The stream was under TLS already: it is handed back as it was.
    Done(TlsOrTcpStream),
}

impl TlsOrTcpStream {
    /// The first half of an upgrade, as a function of the stream.
    pub open spec fn upgrade_step(self) -> UpgradeStep {
        match self {
            TlsOrTcpStream::TcpStream(stream) => UpgradeStep::Handshake(stream),
            TlsOrTcpStream::TlsStream(stream) => UpgradeStep::Done(
                TlsOrTcpStream::TlsStream(stream),
            ),
        }
    }

    /// The second half of an upgrade, as a function of the handshake's
    /// outcome.
    pub open spec fn upgrade_outcome(
        outcome: Result<TlsStream<TcpStream>, native_tls::Error>,
    ) -> Result<TlsOrTcpStream, native_tls::Error> {
        match outcome {
            Ok(stream) => Ok(TlsOrTcpStream::TlsStream(stream)),
            Err(error) => Err(error),
        }
    }

    /// Wraps a freshly connected raw socket.
    pub fn new(stream: TcpStream) -> (transport: Self)
        ensures
            transport == TlsOrTcpStream::TcpStream(stream),
    {
        Self::TcpStream(stream)
    }

    /// Tells whether the stream is under TLS.
    pub fn is_tls(&self) -> (yes: bool)
        ensures
            yes == (*self is TlsStream),
    {
        match self {
            Self::TcpStream(_) => false,
            Self::TlsStream(_) => true,
        }
    }

    /// Starts an upgrade to TLS. The stream is consumed: a raw stream gives
    /// up its socket for the handshake, and a stream that is under TLS
    /// already comes back unchanged, with no handshake asked for.
    pub fn upgrade(self) -> (step: UpgradeStep)
        ensures
            step == self.upgrade_step(),
            self is TlsStream ==> step == UpgradeStep::Done(self),
    {
        match self {
            Self::TcpStream(stream) => UpgradeStep::Handshake(stream),
            Self::TlsStream(stream) => UpgradeStep::Done(Self::TlsStream(stream)),
        }
    }

    /// Finishes an upgrade from the outcome of the handshake. A handshake
    /// that succeeded gives the stream under TLS. One that failed gives its
    /// error as it came, and no stream: the socket went with the handshake.
    pub fn upgraded(outcome: Result<TlsStream<TcpStream>, native_tls::Error>) -> (result: Result<
        Self,
        native_tls::Error,
    >)
        ensures
            result == Self::upgrade_outcome(outcome),
    {
        match outcome {
            Ok(stream) => Ok(Self::TlsStream(stream)),
            Err(error) => Err(error),
        }
    }
}

/// Once under TLS, always under TLS: a stream that a successful upgrade gave
/// is handed back unchanged by any later upgrade, and no handshake is asked
/// for again.
pub proof fn lemma_upgrade_idempotent(stream: TlsStream<TcpStream>)
    ensures
        TlsOrTcpStream::upgrade_outcome(Ok(stream)) matches Ok(secure) && secure is TlsStream
            && secure.upgrade_step() == UpgradeStep::Done(secure),
{
}

/// An upgrade never takes a stream out of TLS. A handshake is asked for of a
/// raw stream and of no other, and a stream that is handed back is under TLS
/// and is the very stream that was given.
pub proof fn lemma_upgrade_never_downgrades(transport: TlsOrTcpStream)
    ensures
        transport is TcpStream <==> transport.upgrade_step() is Handshake,
        transport.upgrade_step() matches UpgradeStep::Done(kept) ==> kept is TlsStream && kept
            == transport,
{
}

} // verus!
