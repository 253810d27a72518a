use vstd::prelude::*;

verus! {

/// The failures of the canvas service.
#[derive(Clone, Copy, Debug, PartialEq, Eq, Structural)]
pub enum CanvasError {
    /// A required configuration value is absent.
    ConfigMissing,
    /// The store could not be reached or answered with an error.
    StoreUnavailable,
    /// A pixel edit lies outside the canvas.
    InvalidCoordinate,
    /// An inbound frame is malformed or incomplete.
    ProtocolError,
    /// The streaming connection failed or was closed by the peer.
    TransportError,
}

} // verus!
