//! A verified model of a host-to-script object bridge: a bidirectional,
//! identity-preserving value converter, an on-demand proxy generator for
//! host objects, and a single-writer engine session that dispatches a
//! fixed call protocol into an embedded scripting engine.

use vstd::prelude::*;

pub mod bridge;
pub mod laws;
pub mod manifest;
pub mod session;
pub mod proxy;
pub mod values;

pub use values::HostValue;
pub use values::JsonNode;
pub use values::ScriptValue;

verus! {

/// A pending host-side failure observed while a value crosses. The converters
/// short-circuit to script-undefined the instant one is pending and perform no
/// further side effects; the session propagates it instead of masking it.
#[derive(Clone, Copy, Debug, PartialEq, Eq)]
pub enum Fault {
    /// A host exception is pending (raised by host code the bridge re-entered).
    Host,
    /// An unsupported or malformed value tried to cross.
    Conv,
    /// An identity token no longer resolves to a script object.
    Dangling(u64),
}

/// Errors surfaced by the bridge and the engine session.
#[derive(Debug, PartialEq, Eq)]
pub enum BridgeError {
    /// An unsupported or malformed value tried to cross the boundary.
    Conversion,
    /// An identity token no longer resolves to a live script object.
    Lookup(u64),
    /// A dispatcher entry point is missing or misbehaving.
    Protocol,
    /// The requested type is unknown or the constructor arguments mismatch.
    Construction,
    /// The package archive is corrupt or does not match the request.
    Archive,
    /// An error raised by the called target itself, propagated verbatim as
    /// the engine-side value that was thrown, never wrapped.
    Target(ScriptValue),
    /// A host exception was already pending when a value crossed.
    HostException,
    /// The session is already mid-operation; concurrent entry is refused.
    Busy,
    /// The session is not in the `Ready` state.
    NotReady,
    /// Proxy method stubs refuse general re-entrant calls by design.
    NotImplemented,
    /// The property exposes no setter; writes are refused.
    NoSetter,
}

} // verus!
