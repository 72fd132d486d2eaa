//! The engine session: the single owner of one embedded engine instance and
//! its seven resolved dispatch entry points.
//!
//! A session starts `Uninitialized`; resolving all seven entry points makes
//! it `Ready`, a missing one makes it `Faulted` for good. Every operation
//! requires `Ready` and exclusive entry: a second operation on a session
//! already mid-operation fails immediately with a busy error and leaves
//! engine state unaffected — callers queue nowhere.
//!
//! Each operation splits in two: the request half lowers host arguments
//! through the value bridge and hands back the dispatcher call to perform
//! inside the engine; the finish half takes the engine's reply and raises
//! the result back to host encoding. Between the two the session is
//! mid-operation. A callback that re-enters the host from inside the engine
//! and then calls back into the engine reuses the same entered session
//! context through the conversion entry points, which are deliberately not
//! guarded.

use vstd::prelude::*;

use crate::BridgeError;
use crate::Fault;
use crate::bridge::Bridge;
use crate::bridge::BridgeView;
use crate::bridge::getter_outcome;
use crate::bridge::invoke_outcome;
use crate::bridge::lemma_lower_seq_wf;
use crate::bridge::lemma_lower_wf;
use crate::bridge::lemma_raise_wf;
use crate::bridge::lower;
use crate::bridge::lower_seq;
use crate::bridge::matches_raised;
use crate::bridge::raise;
use crate::bridge::setter_outcome;
use crate::manifest::entry_path_of;
use crate::manifest::manifest_main_of;
use crate::manifest::manifest_name_of;
use crate::manifest::manifest_version_of;
use crate::manifest::parse_manifest;
use crate::manifest::validate_package;
use crate::proxy::DescTerm;
use crate::proxy::HostContext;
use crate::proxy::MethodDescriptor;
use crate::values::HostValue;
use crate::values::ScriptValue;
use crate::values::script_term_seq;

verus! {

/// The lifecycle of a session: `Faulted` is terminal and entered only on an
/// unrecoverable dispatch failure; application-level target errors do not
/// fault the session.
#[derive(Clone, Copy, Debug, PartialEq, Eq)]
pub enum SessionState {
    Uninitialized,
    Ready,
    Faulted,
}

/// Which operation is mid-flight on the session.
#[derive(Clone, Copy, Debug, PartialEq, Eq)]
pub enum OpKind {
    Load,
    Create,
    Call,
    CallStatic,
    Get,
    GetStatic,
    SetProp,
}

/// Which of the seven named dispatcher entry points were resolved when the
/// engine was bootstrapped.
#[derive(Clone, Copy, Debug)]
pub struct EntryPoints {
    pub load: bool,
    pub create: bool,
    pub call: bool,
    pub call_static: bool,
    pub get: bool,
    pub get_static: bool,
    pub set: bool,
}

impl EntryPoints {
    /// All seven entry points resolved.
    pub open spec fn complete(self) -> bool {
        self.load && self.create && self.call && self.call_static && self.get && self.get_static
            && self.set
    }

    pub fn all_resolved(&self) -> (r: bool)
        ensures
            r == self.complete(),
    {
        self.load && self.create && self.call && self.call_static && self.get && self.get_static
            && self.set
    }
}

/// A dispatcher call the caller performs inside the engine, with every
/// argument already lowered to engine encoding.
#[derive(Debug, PartialEq, Eq)]
pub enum EngineCall {
    Load { name: String, entry: String },
    Create { fqn: String, args: Vec<ScriptValue> },
    Call { recv: ScriptValue, method: String, args: Vec<ScriptValue> },
    CallStatic { fqn: String, method: String, args: Vec<ScriptValue> },
    Get { recv: ScriptValue, property: String },
    GetStatic { fqn: String, property: String },
    SetProp { recv: ScriptValue, property: String, value: ScriptValue },
}

/// What came back from the engine for a dispatched call: a value, no value
/// at all, or an error raised by the called target itself.
#[derive(Debug, PartialEq, Eq)]
pub enum EngineReply {
    Value(ScriptValue),
    NoValue,
    Threw(ScriptValue),
}

/// Mathematical model of a session.
#[verifier::ext_equal]
pub struct KernelView {
    pub state: SessionState,
    pub in_flight: Option<OpKind>,
    pub bridge: BridgeView,
}

/// The model with the mid-operation mark cleared.
pub open spec fn cleared(kv: KernelView) -> KernelView {
    KernelView { in_flight: None, ..kv }
}

/// The caller-visible error a pending fault surfaces as.
pub open spec fn fault_error(f: Fault) -> BridgeError {
    match f {
        Fault::Host => BridgeError::HostException,
        Fault::Conv => BridgeError::Conversion,
        Fault::Dangling(t) => BridgeError::Lookup(t),
    }
}

fn fault_to_error(f: Fault) -> (e: BridgeError)
    ensures
        e == fault_error(f),
{
    match f {
        Fault::Host => BridgeError::HostException,
        Fault::Conv => BridgeError::Conversion,
        Fault::Dangling(t) => BridgeError::Lookup(t),
    }
}

/// What finishing a value-returning operation (call, static call, property
/// read) does with the engine's reply: a reply out of turn is a protocol
/// error; a target error propagates verbatim; a value raises through the
/// bridge's return path.
pub open spec fn finish_value_spec(
    kv: KernelView,
    k: OpKind,
    reply: EngineReply,
    r: Result<HostValue, BridgeError>,
    kv2: KernelView,
) -> bool {
    match r {
        Ok(h) => {
            &&& kv.in_flight == Some(k)
            &&& reply matches EngineReply::Value(v) && ({
                let o = raise(kv.bridge, None, v);
                &&& o.fault is None
                &&& matches_raised(h, o.val)
                &&& kv2 == (KernelView { in_flight: None, bridge: o.bv, ..kv })
            })
        },
        Err(e) => {
            if kv.in_flight != Some(k) {
                e == BridgeError::Protocol && kv2 == kv
            } else {
                match reply {
                    EngineReply::NoValue => e == BridgeError::Protocol && kv2 == cleared(kv),
                    EngineReply::Threw(v) => e == BridgeError::Target(v) && kv2 == cleared(kv),
                    EngineReply::Value(v) => ({
                        let o = raise(kv.bridge, None, v);
                        &&& o.fault is Some
                        &&& e == fault_error(o.fault->0)
                        &&& kv2 == (KernelView { in_flight: None, bridge: o.bv, ..kv })
                    }),
                }
            }
        },
    }
}

/// One engine session: its lifecycle state, the operation mid-flight if
/// any, and the value bridge with the session-scoped identity maps.
pub struct Kernel {
    state: SessionState,
    in_flight: Option<OpKind>,
    bridge: Bridge,
}

impl View for Kernel {
    type V = KernelView;

    closed spec fn view(&self) -> KernelView {
        KernelView { state: self.state, in_flight: self.in_flight, bridge: self.bridge@ }
    }
}

impl Kernel {
    /// The session's internal invariant: its bridge is well-formed.
    pub open spec fn wf(&self) -> bool {
        self@.bridge.wf()
    }

    /// A fresh session, not yet bootstrapped, with empty identity maps.
    pub fn new() -> (r: Kernel)
        ensures
            r@.state == SessionState::Uninitialized,
            r@.in_flight is None,
            r@.bridge == BridgeView::empty(),
            r.wf(),
    {
        Kernel { state: SessionState::Uninitialized, in_flight: None, bridge: Bridge::new() }
    }

    /// Complete the one-time bootstrap: with all seven dispatcher entry
    /// points resolved the session becomes `Ready`; with any missing it
    /// becomes `Faulted` for good.
    pub fn initialize(&mut self, eps: &EntryPoints) -> (r: Result<(), BridgeError>)
        requires
            old(self).wf(),
        ensures
            final(self).wf(),
            final(self)@.in_flight == old(self)@.in_flight,
            final(self)@.bridge == old(self)@.bridge,
            match r {
                Ok(_) => {
                    &&& old(self)@.state == SessionState::Uninitialized
                    &&& eps.complete()
                    &&& final(self)@.state == SessionState::Ready
                },
                Err(e) => {
                    if old(self)@.state != SessionState::Uninitialized {
                        e == BridgeError::NotReady && final(self)@.state == old(self)@.state
                    } else {
                        &&& !eps.complete()
                        &&& e == BridgeError::Protocol
                        &&& final(self)@.state == SessionState::Faulted
                    }
                },
            },
    {
        if !matches!(self.state, SessionState::Uninitialized) {
            return Err(BridgeError::NotReady);
        }
        if eps.all_resolved() {
            self.state = SessionState::Ready;
            Ok(())
        } else {
            self.state = SessionState::Faulted;
            Err(BridgeError::Protocol)
        }
    }

    fn in_flight_is(&self, k: OpKind) -> (r: bool)
        ensures
            r == (self@.in_flight == Some(k)),
    {
        match self.in_flight {
            None => false,
            Some(cur) => match (cur, k) {
                (OpKind::Load, OpKind::Load) => true,
                (OpKind::Create, OpKind::Create) => true,
                (OpKind::Call, OpKind::Call) => true,
                (OpKind::CallStatic, OpKind::CallStatic) => true,
                (OpKind::Get, OpKind::Get) => true,
                (OpKind::GetStatic, OpKind::GetStatic) => true,
                (OpKind::SetProp, OpKind::SetProp) => true,
                _ => false,
            },
        }
    }

    /// Begin a `load`: validate the extracted package's manifest against
    /// the requested name and version, and hand back the dispatcher call
    /// for the resolved entry path. A mismatched or unreadable manifest is
    /// an archive error and nothing is installed or changed.
    pub fn load(&mut self, name: &String, version: &String, manifest_text: &String) -> (r: Result<
        EngineCall,
        BridgeError,
    >)
        requires
            old(self).wf(),
        ensures
            final(self).wf(),
            ({
                let kv = old(self)@;
                match r {
                    Ok(c) => {
                        &&& kv.in_flight is None
                        &&& kv.state == SessionState::Ready
                        &&& manifest_name_of(manifest_text@) == Some(name@)
                        &&& manifest_version_of(manifest_text@) == Some(version@)
                        &&& c matches EngineCall::Load { name: n2, entry } && n2@ == name@
                            && entry@ == entry_path_of(manifest_main_of(manifest_text@))
                        &&& final(self)@ == (KernelView { in_flight: Some(OpKind::Load), ..kv })
                    },
                    Err(e) => {
                        &&& final(self)@ == kv
                        &&& if kv.in_flight is Some {
                            e == BridgeError::Busy
                        } else if kv.state != SessionState::Ready {
                            e == BridgeError::NotReady
                        } else {
                            e == BridgeError::Archive && (manifest_name_of(manifest_text@)
                                != Some(name@) || manifest_version_of(manifest_text@) != Some(
                                version@,
                            ))
                        }
                    },
                }
            }),
    {
        if self.in_flight.is_some() {
            return Err(BridgeError::Busy);
        }
        if !matches!(self.state, SessionState::Ready) {
            return Err(BridgeError::NotReady);
        }
        let m = match parse_manifest(manifest_text.as_str()) {
            Some(m) => m,
            None => {
                return Err(BridgeError::Archive);
            },
        };
        match validate_package(name, version, &m) {
            Ok(entry) => {
                self.in_flight = Some(OpKind::Load);
                Ok(EngineCall::Load { name: name.clone(), entry })
            },
            Err(e) => Err(e),
        }
    }

    /// Finish a `load` after the engine-scheduled asynchronous work was
    /// drained: the dispatcher's reply carries no useful value; a thrown
    /// error marks the dispatcher as misbehaving.
    pub fn finish_load(&mut self, reply: EngineReply) -> (r: Result<(), BridgeError>)
        requires
            old(self).wf(),
        ensures
            final(self).wf(),
            final(self)@.bridge == old(self)@.bridge,
            ({
                let kv = old(self)@;
                match r {
                    Ok(_) => {
                        &&& kv.in_flight == Some(OpKind::Load)
                        &&& !(reply matches EngineReply::Threw(_))
                        &&& final(self)@ == cleared(kv)
                    },
                    Err(e) => {
                        &&& e == BridgeError::Protocol
                        &&& if kv.in_flight != Some(OpKind::Load) {
                            final(self)@ == kv
                        } else {
                            (reply matches EngineReply::Threw(_)) && final(self)@ == cleared(kv)
                        }
                    },
                }
            }),
    {
        if !self.in_flight_is(OpKind::Load) {
            return Err(BridgeError::Protocol);
        }
        self.in_flight = None;
        match reply {
            EngineReply::Threw(_) => Err(BridgeError::Protocol),
            _ => Ok(()),
        }
    }

    /// Begin a `create`: lower the constructor arguments and hand back the
    /// dispatcher call for the fully-qualified type name.
    pub fn create(&mut self, ctx: &HostContext, fqn: &String, args: &Vec<HostValue>) -> (r: Result<
        EngineCall,
        BridgeError,
    >)
        requires
            old(self).wf(),
        ensures
            final(self).wf(),
            ({
                let kv = old(self)@;
                let o = lower_seq(kv.bridge, ctx@.classes, ctx@.enums, None, args@);
                match r {
                    Ok(c) => {
                        &&& kv.in_flight is None
                        &&& kv.state == SessionState::Ready
                        &&& o.fault is None
                        &&& c matches EngineCall::Create { fqn: f2, args: a2 } && f2@ == fqn@
                            && script_term_seq(a2@) == o.vals
                        &&& final(self)@ == (KernelView {
                            in_flight: Some(OpKind::Create),
                            bridge: o.bv,
                            ..kv
                        })
                    },
                    Err(e) => {
                        if kv.in_flight is Some {
                            e == BridgeError::Busy && final(self)@ == kv
                        } else if kv.state != SessionState::Ready {
                            e == BridgeError::NotReady && final(self)@ == kv
                        } else {
                            &&& o.fault is Some
                            &&& e == fault_error(o.fault->0)
                            &&& final(self)@ == (KernelView { bridge: o.bv, ..kv })
                        }
                    },
                }
            }),
    {
        if self.in_flight.is_some() {
            return Err(BridgeError::Busy);
        }
        if !matches!(self.state, SessionState::Ready) {
            return Err(BridgeError::NotReady);
        }
        let (fault, lowered) = self.bridge.to_script_all(ctx, None, args);
        proof {
            lemma_lower_seq_wf(old(self)@.bridge, ctx@.classes, ctx@.enums, None, args@);
        }
        if let Some(f) = fault {
            return Err(fault_to_error(f));
        }
        self.in_flight = Some(OpKind::Create);
        Ok(EngineCall::Create { fqn: fqn.clone(), args: lowered })
    }

    /// Finish a `create`: the dispatcher must hand back an object, which is
    /// raised to a host reference. No value at all means the type is
    /// unknown or the arguments mismatch: a construction error, and no
    /// object reference is returned.
    pub fn finish_create(&mut self, reply: EngineReply) -> (r: Result<HostValue, BridgeError>)
        requires
            old(self).wf(),
        ensures
            final(self).wf(),
            ({
                let kv = old(self)@;
                match r {
                    Ok(h) => {
                        &&& kv.in_flight == Some(OpKind::Create)
                        &&& reply matches EngineReply::Value(v) && v matches ScriptValue::Object(_)
                            && ({
                            let o = raise(kv.bridge, None, v);
                            &&& o.fault is None
                            &&& matches_raised(h, o.val)
                            &&& final(self)@ == (KernelView { in_flight: None, bridge: o.bv, ..kv })
                        })
                    },
                    Err(e) => {
                        if kv.in_flight != Some(OpKind::Create) {
                            e == BridgeError::Protocol && final(self)@ == kv
                        } else {
                            match reply {
                                EngineReply::NoValue => e == BridgeError::Construction && final(self)@
                                    == cleared(kv),
                                EngineReply::Threw(v) => e == BridgeError::Target(v) && final(self)@
                                    == cleared(kv),
                                EngineReply::Value(v) => {
                                    if !(v matches ScriptValue::Object(_)) {
                                        e == BridgeError::Protocol && final(self)@ == cleared(kv)
                                    } else {
                                        let o = raise(kv.bridge, None, v);
                                        &&& o.fault is Some
                                        &&& e == fault_error(o.fault->0)
                                        &&& final(self)@ == (KernelView {
                                            in_flight: None,
                                            bridge: o.bv,
                                            ..kv
                                        })
                                    }
                                },
                            }
                        }
                    },
                }
            }),
    {
        if !self.in_flight_is(OpKind::Create) {
            return Err(BridgeError::Protocol);
        }
        self.in_flight = None;
        match reply {
            EngineReply::NoValue => Err(BridgeError::Construction),
            EngineReply::Threw(v) => Err(BridgeError::Target(v)),
            EngineReply::Value(v) => {
                if !matches!(v, ScriptValue::Object(_)) {
                    return Err(BridgeError::Protocol);
                }
                let (fault, h) = self.bridge.to_host(None, &v);
                proof {
                    lemma_raise_wf(old(self)@.bridge, None, v);
                }
                match fault {
                    Some(f) => Err(fault_to_error(f)),
                    None => Ok(h),
                }
            },
        }
    }

    /// Begin a `call`: the receiver is itself bridged, so a previously
    /// returned host reference resolves back to its original script object
    /// rather than minting a new proxy; then the arguments are lowered.
    pub fn call(
        &mut self,
        ctx: &HostContext,
        recv: &HostValue,
        method: &String,
        args: &Vec<HostValue>,
    ) -> (r: Result<EngineCall, BridgeError>)
        requires
            old(self).wf(),
        ensures
            final(self).wf(),
            ({
                let kv = old(self)@;
                let o1 = lower(kv.bridge, ctx@.classes, ctx@.enums, None, *recv);
                let o2 = lower_seq(o1.bv, ctx@.classes, ctx@.enums, o1.fault, args@);
                match r {
                    Ok(c) => {
                        &&& kv.in_flight is None
                        &&& kv.state == SessionState::Ready
                        &&& o2.fault is None
                        &&& c matches EngineCall::Call { recv: rv, method: m2, args: a2 } && rv@
                            == o1.val && m2@ == method@ && script_term_seq(a2@) == o2.vals
                        &&& final(self)@ == (KernelView {
                            in_flight: Some(OpKind::Call),
                            bridge: o2.bv,
                            ..kv
                        })
                    },
                    Err(e) => {
                        if kv.in_flight is Some {
                            e == BridgeError::Busy && final(self)@ == kv
                        } else if kv.state != SessionState::Ready {
                            e == BridgeError::NotReady && final(self)@ == kv
                        } else {
                            &&& o2.fault is Some
                            &&& e == fault_error(o2.fault->0)
                            &&& final(self)@ == (KernelView { bridge: o2.bv, ..kv })
                        }
                    },
                }
            }),
    {
        if self.in_flight.is_some() {
            return Err(BridgeError::Busy);
        }
        if !matches!(self.state, SessionState::Ready) {
            return Err(BridgeError::NotReady);
        }
        let (f1, rv) = self.bridge.to_script(ctx, None, recv);
        proof {
            lemma_lower_wf(old(self)@.bridge, ctx@.classes, ctx@.enums, None, *recv);
        }
        let ghost mid = self@.bridge;
        let (f2, lowered) = self.bridge.to_script_all(ctx, f1, args);
        proof {
            lemma_lower_seq_wf(mid, ctx@.classes, ctx@.enums, f1, args@);
        }
        if let Some(f) = f2 {
            return Err(fault_to_error(f));
        }
        self.in_flight = Some(OpKind::Call);
        Ok(EngineCall::Call { recv: rv, method: method.clone(), args: lowered })
    }

    /// Begin a static call: no receiver crosses, only the type name,
    /// method name and lowered arguments.
    pub fn call_static(
        &mut self,
        ctx: &HostContext,
        fqn: &String,
        method: &String,
        args: &Vec<HostValue>,
    ) -> (r: Result<EngineCall, BridgeError>)
        requires
            old(self).wf(),
        ensures
            final(self).wf(),
            ({
                let kv = old(self)@;
                let o = lower_seq(kv.bridge, ctx@.classes, ctx@.enums, None, args@);
                match r {
                    Ok(c) => {
                        &&& kv.in_flight is None
                        &&& kv.state == SessionState::Ready
                        &&& o.fault is None
                        &&& c matches EngineCall::CallStatic { fqn: f2, method: m2, args: a2 }
                            && f2@ == fqn@ && m2@ == method@ && script_term_seq(a2@) == o.vals
                        &&& final(self)@ == (KernelView {
                            in_flight: Some(OpKind::CallStatic),
                            bridge: o.bv,
                            ..kv
                        })
                    },
                    Err(e) => {
                        if kv.in_flight is Some {
                            e == BridgeError::Busy && final(self)@ == kv
                        } else if kv.state != SessionState::Ready {
                            e == BridgeError::NotReady && final(self)@ == kv
                        } else {
                            &&& o.fault is Some
                            &&& e == fault_error(o.fault->0)
                            &&& final(self)@ == (KernelView { bridge: o.bv, ..kv })
                        }
                    },
                }
            }),
    {
        if self.in_flight.is_some() {
            return Err(BridgeError::Busy);
        }
        if !matches!(self.state, SessionState::Ready) {
            return Err(BridgeError::NotReady);
        }
        let (fault, lowered) = self.bridge.to_script_all(ctx, None, args);
        proof {
            lemma_lower_seq_wf(old(self)@.bridge, ctx@.classes, ctx@.enums, None, args@);
        }
        if let Some(f) = fault {
            return Err(fault_to_error(f));
        }
        self.in_flight = Some(OpKind::CallStatic);
        Ok(EngineCall::CallStatic { fqn: fqn.clone(), method: method.clone(), args: lowered })
    }

    /// Begin a property read on a bridged receiver.
    pub fn get(&mut self, ctx: &HostContext, recv: &HostValue, property: &String) -> (r: Result<
        EngineCall,
        BridgeError,
    >)
        requires
            old(self).wf(),
        ensures
            final(self).wf(),
            ({
                let kv = old(self)@;
                let o = lower(kv.bridge, ctx@.classes, ctx@.enums, None, *recv);
                match r {
                    Ok(c) => {
                        &&& kv.in_flight is None
                        &&& kv.state == SessionState::Ready
                        &&& o.fault is None
                        &&& c matches EngineCall::Get { recv: rv, property: p2 } && rv@ == o.val
                            && p2@ == property@
                        &&& final(self)@ == (KernelView {
                            in_flight: Some(OpKind::Get),
                            bridge: o.bv,
                            ..kv
                        })
                    },
                    Err(e) => {
                        if kv.in_flight is Some {
                            e == BridgeError::Busy && final(self)@ == kv
                        } else if kv.state != SessionState::Ready {
                            e == BridgeError::NotReady && final(self)@ == kv
                        } else {
                            &&& o.fault is Some
                            &&& e == fault_error(o.fault->0)
                            &&& final(self)@ == (KernelView { bridge: o.bv, ..kv })
                        }
                    },
                }
            }),
    {
        if self.in_flight.is_some() {
            return Err(BridgeError::Busy);
        }
        if !matches!(self.state, SessionState::Ready) {
            return Err(BridgeError::NotReady);
        }
        let (fault, rv) = self.bridge.to_script(ctx, None, recv);
        proof {
            lemma_lower_wf(old(self)@.bridge, ctx@.classes, ctx@.enums, None, *recv);
        }
        if let Some(f) = fault {
            return Err(fault_to_error(f));
        }
        self.in_flight = Some(OpKind::Get);
        Ok(EngineCall::Get { recv: rv, property: property.clone() })
    }

    /// Begin a static property read: only names cross.
    pub fn get_static(&mut self, fqn: &String, property: &String) -> (r: Result<
        EngineCall,
        BridgeError,
    >)
        requires
            old(self).wf(),
        ensures
            final(self).wf(),
            ({
                let kv = old(self)@;
                match r {
                    Ok(c) => {
                        &&& kv.in_flight is None
                        &&& kv.state == SessionState::Ready
                        &&& c matches EngineCall::GetStatic { fqn: f2, property: p2 } && f2@
                            == fqn@ && p2@ == property@
                        &&& final(self)@ == (KernelView { in_flight: Some(OpKind::GetStatic), ..kv })
                    },
                    Err(e) => {
                        &&& final(self)@ == kv
                        &&& if kv.in_flight is Some {
                            e == BridgeError::Busy
                        } else {
                            kv.state != SessionState::Ready && e == BridgeError::NotReady
                        }
                    },
                }
            }),
    {
        if self.in_flight.is_some() {
            return Err(BridgeError::Busy);
        }
        if !matches!(self.state, SessionState::Ready) {
            return Err(BridgeError::NotReady);
        }
        self.in_flight = Some(OpKind::GetStatic);
        Ok(EngineCall::GetStatic { fqn: fqn.clone(), property: property.clone() })
    }

    /// Begin a property write on a bridged receiver: the receiver and then
    /// the value are lowered; `set` returns nothing when finished.
    pub fn set(
        &mut self,
        ctx: &HostContext,
        recv: &HostValue,
        property: &String,
        value: &HostValue,
    ) -> (r: Result<EngineCall, BridgeError>)
        requires
            old(self).wf(),
        ensures
            final(self).wf(),
            ({
                let kv = old(self)@;
                let o1 = lower(kv.bridge, ctx@.classes, ctx@.enums, None, *recv);
                let o2 = lower(o1.bv, ctx@.classes, ctx@.enums, o1.fault, *value);
                match r {
                    Ok(c) => {
                        &&& kv.in_flight is None
                        &&& kv.state == SessionState::Ready
                        &&& o2.fault is None
                        &&& c matches EngineCall::SetProp { recv: rv, property: p2, value: v2 } && rv@
                            == o1.val && p2@ == property@ && v2@ == o2.val
                        &&& final(self)@ == (KernelView {
                            in_flight: Some(OpKind::SetProp),
                            bridge: o2.bv,
                            ..kv
                        })
                    },
                    Err(e) => {
                        if kv.in_flight is Some {
                            e == BridgeError::Busy && final(self)@ == kv
                        } else if kv.state != SessionState::Ready {
                            e == BridgeError::NotReady && final(self)@ == kv
                        } else {
                            &&& o2.fault is Some
                            &&& e == fault_error(o2.fault->0)
                            &&& final(self)@ == (KernelView { bridge: o2.bv, ..kv })
                        }
                    },
                }
            }),
    {
        if self.in_flight.is_some() {
            return Err(BridgeError::Busy);
        }
        if !matches!(self.state, SessionState::Ready) {
            return Err(BridgeError::NotReady);
        }
        let (f1, rv) = self.bridge.to_script(ctx, None, recv);
        proof {
            lemma_lower_wf(old(self)@.bridge, ctx@.classes, ctx@.enums, None, *recv);
        }
        let ghost mid = self@.bridge;
        let (f2, v2) = self.bridge.to_script(ctx, f1, value);
        proof {
            lemma_lower_wf(mid, ctx@.classes, ctx@.enums, f1, *value);
        }
        if let Some(f) = f2 {
            return Err(fault_to_error(f));
        }
        self.in_flight = Some(OpKind::SetProp);
        Ok(EngineCall::SetProp { recv: rv, property: property.clone(), value: v2 })
    }

    /// Finish a value-returning operation; shared by `call`, `call_static`,
    /// `get` and `get_static`.
    fn finish_value(&mut self, k: OpKind, reply: EngineReply) -> (r: Result<
        HostValue,
        BridgeError,
    >)
        requires
            old(self).wf(),
        ensures
            final(self).wf(),
            finish_value_spec(old(self)@, k, reply, r, final(self)@),
    {
        if !self.in_flight_is(k) {
            return Err(BridgeError::Protocol);
        }
        self.in_flight = None;
        match reply {
            EngineReply::NoValue => Err(BridgeError::Protocol),
            EngineReply::Threw(v) => Err(BridgeError::Target(v)),
            EngineReply::Value(v) => {
                let (fault, h) = self.bridge.to_host(None, &v);
                proof {
                    lemma_raise_wf(old(self)@.bridge, None, v);
                }
                match fault {
                    Some(f) => Err(fault_to_error(f)),
                    None => Ok(h),
                }
            },
        }
    }

    /// Finish a `call`: the target's error propagates verbatim; a value
    /// raises to host encoding.
    pub fn finish_call(&mut self, reply: EngineReply) -> (r: Result<HostValue, BridgeError>)
        requires
            old(self).wf(),
        ensures
            final(self).wf(),
            finish_value_spec(old(self)@, OpKind::Call, reply, r, final(self)@),
    {
        self.finish_value(OpKind::Call, reply)
    }

    /// Finish a `call_static`.
    pub fn finish_call_static(&mut self, reply: EngineReply) -> (r: Result<HostValue, BridgeError>)
        requires
            old(self).wf(),
        ensures
            final(self).wf(),
            finish_value_spec(old(self)@, OpKind::CallStatic, reply, r, final(self)@),
    {
        self.finish_value(OpKind::CallStatic, reply)
    }

    /// Finish a `get`.
    pub fn finish_get(&mut self, reply: EngineReply) -> (r: Result<HostValue, BridgeError>)
        requires
            old(self).wf(),
        ensures
            final(self).wf(),
            finish_value_spec(old(self)@, OpKind::Get, reply, r, final(self)@),
    {
        self.finish_value(OpKind::Get, reply)
    }

    /// Finish a `get_static`.
    pub fn finish_get_static(&mut self, reply: EngineReply) -> (r: Result<HostValue, BridgeError>)
        requires
            old(self).wf(),
        ensures
            final(self).wf(),
            finish_value_spec(old(self)@, OpKind::GetStatic, reply, r, final(self)@),
    {
        self.finish_value(OpKind::GetStatic, reply)
    }

    /// Finish a `set`: nothing is returned; the target's error propagates
    /// verbatim.
    pub fn finish_set(&mut self, reply: EngineReply) -> (r: Result<(), BridgeError>)
        requires
            old(self).wf(),
        ensures
            final(self).wf(),
            final(self)@.bridge == old(self)@.bridge,
            ({
                let kv = old(self)@;
                match r {
                    Ok(_) => {
                        &&& kv.in_flight == Some(OpKind::SetProp)
                        &&& reply matches EngineReply::Value(_)
                        &&& final(self)@ == cleared(kv)
                    },
                    Err(e) => {
                        if kv.in_flight != Some(OpKind::SetProp) {
                            e == BridgeError::Protocol && final(self)@ == kv
                        } else {
                            match reply {
                                EngineReply::NoValue => e == BridgeError::Protocol && final(self)@
                                    == cleared(kv),
                                EngineReply::Threw(v) => e == BridgeError::Target(v) && final(self)@
                                    == cleared(kv),
                                EngineReply::Value(_) => false,
                            }
                        }
                    },
                }
            }),
    {
        if !self.in_flight_is(OpKind::SetProp) {
            return Err(BridgeError::Protocol);
        }
        self.in_flight = None;
        match reply {
            EngineReply::NoValue => Err(BridgeError::Protocol),
            EngineReply::Threw(v) => Err(BridgeError::Target(v)),
            EngineReply::Value(_) => Ok(()),
        }
    }

    /// Lower one host value inside the already-entered session context:
    /// the path a host callback uses to hand a result back to the engine.
    /// Deliberately not guarded by the busy mark — a re-entrant callback
    /// reuses the same session, it never acquires a fresh one.
    pub fn lower_value(&mut self, ctx: &HostContext, fault: Option<Fault>, v: &HostValue) -> (r: (
        Option<Fault>,
        ScriptValue,
    ))
        requires
            old(self).wf(),
        ensures
            final(self).wf(),
            final(self)@.state == old(self)@.state,
            final(self)@.in_flight == old(self)@.in_flight,
            ({
                let o = lower(old(self)@.bridge, ctx@.classes, ctx@.enums, fault, *v);
                &&& final(self)@.bridge == o.bv
                &&& r.0 == o.fault
                &&& r.1@ == o.val
            }),
    {
        let r = self.bridge.to_script(ctx, fault, v);
        proof {
            lemma_lower_wf(old(self)@.bridge, ctx@.classes, ctx@.enums, fault, *v);
        }
        r
    }

    /// Raise one engine value inside the already-entered session context.
    pub fn raise_value(&mut self, fault: Option<Fault>, v: &ScriptValue) -> (r: (
        Option<Fault>,
        HostValue,
    ))
        requires
            old(self).wf(),
        ensures
            final(self).wf(),
            final(self)@.state == old(self)@.state,
            final(self)@.in_flight == old(self)@.in_flight,
            ({
                let o = raise(old(self)@.bridge, fault, *v);
                &&& final(self)@.bridge == o.bv
                &&& r.0 == o.fault
                &&& matches_raised(r.1, o.val)
            }),
    {
        let r = self.bridge.to_host(fault, v);
        proof {
            lemma_raise_wf(old(self)@.bridge, fault, *v);
        }
        r
    }

    /// Read access to a generated proxy's property.
    pub fn property_getter(&self, handle: u64, name: &String) -> (r: Result<
        &MethodDescriptor,
        BridgeError,
    >)
        ensures
            match r {
                Ok(d) => getter_outcome(self@.bridge, handle, name@) == Ok::<
                    DescTerm,
                    BridgeError,
                >(d@),
                Err(e) => getter_outcome(self@.bridge, handle, name@) == Err::<
                    DescTerm,
                    BridgeError,
                >(e),
            },
    {
        self.bridge.property_getter(handle, name)
    }

    /// Write access to a generated proxy's property.
    pub fn property_setter(&self, handle: u64, name: &String) -> (r: Result<
        &MethodDescriptor,
        BridgeError,
    >)
        ensures
            match r {
                Ok(d) => setter_outcome(self@.bridge, handle, name@) == Ok::<
                    DescTerm,
                    BridgeError,
                >(d@),
                Err(e) => setter_outcome(self@.bridge, handle, name@) == Err::<
                    DescTerm,
                    BridgeError,
                >(e),
            },
    {
        self.bridge.property_setter(handle, name)
    }

    /// Invoke a generated proxy's method stub: it unconditionally fails.
    pub fn invoke_method(&self, handle: u64, name: &String) -> (r: Result<(), BridgeError>)
        ensures
            r matches Err(e) && e == invoke_outcome(self@.bridge, handle, name@),
    {
        self.bridge.invoke_method(handle, name)
    }
}

} // verus!
