//! The value bridge: bidirectional, identity-preserving conversion between
//! host-encoded values and engine-side values, with the session-scoped
//! identity maps.
//!
//! The outbound direction (`to_script`) structurally lowers lists, maps and
//! primitives, resolves identity tokens through the reverse map, and mints an
//! on-demand proxy for a host object with no script peer. The return
//! direction (`to_host`) is intentionally lean: primitives cross, objects
//! resolve through the forward map or are minted a fresh opaque handle, and
//! everything else is a conversion failure. Plain values are structurally
//! converted every time and never identity-tracked; map entries are created
//! on first crossing and never evicted.

use vstd::prelude::*;

use std::collections::HashMap;

use crate::Fault;
use crate::proxy::ClassInfo;
use crate::proxy::EnumBinding;
use crate::proxy::HostContext;
use crate::proxy::DescTerm;
use crate::proxy::MethodDescriptor;
use crate::proxy::PropTerm;
use crate::proxy::ProxyShape;
use crate::proxy::ShapeTerm;
use crate::proxy::build_proxy_shape;
use crate::proxy::build_shape;
use crate::values::HostValue;
use crate::values::JsonNode;
use crate::values::ScriptTerm;
use crate::values::ScriptValue;
use crate::values::script_term_seq;
use crate::values::script_term_entries;

verus! {

broadcast use vstd::std_specs::hash::group_hash_axioms;

/// What the forward map keeps alive for one script object: either the host
/// object it proxies, or the opaque reference minted for an engine-owned
/// object.
#[derive(Clone, Copy, Debug, PartialEq, Eq)]
pub enum PeerRef {
    /// The script object is a generated proxy for this host object.
    Host(u64),
    /// The script object was handed out to the host under this minted
    /// identity token.
    Minted(u64),
}

/// Mathematical model of the bridge state.
#[verifier::ext_equal]
pub struct BridgeView {
    /// Script object handle -> the host peer kept alive for it.
    pub forward: Map<u64, PeerRef>,
    /// Minted identity token -> script object handle.
    pub reverse: Map<u64, u64>,
    /// Host object identity -> handle of its generated proxy, consulted
    /// before any new proxy is minted.
    pub host_index: Map<u64, u64>,
    /// Shapes of the proxies this bridge generated, by script handle.
    pub objects: Map<u64, ShapeTerm>,
    /// Next identity token to mint.
    pub next_token: u64,
    /// Next script handle to mint; kept above every handle seen so far.
    pub next_handle: u64,
}

impl BridgeView {
    pub open spec fn empty() -> BridgeView {
        BridgeView {
            forward: Map::empty(),
            reverse: Map::empty(),
            host_index: Map::empty(),
            objects: Map::empty(),
            next_token: 0,
            next_handle: 0,
        }
    }

    /// Well-formedness: minted counters stay above everything minted so far,
    /// every token resolves to a live forward entry, and the proxy index
    /// agrees with the forward map.
    pub open spec fn wf(self) -> bool {
        &&& forall|h: u64| #[trigger] self.forward.contains_key(h) ==> h < self.next_handle
        &&& forall|t: u64|
            #[trigger] self.reverse.contains_key(t) ==> t < self.next_token
                && self.forward.contains_key(self.reverse[t])
        &&& forall|id: u64|
            #[trigger] self.host_index.contains_key(id) ==> self.forward.contains_key(
                self.host_index[id],
            ) && self.forward[self.host_index[id]] == PeerRef::Host(id)
        &&& forall|h: u64| #[trigger] self.objects.contains_key(h) ==> h < self.next_handle
    }
}

/// The outcome of lowering one host value: the bridge state after it, the
/// pending fault after it, and the engine-side value produced.
#[verifier::ext_equal]
pub struct LowerOut {
    pub bv: BridgeView,
    pub fault: Option<Fault>,
    pub val: ScriptTerm,
}

#[verifier::ext_equal]
pub struct LowerSeqOut {
    pub bv: BridgeView,
    pub fault: Option<Fault>,
    pub vals: Seq<ScriptTerm>,
}

#[verifier::ext_equal]
pub struct LowerEntriesOut {
    pub bv: BridgeView,
    pub fault: Option<Fault>,
    pub entries: Seq<(Seq<char>, ScriptTerm)>,
}

/// The bridge state after minting a proxy for host object `id` with the
/// given shape: the fresh handle and token enter both identity maps and the
/// proxy index, and the shape is published.
pub open spec fn mint_proxy(bv: BridgeView, id: u64, shape: ShapeTerm) -> BridgeView
    recommends
        bv.next_handle < u64::MAX,
        bv.next_token < u64::MAX,
{
    BridgeView {
        forward: bv.forward.insert(bv.next_handle, PeerRef::Host(id)),
        reverse: bv.reverse.insert(bv.next_token, bv.next_handle),
        host_index: bv.host_index.insert(id, bv.next_handle),
        objects: bv.objects.insert(bv.next_handle, shape),
        next_token: (bv.next_token + 1) as u64,
        next_handle: (bv.next_handle + 1) as u64,
    }
}

/// The first enum binding matching the annotated type name and member name,
/// as a static-property lookup on that type resolves it.
pub open spec fn enum_lookup(enums: Seq<EnumBinding>, fqn: Seq<char>, member: Seq<char>) -> Option<
    u64,
>
    decreases enums,
{
    if enums.len() == 0 {
        None
    } else if enums.first().fqn@ == fqn && enums.first().member@ == member {
        Some(enums.first().handle)
    } else {
        enum_lookup(enums.drop_first(), fqn, member)
    }
}

/// Structural lowering of a JSON-like node: what serializing the node and
/// re-parsing the text as an engine expression preserves.
pub open spec fn lower_json(j: JsonNode) -> ScriptTerm
    decreases j,
{
    match j {
        JsonNode::Null => ScriptTerm::Null,
        JsonNode::Bool(b) => ScriptTerm::Bool(b),
        JsonNode::Num(n) => ScriptTerm::Num(n),
        JsonNode::Str(s) => ScriptTerm::Str(s@),
        JsonNode::Arr(xs) => ScriptTerm::Array(lower_json_seq(xs@)),
        JsonNode::Obj(es) => ScriptTerm::Record(lower_json_entries(es@)),
    }
}

pub open spec fn lower_json_seq(s: Seq<JsonNode>) -> Seq<ScriptTerm>
    decreases s,
{
    if s.len() == 0 {
        Seq::empty()
    } else {
        lower_json_seq(s.drop_last()).push(lower_json(s.last()))
    }
}

pub open spec fn lower_json_entries(s: Seq<(String, JsonNode)>) -> Seq<(Seq<char>, ScriptTerm)>
    decreases s,
{
    if s.len() == 0 {
        Seq::empty()
    } else {
        lower_json_entries(s.drop_last()).push((s.last().0@, lower_json(s.last().1)))
    }
}

/// Lowering one host value to an engine value, tried in classification
/// order. A pending fault short-circuits to script-undefined with no further
/// side effects; a fresh fault is recorded in the outcome and the session
/// propagates it instead of building anything atop it.
pub open spec fn lower(
    bv: BridgeView,
    classes: Map<u64, ClassInfo>,
    enums: Seq<EnumBinding>,
    fault: Option<Fault>,
    v: HostValue,
) -> LowerOut
    decreases v,
{
    if fault is Some {
        LowerOut { bv, fault, val: ScriptTerm::Undefined }
    } else {
        match v {
            HostValue::Null => LowerOut { bv, fault: None, val: ScriptTerm::Undefined },
            HostValue::HostObj { id, peer } => match peer {
                Some(t) => lower_token(bv, t),
                None => lower_host_object(bv, classes, id),
            },
            HostValue::ObjectRef(t) => lower_token(bv, t),
            HostValue::ListView(inner) => lower(bv, classes, enums, None, *inner),
            HostValue::List(xs) => {
                let o = lower_seq(bv, classes, enums, None, xs@);
                LowerOut { bv: o.bv, fault: o.fault, val: ScriptTerm::Array(o.vals) }
            },
            HostValue::Dict(es) => {
                let o = lower_entries(bv, classes, enums, None, es@);
                LowerOut { bv: o.bv, fault: o.fault, val: ScriptTerm::Record(o.entries) }
            },
            HostValue::Bool(b) => LowerOut { bv, fault: None, val: ScriptTerm::Bool(b) },
            HostValue::Num(n) => LowerOut { bv, fault: None, val: ScriptTerm::Num(n) },
            HostValue::Str(s) => LowerOut { bv, fault: None, val: ScriptTerm::Str(s@) },
            HostValue::EnumMember { fqn, name } => match fqn {
                None => LowerOut {
                    bv,
                    fault: Some(Fault::Conv),
                    val: ScriptTerm::Undefined,
                },
                Some(f) => match enum_lookup(enums, f@, name@) {
                    Some(h) => LowerOut { bv, fault: None, val: ScriptTerm::Object(h) },
                    None => LowerOut { bv, fault: None, val: ScriptTerm::Undefined },
                },
            },
            HostValue::Json(j) => LowerOut { bv, fault: None, val: lower_json(j) },
        }
    }
}

/// An identity token presented by the host resolves through the reverse map
/// to the original script object; a dangling token is a lookup failure.
pub open spec fn lower_token(bv: BridgeView, t: u64) -> LowerOut {
    if bv.reverse.contains_key(t) {
        LowerOut { bv, fault: None, val: ScriptTerm::Object(bv.reverse[t]) }
    } else {
        LowerOut { bv, fault: Some(Fault::Dangling(t)), val: ScriptTerm::Undefined }
    }
}

/// A host object with no wrapped reference: the proxy index is consulted
/// before any new proxy is minted, so repeated crossings of the same host
/// object alias one script object. On a miss, the host surface is
/// enumerated and a sealed proxy is minted, entering both identity maps.
pub open spec fn lower_host_object(bv: BridgeView, classes: Map<u64, ClassInfo>, id: u64) -> LowerOut {
    if bv.host_index.contains_key(id) {
        LowerOut { bv, fault: None, val: ScriptTerm::Object(bv.host_index[id]) }
    } else if !classes.contains_key(id) {
        LowerOut { bv, fault: Some(Fault::Conv), val: ScriptTerm::Undefined }
    } else if classes[id].fails {
        LowerOut { bv, fault: Some(Fault::Host), val: ScriptTerm::Undefined }
    } else if bv.next_handle == u64::MAX || bv.next_token == u64::MAX {
        LowerOut { bv, fault: Some(Fault::Conv), val: ScriptTerm::Undefined }
    } else {
        LowerOut {
            bv: mint_proxy(bv, id, build_shape(classes[id].ops@)),
            fault: None,
            val: ScriptTerm::Object(bv.next_handle),
        }
    }
}

/// Element-wise lowering of a list, left to right, threading state and any
/// fault: once a fault is pending every later element lowers to undefined
/// with no further side effects.
pub open spec fn lower_seq(
    bv: BridgeView,
    classes: Map<u64, ClassInfo>,
    enums: Seq<EnumBinding>,
    fault: Option<Fault>,
    s: Seq<HostValue>,
) -> LowerSeqOut
    decreases s,
{
    if s.len() == 0 {
        LowerSeqOut { bv, fault, vals: Seq::empty() }
    } else {
        let p = lower_seq(bv, classes, enums, fault, s.drop_last());
        let q = lower(p.bv, classes, enums, p.fault, s.last());
        LowerSeqOut { bv: q.bv, fault: q.fault, vals: p.vals.push(q.val) }
    }
}

/// Entry-wise lowering of a string-keyed map: every key is preserved
/// literally, values are lowered recursively.
pub open spec fn lower_entries(
    bv: BridgeView,
    classes: Map<u64, ClassInfo>,
    enums: Seq<EnumBinding>,
    fault: Option<Fault>,
    s: Seq<(String, HostValue)>,
) -> LowerEntriesOut
    decreases s,
{
    if s.len() == 0 {
        LowerEntriesOut { bv, fault, entries: Seq::empty() }
    } else {
        let p = lower_entries(bv, classes, enums, fault, s.drop_last());
        let q = lower(p.bv, classes, enums, p.fault, s.last().1);
        LowerEntriesOut {
            bv: q.bv,
            fault: q.fault,
            entries: p.entries.push((s.last().0@, q.val)),
        }
    }
}

/// Mathematical model of what the return direction hands the host.
#[verifier::ext_equal]
pub enum RaisedTerm {
    Null,
    Bool(bool),
    Str(Seq<char>),
    /// The original host object whose proxy came back.
    HostObj(u64),
    /// The opaque minted reference for an engine-owned object.
    ObjectRef(u64),
}

/// Whether a host-encoded value is exactly the raised outcome.
pub open spec fn matches_raised(h: HostValue, t: RaisedTerm) -> bool {
    match t {
        RaisedTerm::Null => h == HostValue::Null,
        RaisedTerm::Bool(b) => h == HostValue::Bool(b),
        RaisedTerm::Str(s) => h matches HostValue::Str(x) && x@ == s,
        RaisedTerm::HostObj(id) => h == (HostValue::HostObj { id, peer: None }),
        RaisedTerm::ObjectRef(tok) => h == HostValue::ObjectRef(tok),
    }
}

#[verifier::ext_equal]
pub struct RaiseOut {
    pub bv: BridgeView,
    pub fault: Option<Fault>,
    pub val: RaisedTerm,
}

/// The bridge state after minting an opaque reference for engine object `h`:
/// the token enters both maps and the handle counter stays above every
/// handle seen.
pub open spec fn mint_ref(bv: BridgeView, h: u64) -> BridgeView
    recommends
        bv.next_token < u64::MAX,
        h < u64::MAX,
{
    BridgeView {
        forward: bv.forward.insert(h, PeerRef::Minted(bv.next_token)),
        reverse: bv.reverse.insert(bv.next_token, h),
        host_index: bv.host_index,
        objects: bv.objects,
        next_token: (bv.next_token + 1) as u64,
        next_handle: if h >= bv.next_handle {
            (h + 1) as u64
        } else {
            bv.next_handle
        },
    }
}

/// Raising one engine value to host encoding. Null and undefined cross as
/// host null; strings and booleans cross structurally; an object resolves
/// through the forward map to the existing host peer, or is minted a fresh
/// opaque reference carried by its identity token; any other shape reaching
/// this path is a conversion failure. A pending fault crosses untouched with
/// a null value.
pub open spec fn raise(bv: BridgeView, fault: Option<Fault>, v: ScriptValue) -> RaiseOut {
    if fault is Some {
        RaiseOut { bv, fault, val: RaisedTerm::Null }
    } else {
        match v {
            ScriptValue::Undefined => RaiseOut { bv, fault: None, val: RaisedTerm::Null },
            ScriptValue::Null => RaiseOut { bv, fault: None, val: RaisedTerm::Null },
            ScriptValue::Bool(b) => RaiseOut { bv, fault: None, val: RaisedTerm::Bool(b) },
            ScriptValue::Str(s) => RaiseOut { bv, fault: None, val: RaisedTerm::Str(s@) },
            ScriptValue::Object(h) => {
                if bv.forward.contains_key(h) {
                    match bv.forward[h] {
                        PeerRef::Host(id) => RaiseOut {
                            bv,
                            fault: None,
                            val: RaisedTerm::HostObj(id),
                        },
                        PeerRef::Minted(t) => RaiseOut {
                            bv,
                            fault: None,
                            val: RaisedTerm::ObjectRef(t),
                        },
                    }
                } else if bv.next_token == u64::MAX || h == u64::MAX {
                    RaiseOut { bv, fault: Some(Fault::Conv), val: RaisedTerm::Null }
                } else {
                    RaiseOut {
                        bv: mint_ref(bv, h),
                        fault: None,
                        val: RaisedTerm::ObjectRef(bv.next_token),
                    }
                }
            },
            _ => RaiseOut { bv, fault: Some(Fault::Conv), val: RaisedTerm::Null },
        }
    }
}

/// Minting a proxy preserves bridge well-formedness.
proof fn lemma_mint_proxy_wf(bv: BridgeView, id: u64, shape: ShapeTerm)
    requires
        bv.wf(),
        bv.next_handle < u64::MAX,
        bv.next_token < u64::MAX,
    ensures
        mint_proxy(bv, id, shape).wf(),
{
}

/// Minting an opaque reference preserves bridge well-formedness.
proof fn lemma_mint_ref_wf(bv: BridgeView, h: u64)
    requires
        bv.wf(),
        !bv.forward.contains_key(h),
        bv.next_token < u64::MAX,
        h < u64::MAX,
    ensures
        mint_ref(bv, h).wf(),
{
}

/// Lowering preserves bridge well-formedness.
pub proof fn lemma_lower_wf(
    bv: BridgeView,
    classes: Map<u64, ClassInfo>,
    enums: Seq<EnumBinding>,
    fault: Option<Fault>,
    v: HostValue,
)
    requires
        bv.wf(),
    ensures
        lower(bv, classes, enums, fault, v).bv.wf(),
    decreases v,
{
    if fault is None {
        match v {
            HostValue::HostObj { id, peer } => {
                if peer is None && !bv.host_index.contains_key(id) && classes.contains_key(id)
                    && !classes[id].fails && bv.next_handle != u64::MAX && bv.next_token
                    != u64::MAX {
                    lemma_mint_proxy_wf(bv, id, build_shape(classes[id].ops@));
                }
            },
            HostValue::ListView(inner) => {
                lemma_lower_wf(bv, classes, enums, None, *inner);
            },
            HostValue::List(xs) => {
                lemma_lower_seq_wf(bv, classes, enums, None, xs@);
            },
            HostValue::Dict(es) => {
                lemma_lower_entries_wf(bv, classes, enums, None, es@);
            },
            _ => {},
        }
    }
}

/// Element-wise lowering preserves bridge well-formedness.
pub proof fn lemma_lower_seq_wf(
    bv: BridgeView,
    classes: Map<u64, ClassInfo>,
    enums: Seq<EnumBinding>,
    fault: Option<Fault>,
    s: Seq<HostValue>,
)
    requires
        bv.wf(),
    ensures
        lower_seq(bv, classes, enums, fault, s).bv.wf(),
    decreases s,
{
    if s.len() > 0 {
        lemma_lower_seq_wf(bv, classes, enums, fault, s.drop_last());
        lemma_lower_wf(
            lower_seq(bv, classes, enums, fault, s.drop_last()).bv,
            classes,
            enums,
            lower_seq(bv, classes, enums, fault, s.drop_last()).fault,
            s.last(),
        );
    }
}

/// Entry-wise lowering preserves bridge well-formedness.
pub proof fn lemma_lower_entries_wf(
    bv: BridgeView,
    classes: Map<u64, ClassInfo>,
    enums: Seq<EnumBinding>,
    fault: Option<Fault>,
    s: Seq<(String, HostValue)>,
)
    requires
        bv.wf(),
    ensures
        lower_entries(bv, classes, enums, fault, s).bv.wf(),
    decreases s,
{
    if s.len() > 0 {
        lemma_lower_entries_wf(bv, classes, enums, fault, s.drop_last());
        lemma_lower_wf(
            lower_entries(bv, classes, enums, fault, s.drop_last()).bv,
            classes,
            enums,
            lower_entries(bv, classes, enums, fault, s.drop_last()).fault,
            s.last().1,
        );
    }
}

/// Raising preserves bridge well-formedness.
pub proof fn lemma_raise_wf(bv: BridgeView, fault: Option<Fault>, v: ScriptValue)
    requires
        bv.wf(),
    ensures
        raise(bv, fault, v).bv.wf(),
{
    if fault is None {
        match v {
            ScriptValue::Object(h) => {
                if !bv.forward.contains_key(h) && bv.next_token != u64::MAX && h != u64::MAX {
                    lemma_mint_ref_wf(bv, h);
                }
            },
            _ => {},
        }
    }
}

/// The first registered property of a proxy shape with the given name.
pub open spec fn find_prop(props: Seq<PropTerm>, name: Seq<char>) -> Option<PropTerm>
    decreases props,
{
    if props.len() == 0 {
        None
    } else if props.first().name == name {
        Some(props.first())
    } else {
        find_prop(props.drop_first(), name)
    }
}

/// What reading a proxy property resolves to: the cached getter descriptor
/// of the registered property, or a lookup failure when the handle is not a
/// generated proxy or exposes no such property.
pub open spec fn getter_outcome(bv: BridgeView, handle: u64, name: Seq<char>) -> Result<
    DescTerm,
    crate::BridgeError,
> {
    if !bv.objects.contains_key(handle) {
        Err(crate::BridgeError::Lookup(handle))
    } else {
        match find_prop(bv.objects[handle].props, name) {
            Some(p) => Ok(p.getter),
            None => Err(crate::BridgeError::Lookup(handle)),
        }
    }
}

/// What writing a proxy property resolves to: the cached setter descriptor
/// when one was registered; a write to a property with no setter is refused,
/// the shape being sealed.
pub open spec fn setter_outcome(bv: BridgeView, handle: u64, name: Seq<char>) -> Result<
    DescTerm,
    crate::BridgeError,
> {
    if !bv.objects.contains_key(handle) {
        Err(crate::BridgeError::Lookup(handle))
    } else {
        match find_prop(bv.objects[handle].props, name) {
            Some(p) => match p.setter {
                Some(d) => Ok(d),
                None => Err(crate::BridgeError::NoSetter),
            },
            None => Err(crate::BridgeError::Lookup(handle)),
        }
    }
}

/// What invoking a proxy method stub does: it fails with `NotImplemented`
/// whenever the method is registered — general re-entrant method
/// call-through is out of scope by design.
pub open spec fn invoke_outcome(bv: BridgeView, handle: u64, name: Seq<char>) -> crate::BridgeError {
    if !bv.objects.contains_key(handle) {
        crate::BridgeError::Lookup(handle)
    } else if bv.objects[handle].methods.contains(name) {
        crate::BridgeError::NotImplemented
    } else {
        crate::BridgeError::Lookup(handle)
    }
}

/// The session-scoped bridge state: the two identity maps, the proxy index
/// consulted before minting, the shapes of generated proxies, and the mint
/// counters. Entries are created on first crossing and never evicted.
pub struct Bridge {
    forward: HashMap<u64, PeerRef>,
    reverse: HashMap<u64, u64>,
    host_index: HashMap<u64, u64>,
    objects: HashMap<u64, ProxyShape>,
    next_token: u64,
    next_handle: u64,
}

impl View for Bridge {
    type V = BridgeView;

    closed spec fn view(&self) -> BridgeView {
        BridgeView {
            forward: self.forward@,
            reverse: self.reverse@,
            host_index: self.host_index@,
            objects: Map::new(
                |h: u64| self.objects@.contains_key(h),
                |h: u64| self.objects@[h]@,
            ),
            next_token: self.next_token,
            next_handle: self.next_handle,
        }
    }
}

/// Resolve the first matching enum binding for an annotated type and member
/// name.
fn lookup_enum(ctx: &HostContext, fqn: &String, member: &String) -> (r: Option<u64>)
    ensures
        r == enum_lookup(ctx@.enums, fqn@, member@),
{
    let ghost all = ctx.enums@;
    proof {
        assert(all.skip(0) =~= all);
    }
    for i in 0..ctx.enums.len()
        invariant
            all == ctx.enums@,
            enum_lookup(all, fqn@, member@) == enum_lookup(all.skip(i as int), fqn@, member@),
        decreases ctx.enums.len() - i,
    {
        let b = &ctx.enums[i];
        proof {
            assert(all.skip(i as int).first() == all[i as int]);
            assert(all.skip(i as int).drop_first() =~= all.skip(i as int + 1));
        }
        if b.fqn == *fqn && b.member == *member {
            return Some(b.handle);
        }
    }
    proof {
        assert(all.skip(ctx.enums@.len() as int) =~= Seq::<EnumBinding>::empty());
    }
    None
}

/// Structural lowering of a JSON-like node to an engine value.
#[verifier::loop_isolation(false)]
fn json_to_script(j: &JsonNode) -> (r: ScriptValue)
    ensures
        r@ == lower_json(*j),
    decreases j,
{
    match j {
        JsonNode::Null => ScriptValue::Null,
        JsonNode::Bool(b) => ScriptValue::Bool(*b),
        JsonNode::Num(n) => ScriptValue::Num(*n),
        JsonNode::Str(s) => ScriptValue::Str(s.clone()),
        JsonNode::Arr(xs) => {
            let mut out: Vec<ScriptValue> = Vec::new();
            for i in 0..xs.len()
                invariant
                    out@.len() == i,
                    script_term_seq(out@) =~= lower_json_seq(xs@.take(i as int)),
                decreases xs.len() - i,
            {
                proof {
                    assert(*j == JsonNode::Arr(*xs));
                    assert(decreases_to!(*j => *xs));
                    assert(decreases_to!(*xs => xs@[i as int]));
                }
                let sv = json_to_script(&xs[i]);
                proof {
                    assert(xs@.take(i as int + 1).drop_last() =~= xs@.take(i as int));
                    assert(out@.push(sv).drop_last() =~= out@);
                }
                out.push(sv);
            }
            proof {
                assert(xs@.take(xs@.len() as int) =~= xs@);
            }
            ScriptValue::Array(out)
        },
        JsonNode::Obj(es) => {
            let mut out: Vec<(String, ScriptValue)> = Vec::new();
            for i in 0..es.len()
                invariant
                    out@.len() == i,
                    script_term_entries(out@) =~= lower_json_entries(es@.take(i as int)),
                decreases es.len() - i,
            {
                proof {
                    assert(*j == JsonNode::Obj(*es));
                    assert(decreases_to!(*j => *es));
                    assert(decreases_to!(*es => es@[i as int].1));
                }
                let sv = json_to_script(&es[i].1);
                let key = es[i].0.clone();
                proof {
                    assert(es@.take(i as int + 1).drop_last() =~= es@.take(i as int));
                    assert(out@.push((key, sv)).drop_last() =~= out@);
                }
                out.push((key, sv));
            }
            proof {
                assert(es@.take(es@.len() as int) =~= es@);
            }
            ScriptValue::Record(out)
        },
    }
}

impl Bridge {
    /// A fresh bridge with empty identity maps.
    pub fn new() -> (r: Bridge)
        ensures
            r@ == BridgeView::empty(),
    {
        let r = Bridge {
            forward: HashMap::new(),
            reverse: HashMap::new(),
            host_index: HashMap::new(),
            objects: HashMap::new(),
            next_token: 0,
            next_handle: 0,
        };
        proof {
            assert(r@ =~= BridgeView::empty());
        }
        r
    }

    /// Lower one host-encoded value to an engine value, in classification
    /// order, threading the pending fault. The whole outcome — the state
    /// after the call, the fault after the call, and the value produced —
    /// is exactly what `lower` says.
    #[verifier::loop_isolation(false)]
    pub fn to_script(&mut self, ctx: &HostContext, fault: Option<Fault>, v: &HostValue) -> (r: (
        Option<Fault>,
        ScriptValue,
    ))
        ensures
            ({
                let o = lower(old(self)@, ctx@.classes, ctx@.enums, fault, *v);
                &&& final(self)@ == o.bv
                &&& r.0 == o.fault
                &&& r.1@ == o.val
            }),
        decreases v,
    {
        if let Some(f) = fault {
            return (Some(f), ScriptValue::Undefined);
        }
        match v {
            HostValue::Null => (None, ScriptValue::Undefined),
            HostValue::HostObj { id, peer } => match peer {
                Some(t) => self.resolve_token(*t),
                None => self.proxy_host_object(ctx, *id),
            },
            HostValue::ObjectRef(t) => self.resolve_token(*t),
            HostValue::ListView(inner) => self.to_script(ctx, None, inner),
            HostValue::List(xs) => {
                let ghost bv0 = self@;
                let mut out: Vec<ScriptValue> = Vec::new();
                let mut cur: Option<Fault> = None;
                for i in 0..xs.len()
                    invariant
                        out@.len() == i,
                        ({
                            let o = lower_seq(
                                bv0,
                                ctx@.classes,
                                ctx@.enums,
                                None,
                                xs@.take(i as int),
                            );
                            &&& self@ == o.bv
                            &&& cur == o.fault
                            &&& script_term_seq(out@) =~= o.vals
                        }),
                    decreases xs.len() - i,
                {
                    proof {
                        assert(*v == HostValue::List(*xs));
                        assert(decreases_to!(*v => *xs));
                        assert(decreases_to!(*xs => xs@[i as int]));
                    }
                    let (f2, sv) = self.to_script(ctx, cur, &xs[i]);
                    proof {
                        assert(xs@.take(i as int + 1).drop_last() =~= xs@.take(i as int));
                        assert(out@.push(sv).drop_last() =~= out@);
                    }
                    cur = f2;
                    out.push(sv);
                }
                proof {
                    assert(xs@.take(xs@.len() as int) =~= xs@);
                }
                (cur, ScriptValue::Array(out))
            },
            HostValue::Dict(es) => {
                let ghost bv0 = self@;
                let mut out: Vec<(String, ScriptValue)> = Vec::new();
                let mut cur: Option<Fault> = None;
                for i in 0..es.len()
                    invariant
                        out@.len() == i,
                        ({
                            let o = lower_entries(
                                bv0,
                                ctx@.classes,
                                ctx@.enums,
                                None,
                                es@.take(i as int),
                            );
                            &&& self@ == o.bv
                            &&& cur == o.fault
                            &&& script_term_entries(out@) =~= o.entries
                        }),
                    decreases es.len() - i,
                {
                    proof {
                        assert(*v == HostValue::Dict(*es));
                        assert(decreases_to!(*v => *es));
                        assert(decreases_to!(*es => es@[i as int].1));
                    }
                    let (f2, sv) = self.to_script(ctx, cur, &es[i].1);
                    let key = es[i].0.clone();
                    proof {
                        assert(es@.take(i as int + 1).drop_last() =~= es@.take(i as int));
                        assert(out@.push((key, sv)).drop_last() =~= out@);
                    }
                    cur = f2;
                    out.push((key, sv));
                }
                proof {
                    assert(es@.take(es@.len() as int) =~= es@);
                }
                (cur, ScriptValue::Record(out))
            },
            HostValue::Bool(b) => (None, ScriptValue::Bool(*b)),
            HostValue::Num(n) => (None, ScriptValue::Num(*n)),
            HostValue::Str(s) => (None, ScriptValue::Str(s.clone())),
            HostValue::EnumMember { fqn, name } => match fqn {
                None => (Some(Fault::Conv), ScriptValue::Undefined),
                Some(f) => match lookup_enum(ctx, f, name) {
                    Some(h) => (None, ScriptValue::Object(h)),
                    None => (None, ScriptValue::Undefined),
                },
            },
            HostValue::Json(j) => (None, json_to_script(j)),
        }
    }

    /// Resolve an identity token through the reverse map; a dangling token
    /// is a lookup failure.
    fn resolve_token(&mut self, t: u64) -> (r: (Option<Fault>, ScriptValue))
        ensures
            ({
                let o = lower_token(old(self)@, t);
                &&& final(self)@ == o.bv
                &&& r.0 == o.fault
                &&& r.1@ == o.val
            }),
    {
        match self.reverse.get(&t) {
            Some(h) => (None, ScriptValue::Object(*h)),
            None => (Some(Fault::Dangling(t)), ScriptValue::Undefined),
        }
    }

    /// A host object with no wrapped reference: alias its existing proxy, or
    /// enumerate its surface and mint a sealed proxy.
    fn proxy_host_object(&mut self, ctx: &HostContext, id: u64) -> (r: (Option<Fault>, ScriptValue))
        ensures
            ({
                let o = lower_host_object(old(self)@, ctx@.classes, id);
                &&& final(self)@ == o.bv
                &&& r.0 == o.fault
                &&& r.1@ == o.val
            }),
    {
        if let Some(h) = self.host_index.get(&id) {
            return (None, ScriptValue::Object(*h));
        }
        match ctx.classes.get(&id) {
            None => (Some(Fault::Conv), ScriptValue::Undefined),
            Some(ci) => {
                if ci.fails {
                    (Some(Fault::Host), ScriptValue::Undefined)
                } else if self.next_handle == u64::MAX || self.next_token == u64::MAX {
                    (Some(Fault::Conv), ScriptValue::Undefined)
                } else {
                    let shape = build_proxy_shape(&ci.ops);
                    let h = self.next_handle;
                    let t = self.next_token;
                    self.forward.insert(h, PeerRef::Host(id));
                    self.reverse.insert(t, h);
                    self.host_index.insert(id, h);
                    self.objects.insert(h, shape);
                    self.next_handle = h + 1;
                    self.next_token = t + 1;
                    proof {
                        assert(self@ =~= mint_proxy(
                            old(self)@,
                            id,
                            build_shape(ctx@.classes[id].ops@),
                        ));
                    }
                    (None, ScriptValue::Object(h))
                }
            },
        }
    }

    /// Read access to a generated proxy's property: hand back the cached
    /// getter descriptor the accessor re-enters the host with.
    #[verifier::loop_isolation(false)]
    pub fn property_getter(&self, handle: u64, name: &String) -> (r: Result<
        &MethodDescriptor,
        crate::BridgeError,
    >)
        ensures
            match r {
                Ok(d) => getter_outcome(self@, handle, name@) == Ok::<
                    DescTerm,
                    crate::BridgeError,
                >(d@),
                Err(e) => getter_outcome(self@, handle, name@) == Err::<
                    DescTerm,
                    crate::BridgeError,
                >(e),
            },
    {
        match self.objects.get(&handle) {
            None => Err(crate::BridgeError::Lookup(handle)),
            Some(shape) => {
                let ghost props = self@.objects[handle].props;
                proof {
                    assert(props.skip(0) =~= props);
                }
                for i in 0..shape.props.len()
                    invariant
                        find_prop(props, name@) == find_prop(props.skip(i as int), name@),
                    decreases shape.props.len() - i,
                {
                    proof {
                        assert(props.skip(i as int).first() == props[i as int]);
                        assert(props.skip(i as int).drop_first() =~= props.skip(i as int + 1));
                    }
                    if shape.props[i].name == *name {
                        return Ok(&shape.props[i].getter);
                    }
                }
                proof {
                    assert(props.skip(props.len() as int) =~= Seq::<PropTerm>::empty());
                }
                Err(crate::BridgeError::Lookup(handle))
            },
        }
    }

    /// Write access to a generated proxy's property: hand back the cached
    /// setter descriptor when one was registered; a property with no setter
    /// refuses writes, the shape being sealed.
    #[verifier::loop_isolation(false)]
    pub fn property_setter(&self, handle: u64, name: &String) -> (r: Result<
        &MethodDescriptor,
        crate::BridgeError,
    >)
        ensures
            match r {
                Ok(d) => setter_outcome(self@, handle, name@) == Ok::<
                    DescTerm,
                    crate::BridgeError,
                >(d@),
                Err(e) => setter_outcome(self@, handle, name@) == Err::<
                    DescTerm,
                    crate::BridgeError,
                >(e),
            },
    {
        match self.objects.get(&handle) {
            None => Err(crate::BridgeError::Lookup(handle)),
            Some(shape) => {
                let ghost props = self@.objects[handle].props;
                proof {
                    assert(props.skip(0) =~= props);
                }
                for i in 0..shape.props.len()
                    invariant
                        find_prop(props, name@) == find_prop(props.skip(i as int), name@),
                    decreases shape.props.len() - i,
                {
                    proof {
                        assert(props.skip(i as int).first() == props[i as int]);
                        assert(props.skip(i as int).drop_first() =~= props.skip(i as int + 1));
                    }
                    if shape.props[i].name == *name {
                        return match &shape.props[i].setter {
                            Some(d) => Ok(d),
                            None => Err(crate::BridgeError::NoSetter),
                        };
                    }
                }
                proof {
                    assert(props.skip(props.len() as int) =~= Seq::<PropTerm>::empty());
                }
                Err(crate::BridgeError::Lookup(handle))
            },
        }
    }

    /// Invoke a generated proxy's method stub: it unconditionally fails
    /// with `NotImplemented` — general re-entrant method call-through is
    /// out of scope by design.
    #[verifier::loop_isolation(false)]
    pub fn invoke_method(&self, handle: u64, name: &String) -> (r: Result<
        (),
        crate::BridgeError,
    >)
        ensures
            r matches Err(e) && e == invoke_outcome(self@, handle, name@),
    {
        match self.objects.get(&handle) {
            None => Err(crate::BridgeError::Lookup(handle)),
            Some(shape) => {
                let ghost names = self@.objects[handle].methods;
                for i in 0..shape.methods.len()
                    invariant
                        forall|k: int| 0 <= k < i ==> names[k] != name@,
                    decreases shape.methods.len() - i,
                {
                    if shape.methods[i] == *name {
                        proof {
                            assert(names[i as int] == name@);
                            assert(names.contains(name@));
                        }
                        return Err(crate::BridgeError::NotImplemented);
                    }
                }
                proof {
                    assert(!names.contains(name@));
                }
                Err(crate::BridgeError::Lookup(handle))
            },
        }
    }

    /// Lower a whole argument list, left to right, threading any fault.
    #[verifier::loop_isolation(false)]
    pub fn to_script_all(&mut self, ctx: &HostContext, fault: Option<Fault>, args: &Vec<
        HostValue,
    >) -> (r: (Option<Fault>, Vec<ScriptValue>))
        ensures
            ({
                let o = lower_seq(old(self)@, ctx@.classes, ctx@.enums, fault, args@);
                &&& final(self)@ == o.bv
                &&& r.0 == o.fault
                &&& script_term_seq(r.1@) == o.vals
                &&& r.1@.len() == args@.len()
            }),
    {
        let ghost bv0 = self@;
        let mut out: Vec<ScriptValue> = Vec::new();
        let mut cur: Option<Fault> = fault;
        for i in 0..args.len()
            invariant
                out@.len() == i,
                ({
                    let o = lower_seq(bv0, ctx@.classes, ctx@.enums, fault, args@.take(i as int));
                    &&& self@ == o.bv
                    &&& cur == o.fault
                    &&& script_term_seq(out@) =~= o.vals
                }),
            decreases args.len() - i,
        {
            let (f2, sv) = self.to_script(ctx, cur, &args[i]);
            proof {
                assert(args@.take(i as int + 1).drop_last() =~= args@.take(i as int));
                assert(out@.push(sv).drop_last() =~= out@);
            }
            cur = f2;
            out.push(sv);
        }
        proof {
            assert(args@.take(args@.len() as int) =~= args@);
        }
        (cur, out)
    }

    /// Raise one engine value to host encoding: the lean opaque-reference
    /// return path. The whole outcome is exactly what `raise` says.
    pub fn to_host(&mut self, fault: Option<Fault>, v: &ScriptValue) -> (r: (
        Option<Fault>,
        HostValue,
    ))
        ensures
            ({
                let o = raise(old(self)@, fault, *v);
                &&& final(self)@ == o.bv
                &&& r.0 == o.fault
                &&& matches_raised(r.1, o.val)
            }),
    {
        if let Some(f) = fault {
            return (Some(f), HostValue::Null);
        }
        match v {
            ScriptValue::Undefined => (None, HostValue::Null),
            ScriptValue::Null => (None, HostValue::Null),
            ScriptValue::Bool(b) => (None, HostValue::Bool(*b)),
            ScriptValue::Str(s) => (None, HostValue::Str(s.clone())),
            ScriptValue::Object(h) => {
                if let Some(pr) = self.forward.get(h) {
                    match pr {
                        PeerRef::Host(id) => (None, HostValue::HostObj { id: *id, peer: None }),
                        PeerRef::Minted(t) => (None, HostValue::ObjectRef(*t)),
                    }
                } else if self.next_token == u64::MAX || *h == u64::MAX {
                    (Some(Fault::Conv), HostValue::Null)
                } else {
                    let t = self.next_token;
                    self.forward.insert(*h, PeerRef::Minted(t));
                    self.reverse.insert(t, *h);
                    self.next_token = t + 1;
                    if *h >= self.next_handle {
                        self.next_handle = *h + 1;
                    }
                    proof {
                        assert(self@ =~= mint_ref(old(self)@, *h));
                    }
                    (None, HostValue::ObjectRef(t))
                }
            },
            _ => (Some(Fault::Conv), HostValue::Null),
        }
    }
}

} // verus!
