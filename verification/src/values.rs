//! The two value models that cross the bridge.
//!
//! `HostValue` is the host-encoded shape of a value presented to the bridge;
//! `ScriptValue` is the engine-side shape handed to the dispatcher. Numbers
//! carry their IEEE-754 double bit pattern: the host runtime widens every
//! numeric type to double precision before the value reaches the bridge, and
//! the bridge itself never does arithmetic on them.

use vstd::prelude::*;

verus! {

/// A structured, JSON-like host node. Crossing serializes such a node to
/// text and lets the engine parse it back as an expression; the model
/// carries the structure itself, which is what that round trip preserves.
#[derive(Debug, PartialEq, Eq)]
pub enum JsonNode {
    Null,
    Bool(bool),
    /// IEEE-754 double bits.
    Num(u64),
    Str(String),
    Arr(Vec<JsonNode>),
    Obj(Vec<(String, JsonNode)>),
}

/// A host-encoded value presented to the bridge. The variant is the
/// classification the converter acts on; variants are listed in the order the
/// conversion rules try them.
#[derive(Debug, PartialEq, Eq)]
pub enum HostValue {
    /// Null or absent.
    Null,
    /// A host object: `id` is the host runtime's identity for it. When the
    /// object already wraps a foreign (script) reference, `peer` carries the
    /// identity token of that reference and the bridge unwraps it directly
    /// instead of re-proxying.
    HostObj { id: u64, peer: Option<u64> },
    /// A minted opaque handle standing for a script object: carries the
    /// identity token it was minted with.
    ObjectRef(u64),
    /// The narrowly recognized unmodifiable-list-view wrapper: unwrapped one
    /// level, then reclassified.
    ListView(Box<HostValue>),
    /// An ordered list, converted element-wise.
    List(Vec<HostValue>),
    /// A string-keyed map, converted entry-wise.
    Dict(Vec<(String, HostValue)>),
    Bool(bool),
    /// IEEE-754 double bits; the host runtime has already widened.
    Num(u64),
    Str(String),
    /// An enum member. `fqn` is the fully-qualified script type name taken
    /// from the required type-level annotation; a member whose type lacks the
    /// annotation carries `None` and fails conversion.
    EnumMember { fqn: Option<String>, name: String },
    /// A generic structured node, crossed by serialize-and-reparse.
    Json(JsonNode),
}

/// An engine-side value. Objects live in the engine and are held by opaque
/// handle; arrays and records are structural.
#[derive(Debug, PartialEq, Eq)]
pub enum ScriptValue {
    Undefined,
    Null,
    Bool(bool),
    /// IEEE-754 double bits.
    Num(u64),
    Str(String),
    Array(Vec<ScriptValue>),
    /// A record with a null prototype: only its literal entries are
    /// reachable, no ambient prototype behavior leaks onto converted data.
    Record(Vec<(String, ScriptValue)>),
    /// An opaque engine-side object, by handle.
    Object(u64),
}

/// Mathematical model of a `ScriptValue`.
#[verifier::ext_equal]
pub enum ScriptTerm {
    Undefined,
    Null,
    Bool(bool),
    Num(u64),
    Str(Seq<char>),
    Array(Seq<ScriptTerm>),
    Record(Seq<(Seq<char>, ScriptTerm)>),
    Object(u64),
}

pub open spec fn script_term(v: ScriptValue) -> ScriptTerm
    decreases v,
{
    match v {
        ScriptValue::Undefined => ScriptTerm::Undefined,
        ScriptValue::Null => ScriptTerm::Null,
        ScriptValue::Bool(b) => ScriptTerm::Bool(b),
        ScriptValue::Num(n) => ScriptTerm::Num(n),
        ScriptValue::Str(s) => ScriptTerm::Str(s@),
        ScriptValue::Array(xs) => ScriptTerm::Array(script_term_seq(xs@)),
        ScriptValue::Record(es) => ScriptTerm::Record(script_term_entries(es@)),
        ScriptValue::Object(h) => ScriptTerm::Object(h),
    }
}

pub open spec fn script_term_seq(s: Seq<ScriptValue>) -> Seq<ScriptTerm>
    decreases s,
{
    if s.len() == 0 {
        Seq::empty()
    } else {
        script_term_seq(s.drop_last()).push(script_term(s.last()))
    }
}

pub open spec fn script_term_entries(s: Seq<(String, ScriptValue)>) -> Seq<(Seq<char>, ScriptTerm)>
    decreases s,
{
    if s.len() == 0 {
        Seq::empty()
    } else {
        script_term_entries(s.drop_last()).push((s.last().0@, script_term(s.last().1)))
    }
}

impl View for ScriptValue {
    type V = ScriptTerm;

    open spec fn view(&self) -> ScriptTerm {
        script_term(*self)
    }
}

} // verus!
