//! The proxy generator: given the enumerated public surface of a host object,
//! build a sealed script-side stand-in.
//!
//! Operations following the accessor naming convention (`get`/`set` prefix
//! with a capitalized subject) become script properties whose getter re-enters
//! the host through a cached invocation descriptor; a setter is registered
//! only when a matching setter operation exists. Every other operation becomes
//! a stub that fails with `NotImplemented` when invoked: general re-entrant
//! method call-through is out of scope by design.

use vstd::prelude::*;
use vstd::string::StrSliceExecFns;
use vstd::string::StringExecFns;

use std::collections::HashMap;

verus! {

/// One public operation of a host object, as the host's introspection
/// capability reports it: its name, whether it is declared by the universal
/// base type (equality/hash and friends), and its canonical return type name.
#[derive(Debug)]
pub struct HostOp {
    pub name: String,
    pub base: bool,
    pub ret: String,
}

/// What the host's introspection capability reports for one host object.
/// `fails` models introspection itself raising a host exception
/// mid-enumeration, which aborts proxy construction.
#[derive(Debug)]
pub struct ClassInfo {
    pub fails: bool,
    pub ops: Vec<HostOp>,
}

/// One resolved enum member: the annotation's fully-qualified type name, the
/// member name, and the engine-side handle of the member's value as a static
/// property lookup on that type resolves it.
#[derive(Debug)]
pub struct EnumBinding {
    pub fqn: String,
    pub member: String,
    pub handle: u64,
}

/// The host runtime's reflection data, passed explicitly to the converters:
/// the introspectable surface of each host object (by identity) and the
/// resolved enum members. Modelled as an explicit capability rather than
/// ambient reflection.
#[derive(Debug)]
pub struct HostContext {
    pub classes: HashMap<u64, ClassInfo>,
    pub enums: Vec<EnumBinding>,
}

/// A cached invocation descriptor: the host operation a property accessor
/// re-enters, computed once when the proxy is built and stored on it.
#[derive(Debug)]
pub struct MethodDescriptor {
    pub target: String,
    pub ret: String,
}

/// A script property registered on a proxy: its name, its getter descriptor,
/// and its setter descriptor when a matching setter operation exists.
#[derive(Debug)]
pub struct PropertySlot {
    pub name: String,
    pub getter: MethodDescriptor,
    pub setter: Option<MethodDescriptor>,
}

/// The shape of a generated proxy object. Once published it is sealed: no
/// property can be added or reconfigured.
#[derive(Debug)]
pub struct ProxyShape {
    pub sealed: bool,
    pub props: Vec<PropertySlot>,
    pub methods: Vec<String>,
}

#[verifier::ext_equal]
pub struct DescTerm {
    pub target: Seq<char>,
    pub ret: Seq<char>,
}

#[verifier::ext_equal]
pub struct PropTerm {
    pub name: Seq<char>,
    pub getter: DescTerm,
    pub setter: Option<DescTerm>,
}

#[verifier::ext_equal]
pub struct ShapeTerm {
    pub sealed: bool,
    pub props: Seq<PropTerm>,
    pub methods: Seq<Seq<char>>,
}

impl View for MethodDescriptor {
    type V = DescTerm;

    open spec fn view(&self) -> DescTerm {
        DescTerm { target: self.target@, ret: self.ret@ }
    }
}

impl View for PropertySlot {
    type V = PropTerm;

    open spec fn view(&self) -> PropTerm {
        PropTerm {
            name: self.name@,
            getter: self.getter@,
            setter: match self.setter {
                Some(d) => Some(d@),
                None => None,
            },
        }
    }
}

impl View for ProxyShape {
    type V = ShapeTerm;

    open spec fn view(&self) -> ShapeTerm {
        ShapeTerm {
            sealed: self.sealed,
            props: Seq::new(self.props@.len(), |i: int| self.props@[i]@),
            methods: Seq::new(self.methods@.len(), |i: int| self.methods@[i]@),
        }
    }
}

pub struct CtxView {
    pub classes: Map<u64, ClassInfo>,
    pub enums: Seq<EnumBinding>,
}

impl View for HostContext {
    type V = CtxView;

    open spec fn view(&self) -> CtxView {
        CtxView { classes: self.classes@, enums: self.enums@ }
    }
}

/// Whether a character has the Uppercase property, as the host runtime's
/// character classification reports it.
pub uninterp spec fn uppercase_char(c: char) -> bool;

/// The lowercase mapping of a string, as the host runtime's case conversion
/// computes it: a function of the characters alone.
pub uninterp spec fn lowercase_of(s: Seq<char>) -> Seq<char>;

/// Relies on char::is_uppercase: the Unicode Uppercase property of the
/// character, a function of the character alone.
#[verifier::external_body]
fn char_is_uppercase(c: char) -> (r: bool)
    ensures
        r == uppercase_char(c),
{
    c.is_uppercase()
}

/// Relies on str::to_lowercase: the Unicode lowercase mapping of the string,
/// a function of its characters alone.
#[verifier::external_body]
fn str_lowercase(s: &str) -> (r: String)
    ensures
        r@ == lowercase_of(s@),
{
    s.to_lowercase()
}

/// An operation excluded from proxy generation: declared by the universal
/// base type, an equality/hash operation, or tagged synthetic by a leading
/// dollar sign.
pub open spec fn op_skipped(op: HostOp) -> bool {
    ||| op.base
    ||| op.name@ == "equals"@
    ||| op.name@ == "hashCode"@
    ||| (op.name@.len() > 0 && op.name@[0] == '$')
}

/// The getter half of the accessor naming convention: a `get` prefix with a
/// capitalized subject.
pub open spec fn is_getter_name(n: Seq<char>) -> bool {
    n.len() > 3 && n[0] == 'g' && n[1] == 'e' && n[2] == 't' && uppercase_char(n[3])
}

/// The setter half of the accessor naming convention: a `set` prefix with a
/// capitalized subject.
pub open spec fn is_setter_name(n: Seq<char>) -> bool {
    n.len() > 3 && n[0] == 's' && n[1] == 'e' && n[2] == 't' && uppercase_char(n[3])
}

/// The property name an accessor operation exposes: the subject with its
/// first character lowercased.
pub open spec fn prop_name_of(n: Seq<char>) -> Seq<char>
    recommends
        n.len() > 3,
{
    lowercase_of(n.subrange(3, 4)) + n.subrange(4, n.len() as int)
}

pub open spec fn desc_of(op: HostOp) -> DescTerm {
    DescTerm { target: op.name@, ret: op.ret@ }
}

/// The first setter operation matching a property name, in operation order.
pub open spec fn find_setter(ops: Seq<HostOp>, prop: Seq<char>) -> Option<DescTerm>
    decreases ops,
{
    if ops.len() == 0 {
        None
    } else if !op_skipped(ops.first()) && is_setter_name(ops.first().name@) && prop_name_of(
        ops.first().name@,
    ) == prop {
        Some(desc_of(ops.first()))
    } else {
        find_setter(ops.drop_first(), prop)
    }
}

/// The properties a proxy registers: one per getter operation, in operation
/// order, each paired with the matching setter when one exists anywhere in
/// the enumerated surface.
pub open spec fn shape_props(all: Seq<HostOp>, ops: Seq<HostOp>) -> Seq<PropTerm>
    decreases ops,
{
    if ops.len() == 0 {
        Seq::empty()
    } else {
        let rest = shape_props(all, ops.drop_last());
        let op = ops.last();
        if !op_skipped(op) && is_getter_name(op.name@) {
            rest.push(
                PropTerm {
                    name: prop_name_of(op.name@),
                    getter: desc_of(op),
                    setter: find_setter(all, prop_name_of(op.name@)),
                },
            )
        } else {
            rest
        }
    }
}

/// The method stubs a proxy registers: every remaining operation that is
/// neither skipped nor an accessor, in operation order.
pub open spec fn shape_methods(ops: Seq<HostOp>) -> Seq<Seq<char>>
    decreases ops,
{
    if ops.len() == 0 {
        Seq::empty()
    } else {
        let rest = shape_methods(ops.drop_last());
        let op = ops.last();
        if !op_skipped(op) && !is_getter_name(op.name@) && !is_setter_name(op.name@) {
            rest.push(op.name@)
        } else {
            rest
        }
    }
}

/// The sealed shape generated for a host object with the given enumerated
/// surface.
pub open spec fn build_shape(ops: Seq<HostOp>) -> ShapeTerm {
    ShapeTerm { sealed: true, props: shape_props(ops, ops), methods: shape_methods(ops) }
}

/// Whether an operation name is excluded, decided executably.
fn op_is_skipped(op: &HostOp) -> (r: bool)
    ensures
        r == op_skipped(*op),
{
    if op.base {
        return true;
    }
    if op.name == "equals".to_owned() {
        return true;
    }
    if op.name == "hashCode".to_owned() {
        return true;
    }
    let n = op.name.as_str().unicode_len();
    n > 0 && op.name.as_str().get_char(0) == '$'
}

/// Accessor-convention test, decided executably: 0 for neither, 1 for a
/// getter name, 2 for a setter name.
fn accessor_kind(name: &String) -> (r: u8)
    ensures
        r == 1u8 <==> is_getter_name(name@),
        r == 2u8 <==> is_setter_name(name@),
        r == 0u8 || r == 1u8 || r == 2u8,
{
    let n = name.as_str().unicode_len();
    if n <= 3 {
        return 0;
    }
    let c0 = name.as_str().get_char(0);
    let c1 = name.as_str().get_char(1);
    let c2 = name.as_str().get_char(2);
    let c3 = name.as_str().get_char(3);
    if c1 == 'e' && c2 == 't' && char_is_uppercase(c3) {
        if c0 == 'g' {
            1
        } else if c0 == 's' {
            2
        } else {
            0
        }
    } else {
        0
    }
}

/// The property name an accessor exposes, computed executably.
fn accessor_prop_name(name: &String) -> (r: String)
    requires
        name@.len() > 3,
    ensures
        r@ == prop_name_of(name@),
{
    let n = name.as_str().unicode_len();
    let subject = name.as_str().substring_char(3, 4);
    let mut out = str_lowercase(subject);
    let rest = name.as_str().substring_char(4, n);
    out.append(rest);
    out
}

/// Find the matching setter operation for a property name, in operation
/// order.
fn find_setter_exec(ops: &Vec<HostOp>, prop: &String) -> (r: Option<MethodDescriptor>)
    ensures
        match r {
            Some(d) => find_setter(ops@, prop@) == Some(d@),
            None => find_setter(ops@, prop@) is None,
        },
{
    let ghost all = ops@;
    proof {
        assert(all.skip(0) =~= all);
    }
    for i in 0..ops.len()
        invariant
            find_setter(all, prop@) == find_setter(all.skip(i as int), prop@),
            all == ops@,
        decreases ops.len() - i,
    {
        let op = &ops[i];
        proof {
            assert(all.skip(i as int).first() == all[i as int]);
            assert(all.skip(i as int).drop_first() =~= all.skip(i as int + 1));
        }
        if !op_is_skipped(op) && accessor_kind(&op.name) == 2 {
            let cand = accessor_prop_name(&op.name);
            if cand == *prop {
                return Some(
                    MethodDescriptor { target: op.name.clone(), ret: op.ret.clone() },
                );
            }
        }
    }
    proof {
        assert(all.skip(ops@.len() as int) =~= Seq::<HostOp>::empty());
    }
    None
}

/// Build the sealed proxy shape for an enumerated host surface: classify each
/// operation, register accessor properties with cached descriptors, register
/// failing stubs for everything else, and seal the result.
pub fn build_proxy_shape(ops: &Vec<HostOp>) -> (r: ProxyShape)
    ensures
        r@ == build_shape(ops@),
{
    let mut props: Vec<PropertySlot> = Vec::new();
    let mut methods: Vec<String> = Vec::new();
    let ghost all = ops@;
    for i in 0..ops.len()
        invariant
            all == ops@,
            Seq::new(props@.len(), |k: int| props@[k]@) =~= shape_props(
                all,
                all.take(i as int),
            ),
            Seq::new(methods@.len(), |k: int| methods@[k]@) =~= shape_methods(
                all.take(i as int),
            ),
        decreases ops.len() - i,
    {
        let op = &ops[i];
        proof {
            assert(all.take(i as int + 1).drop_last() =~= all.take(i as int));
            assert(all.take(i as int + 1).last() == all[i as int]);
        }
        if !op_is_skipped(op) {
            let kind = accessor_kind(&op.name);
            if kind == 1 {
                let prop = accessor_prop_name(&op.name);
                let setter = find_setter_exec(ops, &prop);
                let slot = PropertySlot {
                    name: prop,
                    getter: MethodDescriptor { target: op.name.clone(), ret: op.ret.clone() },
                    setter,
                };
                props.push(slot);
            } else if kind == 0 {
                methods.push(op.name.clone());
            }
        }
    }
    proof {
        assert(all.take(ops@.len() as int) =~= all);
    }
    ProxyShape { sealed: true, props, methods }
}

} // verus!
