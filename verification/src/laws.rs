//! The bridge's identity and isolation laws, stated and proved over the
//! conversion model.

use vstd::prelude::*;

use crate::bridge::BridgeView;
use crate::bridge::RaisedTerm;
use crate::bridge::lower;
use crate::bridge::lower_entries;
use crate::bridge::matches_raised;
use crate::bridge::raise;
use crate::proxy::ClassInfo;
use crate::proxy::EnumBinding;
use crate::values::HostValue;
use crate::values::ScriptTerm;
use crate::values::ScriptValue;

verus! {

/// Identity: bridging the same host object twice within a session yields
/// script references that alias one object. The second crossing is a proxy
/// index hit: it returns the same script object as the first and changes
/// nothing — no duplicate proxy is ever minted.
pub proof fn lemma_identity_preserved(
    bv: BridgeView,
    classes: Map<u64, ClassInfo>,
    enums: Seq<EnumBinding>,
    id: u64,
)
    requires
        lower(bv, classes, enums, None, HostValue::HostObj { id, peer: None }).fault is None,
    ensures
        ({
            let o1 = lower(bv, classes, enums, None, HostValue::HostObj { id, peer: None });
            let o2 = lower(o1.bv, classes, enums, None, HostValue::HostObj { id, peer: None });
            &&& o2.fault is None
            &&& o2.val == o1.val
            &&& o2.bv == o1.bv
        }),
{
}

/// Identity, read back: the script proxy a host object crossed into
/// resolves through the forward map to the identical underlying host
/// object, not a copy and not a fresh reference.
pub proof fn lemma_proxy_round_trip(
    bv: BridgeView,
    classes: Map<u64, ClassInfo>,
    enums: Seq<EnumBinding>,
    id: u64,
    sv: ScriptValue,
)
    requires
        bv.wf(),
        lower(bv, classes, enums, None, HostValue::HostObj { id, peer: None }).fault is None,
        sv@ == lower(bv, classes, enums, None, HostValue::HostObj { id, peer: None }).val,
    ensures
        ({
            let o = lower(bv, classes, enums, None, HostValue::HostObj { id, peer: None });
            let ro = raise(o.bv, None, sv);
            &&& ro.fault is None
            &&& ro.bv == o.bv
            &&& ro.val == RaisedTerm::HostObj(id)
        }),
{
    let o = lower(bv, classes, enums, None, HostValue::HostObj { id, peer: None });
    match sv {
        ScriptValue::Object(h) => {
            assert(o.val == ScriptTerm::Object(h));
        },
        _ => {
            assert(false);
        },
    }
}

/// Identity on the return path: crossing the same script object back to
/// the host twice yields the same identity token — the second crossing is
/// a forward map hit and changes nothing.
pub proof fn lemma_return_identity(bv: BridgeView, h: u64)
    requires
        raise(bv, None, ScriptValue::Object(h)).fault is None,
    ensures
        ({
            let o1 = raise(bv, None, ScriptValue::Object(h));
            let o2 = raise(o1.bv, None, ScriptValue::Object(h));
            &&& o2.fault is None
            &&& o2.val == o1.val
            &&& o2.bv == o1.bv
        }),
{
}

/// Round trip of plain scalars: a boolean or string lowers structurally
/// with no identity tracking and no state change, and raising the lowered
/// value hands back an equal host value. (Numbers widen on the way out but
/// cannot come back: the lean return path refuses them by design.)
pub proof fn lemma_scalar_round_trip(
    bv: BridgeView,
    classes: Map<u64, ClassInfo>,
    enums: Seq<EnumBinding>,
    v: HostValue,
    sv: ScriptValue,
)
    requires
        v matches HostValue::Bool(_) || v matches HostValue::Str(_),
        sv@ == lower(bv, classes, enums, None, v).val,
    ensures
        ({
            let o = lower(bv, classes, enums, None, v);
            let ro = raise(bv, None, sv);
            &&& o.fault is None
            &&& o.bv == bv
            &&& ro.fault is None
            &&& ro.bv == bv
            &&& matches_raised(v, ro.val)
        }),
{
    match v {
        HostValue::Bool(b) => {
            match sv {
                ScriptValue::Bool(b2) => {},
                _ => {
                    assert(false);
                },
            }
        },
        HostValue::Str(s) => {
            match sv {
                ScriptValue::Str(s2) => {},
                _ => {
                    assert(false);
                },
            }
        },
        _ => {},
    }
}

/// Prototype isolation: a string-keyed host map lowers to a record holding
/// exactly the literal keys, in order — nothing is added and nothing is
/// lost, so no ambient prototype behavior can leak onto converted data.
pub proof fn lemma_record_keys(
    bv: BridgeView,
    classes: Map<u64, ClassInfo>,
    enums: Seq<EnumBinding>,
    fault: Option<crate::Fault>,
    es: Seq<(String, HostValue)>,
)
    ensures
        ({
            let o = lower_entries(bv, classes, enums, fault, es);
            &&& o.entries.len() == es.len()
            &&& forall|i: int| 0 <= i < es.len() ==> #[trigger] o.entries[i].0 == es[i].0@
        }),
    decreases es.len(),
{
    if es.len() > 0 {
        lemma_record_keys(bv, classes, enums, fault, es.drop_last());
    }
}

} // verus!
