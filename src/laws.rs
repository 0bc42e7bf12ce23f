use vstd::prelude::*;

use crate::capability::{conflict, guaranteed_literal};
use crate::facts::{
    call_accepted,
    can_be_fact,
    consistent,
    is_fact,
    satisfied,
    synthesized,
    TableModel,
};
use crate::oracle::{reports, OracleModel};
use crate::registry::{declared, AxisModel};

verus! {

/// A `CanBe` fact stands in a synthesized table exactly for the declared
/// (axis, literal) pairs, whatever the snapshot says.
pub proof fn lemma_can_be_exactly_declared(
    axes: Seq<AxisModel>,
    o: OracleModel,
    a: Seq<char>,
    v: Seq<char>,
)
    ensures
        can_be_fact(synthesized(axes, o), a, v) <==> declared(axes, a, v),
{
    let t = synthesized(axes, o);
    if can_be_fact(t, a, v) {
        let i = choose|i: int|
            0 <= i < t.markers.len() && t.markers[i].axis == a && t.markers[i].literals.contains(v);
        assert(axes[i].name == a && axes[i].literals.contains(v));
    }
    if declared(axes, a, v) {
        let i = choose|i: int|
            0 <= i < axes.len() && axes[i].name == a && axes[i].literals.contains(v);
        assert(t.markers[i].axis == a && t.markers[i].literals.contains(v));
    }
}

/// Under a consistent snapshot, an `Is` fact stands in the synthesized
/// table for a declared pair exactly when the snapshot reports the axis
/// equal to that literal; no undeclared pair ever gets one.
pub proof fn lemma_is_exactly_reported(
    axes: Seq<AxisModel>,
    o: OracleModel,
    a: Seq<char>,
    v: Seq<char>,
)
    requires
        consistent(axes, o.truths),
    ensures
        is_fact(synthesized(axes, o), a, v) <==> declared(axes, a, v) && reports(o.truths, a, v),
{
    let t = synthesized(axes, o);
    if is_fact(t, a, v) {
        let i = choose|i: int|
            0 <= i < t.markers.len() && t.markers[i].axis == a && t.markers[i].guaranteed == Some(
                v,
            ) && t.markers[i].literals.contains(v);
        assert(guaranteed_literal(o.truths, axes[i]) == Some(v));
        assert(declared(axes, a, v));
    }
    if declared(axes, a, v) && reports(o.truths, a, v) {
        let i = choose|i: int|
            0 <= i < axes.len() && axes[i].name == a && axes[i].literals.contains(v);
        let ax = axes[i];
        assert(ax.literals.contains(v) && reports(o.truths, ax.name, v));
        let w = choose|w: Seq<char>| ax.literals.contains(w) && reports(o.truths, ax.name, w);
        let jv = choose|j: int| 0 <= j < ax.literals.len() && ax.literals[j] == v;
        let jw = choose|j: int| 0 <= j < ax.literals.len() && ax.literals[j] == w;
        assert(!conflict(o.truths, ax));
        if jv < jw {
            assert(conflict(o.truths, ax));
        } else if jw < jv {
            assert(conflict(o.truths, ax));
        }
        assert(w == v);
        assert(t.markers[i].guaranteed == Some(v));
    }
}

/// A requirement that the table guarantees is met at any call site; one
/// that the table does not guarantee and the caller does not carry is not.
pub proof fn lemma_guaranteed_call_accepted(
    t: TableModel,
    caller: Seq<(Seq<char>, Seq<char>)>,
    req: (Seq<char>, Seq<char>),
)
    ensures
        is_fact(t, req.0, req.1) ==> call_accepted(t, caller, seq![req]),
        !is_fact(t, req.0, req.1) && !caller.contains(req) ==> !call_accepted(
            t,
            caller,
            seq![req],
        ),
{
    if !call_accepted(t, caller, seq![req]) {
        let k = choose|k: int| 0 <= k < 1 && !satisfied(t, caller, seq![req][k]);
        assert(seq![req][k] == req);
    }
    if !is_fact(t, req.0, req.1) && !caller.contains(req) {
        assert(!satisfied(t, caller, seq![req][0]));
    }
}

/// Forwarding: a caller that carries every requirement of the callee may
/// call it in any build, without the table guaranteeing anything.
pub proof fn lemma_forwarding_accepted(
    t: TableModel,
    caller: Seq<(Seq<char>, Seq<char>)>,
    callee: Seq<(Seq<char>, Seq<char>)>,
)
    requires
        forall|k: int| 0 <= k < callee.len() ==> caller.contains(#[trigger] callee[k]),
    ensures
        call_accepted(t, caller, callee),
{
}

/// Synthesis is a function of the registry and the snapshot: two runs on
/// the same inputs give the same table.
pub proof fn lemma_synthesis_deterministic(
    axes: Seq<AxisModel>,
    o: OracleModel,
    t1: TableModel,
    t2: TableModel,
)
    requires
        t1 == synthesized(axes, o),
        t2 == synthesized(axes, o),
    ensures
        t1 == t2,
{
}

/// Strict literal checking and the canonical list never change which `Is`
/// facts exist, nor whether any call site is accepted: two snapshots with
/// the same truths give the same outcome everywhere.
pub proof fn lemma_strict_mode_keeps_outcome(
    axes: Seq<AxisModel>,
    o1: OracleModel,
    o2: OracleModel,
    caller: Seq<(Seq<char>, Seq<char>)>,
    callee: Seq<(Seq<char>, Seq<char>)>,
)
    requires
        o1.truths == o2.truths,
    ensures
        forall|a: Seq<char>, v: Seq<char>|
            is_fact(synthesized(axes, o1), a, v) == is_fact(synthesized(axes, o2), a, v),
        call_accepted(synthesized(axes, o1), caller, callee) == call_accepted(
            synthesized(axes, o2),
            caller,
            callee,
        ),
{
    let t1 = synthesized(axes, o1);
    let t2 = synthesized(axes, o2);
    assert forall|i: int| 0 <= i < axes.len() implies t1.markers[i].guaranteed
        == t2.markers[i].guaranteed by {}
    assert forall|a: Seq<char>, v: Seq<char>| is_fact(t1, a, v) == is_fact(t2, a, v) by {
        if is_fact(t1, a, v) {
            let i = choose|i: int|
                0 <= i < t1.markers.len() && t1.markers[i].axis == a && t1.markers[i].guaranteed
                    == Some(v) && t1.markers[i].literals.contains(v);
            assert(t2.markers[i].guaranteed == Some(v));
        }
        if is_fact(t2, a, v) {
            let i = choose|i: int|
                0 <= i < t2.markers.len() && t2.markers[i].axis == a && t2.markers[i].guaranteed
                    == Some(v) && t2.markers[i].literals.contains(v);
            assert(t1.markers[i].guaranteed == Some(v));
        }
    }
    assert forall|k: int| 0 <= k < callee.len() implies satisfied(t1, caller, callee[k])
        == satisfied(t2, caller, callee[k]) by {
        assert(is_fact(t1, callee[k].0, callee[k].1) == is_fact(t2, callee[k].0, callee[k].1));
    }
}

} // verus!
