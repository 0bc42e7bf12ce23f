use vstd::prelude::*;

use crate::capability::{
    conflict,
    describes_conflict,
    marker_model,
    CanBe,
    Is,
    Marker,
    MarkerModel,
};
use crate::error::ConfigError;
use crate::oracle::{pair_models, CfgPair, Oracle, OracleModel};
use crate::registry::{AxisModel, Registry};
use crate::text::same_text;

verus! {

/// A fact table as a mathematical value: one marker per declared axis, in
/// declaration order, and whether strict literal checking was on.
pub struct TableModel {
    pub markers: Seq<MarkerModel>,
    pub strict: bool,
}

/// No axis of the registry has two literals reported true.
pub open spec fn consistent(axes: Seq<AxisModel>, truths: Seq<(Seq<char>, Seq<char>)>) -> bool {
    forall|i: int| 0 <= i < axes.len() ==> !conflict(truths, axes[i])
}

/// The table that synthesis makes from the axes and the snapshot.
pub open spec fn synthesized(axes: Seq<AxisModel>, o: OracleModel) -> TableModel {
    TableModel { markers: axes.map_values(|ax: AxisModel| marker_model(o, ax)), strict: o.strict }
}

/// A `CanBe(a, v)` fact stands in the table.
pub open spec fn can_be_fact(t: TableModel, a: Seq<char>, v: Seq<char>) -> bool {
    exists|i: int|
        0 <= i < t.markers.len() && t.markers[i].axis == a && t.markers[i].literals.contains(v)
}

/// Some marker of the table is named `a`.
pub open spec fn has_axis(t: TableModel, a: Seq<char>) -> bool {
    exists|i: int| 0 <= i < t.markers.len() && t.markers[i].axis == a
}

/// An `Is(a, v)` fact stands in the table.
pub open spec fn is_fact(t: TableModel, a: Seq<char>, v: Seq<char>) -> bool {
    exists|i: int|
        0 <= i < t.markers.len() && t.markers[i].axis == a && t.markers[i].guaranteed == Some(v)
            && t.markers[i].literals.contains(v)
}

/// A requirement is met at a call site: the table guarantees it, or the
/// enclosing function carries the identical requirement and forwards it.
pub open spec fn satisfied(
    t: TableModel,
    caller: Seq<(Seq<char>, Seq<char>)>,
    req: (Seq<char>, Seq<char>),
) -> bool {
    is_fact(t, req.0, req.1) || caller.contains(req)
}

/// A call from a function requiring `caller` to one requiring `callee` is
/// well-formed.
pub open spec fn call_accepted(
    t: TableModel,
    caller: Seq<(Seq<char>, Seq<char>)>,
    callee: Seq<(Seq<char>, Seq<char>)>,
) -> bool {
    forall|k: int| 0 <= k < callee.len() ==> satisfied(t, caller, callee[k])
}

/// The `Is` facts, in table order, whose literal strict checking did not
/// find on the canonical list.
pub open spec fn unrecognized(ms: Seq<MarkerModel>, strict: bool) -> Seq<(Seq<char>, Seq<char>)>
    decreases ms.len(),
{
    if ms.len() == 0 {
        Seq::empty()
    } else {
        let m = ms.last();
        let rest = unrecognized(ms.drop_last(), strict);
        if strict && m.guaranteed is Some && !m.verified {
            rest.push((m.axis, m.guaranteed->0))
        } else {
            rest
        }
    }
}

/// A requirement on a function: "axis equals literal in this build".
/// Only a fact table makes one, and only for a declared pair.
pub struct Requirement {
    axis: String,
    literal: String,
}

impl View for Requirement {
    type V = (Seq<char>, Seq<char>);

    closed spec fn view(&self) -> (Seq<char>, Seq<char>) {
        (self.axis@, self.literal@)
    }
}

/// The views of a list of requirements.
pub open spec fn requirement_models(rs: Seq<Requirement>) -> Seq<(Seq<char>, Seq<char>)> {
    rs.map_values(|r: Requirement| r@)
}

impl Requirement {
    /// The required axis.
    pub fn axis(&self) -> (r: &str)
        ensures
            r@ == self@.0,
    {
        self.axis.as_str()
    }

    /// The required literal.
    pub fn literal(&self) -> (r: &str)
        ensures
            r@ == self@.1,
    {
        self.literal.as_str()
    }
}

/// The explanation of an unsatisfied requirement at a call site.
pub struct Diagnostic {
    axis: String,
    literal: String,
}

impl View for Diagnostic {
    type V = (Seq<char>, Seq<char>);

    closed spec fn view(&self) -> (Seq<char>, Seq<char>) {
        (self.axis@, self.literal@)
    }
}

impl Diagnostic {
    /// The axis whose literal is not guaranteed.
    pub fn axis(&self) -> (r: &str)
        ensures
            r@ == self@.0,
    {
        self.axis.as_str()
    }

    /// The literal that is not guaranteed.
    pub fn literal(&self) -> (r: &str)
        ensures
            r@ == self@.1,
    {
        self.literal.as_str()
    }

    /// The headline of the failure.
    pub fn message(&self) -> (r: String)
        ensures
            r@ == "Configuration requirements are not always met"@,
    {
        String::from_str("Configuration requirements are not always met")
    }

    /// The predicate that does not hold everywhere in the calling scope.
    pub fn label(&self) -> (r: String)
        ensures
            r@ == "The compile-time condition cfg("@ + self@.0 + " = "@ + self@.1
                + ") is not always true in this scope"@,
    {
        let mut s = String::from_str("The compile-time condition cfg(");
        s.append(self.axis.as_str());
        s.append(" = ");
        s.append(self.literal.as_str());
        s.append(") is not always true in this scope");
        s
    }

    /// The remedy: carry the requirement on the enclosing function.
    pub fn note(&self) -> (r: String)
        ensures
            r@ == "Consider adding the requirement Is("@ + self@.0 + ", "@ + self@.1
                + ") to the enclosing function, so that its callers respect the required configuration"@,
    {
        let mut s = String::from_str("Consider adding the requirement Is(");
        s.append(self.axis.as_str());
        s.append(", ");
        s.append(self.literal.as_str());
        s.append(
            ") to the enclosing function, so that its callers respect the required configuration",
        );
        s
    }
}

/// Whether `caller` holds a requirement identical to (`a`, `v`).
fn forwards(caller: &Vec<Requirement>, a: &str, v: &str) -> (r: bool)
    ensures
        r == requirement_models(caller@).contains((a@, v@)),
{
    let mut k: usize = 0;
    while k < caller.len()
        invariant
            k <= caller@.len(),
            forall|j: int| 0 <= j < k ==> caller@[j]@ != (a@, v@),
        decreases caller@.len() - k,
    {
        if same_text(caller[k].axis.as_str(), a) && same_text(caller[k].literal.as_str(), v) {
            assert(requirement_models(caller@)[k as int] == (a@, v@));
            return true;
        }
        k = k + 1;
    }
    proof {
        if requirement_models(caller@).contains((a@, v@)) {
            let j = choose|j: int|
                0 <= j < caller@.len() && requirement_models(caller@)[j] == (a@, v@);
            assert(caller@[j]@ == (a@, v@));
        }
    }
    false
}

/// The capability facts of one build: the markers of all declared axes.
pub struct FactTable {
    markers: Vec<Marker>,
    strict: bool,
}

impl View for FactTable {
    type V = TableModel;

    closed spec fn view(&self) -> TableModel {
        TableModel { markers: self.markers@.map_values(|m: Marker| m@), strict: self.strict }
    }
}

impl FactTable {
    /// Synthesizes the markers of all axes of the registry under one
    /// snapshot. Fails on the first axis for which the snapshot reports two
    /// literals.
    pub fn synthesize(reg: &Registry, o: &Oracle) -> (r: Result<FactTable, ConfigError>)
        ensures
            r is Ok <==> consistent(reg@, o@.truths),
            match r {
                Ok(t) => t@ == synthesized(reg@, o@),
                Err(e) => exists|i: int|
                    0 <= i < reg@.len() && (forall|k: int|
                        0 <= k < i ==> !conflict(o@.truths, reg@[k])) && describes_conflict(
                        o@.truths,
                        reg@[i],
                        e,
                    ),
            },
    {
        let n = reg.len();
        let mut markers: Vec<Marker> = Vec::new();
        let mut i: usize = 0;
        while i < n
            invariant
                n == reg@.len(),
                i <= n,
                markers@.len() == i,
                forall|k: int| 0 <= k < i ==> !conflict(o@.truths, reg@[k]),
                forall|k: int| 0 <= k < i ==> (#[trigger] markers@[k])@ == marker_model(o@, reg@[k]),
            decreases n - i,
        {
            match Marker::synthesize(reg.axis(i), o) {
                Ok(m) => {
                    markers.push(m);
                },
                Err(e) => {
                    assert(!consistent(reg@, o@.truths));
                    return Err(e);
                },
            }
            i = i + 1;
        }
        let t = FactTable { markers, strict: o.strict };
        assert(t@.markers =~= synthesized(reg@, o@).markers);
        Ok(t)
    }

    /// Whether strict literal checking was on for this build.
    pub fn strict(&self) -> (r: bool)
        ensures
            r == self@.strict,
    {
        self.strict
    }

    /// The marker of the axis named `axis`, if one is declared.
    pub fn marker(&self, axis: &str) -> (r: Option<&Marker>)
        ensures
            match r {
                Some(m) => m@.axis == axis@ && exists|i: int|
                    0 <= i < self@.markers.len() && self@.markers[i] == m@ && forall|k: int|
                        0 <= k < i ==> self@.markers[k].axis != axis@,
                None => !has_axis(self@, axis@),
            },
    {
        let mut i: usize = 0;
        while i < self.markers.len()
            invariant
                i <= self.markers@.len(),
                forall|k: int| 0 <= k < i ==> self@.markers[k].axis != axis@,
            decreases self.markers@.len() - i,
        {
            if same_text(self.markers[i].axis(), axis) {
                assert(self@.markers[i as int] == self.markers@[i as int]@);
                return Some(&self.markers[i]);
            }
            i = i + 1;
        }
        None
    }

    /// Whether the table holds the fact `Is(axis, literal)`.
    pub fn guarantees(&self, axis: &str, literal: &str) -> (r: bool)
        ensures
            r == is_fact(self@, axis@, literal@),
    {
        let mut i: usize = 0;
        while i < self.markers.len()
            invariant
                i <= self.markers@.len(),
                forall|k: int|
                    0 <= k < i ==> !(self@.markers[k].axis == axis@ && self@.markers[k].guaranteed
                        == Some(literal@) && self@.markers[k].literals.contains(literal@)),
            decreases self.markers@.len() - i,
        {
            let m = &self.markers[i];
            assert(self@.markers[i as int] == m@);
            if same_text(m.axis(), axis) && m.is(literal) {
                return true;
            }
            i = i + 1;
        }
        false
    }

    /// Declares a requirement on (`axis`, `literal`). The pair must carry a
    /// `CanBe` fact: an unknown axis or a literal outside the axis's domain
    /// is rejected.
    pub fn require(&self, axis: &str, literal: &str) -> (r: Result<Requirement, ConfigError>)
        ensures
            r is Ok <==> can_be_fact(self@, axis@, literal@),
            match r {
                Ok(q) => q@ == (axis@, literal@),
                Err(ConfigError::UndeclaredAxis { axis: a }) => a@ == axis@ && !has_axis(
                    self@,
                    axis@,
                ),
                Err(ConfigError::UndeclaredLiteral { axis: a, literal: v }) => {
                    &&& a@ == axis@
                    &&& v@ == literal@
                    &&& has_axis(self@, axis@)
                },
                Err(_) => false,
            },
    {
        let mut seen = false;
        let mut i: usize = 0;
        while i < self.markers.len()
            invariant
                i <= self.markers@.len(),
                seen == exists|k: int| 0 <= k < i && self@.markers[k].axis == axis@,
                forall|k: int|
                    0 <= k < i ==> !(self@.markers[k].axis == axis@
                        && self@.markers[k].literals.contains(literal@)),
            decreases self.markers@.len() - i,
        {
            let m = &self.markers[i];
            assert(self@.markers[i as int] == m@);
            if same_text(m.axis(), axis) {
                seen = true;
                if m.can_be(literal) {
                    return Ok(Requirement { axis: axis.to_owned(), literal: literal.to_owned() });
                }
            }
            i = i + 1;
        }
        if seen {
            Err(ConfigError::UndeclaredLiteral { axis: axis.to_owned(), literal: literal.to_owned() })
        } else {
            Err(ConfigError::UndeclaredAxis { axis: axis.to_owned() })
        }
    }

    /// Checks a call site: the enclosing function carries the requirements
    /// `caller`, the called function the requirements `callee`. Each
    /// requirement of the callee must be guaranteed by the table or
    /// forwarded by the caller; the first one that is neither is reported.
    pub fn check_call(&self, caller: &Vec<Requirement>, callee: &Vec<Requirement>) -> (r: Result<
        (),
        Diagnostic,
    >)
        ensures
            r is Ok <==> call_accepted(
                self@,
                requirement_models(caller@),
                requirement_models(callee@),
            ),
            match r {
                Ok(_) => true,
                Err(d) => exists|k: int|
                    0 <= k < callee@.len() && d@ == callee@[k]@ && !satisfied(
                        self@,
                        requirement_models(caller@),
                        callee@[k]@,
                    ) && forall|j: int|
                        0 <= j < k ==> satisfied(
                            self@,
                            requirement_models(caller@),
                            #[trigger] callee@[j]@,
                        ),
            },
    {
        let ghost cm = requirement_models(caller@);
        let mut k: usize = 0;
        while k < callee.len()
            invariant
                k <= callee@.len(),
                cm == requirement_models(caller@),
                forall|j: int| 0 <= j < k ==> satisfied(self@, cm, #[trigger] callee@[j]@),
            decreases callee@.len() - k,
        {
            let q = &callee[k];
            if !self.guarantees(q.axis.as_str(), q.literal.as_str()) && !forwards(
                caller,
                q.axis.as_str(),
                q.literal.as_str(),
            ) {
                let d = Diagnostic { axis: q.axis.clone(), literal: q.literal.clone() };
                assert(requirement_models(callee@)[k as int] == q@);
                return Err(d);
            }
            k = k + 1;
        }
        assert forall|j: int| 0 <= j < requirement_models(callee@).len() implies satisfied(
            self@,
            cm,
            requirement_models(callee@)[j],
        ) by {
            assert(requirement_models(callee@)[j] == callee@[j]@);
        }
        Ok(())
    }

    /// The `Is` facts, in table order, whose literal is not on the
    /// canonical list while strict literal checking is on: the pairs that
    /// tooling reports as likely misspellings. They never change whether a
    /// requirement is met.
    pub fn unrecognized(&self) -> (r: Vec<CfgPair>)
        ensures
            pair_models(r@) == unrecognized(self@.markers, self@.strict),
    {
        let mut out: Vec<CfgPair> = Vec::new();
        let mut i: usize = 0;
        while i < self.markers.len()
            invariant
                i <= self.markers@.len(),
                pair_models(out@) == unrecognized(self@.markers.subrange(0, i as int), self@.strict),
            decreases self.markers@.len() - i,
        {
            let m = &self.markers[i];
            let ghost pre = self@.markers.subrange(0, i as int);
            assert(self@.markers.subrange(0, i + 1).drop_last() =~= pre);
            assert(self@.markers[i as int] == m@);
            if self.strict && !m.verified() {
                match m.guaranteed() {
                    Some(g) => {
                        out.push(CfgPair { axis: m.axis().to_owned(), value: g.to_owned() });
                        assert(pair_models(out@) =~= unrecognized(
                            self@.markers.subrange(0, i + 1),
                            self@.strict,
                        ));
                    },
                    None => {},
                }
            }
            i = i + 1;
        }
        assert(self@.markers.subrange(0, self.markers@.len() as int) =~= self@.markers);
        out
    }
}

} // verus!
