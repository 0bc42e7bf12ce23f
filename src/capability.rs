use vstd::prelude::*;

use crate::error::ConfigError;
use crate::oracle::{recognizes, reports, Oracle, OracleModel};
use crate::registry::{Axis, AxisModel};
use crate::text::{position_of, same_text, texts};

verus! {

/// "This axis may take `literal` in some build."
pub trait CanBe {
    spec fn can_be_spec(&self, literal: Seq<char>) -> bool;

    fn can_be(&self, literal: &str) -> (r: bool)
        ensures
            r == self.can_be_spec(literal@),
    ;
}

/// "This axis is guaranteed to take `literal` in the current build."
/// A refinement of `CanBe`: no literal outside the axis's domain can be
/// guaranteed.
pub trait Is: CanBe {
    spec fn is_spec(&self, literal: Seq<char>) -> bool;

    proof fn lemma_is_needs_can_be(&self, literal: Seq<char>)
        ensures
            self.is_spec(literal) ==> self.can_be_spec(literal),
    ;

    fn is(&self, literal: &str) -> (r: bool)
        ensures
            r == self.is_spec(literal@),
    ;
}

/// A marker as a mathematical value: the axis, its declared literals (one
/// `CanBe` fact each), the literal with an `Is` fact if any, and the
/// verification flag carried alongside that `Is` fact.
pub struct MarkerModel {
    pub axis: Seq<char>,
    pub literals: Seq<Seq<char>>,
    pub guaranteed: Option<Seq<char>>,
    pub verified: bool,
}

/// Two declared literals of `ax` are both reported true.
pub open spec fn conflict(truths: Seq<(Seq<char>, Seq<char>)>, ax: AxisModel) -> bool {
    exists|j1: int, j2: int|
        0 <= j1 < j2 < ax.literals.len() && reports(truths, ax.name, ax.literals[j1]) && reports(
            truths,
            ax.name,
            ax.literals[j2],
        )
}

/// `e` names `ax` and two of its literals, in declared order, that the
/// truths both report.
pub open spec fn describes_conflict(
    truths: Seq<(Seq<char>, Seq<char>)>,
    ax: AxisModel,
    e: ConfigError,
) -> bool {
    match e {
        ConfigError::InconsistentOracleAnswer { axis, first, second } => {
            &&& axis@ == ax.name
            &&& exists|j1: int, j2: int|
                0 <= j1 < j2 < ax.literals.len() && ax.literals[j1] == first@ && ax.literals[j2]
                    == second@ && reports(truths, ax.name, first@) && reports(
                    truths,
                    ax.name,
                    second@,
                )
        },
        _ => false,
    }
}

/// The declared literal of `ax` that the truths report, if there is one.
pub open spec fn guaranteed_literal(truths: Seq<(Seq<char>, Seq<char>)>, ax: AxisModel) -> Option<
    Seq<char>,
> {
    if exists|v: Seq<char>| ax.literals.contains(v) && reports(truths, ax.name, v) {
        Some(choose|v: Seq<char>| ax.literals.contains(v) && reports(truths, ax.name, v))
    } else {
        None
    }
}

/// The marker that synthesis makes for `ax` under the snapshot `o`.
pub open spec fn marker_model(o: OracleModel, ax: AxisModel) -> MarkerModel {
    let g = guaranteed_literal(o.truths, ax);
    MarkerModel {
        axis: ax.name,
        literals: ax.literals,
        guaranteed: g,
        verified: o.strict && g is Some && recognizes(o, ax.name, g->0),
    }
}

/// The handle of one axis, carrying its capability facts.
pub struct Marker {
    axis: String,
    literals: Vec<String>,
    guaranteed: Option<String>,
    verified: bool,
}

impl View for Marker {
    type V = MarkerModel;

    closed spec fn view(&self) -> MarkerModel {
        MarkerModel {
            axis: self.axis@,
            literals: texts(self.literals@),
            guaranteed: match self.guaranteed {
                Some(g) => Some(g@),
                None => None,
            },
            verified: self.verified,
        }
    }
}

impl CanBe for Marker {
    open spec fn can_be_spec(&self, literal: Seq<char>) -> bool {
        self@.literals.contains(literal)
    }

    fn can_be(&self, literal: &str) -> (r: bool) {
        position_of(&self.literals, literal).is_some()
    }
}

impl Is for Marker {
    open spec fn is_spec(&self, literal: Seq<char>) -> bool {
        self@.guaranteed == Some(literal) && self@.literals.contains(literal)
    }

    proof fn lemma_is_needs_can_be(&self, literal: Seq<char>) {
    }

    fn is(&self, literal: &str) -> (r: bool) {
        match &self.guaranteed {
            Some(g) => same_text(g.as_str(), literal) && self.can_be(literal),
            None => false,
        }
    }
}

impl Marker {
    /// Synthesizes the marker of one axis: a `CanBe` fact for each declared
    /// literal, and an `Is` fact for the literal that the snapshot reports,
    /// if any. Fails when the snapshot reports two of the axis's literals.
    pub fn synthesize(ax: &Axis, o: &Oracle) -> (r: Result<Marker, ConfigError>)
        ensures
            r is Err <==> conflict(o@.truths, ax@),
            match r {
                Ok(m) => m@ == marker_model(o@, ax@),
                Err(e) => describes_conflict(o@.truths, ax@, e),
            },
    {
        let ghost lits = ax@.literals;
        let ghost truths = o@.truths;
        let mut found: Option<usize> = None;
        let mut i: usize = 0;
        while i < ax.literals.len()
            invariant
                i <= ax.literals@.len(),
                lits == ax@.literals,
                truths == o@.truths,
                match found {
                    Some(j) => j < i && reports(truths, ax@.name, lits[j as int]) && forall|k: int|
                        0 <= k < i && k != j ==> !reports(truths, ax@.name, lits[k]),
                    None => forall|k: int| 0 <= k < i ==> !reports(truths, ax@.name, lits[k]),
                },
            decreases ax.literals@.len() - i,
        {
            if o.reports(ax.name.as_str(), ax.literals[i].as_str()) {
                match found {
                    Some(j) => {
                        let first = ax.literals[j].clone();
                        let second = ax.literals[i].clone();
                        assert(first@ == lits[j as int] && second@ == lits[i as int]);
                        assert(conflict(truths, ax@));
                        return Err(
                            ConfigError::InconsistentOracleAnswer {
                                axis: ax.name.clone(),
                                first,
                                second,
                            },
                        );
                    },
                    None => {
                        found = Some(i);
                    },
                }
            }
            i = i + 1;
        }
        let guaranteed = match found {
            Some(j) => Some(ax.literals[j].clone()),
            None => None,
        };
        let verified = match &guaranteed {
            Some(g) => o.strict && o.recognizes(ax.name.as_str(), g.as_str()),
            None => false,
        };
        let m = Marker { axis: ax.name.clone(), literals: ax.literals.clone(), guaranteed, verified };
        proof {
            let g = guaranteed_literal(truths, ax@);
            match found {
                Some(j) => {
                    assert(lits.contains(lits[j as int]));
                    let v = choose|v: Seq<char>| lits.contains(v) && reports(truths, ax@.name, v);
                    let k = choose|k: int| 0 <= k < lits.len() && lits[k] == v;
                    assert(k == j);
                    assert(g == Some(lits[j as int]));
                },
                None => {
                    assert forall|v: Seq<char>| lits.contains(v) implies !reports(
                        truths,
                        ax@.name,
                        v,
                    ) by {
                        let k = choose|k: int| 0 <= k < lits.len() && lits[k] == v;
                    }
                    assert(g is None);
                },
            }
            assert(m@ == marker_model(o@, ax@));
        }
        Ok(m)
    }

    /// The marker's axis.
    pub fn axis(&self) -> (r: &str)
        ensures
            r@ == self@.axis,
    {
        self.axis.as_str()
    }

    /// The verification flag of the marker's `Is` fact.
    pub fn verified(&self) -> (r: bool)
        ensures
            r == self@.verified,
    {
        self.verified
    }

    /// The literal that the build guarantees for this axis, if any.
    pub fn guaranteed(&self) -> (r: Option<&str>)
        ensures
            match r {
                Some(g) => self@.guaranteed == Some(g@),
                None => self@.guaranteed is None,
            },
    {
        match &self.guaranteed {
            Some(g) => Some(g.as_str()),
            None => None,
        }
    }
}

} // verus!
