use vstd::prelude::*;

use crate::text::same_text;

verus! {

/// An (axis, value) pair of the ambient configuration.
pub struct CfgPair {
    pub axis: String,
    pub value: String,
}

impl View for CfgPair {
    type V = (Seq<char>, Seq<char>);

    open spec fn view(&self) -> (Seq<char>, Seq<char>) {
        (self.axis@, self.value@)
    }
}

/// The views of a list of pairs.
pub open spec fn pair_models(ps: Seq<CfgPair>) -> Seq<(Seq<char>, Seq<char>)> {
    ps.map_values(|p: CfgPair| p@)
}

/// A configuration snapshot as a mathematical value.
pub struct OracleModel {
    pub truths: Seq<(Seq<char>, Seq<char>)>,
    pub strict: bool,
    pub recognized: Seq<(Seq<char>, Seq<char>)>,
}

/// One immutable snapshot of the ambient configuration of a build: the
/// (axis, value) pairs that hold in it, whether strict literal checking is
/// on, and the canonical list of recognized (axis, value) pairs.
pub struct Oracle {
    pub truths: Vec<CfgPair>,
    pub strict: bool,
    pub recognized: Vec<CfgPair>,
}

impl View for Oracle {
    type V = OracleModel;

    open spec fn view(&self) -> OracleModel {
        OracleModel {
            truths: pair_models(self.truths@),
            strict: self.strict,
            recognized: pair_models(self.recognized@),
        }
    }
}

/// The snapshot's truths say that axis `a` equals `v`.
pub open spec fn reports(truths: Seq<(Seq<char>, Seq<char>)>, a: Seq<char>, v: Seq<char>) -> bool {
    truths.contains((a, v))
}

/// The canonical list of the snapshot holds (`a`, `v`).
pub open spec fn recognizes(o: OracleModel, a: Seq<char>, v: Seq<char>) -> bool {
    o.recognized.contains((a, v))
}

/// Whether (`a`, `v`) stands in `ps`.
fn pair_listed(ps: &Vec<CfgPair>, a: &str, v: &str) -> (r: bool)
    ensures
        r == pair_models(ps@).contains((a@, v@)),
{
    let mut k: usize = 0;
    while k < ps.len()
        invariant
            k <= ps@.len(),
            forall|j: int| 0 <= j < k ==> ps@[j]@ != (a@, v@),
        decreases ps@.len() - k,
    {
        if same_text(ps[k].axis.as_str(), a) && same_text(ps[k].value.as_str(), v) {
            assert(pair_models(ps@)[k as int] == (a@, v@));
            return true;
        }
        k = k + 1;
    }
    proof {
        if pair_models(ps@).contains((a@, v@)) {
            let j = choose|j: int| 0 <= j < ps@.len() && pair_models(ps@)[j] == (a@, v@);
            assert(ps@[j]@ == (a@, v@));
        }
    }
    false
}

impl Oracle {
    /// Does axis `axis` equal `value` in this build?
    pub fn reports(&self, axis: &str, value: &str) -> (r: bool)
        ensures
            r == reports(self@.truths, axis@, value@),
    {
        pair_listed(&self.truths, axis, value)
    }

    /// Is (`axis`, `value`) on the canonical list of recognized pairs?
    pub fn recognizes(&self, axis: &str, value: &str) -> (r: bool)
        ensures
            r == recognizes(self@, axis@, value@),
    {
        pair_listed(&self.recognized, axis, value)
    }
}

/// The spellings that switch strict literal checking on.
pub open spec fn switch_on(s: Seq<char>) -> bool {
    s == "1"@ || s == "true"@ || s == "TRUE"@ || s == "yes"@ || s == "YES"@
}

/// Reads the strict-literal-checking toggle from the setting's text, if the
/// setting is present at all. An absent setting leaves the mode off.
pub fn is_check_cfg(setting: Option<&str>) -> (r: bool)
    ensures
        r == match setting {
            Some(s) => switch_on(s@),
            None => false,
        },
{
    match setting {
        Some(s) => same_text(s, "1") || same_text(s, "true") || same_text(s, "TRUE")
            || same_text(s, "yes") || same_text(s, "YES"),
        None => false,
    }
}

} // verus!
