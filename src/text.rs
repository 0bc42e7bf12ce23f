use vstd::prelude::*;

verus! {

/// Compares two strings by their characters.
pub fn same_text(a: &str, b: &str) -> (r: bool)
    ensures
        r == (a@ == b@),
{
    a.to_owned() == b.to_owned()
}

/// The views of a list of strings.
pub open spec fn texts(items: Seq<String>) -> Seq<Seq<char>> {
    items.map_values(|s: String| s@)
}

/// Finds the first position of `x` in `items`.
pub fn position_of(items: &Vec<String>, x: &str) -> (r: Option<usize>)
    ensures
        match r {
            Some(k) => k < items@.len() && items@[k as int]@ == x@ && forall|j: int|
                0 <= j < k ==> items@[j]@ != x@,
            None => forall|j: int| 0 <= j < items@.len() ==> items@[j]@ != x@,
        },
        r is None <==> !texts(items@).contains(x@),
{
    let mut i: usize = 0;
    while i < items.len()
        invariant
            i <= items@.len(),
            forall|j: int| 0 <= j < i ==> items@[j]@ != x@,
        decreases items@.len() - i,
    {
        if same_text(items[i].as_str(), x) {
            assert(texts(items@)[i as int] == x@);
            return Some(i);
        }
        i = i + 1;
    }
    assert forall|v: Seq<char>| texts(items@).contains(v) implies v != x@ by {
        let j = choose|j: int| 0 <= j < texts(items@).len() && texts(items@)[j] == v;
        assert(items@[j]@ == v);
    }
    None
}

} // verus!
