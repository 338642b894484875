use vstd::prelude::*;

verus! {

/// The outcome of asking for exactly one candidate.
#[derive(Debug)]
pub enum Selection<T> {
    Absent,
    Unique(T),
    Ambiguous(Vec<T>),
}

/// Classifies `candidates` as none, exactly one, or several.
pub fn select_unique<T>(candidates: Vec<T>) -> (r: Selection<T>)
    ensures
        candidates@.len() == 0 <==> r is Absent,
        candidates@.len() == 1 <==> r is Unique,
        candidates@.len() > 1 <==> r is Ambiguous,
        r matches Selection::Unique(x) ==> x == candidates@[0],
        r matches Selection::Ambiguous(v) ==> v@ == candidates@,
{
    if candidates.len() == 0 {
        Selection::Absent
    } else if candidates.len() == 1 {
        let mut c = candidates;
        let x = c.pop().unwrap();
        Selection::Unique(x)
    } else {
        Selection::Ambiguous(candidates)
    }
}

} // verus!
