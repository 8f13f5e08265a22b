use vstd::prelude::*;

verus! {

/// Which of two futures finished first, with its output.
#[derive(Debug)]
pub enum SelectResult<T1, T2> {
    /// The first future finished.
    First(T1),
    /// The second future finished.
    Second(T2),
}

/// One round of a select: the first future's output if it is ready, else
/// the second's, else nothing yet. The second is polled only when the
/// first is not ready, so `second` is `None` whenever `first` is ready.
pub fn select_outcome<T1, T2>(first: Option<T1>, second: Option<T2>) -> (r: Option<SelectResult<T1, T2>>)
    ensures
        first matches Some(a) ==> r == Some(SelectResult::<T1, T2>::First(a)),
        first is None ==> (second matches Some(b) ==> r == Some(SelectResult::<T1, T2>::Second(b))),
        first is None && second is None ==> r is None,
{
    match first {
        Some(a) => Some(SelectResult::First(a)),
        None => match second {
            Some(b) => Some(SelectResult::Second(b)),
            None => None,
        },
    }
}

/// Takes in the outcome of the next future of a `try_join_all`: a value is
/// kept after the earlier ones; an error is returned and ends the join.
pub fn try_join_step<T, E>(results: &mut Vec<T>, outcome: Result<T, E>) -> (stop: Option<E>)
    ensures
        match outcome {
            Ok(v) => final(results)@ == old(results)@.push(v) && stop is None,
            Err(e) => final(results)@ == old(results)@ && stop == Some(e),
        },
{
    match outcome {
        Ok(v) => {
            results.push(v);
            None
        },
        Err(e) => Some(e),
    }
}

} // verus!
