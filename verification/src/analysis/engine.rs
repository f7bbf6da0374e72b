use vstd::prelude::*;

verus! {

/// How one detector's run ended.
#[derive(Debug)]
pub enum DetectorOutcome<T> {
    /// The detector finished with these findings (possibly none).
    Found(Vec<T>),
    /// The detector saw the run's cancellation.
    Cancelled,
    /// The detector failed; its error is logged and the run goes on.
    Failed,
}

/// Takes one detector's outcome into the findings collected so far, and says
/// whether the run goes on to the next detector: findings are appended in
/// order, a cancellation stops the run, and a failed detector is skipped so
/// that it does not suppress the others.
pub fn absorb_outcome<T>(all: &mut Vec<T>, outcome: DetectorOutcome<T>) -> (go_on: bool)
    ensures
        match outcome {
            DetectorOutcome::Found(v) => final(all)@ == old(all)@ + v@ && go_on,
            DetectorOutcome::Cancelled => final(all)@ == old(all)@ && !go_on,
            DetectorOutcome::Failed => final(all)@ == old(all)@ && go_on,
        },
{
    match outcome {
        DetectorOutcome::Found(v) => {
            let mut v = v;
            all.append(&mut v);
            true
        },
        DetectorOutcome::Cancelled => false,
        DetectorOutcome::Failed => true,
    }
}

} // verus!
