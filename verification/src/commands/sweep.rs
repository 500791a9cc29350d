//! The `sweep` command: analyze a processed log sweep test file against its source.
use vstd::prelude::*;
use crate::args::SweepArgs;
use crate::session::{pair_step, pair_step_spec, PairAction, PairEvent, PairKind, PairSession};

verus! {

/// One step of `sweep`: load the input, load the output, check their sample
/// rates, then have the pair analyzed and the report printed.
pub fn run(args: &SweepArgs, session: &mut PairSession, event: PairEvent) -> (action: PairAction)
    ensures
        pair_step_spec(PairKind::Sweep, args.input@, args.output@, *old(session), *final(session), event, action),
{
    pair_step(PairKind::Sweep, args.input.as_str(), args.output.as_str(), session, event)
}

} // verus!
