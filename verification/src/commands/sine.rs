//! The `sine` command: analyze a processed sine test file against its source.
use vstd::prelude::*;
use crate::args::SineArgs;
use crate::session::{pair_step, pair_step_spec, PairAction, PairEvent, PairKind, PairSession};

verus! {

/// One step of `sine`: load the input, load the output, check their sample
/// rates, then have the pair analyzed and the report printed.
pub fn run(args: &SineArgs, session: &mut PairSession, event: PairEvent) -> (action: PairAction)
    ensures
        pair_step_spec(PairKind::Sine, args.input@, args.output@, *old(session), *final(session), event, action),
{
    pair_step(PairKind::Sine, args.input.as_str(), args.output.as_str(), session, event)
}

} // verus!
