//! The order of the steps that put an executable on a device.

use vstd::prelude::*;
use crate::error::Error;

verus! {

/// One step of flashing. The steps run in the order in which they are
/// listed here, each only after the one before it went well.
#[derive(Clone, Copy, Debug, PartialEq, Eq, Structural)]
pub enum Stage {
    /// Turn the executable into a flat binary and its load address.
    Convert,
    /// Start the clock.
    StartTimer,
    /// Ask the device for its flashing parameters.
    Query,
    /// Transfer the binary.
    Flash,
    /// Stop the clock.
    StopTimer,
    /// Say how long the transfer took.
    Report,
    /// Nothing is left to do.
    Finished,
}

impl Stage {
    /// The failure that a step ends the run with where it can fail.
    pub open spec fn failure(self) -> Option<Error> {
        match self {
            Stage::Convert => Some(Error::ConversionFailed),
            Stage::Query => Some(Error::DeviceQueryFailed),
            Stage::Flash => Some(Error::FlashFailed),
            _ => None,
        }
    }

    /// The step after this one.
    pub open spec fn successor(self) -> Stage {
        match self {
            Stage::Convert => Stage::StartTimer,
            Stage::StartTimer => Stage::Query,
            Stage::Query => Stage::Flash,
            Stage::Flash => Stage::StopTimer,
            Stage::StopTimer => Stage::Report,
            Stage::Report => Stage::Finished,
            Stage::Finished => Stage::Finished,
        }
    }

    /// What follows a step that ended with `succeeded`: its failure, where
    /// it can fail and did, else the next step. Nothing is tried again.
    pub open spec fn spec_advance(self, succeeded: bool) -> Result<Stage, Error> {
        match self.failure() {
            Some(e) if !succeeded => Err(e),
            _ => Ok(self.successor()),
        }
    }

    /// The first step.
    pub fn first() -> (stage: Stage)
        ensures
            stage == Stage::Convert,
    {
        Stage::Convert
    }

    /// Computes [`Stage::spec_advance`].
    pub fn advance(&self, succeeded: bool) -> (then: Result<Stage, Error>)
        ensures
            then == self.spec_advance(succeeded),
    {
        match self {
            Stage::Convert => if succeeded {
                Ok(Stage::StartTimer)
            } else {
                Err(Error::ConversionFailed)
            },
            Stage::StartTimer => Ok(Stage::Query),
            Stage::Query => if succeeded {
                Ok(Stage::Flash)
            } else {
                Err(Error::DeviceQueryFailed)
            },
            Stage::Flash => if succeeded {
                Ok(Stage::StopTimer)
            } else {
                Err(Error::FlashFailed)
            },
            Stage::StopTimer => Ok(Stage::Report),
            Stage::Report => Ok(Stage::Finished),
            Stage::Finished => Ok(Stage::Finished),
        }
    }
}

/// Whether a step goes well, given which of the three steps that can fail
/// do. The other steps always go well.
pub open spec fn goes_well(stage: Stage, converted: bool, queried: bool, flashed: bool) -> bool {
    match stage {
        Stage::Convert => converted,
        Stage::Query => queried,
        Stage::Flash => flashed,
        _ => true,
    }
}

/// Where a run stands after at most `steps` steps from `stage`: at a later
/// step, or at the failure that ended it.
pub open spec fn after(
    stage: Stage,
    steps: nat,
    converted: bool,
    queried: bool,
    flashed: bool,
) -> Result<Stage, Error>
    decreases steps,
{
    if steps == 0 {
        Ok(stage)
    } else {
        match stage.spec_advance(goes_well(stage, converted, queried, flashed)) {
            Ok(then) => after(then, (steps - 1) as nat, converted, queried, flashed),
            Err(e) => Err(e),
        }
    }
}

/// A run from the first step is over after six steps: it ends with the
/// failure of the first step that does not go well, and is finished where
/// all do.
pub proof fn lemma_run_ends(converted: bool, queried: bool, flashed: bool)
    ensures
        after(Stage::Convert, 6, converted, queried, flashed) == if !converted {
            Err::<Stage, Error>(Error::ConversionFailed)
        } else if !queried {
            Err::<Stage, Error>(Error::DeviceQueryFailed)
        } else if !flashed {
            Err::<Stage, Error>(Error::FlashFailed)
        } else {
            Ok::<Stage, Error>(Stage::Finished)
        },
{
    reveal_with_fuel(after, 7);
}

} // verus!
