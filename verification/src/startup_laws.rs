//! What holds of the native library's startup as a whole.

use vstd::prelude::*;

use crate::engine::{follows, StartupEvent, StartupStep};
use crate::ffi::version_of;
use crate::text::{decimal, signed_decimal};

verus! {

/// Whether an event is what comes of a step.
pub open spec fn comes_of(event: StartupEvent, step: StartupStep) -> bool {
    match step {
        StartupStep::Initialize => event is Initialized,
        StartupStep::AskForReport => event is Reported,
        StartupStep::Serve(_) => false,
    }
}

/// Whether events and what followed each are a run of the startup: it begins
/// with the creation of a context, and every later event comes of the step
/// before it.
pub open spec fn is_run(
    events: Seq<StartupEvent>,
    steps: Seq<Result<StartupStep, String>>,
) -> bool {
    &&& events.len() > 0
    &&& steps.len() == events.len()
    &&& events[0] is Created
    &&& forall|i: int| 0 <= i < events.len() ==> follows(steps[i], #[trigger] events[i])
    &&& forall|i: int|
        1 <= i < events.len() ==> steps[i - 1] is Ok && comes_of(
            #[trigger] events[i],
            steps[i - 1]->Ok_0,
        )
}

/// A run that serves has seen a context created, then initialized, then the
/// library's report, in this order and nothing else, and the engine that serves
/// holds the report.
pub proof fn law_serving_startup(
    events: Seq<StartupEvent>,
    steps: Seq<Result<StartupStep, String>>,
)
    requires
        is_run(events, steps),
        steps.last() matches Ok(StartupStep::Serve(_)),
    ensures
        events.len() == 3,
        events[0] matches StartupEvent::Created(Ok(_)),
        events[1] matches StartupEvent::Initialized(Ok(_)),
        events[2] matches StartupEvent::Reported { rollout_defaults, version } && (steps.last()
            matches Ok(StartupStep::Serve(engine)) && engine.rollout_defaults == rollout_defaults
            && engine.version == version),
{
    law_startup_ends(events, steps);
    assert(steps.last() == steps[events.len() - 1]);
    assert(follows(steps[0], events[0]));
    if events.len() > 1 {
        assert(comes_of(events[1], steps[0]->Ok_0));
        assert(follows(steps[1], events[1]));
    }
}

/// A run has three events at most, and where an event is a failure it is the
/// last: nothing is done with a library that could not be started.
pub proof fn law_startup_ends(events: Seq<StartupEvent>, steps: Seq<Result<StartupStep, String>>)
    requires
        is_run(events, steps),
    ensures
        events.len() <= 3,
        forall|i: int|
            0 <= i < events.len() && ((#[trigger] events[i]) matches StartupEvent::Created(Err(_))
                || events[i] matches StartupEvent::Initialized(Err(_))) ==> i == events.len() - 1
                && steps[i] is Err,
{
    assert(follows(steps[0], events[0]));
    if events.len() > 1 {
        assert(comes_of(events[1], steps[0]->Ok_0));
        assert(follows(steps[1], events[1]));
    }
    if events.len() > 2 {
        assert(comes_of(events[2], steps[1]->Ok_0));
        assert(follows(steps[2], events[2]));
    }
    if events.len() > 3 {
        assert(comes_of(events[3], steps[2]->Ok_0));
    }
}

/// A context that could not be created or initialized ends the startup, with
/// which of the two failed, the status, and what the library said.
pub proof fn law_failed_startup(step: Result<StartupStep, String>, event: StartupEvent)
    requires
        follows(step, event),
    ensures
        event matches StartupEvent::Created(Err(error)) ==> (step matches Err(message) && message@
            =~= "gnubgapi_create failed: "@ + "gnubgapi error "@ + signed_decimal(error.code as int)
            + ": "@ + error.message@),
        event matches StartupEvent::Initialized(Err(error)) ==> (step matches Err(message)
            && message@ =~= "gnubgapi_init failed: "@ + "gnubgapi error "@ + signed_decimal(
            error.code as int,
        ) + ": "@ + error.message@),
{
}

/// A version is written as its three numbers in their order, with dots between.
pub proof fn law_version(major: u32, minor: u32, patch: u32)
    ensures
        version_of(major, minor, patch) =~= decimal(major as nat) + seq!['.'] + decimal(
            minor as nat,
        ) + seq!['.'] + decimal(patch as nat),
{
    reveal_strlit(".");
    assert("."@ =~= seq!['.']);
}

} // verus!
