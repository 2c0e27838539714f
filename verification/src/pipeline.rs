//! The canonical bootstrap sequence: instance → diagnostics → surface
//! → device selection, with mandatory cleanup on every failure path.
//!
//! The application performs the native calls in this order and hands
//! their outcomes in; the pipeline decides what was created, what must
//! be unwound, and which device presents.  A later outcome is only
//! consulted when every earlier step succeeded.

use vstd::prelude::*;
use crate::error::BootstrapError;
use crate::instance::InstanceContext;
use crate::instance::InstanceCreateResult;
use crate::selector::DeviceQueueSupport;
use crate::selector::PhysicalDeviceSelection;
use crate::selector::is_first_match;
use crate::selector::pair_qualifies;
use crate::selector::select_device;
use crate::surface::SurfaceContext;
use crate::surface::SurfaceCreateResult;
use crate::surface::spec_surface_teardown;
use crate::teardown::TeardownStep;
use crate::teardown::count_instance_destroys;
use crate::teardown::count_messenger_destroys;
use crate::teardown::count_surface_destroys;
use crate::teardown::well_ordered;

verus! {

/// What a bootstrap run produced: a surface context ready for
/// rendering together with the selected device, or the error and the
/// destroy calls that unwind whatever had already been created.
pub enum BootstrapOutcome {
    Ready { context: SurfaceContext, selection: PhysicalDeviceSelection },
    Aborted { error: BootstrapError, cleanup: Vec<TeardownStep> },
}

/// The cleanup owed when the bootstrap aborts, given which creation
/// calls had succeeded by then: every successfully created resource is
/// destroyed, dependents first.
pub open spec fn spec_abort_cleanup(
    instance_outcome: Option<u64>,
    messenger_outcome: Option<u64>,
    surface_outcome: Option<u64>,
) -> Seq<TeardownStep> {
    match instance_outcome {
        None => Seq::<TeardownStep>::empty(),
        Some(i) => match messenger_outcome {
            None => seq![TeardownStep::DestroyInstance { instance: i }],
            Some(m) => match surface_outcome {
                None => seq![
                    TeardownStep::DestroyMessenger { messenger: m },
                    TeardownStep::DestroyInstance { instance: i },
                ],
                Some(s) => spec_surface_teardown(s, m, i),
            },
        },
    }
}

/// Runs the bootstrap decisions over the runtime's answers, in the
/// canonical order.  `devices` is the support table enumerated against
/// the created surface; it is only consulted when instance, messenger
/// and surface creation all succeeded.  On every abort the cleanup
/// lists exactly the destroy calls owed (a valid handle is never
/// null).
pub fn run_bootstrap(
    instance_outcome: Option<u64>,
    messenger_outcome: Option<u64>,
    surface_outcome: Option<u64>,
    devices: &Vec<DeviceQueueSupport>,
) -> (r: BootstrapOutcome)
    requires
        instance_outcome matches Some(i) ==> i != 0,
        messenger_outcome matches Some(m) ==> m != 0,
        surface_outcome matches Some(s) ==> s != 0,
    ensures
        instance_outcome is None ==> (r matches BootstrapOutcome::Aborted { error, cleanup }
            && error == BootstrapError::Initialization && cleanup@ =~= spec_abort_cleanup(
            instance_outcome,
            messenger_outcome,
            surface_outcome,
        )),
        instance_outcome is Some && messenger_outcome is None ==> (r matches
            BootstrapOutcome::Aborted { error, cleanup } && error == BootstrapError::Initialization
            && cleanup@ =~= spec_abort_cleanup(
            instance_outcome,
            messenger_outcome,
            surface_outcome,
        )),
        instance_outcome is Some && messenger_outcome is Some && surface_outcome is None ==> (r
            matches BootstrapOutcome::Aborted { error, cleanup } && error
            == BootstrapError::SurfaceCreation && cleanup@ =~= spec_abort_cleanup(
            instance_outcome,
            messenger_outcome,
            surface_outcome,
        )),
        instance_outcome is Some && messenger_outcome is Some && surface_outcome is Some && (forall|
            d: int,
            q: int,
        | !pair_qualifies(devices@, d, q)) ==> (r matches BootstrapOutcome::Aborted {
            error,
            cleanup,
        } && error == BootstrapError::NoDeviceFound && cleanup@ =~= spec_abort_cleanup(
            instance_outcome,
            messenger_outcome,
            surface_outcome,
        )),
        instance_outcome matches Some(i) ==> messenger_outcome matches Some(m)
            ==> surface_outcome matches Some(s) ==> (exists|d: int, q: int|
            pair_qualifies(devices@, d, q)) ==> (r matches BootstrapOutcome::Ready {
            context,
            selection,
        } && context.wf() && context.spec_surface_handle() == s
            && context.spec_instance().spec_instance_handle() == i
            && context.spec_instance().spec_messenger_handle() == m && exists|d: int, q: int|
            is_first_match(devices@, d, q) && selection.device == devices@[d].device
                && selection.presenting_family == q),
{
    let created = match InstanceContext::create(instance_outcome, messenger_outcome) {
        InstanceCreateResult::Failed { error, cleanup } => {
            return BootstrapOutcome::Aborted { error, cleanup };
        },
        InstanceCreateResult::Created { context } => context,
    };
    let surface_context = match SurfaceContext::create(created, surface_outcome) {
        SurfaceCreateResult::Failed { error, instance } => {
            return BootstrapOutcome::Aborted { error, cleanup: instance.destroy() };
        },
        SurfaceCreateResult::Created { context } => context,
    };
    match select_device(devices) {
        Err(error) => BootstrapOutcome::Aborted {
            error,
            cleanup: surface_context.destroy(),
        },
        Ok(selection) => BootstrapOutcome::Ready { context: surface_context, selection },
    }
}

/// Law: an aborted bootstrap leaks nothing and destroys nothing that
/// was never created.  In the cleanup owed after an abort, the
/// instance is destroyed exactly once if instance creation succeeded
/// and never otherwise; likewise the messenger and the surface.
pub proof fn lemma_abort_cleanup_no_leak(
    instance_outcome: Option<u64>,
    messenger_outcome: Option<u64>,
    surface_outcome: Option<u64>,
)
    ensures
        count_instance_destroys(
            spec_abort_cleanup(instance_outcome, messenger_outcome, surface_outcome),
        ) == if instance_outcome is Some {
            1nat
        } else {
            0nat
        },
        count_messenger_destroys(
            spec_abort_cleanup(instance_outcome, messenger_outcome, surface_outcome),
        ) == if instance_outcome is Some && messenger_outcome is Some {
            1nat
        } else {
            0nat
        },
        count_surface_destroys(
            spec_abort_cleanup(instance_outcome, messenger_outcome, surface_outcome),
        ) == if instance_outcome is Some && messenger_outcome is Some && surface_outcome is Some {
            1nat
        } else {
            0nat
        },
{
    reveal_with_fuel(count_instance_destroys, 5);
    reveal_with_fuel(count_messenger_destroys, 5);
    reveal_with_fuel(count_surface_destroys, 5);
    let empty = Seq::<TeardownStep>::empty();
    match instance_outcome {
        None => {},
        Some(i) => {
            let di = TeardownStep::DestroyInstance { instance: i };
            assert(seq![di].drop_first() =~= empty);
            match messenger_outcome {
                None => {
                    assert(count_instance_destroys(seq![di]) == 1);
                },
                Some(m) => {
                    let dm = TeardownStep::DestroyMessenger { messenger: m };
                    assert(seq![dm, di].drop_first() =~= seq![di]);
                    match surface_outcome {
                        None => {
                            assert(count_instance_destroys(seq![dm, di]) == 1);
                            assert(count_messenger_destroys(seq![dm, di]) == 1);
                        },
                        Some(s) => {
                            let ds = TeardownStep::DestroySurface { surface: s };
                            assert(spec_surface_teardown(s, m, i) =~= seq![ds, dm, di]);
                            assert(seq![ds, dm, di].drop_first() =~= seq![dm, di]);
                            assert(count_instance_destroys(seq![ds, dm, di]) == 1);
                            assert(count_messenger_destroys(seq![ds, dm, di]) == 1);
                            assert(count_surface_destroys(seq![ds, dm, di]) == 1);
                        },
                    }
                },
            }
        },
    }
}

/// Law: every cleanup sequence the pipeline can owe is well ordered —
/// surface destroys precede messenger destroys, which precede instance
/// destroys.
pub proof fn lemma_abort_cleanup_well_ordered(
    instance_outcome: Option<u64>,
    messenger_outcome: Option<u64>,
    surface_outcome: Option<u64>,
)
    ensures
        well_ordered(spec_abort_cleanup(instance_outcome, messenger_outcome, surface_outcome)),
{
    let steps = spec_abort_cleanup(instance_outcome, messenger_outcome, surface_outcome);
    if instance_outcome is Some && messenger_outcome is Some {
        if surface_outcome is Some {
            assert(steps[0] is DestroySurface);
            assert(steps[1] is DestroyMessenger);
            assert(steps[2] is DestroyInstance);
        } else {
            assert(steps[0] is DestroyMessenger);
            assert(steps[1] is DestroyInstance);
        }
    }
}

} // verus!
