//! The destroy calls a bootstrap owner must issue against the runtime.
//!
//! Teardown order is a hard invariant of the design: a surface dies
//! before the messenger and the instance, the messenger before the
//! instance it reports on.  The contexts emit their teardown as an
//! ordered sequence of steps, so the order is part of their contracts.

use vstd::prelude::*;

verus! {

/// One destroy call to issue against the runtime, with the handle of
/// the resource it tears down.
#[derive(Clone, Copy, Debug, PartialEq, Eq, Structural)]
pub enum TeardownStep {
    DestroySurface { surface: u64 },
    DestroyMessenger { messenger: u64 },
    DestroyInstance { instance: u64 },
}

/// How many steps of a sequence destroy a surface.
pub open spec fn count_surface_destroys(steps: Seq<TeardownStep>) -> nat
    decreases steps.len(),
{
    if steps.len() == 0 {
        0
    } else {
        (if steps[0] is DestroySurface {
            1nat
        } else {
            0nat
        }) + count_surface_destroys(steps.drop_first())
    }
}

/// How many steps of a sequence destroy a messenger.
pub open spec fn count_messenger_destroys(steps: Seq<TeardownStep>) -> nat
    decreases steps.len(),
{
    if steps.len() == 0 {
        0
    } else {
        (if steps[0] is DestroyMessenger {
            1nat
        } else {
            0nat
        }) + count_messenger_destroys(steps.drop_first())
    }
}

/// How many steps of a sequence destroy an instance.
pub open spec fn count_instance_destroys(steps: Seq<TeardownStep>) -> nat
    decreases steps.len(),
{
    if steps.len() == 0 {
        0
    } else {
        (if steps[0] is DestroyInstance {
            1nat
        } else {
            0nat
        }) + count_instance_destroys(steps.drop_first())
    }
}

/// Every surface destroy precedes every messenger destroy, every
/// messenger destroy precedes every instance destroy: dependent
/// resources never outlive their owner's teardown.
pub open spec fn well_ordered(steps: Seq<TeardownStep>) -> bool {
    &&& forall|a: int, b: int|
        0 <= a < steps.len() && 0 <= b < steps.len() && #[trigger] steps[a] is DestroySurface
            && #[trigger] steps[b] is DestroyMessenger ==> a < b
    &&& forall|a: int, b: int|
        0 <= a < steps.len() && 0 <= b < steps.len() && #[trigger] steps[a] is DestroySurface
            && #[trigger] steps[b] is DestroyInstance ==> a < b
    &&& forall|a: int, b: int|
        0 <= a < steps.len() && 0 <= b < steps.len() && #[trigger] steps[a] is DestroyMessenger
            && #[trigger] steps[b] is DestroyInstance ==> a < b
}

} // verus!
