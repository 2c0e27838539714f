//! The device selector: a pure query that picks the first physical
//! device, in the runtime's enumeration order, with a queue family able
//! to present to the target surface.
//!
//! The runtime's per-pair answers are handed in as a plain support
//! table; the selection over that table is verified.  A failed support
//! query makes that pair non-qualifying and nothing more: only the
//! exhaustion of every candidate is fatal.

use vstd::prelude::*;
use crate::error::BootstrapError;

verus! {

/// The runtime's answer to "can this (device, queue family) pair
/// present to the surface?".  A query failure is downgraded to
/// non-qualifying; it never aborts the selection.
#[derive(Clone, Copy, Debug, PartialEq, Eq, Structural)]
pub enum SupportAnswer {
    Supported,
    NotSupported,
    QueryFailed,
}

/// What the runtime reports of one physical device: its handle and,
/// for each queue family index in order, the support answer for the
/// target surface.
pub struct DeviceQueueSupport {
    pub device: u64,
    pub families: Vec<SupportAnswer>,
}

/// The selector's result: the chosen device and the queue family index
/// that can present to the surface.  Produced by query, owned by no
/// context, never mutated.
#[derive(Clone, Copy, Debug, PartialEq, Eq, Structural)]
pub struct PhysicalDeviceSelection {
    pub device: u64,
    pub presenting_family: usize,
}

/// The selection predicate on one answer.  This is the single place a
/// stricter policy (device properties, required extensions) would
/// plug into; the enumeration and tie-break around it stay unchanged.
pub open spec fn spec_answer_qualifies(a: SupportAnswer) -> bool {
    a is Supported
}

/// Whether the pair (device `d`, queue family `q`) of the table
/// qualifies: both indices in range and the answer positive.
pub open spec fn pair_qualifies(devices: Seq<DeviceQueueSupport>, d: int, q: int) -> bool {
    &&& 0 <= d < devices.len()
    &&& 0 <= q < devices[d].families@.len()
    &&& spec_answer_qualifies(devices[d].families@[q])
}

/// Whether (device `d`, queue family `q`) is the first qualifying pair
/// in enumeration order: it qualifies, no earlier family of the same
/// device does, and no family of any earlier device does.
pub open spec fn is_first_match(devices: Seq<DeviceQueueSupport>, d: int, q: int) -> bool {
    &&& pair_qualifies(devices, d, q)
    &&& forall|q2: int| 0 <= q2 < q ==> !pair_qualifies(devices, d, q2)
    &&& forall|d2: int, q2: int| 0 <= d2 < d ==> !pair_qualifies(devices, d2, q2)
}

/// Classifies the outcome of one support query (`None` when the
/// runtime failed to answer).  A failed query is downgraded to a
/// non-qualifying answer, never propagated as an error of its own.
pub fn classify_support_query(outcome: Option<bool>) -> (r: SupportAnswer)
    ensures
        outcome matches Some(true) ==> r is Supported,
        outcome matches Some(false) ==> r is NotSupported,
        outcome is None ==> r is QueryFailed,
        spec_answer_qualifies(r) <==> outcome == Some(true),
{
    match outcome {
        Some(true) => SupportAnswer::Supported,
        Some(false) => SupportAnswer::NotSupported,
        None => SupportAnswer::QueryFailed,
    }
}

/// The exec form of the selection predicate.
pub fn answer_qualifies(a: SupportAnswer) -> (r: bool)
    ensures
        r == spec_answer_qualifies(a),
{
    match a {
        SupportAnswer::Supported => true,
        SupportAnswer::NotSupported => false,
        SupportAnswer::QueryFailed => false,
    }
}

/// Selects the first device, in enumeration order, with at least one
/// queue family able to present, paired with the first such family
/// index.  Returns `NoDeviceFound` exactly when no pair in the table
/// qualifies — in particular when the table is empty.
pub fn select_device(devices: &Vec<DeviceQueueSupport>) -> (r: Result<
    PhysicalDeviceSelection,
    BootstrapError,
>)
    ensures
        r matches Ok(sel) ==> exists|d: int, q: int|
            is_first_match(devices@, d, q) && sel.device == devices@[d].device
                && sel.presenting_family == q,
        r matches Err(e) ==> e == BootstrapError::NoDeviceFound && (forall|d: int, q: int|
            !pair_qualifies(devices@, d, q)),
        (exists|d: int, q: int| pair_qualifies(devices@, d, q)) ==> r is Ok,
{
    let n = devices.len();
    let mut d: usize = 0;
    while d < n
        invariant
            d <= n,
            n == devices@.len(),
            forall|d2: int, q2: int| 0 <= d2 < d ==> !pair_qualifies(devices@, d2, q2),
        decreases n - d,
    {
        let m = devices[d].families.len();
        let mut q: usize = 0;
        while q < m
            invariant
                q <= m,
                d < n,
                n == devices@.len(),
                m == devices@[d as int].families@.len(),
                forall|d2: int, q2: int| 0 <= d2 < d ==> !pair_qualifies(devices@, d2, q2),
                forall|q2: int| 0 <= q2 < q ==> !pair_qualifies(devices@, d as int, q2),
            decreases m - q,
        {
            if answer_qualifies(devices[d].families[q]) {
                proof {
                    assert(is_first_match(devices@, d as int, q as int));
                }
                return Ok(
                    PhysicalDeviceSelection { device: devices[d].device, presenting_family: q },
                );
            }
            q += 1;
        }
        d += 1;
    }
    Err(BootstrapError::NoDeviceFound)
}

/// Law: the selector is deterministic.  The first-match
/// characterization pins a unique (device, queue family) pair for any
/// fixed support table, so repeated runs over the same table return
/// the same selection.
pub proof fn lemma_first_match_unique(
    devices: Seq<DeviceQueueSupport>,
    d1: int,
    q1: int,
    d2: int,
    q2: int,
)
    requires
        is_first_match(devices, d1, q1),
        is_first_match(devices, d2, q2),
    ensures
        d1 == d2,
        q1 == q2,
{
    if d1 < d2 {
        assert(!pair_qualifies(devices, d1, q1));
    }
    if d2 < d1 {
        assert(!pair_qualifies(devices, d2, q2));
    }
    if q1 < q2 {
        assert(!pair_qualifies(devices, d1, q1));
    }
    if q2 < q1 {
        assert(!pair_qualifies(devices, d2, q2));
    }
}

/// Law: selection is a function of the support table alone.  Any two
/// results that satisfy the selector's contract for the same table
/// agree on both the device and the queue family, so repeated runs
/// cannot diverge.
pub proof fn lemma_selection_deterministic(
    devices: Seq<DeviceQueueSupport>,
    sel1: PhysicalDeviceSelection,
    sel2: PhysicalDeviceSelection,
)
    requires
        exists|d: int, q: int|
            is_first_match(devices, d, q) && sel1.device == devices[d].device
                && sel1.presenting_family == q,
        exists|d: int, q: int|
            is_first_match(devices, d, q) && sel2.device == devices[d].device
                && sel2.presenting_family == q,
    ensures
        sel1 == sel2,
{
    let (d1, q1) = choose|d: int, q: int|
        is_first_match(devices, d, q) && sel1.device == devices[d].device
            && sel1.presenting_family == q;
    let (d2, q2) = choose|d: int, q: int|
        is_first_match(devices, d, q) && sel2.device == devices[d].device
            && sel2.presenting_family == q;
    lemma_first_match_unique(devices, d1, q1, d2, q2);
}

/// Law: the selector is total over its failure domain.  Over an empty
/// table, or one whose every answer is negative or a failed query, no
/// pair qualifies, so selection reports `NoDeviceFound`.
pub proof fn lemma_nothing_qualifies_without_support(devices: Seq<DeviceQueueSupport>)
    requires
        forall|d: int, q: int|
            0 <= d < devices.len() && 0 <= q < devices[d].families@.len()
                ==> !spec_answer_qualifies(#[trigger] devices[d].families@[q]),
    ensures
        forall|d: int, q: int| !pair_qualifies(devices, d, q),
{
    assert forall|d: int, q: int| !pair_qualifies(devices, d, q) by {
        if 0 <= d < devices.len() && 0 <= q < devices[d].families@.len() {
            assert(!spec_answer_qualifies(devices[d].families@[q]));
        }
    }
}

} // verus!
