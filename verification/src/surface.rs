//! The surface context: a presentable surface tied to one window,
//! scoped to an instance context.
//!
//! The surface context owns its instance context outright.  That makes
//! the teardown order structural: no caller can destroy the instance
//! while the surface is alive, because the instance can only be
//! reached again by tearing the whole context down (surface first) or
//! by a failed creation handing it back untouched.

use vstd::prelude::*;
use crate::error::BootstrapError;
use crate::instance::InstanceContext;
use crate::teardown::TeardownStep;

verus! {

/// Owns the surface handle and the instance context it was created
/// against.  The window the surface presents to is owned by the
/// windowing collaborator and must outlive this context.
pub struct SurfaceContext {
    surface: u64,
    instance: InstanceContext,
}

/// What surface creation produced: either a live context, or the error
/// together with the instance context handed back untouched — a failed
/// dependent resource must not corrupt its owner.
pub enum SurfaceCreateResult {
    Created { context: SurfaceContext },
    Failed { error: BootstrapError, instance: InstanceContext },
}

/// The teardown order of a surface context: the surface first, then
/// the messenger, then the instance.
pub open spec fn spec_surface_teardown(surface: u64, messenger: u64, instance: u64) -> Seq<
    TeardownStep,
> {
    seq![
        TeardownStep::DestroySurface { surface },
        TeardownStep::DestroyMessenger { messenger },
        TeardownStep::DestroyInstance { instance },
    ]
}

impl SurfaceContext {
    /// The handle of the presentable surface.
    pub closed spec fn spec_surface_handle(self) -> u64 {
        self.surface
    }

    /// The instance context this surface lives inside.
    pub closed spec fn spec_instance(self) -> InstanceContext {
        self.instance
    }

    /// A constructed surface context holds a valid surface and a
    /// well-formed instance context.
    pub open spec fn wf(self) -> bool {
        self.spec_surface_handle() != 0 && self.spec_instance().wf()
    }

    pub fn surface_handle(&self) -> (r: u64)
        ensures
            r == self.spec_surface_handle(),
    {
        self.surface
    }

    /// The instance context, readable while the surface is alive.
    pub fn instance(&self) -> (r: &InstanceContext)
        ensures
            *r == self.spec_instance(),
    {
        &self.instance
    }

    /// Decides the outcome of surface creation from the platform
    /// integration's answer.  On success the surface context takes
    /// ownership of the instance context; on failure the instance
    /// context comes back exactly as it went in, still valid and still
    /// destroyable by the caller (a valid handle is never null).
    pub fn create(instance: InstanceContext, surface_outcome: Option<u64>) -> (r:
        SurfaceCreateResult)
        requires
            surface_outcome matches Some(s) ==> s != 0,
        ensures
            surface_outcome is None ==> (r matches SurfaceCreateResult::Failed {
                error,
                instance: handed_back,
            } && error == BootstrapError::SurfaceCreation && handed_back == instance),
            surface_outcome matches Some(s) ==> (r matches SurfaceCreateResult::Created { context }
                && context.spec_surface_handle() == s && context.spec_instance() == instance),
            surface_outcome is Some && instance.wf() ==> (r matches SurfaceCreateResult::Created {
                context,
            } && context.wf()),
    {
        match surface_outcome {
            None => SurfaceCreateResult::Failed {
                error: BootstrapError::SurfaceCreation,
                instance,
            },
            Some(surface) => SurfaceCreateResult::Created {
                context: SurfaceContext { surface, instance },
            },
        }
    }

    /// Consumes the context and lists the destroy calls to issue, in
    /// order: the surface dies first, then the instance context unwinds
    /// (messenger, then instance).
    pub fn destroy(self) -> (steps: Vec<TeardownStep>)
        ensures
            steps@ =~= spec_surface_teardown(
                self.spec_surface_handle(),
                self.spec_instance().spec_messenger_handle(),
                self.spec_instance().spec_instance_handle(),
            ),
    {
        let mut steps: Vec<TeardownStep> = Vec::new();
        steps.push(TeardownStep::DestroySurface { surface: self.surface });
        let mut rest = self.instance.destroy();
        steps.append(&mut rest);
        steps
    }
}

/// Law: the teardown of a surface context is well ordered — the
/// surface is destroyed strictly before the messenger and the
/// instance, and the messenger strictly before the instance.
pub proof fn lemma_surface_teardown_well_ordered(surface: u64, messenger: u64, instance: u64)
    ensures
        crate::teardown::well_ordered(spec_surface_teardown(surface, messenger, instance)),
        spec_surface_teardown(surface, messenger, instance).len() == 3,
        spec_surface_teardown(surface, messenger, instance)[0] is DestroySurface,
        spec_surface_teardown(surface, messenger, instance)[1] is DestroyMessenger,
        spec_surface_teardown(surface, messenger, instance)[2] is DestroyInstance,
{
    let steps = spec_surface_teardown(surface, messenger, instance);
    assert(steps[0] is DestroySurface);
    assert(steps[1] is DestroyMessenger);
    assert(steps[2] is DestroyInstance);
}

} // verus!
