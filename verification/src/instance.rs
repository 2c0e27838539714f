//! The instance context: the root owner of instance-scoped resources.
//!
//! The native calls that create and destroy the instance and its
//! diagnostics messenger happen outside the library; their outcomes are
//! handed in as plain handle values (`0` is the null handle), and the
//! decisions taken on them — pairing, cleanup on partial failure,
//! teardown order — are verified here.

use vstd::prelude::*;
use crate::error::BootstrapError;
use crate::teardown::TeardownStep;

verus! {

/// What an instance-creation request asks of the runtime.  The
/// validation layer and the diagnostics extension are added
/// unconditionally; the window extensions come from the windowing
/// collaborator and must cover everything surface creation needs.
pub struct InstanceRequest {
    pub application_name: String,
    pub validation_layer: String,
    pub diagnostics_extension: String,
    pub window_extensions: Vec<String>,
    /// Whether the messenger configuration is also attached to the
    /// instance-creation call itself.  Instance-creation-time events
    /// are only reported through that create-time hook, so it is
    /// always requested.
    pub create_time_hook: bool,
}

/// The extension names the request carries: the diagnostics extension
/// first, then every window extension, in the collaborator's order.
pub open spec fn spec_requested_extensions(r: InstanceRequest) -> Seq<Seq<char>> {
    seq![r.diagnostics_extension@] + r.window_extensions@.map_values(|s: String| s@)
}

impl InstanceRequest {
    /// Assembles the creation request.  Nothing is conditional: the
    /// validation layer, the diagnostics extension and the create-time
    /// diagnostics hook are part of every request.
    pub fn new(application_name: String, window_extensions: Vec<String>) -> (r: InstanceRequest)
        ensures
            r.application_name@ == application_name@,
            r.validation_layer@ == "VK_LAYER_KHRONOS_validation"@,
            r.diagnostics_extension@ == "VK_EXT_debug_utils"@,
            r.window_extensions@ == window_extensions@,
            r.create_time_hook,
            spec_requested_extensions(r) == seq!["VK_EXT_debug_utils"@] + window_extensions@
                .map_values(|s: String| s@),
    {
        let r = InstanceRequest {
            application_name,
            validation_layer: "VK_LAYER_KHRONOS_validation".to_owned(),
            diagnostics_extension: "VK_EXT_debug_utils".to_owned(),
            window_extensions,
            create_time_hook: true,
        };
        proof {
            assert(spec_requested_extensions(r) =~= seq!["VK_EXT_debug_utils"@]
                + r.window_extensions@.map_values(|s: String| s@));
        }
        r
    }

    /// The complete extension list the creation call passes to the
    /// runtime: the diagnostics extension first, then every window
    /// extension in the collaborator's order.
    pub fn extension_names(&self) -> (r: Vec<String>)
        ensures
            r@.map_values(|s: String| s@) =~= spec_requested_extensions(*self),
    {
        let mut names: Vec<String> = Vec::new();
        names.push(self.diagnostics_extension.clone());
        let n = self.window_extensions.len();
        let mut k: usize = 0;
        while k < n
            invariant
                k <= n,
                n == self.window_extensions@.len(),
                names@.len() == k + 1,
                names@[0]@ == self.diagnostics_extension@,
                forall|j: int|
                    1 <= j < k + 1 ==> #[trigger] names@[j]@ == self.window_extensions@[j - 1]@,
            decreases n - k,
        {
            names.push(self.window_extensions[k].clone());
            k += 1;
        }
        proof {
            assert(names@.map_values(|s: String| s@) =~= spec_requested_extensions(*self));
        }
        names
    }
}

/// Owns the instance handle and the diagnostics-messenger handle.
/// Both are valid (non-null) for the whole life of the context: a
/// context only exists after both creation calls succeeded.
pub struct InstanceContext {
    instance: u64,
    messenger: u64,
}

/// What instance creation produced: either a live context, or the
/// error together with the destroy calls that unwind whatever part of
/// the bootstrap had already succeeded.
pub enum InstanceCreateResult {
    Created { context: InstanceContext },
    Failed { error: BootstrapError, cleanup: Vec<TeardownStep> },
}

impl InstanceContext {
    /// The handle of the API instance.
    pub closed spec fn spec_instance_handle(self) -> u64 {
        self.instance
    }

    /// The handle of the standalone diagnostics messenger.
    pub closed spec fn spec_messenger_handle(self) -> u64 {
        self.messenger
    }

    /// The paired-handle invariant: the messenger is valid iff the
    /// instance is, and a constructed context holds both.
    pub open spec fn wf(self) -> bool {
        self.spec_instance_handle() != 0 && self.spec_messenger_handle() != 0
    }

    pub fn instance_handle(&self) -> (r: u64)
        ensures
            r == self.spec_instance_handle(),
    {
        self.instance
    }

    pub fn messenger_handle(&self) -> (r: u64)
        ensures
            r == self.spec_messenger_handle(),
    {
        self.messenger
    }

    /// Decides the outcome of instance bootstrap from the runtime's
    /// answers.  `instance_outcome` is the handle the instance-creation
    /// call returned, if it succeeded; `messenger_outcome` the handle
    /// the standalone messenger creation returned, attempted only after
    /// the instance call succeeded (a valid handle is never null).
    ///
    /// If the runtime rejected the requested layers or extensions,
    /// nothing was created and nothing needs cleanup.  If the messenger
    /// failed after the instance was created, the instance must be
    /// destroyed before the error is reported — no leak on partial
    /// failure.
    pub fn create(instance_outcome: Option<u64>, messenger_outcome: Option<u64>) -> (r:
        InstanceCreateResult)
        requires
            instance_outcome matches Some(i) ==> i != 0,
            messenger_outcome matches Some(m) ==> m != 0,
        ensures
            instance_outcome is None ==> (r matches InstanceCreateResult::Failed {
                error,
                cleanup,
            } && error == BootstrapError::Initialization && cleanup@ =~= Seq::<
                TeardownStep,
            >::empty()),
            instance_outcome matches Some(i) ==> messenger_outcome is None ==> (r matches
                InstanceCreateResult::Failed { error, cleanup }
                && error == BootstrapError::Initialization && cleanup@ =~= seq![
                TeardownStep::DestroyInstance { instance: i },
            ]),
            instance_outcome matches Some(i) ==> messenger_outcome matches Some(m) ==> (r matches
                InstanceCreateResult::Created { context } && context.spec_instance_handle() == i
                && context.spec_messenger_handle() == m && context.wf()),
    {
        match instance_outcome {
            None => InstanceCreateResult::Failed {
                error: BootstrapError::Initialization,
                cleanup: Vec::new(),
            },
            Some(instance) => match messenger_outcome {
                None => {
                    let mut cleanup: Vec<TeardownStep> = Vec::new();
                    cleanup.push(TeardownStep::DestroyInstance { instance });
                    InstanceCreateResult::Failed {
                        error: BootstrapError::Initialization,
                        cleanup,
                    }
                },
                Some(messenger) => InstanceCreateResult::Created {
                    context: InstanceContext { instance, messenger },
                },
            },
        }
    }

    /// Consumes the context and lists the destroy calls to issue, in
    /// order: the messenger first, then the instance it reports on.
    pub fn destroy(self) -> (steps: Vec<TeardownStep>)
        ensures
            steps@ =~= seq![
                TeardownStep::DestroyMessenger { messenger: self.spec_messenger_handle() },
                TeardownStep::DestroyInstance { instance: self.spec_instance_handle() },
            ],
    {
        let mut steps: Vec<TeardownStep> = Vec::new();
        steps.push(TeardownStep::DestroyMessenger { messenger: self.messenger });
        steps.push(TeardownStep::DestroyInstance { instance: self.instance });
        steps
    }
}

/// Law: the paired-handle invariant of a constructed context — the
/// messenger handle is non-null exactly when the instance handle is.
pub proof fn lemma_handles_paired(context: InstanceContext)
    requires
        context.wf(),
    ensures
        context.spec_messenger_handle() != 0 <==> context.spec_instance_handle() != 0,
{
}

} // verus!
