use vk_bootstrap::error::BootstrapError;
use vk_bootstrap::instance::InstanceContext;
use vk_bootstrap::instance::InstanceCreateResult;
use vk_bootstrap::instance::InstanceRequest;
use vk_bootstrap::pipeline::BootstrapOutcome;
use vk_bootstrap::pipeline::run_bootstrap;
use vk_bootstrap::selector::DeviceQueueSupport;
use vk_bootstrap::selector::SupportAnswer;
use vk_bootstrap::surface::SurfaceContext;
use vk_bootstrap::surface::SurfaceCreateResult;
use vk_bootstrap::teardown::TeardownStep;

fn fresh_context() -> InstanceContext {
    match InstanceContext::create(Some(5), Some(9)) {
        InstanceCreateResult::Created { context } => context,
        InstanceCreateResult::Failed { .. } => panic!("both outcomes succeeded"),
    }
}

#[test]
fn created_handles_are_paired() {
    let context = fresh_context();
    assert_eq!(context.instance_handle(), 5);
    assert_eq!(context.messenger_handle(), 9);
    assert_eq!(context.messenger_handle() != 0, context.instance_handle() != 0);
}

#[test]
fn rejected_layer_creates_and_destroys_nothing() {
    // The runtime refused the requested validation layer: the
    // instance-creation call itself failed, so create and destroy
    // counters both stay at zero.
    let creations = 0;
    match InstanceContext::create(None, None) {
        InstanceCreateResult::Created { .. } => panic!("creation must fail"),
        InstanceCreateResult::Failed { error, cleanup } => {
            assert_eq!(error, BootstrapError::Initialization);
            assert_eq!(cleanup.len(), creations);
        },
    }
}

#[test]
fn messenger_failure_destroys_the_instance() {
    // The instance call succeeded, the messenger call failed: exactly
    // one creation, and the cleanup owes exactly one destroy for it.
    let creations = 1;
    match InstanceContext::create(Some(5), None) {
        InstanceCreateResult::Created { .. } => panic!("creation must fail"),
        InstanceCreateResult::Failed { error, cleanup } => {
            assert_eq!(error, BootstrapError::Initialization);
            assert_eq!(cleanup, vec![TeardownStep::DestroyInstance { instance: 5 }]);
            assert_eq!(cleanup.len(), creations);
        },
    }
}

#[test]
fn instance_teardown_destroys_messenger_first() {
    let steps = fresh_context().destroy();
    assert_eq!(
        steps,
        vec![
            TeardownStep::DestroyMessenger { messenger: 9 },
            TeardownStep::DestroyInstance { instance: 5 },
        ]
    );
}

#[test]
fn request_always_carries_validation_and_diagnostics() {
    let window_extensions = vec!["VK_KHR_surface".to_owned(), "VK_KHR_xlib_surface".to_owned()];
    let request = InstanceRequest::new("demo".to_owned(), window_extensions.clone());
    assert_eq!(request.application_name, "demo");
    assert_eq!(request.validation_layer, "VK_LAYER_KHRONOS_validation");
    assert_eq!(request.diagnostics_extension, "VK_EXT_debug_utils");
    assert_eq!(request.window_extensions, window_extensions);
    assert!(request.create_time_hook);
    assert_eq!(
        request.extension_names(),
        vec![
            "VK_EXT_debug_utils".to_owned(),
            "VK_KHR_surface".to_owned(),
            "VK_KHR_xlib_surface".to_owned(),
        ]
    );
}

#[test]
fn surface_failure_hands_the_instance_back_intact() {
    let context = fresh_context();
    match SurfaceContext::create(context, None) {
        SurfaceCreateResult::Created { .. } => panic!("surface creation must fail"),
        SurfaceCreateResult::Failed { error, instance } => {
            assert_eq!(error, BootstrapError::SurfaceCreation);
            assert_eq!(instance.instance_handle(), 5);
            assert_eq!(instance.messenger_handle(), 9);
            // The caller can still tear the instance down in order.
            let steps = instance.destroy();
            assert_eq!(
                steps,
                vec![
                    TeardownStep::DestroyMessenger { messenger: 9 },
                    TeardownStep::DestroyInstance { instance: 5 },
                ]
            );
        },
    }
}

#[test]
fn surface_teardown_destroys_surface_first() {
    let context = match SurfaceContext::create(fresh_context(), Some(7)) {
        SurfaceCreateResult::Created { context } => context,
        SurfaceCreateResult::Failed { .. } => panic!("surface outcome succeeded"),
    };
    assert_eq!(context.surface_handle(), 7);
    assert_eq!(context.instance().instance_handle(), 5);
    let steps = context.destroy();
    assert_eq!(
        steps,
        vec![
            TeardownStep::DestroySurface { surface: 7 },
            TeardownStep::DestroyMessenger { messenger: 9 },
            TeardownStep::DestroyInstance { instance: 5 },
        ]
    );
}

#[test]
fn bootstrap_happy_path_is_ready() {
    let devices = vec![
        DeviceQueueSupport { device: 100, families: vec![SupportAnswer::NotSupported] },
        DeviceQueueSupport { device: 200, families: vec![SupportAnswer::Supported] },
    ];
    match run_bootstrap(Some(5), Some(9), Some(7), &devices) {
        BootstrapOutcome::Aborted { .. } => panic!("every step succeeded"),
        BootstrapOutcome::Ready { context, selection } => {
            assert_eq!(context.surface_handle(), 7);
            assert_eq!(context.instance().instance_handle(), 5);
            assert_eq!(context.instance().messenger_handle(), 9);
            assert_eq!(selection.device, 200);
            assert_eq!(selection.presenting_family, 0);
        },
    }
}

#[test]
fn bootstrap_surface_failure_unwinds_the_instance() {
    let devices: Vec<DeviceQueueSupport> = Vec::new();
    match run_bootstrap(Some(5), Some(9), None, &devices) {
        BootstrapOutcome::Ready { .. } => panic!("surface creation must fail"),
        BootstrapOutcome::Aborted { error, cleanup } => {
            assert_eq!(error, BootstrapError::SurfaceCreation);
            assert_eq!(
                cleanup,
                vec![
                    TeardownStep::DestroyMessenger { messenger: 9 },
                    TeardownStep::DestroyInstance { instance: 5 },
                ]
            );
        },
    }
}

#[test]
fn bootstrap_without_devices_unwinds_everything() {
    let devices: Vec<DeviceQueueSupport> = Vec::new();
    match run_bootstrap(Some(5), Some(9), Some(7), &devices) {
        BootstrapOutcome::Ready { .. } => panic!("selection must fail"),
        BootstrapOutcome::Aborted { error, cleanup } => {
            assert_eq!(error, BootstrapError::NoDeviceFound);
            assert_eq!(
                cleanup,
                vec![
                    TeardownStep::DestroySurface { surface: 7 },
                    TeardownStep::DestroyMessenger { messenger: 9 },
                    TeardownStep::DestroyInstance { instance: 5 },
                ]
            );
        },
    }
}

#[test]
fn bootstrap_instance_failure_owes_no_cleanup() {
    let devices: Vec<DeviceQueueSupport> = Vec::new();
    match run_bootstrap(None, None, None, &devices) {
        BootstrapOutcome::Ready { .. } => panic!("instance creation must fail"),
        BootstrapOutcome::Aborted { error, cleanup } => {
            assert_eq!(error, BootstrapError::Initialization);
            assert!(cleanup.is_empty());
        },
    }
}
