use vk_bootstrap::error::BootstrapError;
use vk_bootstrap::selector::DeviceQueueSupport;
use vk_bootstrap::selector::PhysicalDeviceSelection;
use vk_bootstrap::selector::SupportAnswer;
use vk_bootstrap::selector::answer_qualifies;
use vk_bootstrap::selector::classify_support_query;
use vk_bootstrap::selector::select_device;

fn device(handle: u64, answers: &[SupportAnswer]) -> DeviceQueueSupport {
    DeviceQueueSupport { device: handle, families: answers.to_vec() }
}

#[test]
fn first_qualifying_device_and_family_win() {
    let devices = vec![
        device(100, &[SupportAnswer::NotSupported, SupportAnswer::NotSupported]),
        device(200, &[SupportAnswer::Supported]),
        device(300, &[SupportAnswer::Supported]),
    ];
    let sel = select_device(&devices).unwrap();
    assert_eq!(sel, PhysicalDeviceSelection { device: 200, presenting_family: 0 });
}

#[test]
fn selection_is_deterministic() {
    let build = || {
        vec![
            device(1, &[SupportAnswer::QueryFailed, SupportAnswer::NotSupported]),
            device(2, &[SupportAnswer::NotSupported, SupportAnswer::Supported]),
            device(3, &[SupportAnswer::Supported]),
        ]
    };
    let first = select_device(&build()).unwrap();
    for _ in 0..10 {
        assert_eq!(select_device(&build()).unwrap(), first);
    }
    assert_eq!(first, PhysicalDeviceSelection { device: 2, presenting_family: 1 });
}

#[test]
fn empty_enumeration_reports_no_device() {
    let devices: Vec<DeviceQueueSupport> = Vec::new();
    assert_eq!(select_device(&devices), Err(BootstrapError::NoDeviceFound));
}

#[test]
fn all_negative_answers_report_no_device() {
    let devices = vec![
        device(10, &[SupportAnswer::NotSupported]),
        device(11, &[]),
        device(12, &[SupportAnswer::QueryFailed, SupportAnswer::NotSupported]),
    ];
    assert_eq!(select_device(&devices), Err(BootstrapError::NoDeviceFound));
}

#[test]
fn query_failure_disqualifies_only_that_pair() {
    let devices = vec![device(7, &[SupportAnswer::QueryFailed, SupportAnswer::Supported])];
    let sel = select_device(&devices).unwrap();
    assert_eq!(sel, PhysicalDeviceSelection { device: 7, presenting_family: 1 });
}

#[test]
fn first_family_wins_within_a_device() {
    let devices = vec![
        device(
            42,
            &[SupportAnswer::NotSupported, SupportAnswer::Supported, SupportAnswer::Supported],
        ),
    ];
    let sel = select_device(&devices).unwrap();
    assert_eq!(sel.device, 42);
    assert_eq!(sel.presenting_family, 1);
}

#[test]
fn only_a_positive_answer_qualifies() {
    assert!(answer_qualifies(SupportAnswer::Supported));
    assert!(!answer_qualifies(SupportAnswer::NotSupported));
    assert!(!answer_qualifies(SupportAnswer::QueryFailed));
}

#[test]
fn query_outcomes_classify_and_downgrade() {
    assert_eq!(classify_support_query(Some(true)), SupportAnswer::Supported);
    assert_eq!(classify_support_query(Some(false)), SupportAnswer::NotSupported);
    assert_eq!(classify_support_query(None), SupportAnswer::QueryFailed);
}
