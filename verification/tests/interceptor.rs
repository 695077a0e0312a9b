use space_tap::event::{event_callback, Direction, EventType};
use space_tap::mask::{event_mask, event_type_bit, interception_mask, mask_contains};
use space_tap::script::automation_script;
use space_tap::setup::{setup_step, InterceptorState, SetupAction, SetupEvent};

#[test]
fn pass_through_identity() {
    let pass_types = [
        EventType::PointerMoved,
        EventType::PrimaryButtonDown,
        EventType::PrimaryButtonUp,
        EventType::ScrollWheel,
    ];
    for ty in pass_types {
        let r = event_callback(ty, 0, 42u32);
        assert_eq!(r.deliver, Some(42u32));
        assert_eq!(r.action, None);
        assert_eq!(r.report, None);
    }
}

#[test]
fn secondary_up_always_suppressed() {
    for button in [-1i64, 0, 2, 3, 4, 99] {
        let r = event_callback(EventType::SecondaryButtonUp, button, 42u32);
        assert_eq!(r.deliver, None);
        assert_eq!(r.action, None);
        assert_eq!(r.report, None);
    }
}

#[test]
fn secondary_down_always_suppressed() {
    for button in [-1i64, 0, 2, 3, 4, 5, i64::MAX] {
        let r = event_callback(EventType::SecondaryButtonDown, button, 42u32);
        assert_eq!(r.deliver, None);
        assert_eq!(r.report, Some(button));
    }
}

#[test]
fn button_three_moves_left() {
    let r = event_callback(EventType::SecondaryButtonDown, 3, 42u32);
    assert_eq!(r.action, Some(Direction::Left));
    assert_eq!(r.report, Some(3));
}

#[test]
fn button_four_moves_right() {
    let r = event_callback(EventType::SecondaryButtonDown, 4, 42u32);
    assert_eq!(r.action, Some(Direction::Right));
    assert_eq!(r.report, Some(4));
}

#[test]
fn other_buttons_no_action() {
    for button in [-1i64, 0, 1, 2, 5, 6, 100] {
        let r = event_callback(EventType::SecondaryButtonDown, button, 42u32);
        assert_eq!(r.action, None);
    }
}

#[test]
fn two_button_three_events_two_left_actions() {
    let mut left_actions: usize = 0;
    for _ in 0..2 {
        let r = event_callback(EventType::SecondaryButtonDown, 3, 42u32);
        if r.action == Some(Direction::Left) {
            left_actions += 1;
        }
    }
    assert_eq!(left_actions, 2);
}

#[test]
fn interception_point_failure_exits_without_bridge() {
    let (state, action) = setup_step(
        InterceptorState::Inactive,
        SetupEvent::InterceptionPoint { ok: false },
    );
    assert_eq!(state, InterceptorState::Failed);
    assert_eq!(action, SetupAction::Exit(1));
    assert_ne!(action, SetupAction::EnableAndBridge);
}

#[test]
fn bridge_failure_exits_without_wait_loop() {
    let (state, action) = setup_step(
        InterceptorState::Inactive,
        SetupEvent::InterceptionPoint { ok: true },
    );
    assert_eq!(state, InterceptorState::AwaitingBridge);
    assert_eq!(action, SetupAction::EnableAndBridge);
    let (state, action) = setup_step(state, SetupEvent::DeliveryBridge { ok: false });
    assert_eq!(state, InterceptorState::Failed);
    assert_eq!(action, SetupAction::Exit(1));
    assert_ne!(action, SetupAction::RunForever);
}

#[test]
fn successful_setup_reaches_wait_loop() {
    let (state, action) = setup_step(
        InterceptorState::Inactive,
        SetupEvent::InterceptionPoint { ok: true },
    );
    assert_eq!(action, SetupAction::EnableAndBridge);
    let (state, action) = setup_step(state, SetupEvent::DeliveryBridge { ok: true });
    assert_eq!(state, InterceptorState::Active);
    assert_eq!(action, SetupAction::RunForever);
}

#[test]
fn startup_mask_decodes_to_configured_set() {
    let mask = interception_mask();
    assert!(mask_contains(mask, EventType::ScrollWheel));
    assert!(mask_contains(mask, EventType::SecondaryButtonDown));
    assert!(mask_contains(mask, EventType::SecondaryButtonUp));
    assert!(!mask_contains(mask, EventType::PointerMoved));
    assert!(!mask_contains(mask, EventType::PrimaryButtonDown));
    assert!(!mask_contains(mask, EventType::PrimaryButtonUp));
}

#[test]
fn startup_mask_exact_value() {
    let mask = interception_mask();
    assert_eq!(mask, (1u64 << 22) | (1u64 << 25) | (1u64 << 26));
}

#[test]
fn event_type_bits_match_os_numbering() {
    assert_eq!(event_type_bit(EventType::PointerMoved), 5);
    assert_eq!(event_type_bit(EventType::PrimaryButtonDown), 1);
    assert_eq!(event_type_bit(EventType::PrimaryButtonUp), 2);
    assert_eq!(event_type_bit(EventType::SecondaryButtonDown), 25);
    assert_eq!(event_type_bit(EventType::SecondaryButtonUp), 26);
    assert_eq!(event_type_bit(EventType::ScrollWheel), 22);
}

#[test]
fn empty_mask_admits_nothing() {
    let mask = event_mask(&Vec::new());
    assert_eq!(mask, 0);
    assert!(!mask_contains(mask, EventType::ScrollWheel));
    assert!(!mask_contains(mask, EventType::PointerMoved));
}

#[test]
fn duplicate_types_yield_same_mask() {
    let once = event_mask(&vec![EventType::ScrollWheel]);
    let twice = event_mask(&vec![EventType::ScrollWheel, EventType::ScrollWheel]);
    assert_eq!(once, twice);
}

#[test]
fn full_mask_admits_every_type() {
    let all = vec![
        EventType::PointerMoved,
        EventType::PrimaryButtonDown,
        EventType::PrimaryButtonUp,
        EventType::SecondaryButtonDown,
        EventType::SecondaryButtonUp,
        EventType::ScrollWheel,
    ];
    let mask = event_mask(&all);
    for ty in all {
        assert!(mask_contains(mask, ty));
    }
}

#[test]
fn left_script_is_control_bracket_left() {
    assert_eq!(
        automation_script(Direction::Left),
        "tell application \"System Events\" to key code 123 using control down"
    );
}

#[test]
fn right_script_is_control_bracket_right() {
    assert_eq!(
        automation_script(Direction::Right),
        "tell application \"System Events\" to key code 124 using control down"
    );
}
