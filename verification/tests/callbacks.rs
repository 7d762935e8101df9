use win_shortcuts::callbacks::{keyboard_callback, mouse_callback};
use win_shortcuts::event::{
    is_action, KeyboardEvent, MouseEvent, Point, Verdict, HC_ACTION, HOT_CORNER_EXTENT,
    WM_LBUTTONDOWN,
};
use win_shortcuts::keys::{
    task_view_keys, KeyMotion, KeyStroke, KEYEVENTF_EXTENDEDKEY, KEYEVENTF_KEYUP, VK_LWIN,
    VK_RWIN, VK_TAB,
};

const WM_MOUSEMOVE: usize = 0x0200;
const WM_LBUTTONUP: usize = 0x0202;
const WM_RBUTTONDOWN: usize = 0x0204;

fn expected_task_view() -> Vec<KeyStroke> {
    vec![
        KeyStroke { vk: 0x5C, motion: KeyMotion::Down },
        KeyStroke { vk: 0x09, motion: KeyMotion::Down },
        KeyStroke { vk: 0x09, motion: KeyMotion::Up },
        KeyStroke { vk: 0x5C, motion: KeyMotion::Up },
    ]
}

#[test]
fn constants_have_their_system_values() {
    assert_eq!(HC_ACTION, 0);
    assert_eq!(WM_LBUTTONDOWN, 0x0201);
    assert_eq!(HOT_CORNER_EXTENT, 3);
    assert_eq!(VK_TAB, 0x09);
    assert_eq!(VK_LWIN, 0x5B);
    assert_eq!(VK_RWIN, 0x5C);
    assert_eq!(KEYEVENTF_EXTENDEDKEY, 1);
    assert_eq!(KEYEVENTF_KEYUP, 2);
}

#[test]
fn left_click_at_origin_is_a_hit() {
    let event = MouseEvent::left_button_down(0, 0);
    assert!(event.is_left_button_down());
    assert!(event.is_hot_corner_hit());
    let response = mouse_callback(&event);
    assert_eq!(response.verdict, Verdict::Consume);
    assert_eq!(response.keys, expected_task_view());
}

#[test]
fn left_click_at_two_two_is_a_hit() {
    let event = MouseEvent::left_button_down(2, 2);
    assert!(event.is_hot_corner_hit());
    let response = mouse_callback(&event);
    assert_eq!(response.verdict, Verdict::Consume);
    assert_eq!(response.keys, expected_task_view());
}

#[test]
fn left_click_at_three_zero_is_no_hit() {
    let event = MouseEvent::left_button_down(3, 0);
    assert!(event.is_left_button_down());
    assert!(!event.is_hot_corner_hit());
    let response = mouse_callback(&event);
    assert_eq!(response.verdict, Verdict::PassThrough);
    assert!(response.keys.is_empty());
}

#[test]
fn left_click_at_zero_three_is_no_hit() {
    let event = MouseEvent::left_button_down(0, 3);
    assert!(!event.is_hot_corner_hit());
    let response = mouse_callback(&event);
    assert_eq!(response.verdict, Verdict::PassThrough);
    assert!(response.keys.is_empty());
}

#[test]
fn left_click_at_three_three_is_no_hit() {
    let event = MouseEvent::left_button_down(3, 3);
    assert!(!event.is_hot_corner_hit());
    let response = mouse_callback(&event);
    assert_eq!(response.verdict, Verdict::PassThrough);
    assert!(response.keys.is_empty());
}

#[test]
fn hit_test_covers_the_whole_corner_and_nothing_beside_it() {
    for x in 0..6 {
        for y in 0..6 {
            let event = MouseEvent::left_button_down(x, y);
            assert_eq!(event.is_hot_corner_hit(), x < 3 && y < 3, "at ({}, {})", x, y);
            assert_eq!(Point { x, y }.in_hot_corner(), x < 3 && y < 3);
        }
    }
    assert!(!MouseEvent::left_button_down(2, i32::MAX).is_hot_corner_hit());
    assert!(!MouseEvent::left_button_down(i32::MAX, 2).is_hot_corner_hit());
}

#[test]
fn coordinates_left_of_or_above_the_origin_are_below_the_extent() {
    assert!(MouseEvent::left_button_down(-1, -1).is_hot_corner_hit());
    assert!(MouseEvent::left_button_down(i32::MIN, 2).is_hot_corner_hit());
    assert!(!MouseEvent::left_button_down(-5, 3).is_hot_corner_hit());
}

#[test]
fn left_button_down_builds_the_event() {
    let event = MouseEvent::left_button_down(7, -4);
    assert_eq!(
        event,
        MouseEvent {
            code: 0,
            message: 0x0201,
            position: Some(Point { x: 7, y: -4 }),
        }
    );
}

#[test]
fn other_mouse_messages_never_inject_keys() {
    for message in [WM_MOUSEMOVE, WM_LBUTTONUP, WM_RBUTTONDOWN, 0, usize::MAX] {
        for (x, y) in [(0, 0), (2, 2), (1, 0), (3, 3), (-7, -7), (500, 500)] {
            let event = MouseEvent { code: HC_ACTION, message, position: Some(Point { x, y }) };
            assert!(!event.is_left_button_down());
            assert!(!event.is_hot_corner_hit());
            let response = mouse_callback(&event);
            assert_eq!(response.verdict, Verdict::PassThrough);
            assert!(response.keys.is_empty());
        }
    }
}

#[test]
fn mouse_notification_without_an_event_passes_through() {
    for code in [-1, 1, 3, i32::MIN, i32::MAX] {
        let event = MouseEvent {
            code,
            message: WM_LBUTTONDOWN,
            position: Some(Point { x: 0, y: 0 }),
        };
        assert!(!event.is_left_button_down());
        let response = mouse_callback(&event);
        assert_eq!(response.verdict, Verdict::PassThrough);
        assert!(response.keys.is_empty());
    }
}

#[test]
fn unreadable_position_is_no_hit() {
    let event = MouseEvent { code: HC_ACTION, message: WM_LBUTTONDOWN, position: None };
    assert!(event.is_left_button_down());
    assert!(!event.is_hot_corner_hit());
    let response = mouse_callback(&event);
    assert_eq!(response.verdict, Verdict::PassThrough);
    assert!(response.keys.is_empty());
}

#[test]
fn is_action_accepts_the_action_code_only() {
    assert!(is_action(0));
    assert!(!is_action(-1));
    assert!(!is_action(1));
    assert!(!is_action(3));
}

#[test]
fn left_windows_key_is_consumed() {
    let event = KeyboardEvent::key(0x5B);
    assert_eq!(event, KeyboardEvent { code: 0, vk_code: Some(0x5B) });
    assert!(event.carries_key(VK_LWIN));
    assert_eq!(keyboard_callback(&event), Verdict::Consume);
}

#[test]
fn every_other_key_passes_through() {
    for vk_code in 0u32..=0x1FF {
        if vk_code == 0x5B {
            continue;
        }
        let event = KeyboardEvent::key(vk_code);
        assert!(!event.carries_key(VK_LWIN));
        assert_eq!(keyboard_callback(&event), Verdict::PassThrough, "vk {:#x}", vk_code);
    }
    // Codes that agree with the left Windows key in their low byte only.
    for vk_code in [0x15Bu32, 0x5B00, 0xFFFF_FF5B, u32::MAX] {
        assert_eq!(keyboard_callback(&KeyboardEvent::key(vk_code)), Verdict::PassThrough);
    }
}

#[test]
fn right_windows_key_and_tab_pass_through() {
    assert_eq!(keyboard_callback(&KeyboardEvent::key(0x5C)), Verdict::PassThrough);
    assert_eq!(keyboard_callback(&KeyboardEvent::key(0x09)), Verdict::PassThrough);
}

#[test]
fn keyboard_notification_without_an_event_passes_through() {
    for code in [-1, 1, 3] {
        let event = KeyboardEvent { code, vk_code: Some(0x5B) };
        assert!(!event.carries_key(VK_LWIN));
        assert_eq!(keyboard_callback(&event), Verdict::PassThrough);
    }
}

#[test]
fn unreadable_key_code_passes_through() {
    let event = KeyboardEvent { code: HC_ACTION, vk_code: None };
    assert!(!event.carries_key(VK_LWIN));
    assert_eq!(keyboard_callback(&event), Verdict::PassThrough);
}

#[test]
fn carries_key_compares_the_whole_code() {
    assert!(KeyboardEvent::key(0x09).carries_key(VK_TAB));
    assert!(!KeyboardEvent::key(0x109).carries_key(VK_TAB));
    assert!(!KeyboardEvent::key(0x5C).carries_key(VK_LWIN));
}

#[test]
fn task_view_keys_are_the_four_strokes_in_order() {
    let keys = task_view_keys();
    assert_eq!(keys.len(), 4);
    assert_eq!(keys[0], KeyStroke { vk: VK_RWIN, motion: KeyMotion::Down });
    assert_eq!(keys[1], KeyStroke { vk: VK_TAB, motion: KeyMotion::Down });
    assert_eq!(keys[2], KeyStroke { vk: VK_TAB, motion: KeyMotion::Up });
    assert_eq!(keys[3], KeyStroke { vk: VK_RWIN, motion: KeyMotion::Up });
    assert_eq!(keys, expected_task_view());
}

#[test]
fn hot_corner_hit_injects_exactly_the_task_view_keys() {
    let response = mouse_callback(&MouseEvent::left_button_down(1, 2));
    assert_eq!(response.verdict, Verdict::Consume);
    assert_eq!(response.keys, task_view_keys());
    let sent: Vec<(u8, u32)> = response.keys.iter().map(|k| (k.vk, k.flags())).collect();
    assert_eq!(sent, vec![(0x5C, 1), (0x09, 1), (0x09, 3), (0x5C, 3)]);
}

#[test]
fn stroke_flags_mark_every_stroke_extended() {
    let down = KeyStroke { vk: VK_TAB, motion: KeyMotion::Down };
    let up = KeyStroke { vk: VK_TAB, motion: KeyMotion::Up };
    assert_eq!(down.flags(), 0x0001);
    assert_eq!(up.flags(), 0x0003);
    for stroke in task_view_keys() {
        assert_eq!(stroke.flags() & KEYEVENTF_EXTENDEDKEY, KEYEVENTF_EXTENDEDKEY);
        assert_eq!(stroke.flags() & KEYEVENTF_KEYUP != 0, stroke.motion == KeyMotion::Up);
    }
}

#[test]
fn verdict_gives_the_hook_result() {
    assert_eq!(Verdict::Consume.hook_result(), Some(1));
    assert_eq!(Verdict::PassThrough.hook_result(), None);
}
