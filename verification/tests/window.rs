use webview2_client::geometry::{Placement, Rect};
use webview2_client::window::{
    window_event, window_params, window_step, Procedure, Step, WindowAction, WindowEvent,
    WindowParams, WM_DESTROY, WM_NCCREATE, WM_SIZE, WS_OVERLAPPEDWINDOW, WS_VISIBLE,
};

const CLIENT: Rect = Rect { left: 0, top: 0, right: 784, bottom: 561 };

#[test]
fn message_codes_are_those_of_the_window_system() {
    assert_eq!(WM_DESTROY, 2);
    assert_eq!(WM_SIZE, 5);
    assert_eq!(WM_NCCREATE, 129);
    assert_eq!(WS_OVERLAPPEDWINDOW, 13565952);
    assert_eq!(WS_VISIBLE, 268435456);
}

#[test]
fn messages_are_classified_by_code() {
    assert_eq!(window_event(WM_NCCREATE), WindowEvent::Creating);
    assert_eq!(window_event(WM_SIZE), WindowEvent::Resized);
    assert_eq!(window_event(WM_DESTROY), WindowEvent::Destroyed);
    assert_eq!(window_event(0), WindowEvent::Other);
    assert_eq!(window_event(1), WindowEvent::Other);
    assert_eq!(window_event(0x000F), WindowEvent::Other);
    assert_eq!(window_event(u32::MAX), WindowEvent::Other);
}

#[test]
fn only_three_codes_are_not_other() {
    let mut count = 0;
    for code in 0u32..=0xFFFF {
        if window_event(code) != WindowEvent::Other {
            count += 1;
        }
    }
    assert_eq!(count, 3);
}

#[test]
fn setup_gives_way_to_main_on_creation() {
    assert_eq!(
        window_step(Procedure::Setup, WindowEvent::Creating, false, CLIENT),
        Step { next: Procedure::Main, action: WindowAction::Default }
    );
}

#[test]
fn setup_hands_everything_else_to_default_processing() {
    for event in [WindowEvent::Resized, WindowEvent::Destroyed, WindowEvent::Other] {
        for attached in [false, true] {
            assert_eq!(
                window_step(Procedure::Setup, event, attached, CLIENT),
                Step { next: Procedure::Setup, action: WindowAction::Default }
            );
        }
    }
}

#[test]
fn resize_sets_the_bounds_to_the_client_rectangle() {
    assert_eq!(
        window_step(Procedure::Main, WindowEvent::Resized, true, CLIENT),
        Step { next: Procedure::Main, action: WindowAction::SetBrowserBounds(CLIENT) }
    );
}

#[test]
fn resize_of_a_minimised_window_sets_empty_bounds() {
    let empty = Rect { left: 0, top: 0, right: 0, bottom: 0 };
    assert_eq!(
        window_step(Procedure::Main, WindowEvent::Resized, true, empty).action,
        WindowAction::SetBrowserBounds(empty)
    );
    let line = Rect { left: 0, top: 0, right: 1024, bottom: 0 };
    assert_eq!(
        window_step(Procedure::Main, WindowEvent::Resized, true, line).action,
        WindowAction::SetBrowserBounds(line)
    );
}

#[test]
fn resize_without_a_browser_is_handled_and_does_nothing() {
    assert_eq!(
        window_step(Procedure::Main, WindowEvent::Resized, false, CLIENT),
        Step { next: Procedure::Main, action: WindowAction::Handled }
    );
}

#[test]
fn destruction_ends_the_message_loop() {
    for attached in [false, true] {
        assert_eq!(
            window_step(Procedure::Main, WindowEvent::Destroyed, attached, CLIENT),
            Step { next: Procedure::Main, action: WindowAction::Quit }
        );
    }
}

#[test]
fn main_hands_other_messages_to_default_processing() {
    for event in [WindowEvent::Creating, WindowEvent::Other] {
        assert_eq!(
            window_step(Procedure::Main, event, true, CLIENT),
            Step { next: Procedure::Main, action: WindowAction::Default }
        );
    }
}

#[test]
fn first_messages_of_a_window_run_through_both_procedures() {
    let mut procedure = Procedure::Setup;
    let mut actions = Vec::new();
    for code in [0x0024u32, WM_NCCREATE, 0x0083, 0x0001, WM_SIZE, WM_DESTROY] {
        let step = window_step(procedure, window_event(code), false, CLIENT);
        procedure = step.next;
        actions.push(step.action);
    }
    assert_eq!(procedure, Procedure::Main);
    assert_eq!(
        actions,
        vec![
            WindowAction::Default,
            WindowAction::Default,
            WindowAction::Default,
            WindowAction::Default,
            WindowAction::Handled,
            WindowAction::Quit,
        ]
    );
}

#[test]
fn main_window_is_a_visible_overlapped_window_in_the_centre() {
    assert_eq!(
        window_params(1920, 1080),
        WindowParams {
            style: 0x10CF_0000,
            placement: Placement { x: 560, y: 240, width: 800, height: 600 },
        }
    );
}
