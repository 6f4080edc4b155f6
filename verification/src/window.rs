//! The window procedure as a transition function: which window message
//! asks for which work.

use vstd::prelude::*;
use crate::geometry::{initial_placement, Placement, Rect, WINDOW_HEIGHT, WINDOW_WIDTH};
use crate::geometry::centered_origin;

verus! {

/// Code of the message sent when a window is being destroyed.
pub const WM_DESTROY: u32 = 0x0002;

/// Code of the message sent after a window's size has changed.
pub const WM_SIZE: u32 = 0x0005;

/// Code of the first message a window receives while it is being created.
pub const WM_NCCREATE: u32 = 0x0081;

/// Style bits of an overlapped window with caption, system menu, sizing
/// border and minimise and maximise boxes.
pub const WS_OVERLAPPEDWINDOW: u32 = 0x00CF_0000;

/// Style bit of a window that is visible.
pub const WS_VISIBLE: u32 = 0x1000_0000;

/// What a window message means to the shell.
#[derive(Clone, Copy, Debug, PartialEq, Eq, Structural)]
pub enum WindowEvent {
    /// The window is being created.
    Creating,
    /// The size of the window has changed.
    Resized,
    /// The window is being destroyed.
    Destroyed,
    /// Any other message.
    Other,
}

/// Which of the two window procedures is installed on the window.
#[derive(Clone, Copy, Debug, PartialEq, Eq, Structural)]
pub enum Procedure {
    /// The procedure the window class is registered with. It waits for the
    /// window to be created.
    Setup,
    /// The procedure that serves the window once it exists.
    Main,
}

/// The work a window message asks for.
#[derive(Clone, Copy, Debug, PartialEq, Eq, Structural)]
pub enum WindowAction {
    /// Hand the message to the window system's default processing.
    Default,
    /// Do nothing and report the message as handled.
    Handled,
    /// Give the browser these bounds and report the message as handled.
    SetBrowserBounds(Rect),
    /// Ask the message loop to end and report the message as handled.
    Quit,
}

/// One step of the window procedure: the procedure installed afterwards and
/// the work to do.
#[derive(Clone, Copy, Debug, PartialEq, Eq, Structural)]
pub struct Step {
    pub next: Procedure,
    pub action: WindowAction,
}

/// The style and placement with which the main window is created.
#[derive(Clone, Copy, Debug, PartialEq, Eq, Structural)]
pub struct WindowParams {
    pub style: u32,
    pub placement: Placement,
}

/// The event that a message code stands for.
pub open spec fn event_of(message: u32) -> WindowEvent {
    if message == WM_NCCREATE {
        WindowEvent::Creating
    } else if message == WM_SIZE {
        WindowEvent::Resized
    } else if message == WM_DESTROY {
        WindowEvent::Destroyed
    } else {
        WindowEvent::Other
    }
}

/// What the installed procedure does with an event. `attached` says whether
/// the browser is attached to the window, `client` is the window's client
/// rectangle at the time of the event.
pub open spec fn step_of(
    procedure: Procedure,
    event: WindowEvent,
    attached: bool,
    client: Rect,
) -> Step {
    match procedure {
        Procedure::Setup => Step {
            next: if event is Creating {
                Procedure::Main
            } else {
                Procedure::Setup
            },
            action: WindowAction::Default,
        },
        Procedure::Main => Step {
            next: Procedure::Main,
            action: match event {
                WindowEvent::Resized => if attached {
                    WindowAction::SetBrowserBounds(client)
                } else {
                    WindowAction::Handled
                },
                WindowEvent::Destroyed => WindowAction::Quit,
                _ => WindowAction::Default,
            },
        },
    }
}

/// Classifies a window message by its code.
pub fn window_event(message: u32) -> (event: WindowEvent)
    ensures
        event == event_of(message),
{
    if message == WM_NCCREATE {
        WindowEvent::Creating
    } else if message == WM_SIZE {
        WindowEvent::Resized
    } else if message == WM_DESTROY {
        WindowEvent::Destroyed
    } else {
        WindowEvent::Other
    }
}

/// Decides what the installed window procedure does with an event.
///
/// The setup procedure hands every message to default processing and gives
/// way to the main procedure when the window is being created. The main
/// procedure keeps the browser's bounds equal to the client rectangle on
/// every resize, whatever its area, and ends the message loop when the
/// window is destroyed. `client` is read for a resize only.
pub fn window_step(procedure: Procedure, event: WindowEvent, attached: bool, client: Rect) -> (step:
    Step)
    ensures
        step == step_of(procedure, event, attached, client),
        procedure is Main && event is Resized && attached ==> step.action
            == WindowAction::SetBrowserBounds(client),
        procedure is Main ==> step.next is Main,
{
    match procedure {
        Procedure::Setup => {
            let next = match event {
                WindowEvent::Creating => Procedure::Main,
                _ => Procedure::Setup,
            };
            Step { next, action: WindowAction::Default }
        },
        Procedure::Main => {
            let action = match event {
                WindowEvent::Resized => {
                    if attached {
                        WindowAction::SetBrowserBounds(client)
                    } else {
                        WindowAction::Handled
                    }
                },
                WindowEvent::Destroyed => WindowAction::Quit,
                _ => WindowAction::Default,
            };
            Step { next: Procedure::Main, action }
        },
    }
}

/// The style and placement of the main window on a screen of the given size:
/// a visible overlapped window of fixed size, centred.
pub fn window_params(screen_width: i32, screen_height: i32) -> (params: WindowParams)
    ensures
        params.style == WS_OVERLAPPEDWINDOW | WS_VISIBLE,
        params.style == 0x10CF_0000,
        params.placement.width == WINDOW_WIDTH,
        params.placement.height == WINDOW_HEIGHT,
        params.placement.x == centered_origin(screen_width as int, WINDOW_WIDTH as int),
        params.placement.y == centered_origin(screen_height as int, WINDOW_HEIGHT as int),
{
    assert(0x00CF_0000u32 | 0x1000_0000u32 == 0x10CF_0000u32) by (bit_vector);
    WindowParams {
        style: WS_OVERLAPPEDWINDOW | WS_VISIBLE,
        placement: initial_placement(screen_width, screen_height),
    }
}

} // verus!
