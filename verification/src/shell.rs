//! The state kept with the window, the fullscreen toggle that changes it,
//! and what each command from the page does to it.

use vstd::prelude::*;
use crate::geometry::Rect;
use crate::message::{command_of, decode_command, parse_command, trim_quotes, Command, MessageError};
use crate::text::{is_utf16, utf16_decoded};
use crate::window::WS_OVERLAPPEDWINDOW;

verus! {

/// The style bits that draw a window's decorations. Entering fullscreen
/// clears exactly these.
pub const DECORATIONS: u32 = WS_OVERLAPPEDWINDOW;

/// Where a window is and how it is drawn: its bounding rectangle and its
/// style bits.
#[derive(Clone, Copy, Debug, PartialEq, Eq, Structural)]
pub struct Geometry {
    pub rect: Rect,
    pub style: u32,
}

/// The state kept with the window: whether it is fullscreen, and the
/// geometry it had before it last became so.
#[derive(Clone, Copy, Debug, PartialEq, Eq, Structural)]
pub struct Shell {
    pub fullscreen: bool,
    pub saved: Geometry,
}

/// What the shell does in answer to a command.
#[derive(Clone, Copy, Debug, PartialEq, Eq, Structural)]
pub enum Reaction {
    /// Nothing changes.
    Nothing,
    /// The message loop is asked to end.
    Quit,
    /// The window is given this geometry.
    Apply(Geometry),
}

/// `style` without the decoration bits.
pub open spec fn undecorated(style: u32) -> u32 {
    style & !DECORATIONS
}

/// The geometry of a fullscreen window: it covers the screen and keeps the
/// style bits of `current` that are not decorations.
pub open spec fn fullscreen_geometry(
    current: Geometry,
    screen_width: i32,
    screen_height: i32,
) -> Geometry {
    Geometry { rect: Rect::covering(screen_width, screen_height), style: undecorated(current.style) }
}

impl Shell {
    /// The state of a window that has never been fullscreen.
    pub open spec fn initial() -> Shell {
        Shell {
            fullscreen: false,
            saved: Geometry { rect: Rect { left: 0, top: 0, right: 0, bottom: 0 }, style: 0 },
        }
    }

    /// The state after one toggle, with the geometry that the window is to
    /// be given. `current` is the window's geometry before the toggle.
    pub open spec fn toggled(
        self,
        current: Geometry,
        screen_width: i32,
        screen_height: i32,
    ) -> (Shell, Geometry) {
        if self.fullscreen {
            (Shell { fullscreen: false, saved: self.saved }, self.saved)
        } else {
            (
                Shell { fullscreen: true, saved: current },
                fullscreen_geometry(current, screen_width, screen_height),
            )
        }
    }

    /// The state after a command, with the reaction to it. Only the toggle
    /// changes the state, and only the toggle changes the window.
    pub open spec fn reacted(
        self,
        command: Command,
        current: Geometry,
        screen_width: i32,
        screen_height: i32,
    ) -> (Shell, Reaction) {
        match command {
            Command::Close => (self, Reaction::Quit),
            Command::ToggleFullscreen => {
                let (next, applied) = self.toggled(current, screen_width, screen_height);
                (next, Reaction::Apply(applied))
            },
            Command::Ignore => (self, Reaction::Nothing),
        }
    }

    /// Creates the state of a window that has never been fullscreen.
    pub fn new() -> (shell: Shell)
        ensures
            shell == Shell::initial(),
    {
        Shell {
            fullscreen: false,
            saved: Geometry { rect: Rect { left: 0, top: 0, right: 0, bottom: 0 }, style: 0 },
        }
    }

    /// Toggles fullscreen and returns the geometry to give the window.
    ///
    /// On the way in, `current` is saved, and the window is to cover the
    /// screen without its decorations. On the way out, the window is to get
    /// back the geometry that was saved, and `current` and the screen size
    /// are not read.
    pub fn toggle_fullscreen(
        &mut self,
        current: Geometry,
        screen_width: i32,
        screen_height: i32,
    ) -> (applied: Geometry)
        ensures
            (*final(self), applied) == old(self).toggled(current, screen_width, screen_height),
            final(self).fullscreen == !old(self).fullscreen,
            old(self).fullscreen ==> applied == old(self).saved,
            !old(self).fullscreen ==> final(self).saved == current,
    {
        if self.fullscreen {
            self.fullscreen = false;
            self.saved
        } else {
            self.fullscreen = true;
            self.saved = current;
            Geometry {
                rect: Rect { left: 0, top: 0, right: screen_width, bottom: screen_height },
                style: current.style & !DECORATIONS,
            }
        }
    }

    /// Carries out a command. `current` is the window's geometry now; it
    /// and the screen size are read for a toggle only.
    pub fn execute(
        &mut self,
        command: Command,
        current: Geometry,
        screen_width: i32,
        screen_height: i32,
    ) -> (reaction: Reaction)
        ensures
            (*final(self), reaction) == old(self).reacted(
                command,
                current,
                screen_width,
                screen_height,
            ),
            reaction is Quit <==> command is Close,
            reaction is Apply <==> command is ToggleFullscreen,
            final(self).fullscreen != old(self).fullscreen <==> command is ToggleFullscreen,
    {
        match command {
            Command::Close => Reaction::Quit,
            Command::ToggleFullscreen => Reaction::Apply(
                self.toggle_fullscreen(current, screen_width, screen_height),
            ),
            Command::Ignore => Reaction::Nothing,
        }
    }

    /// Reads a message from the page and carries out what it asks.
    ///
    /// The program ends if and only if the message, without the quote
    /// characters around it, is exactly `close`. The window changes, once,
    /// if and only if it is exactly `toggle_fullscreen`. Any other message
    /// leaves the state and the window as they are.
    pub fn on_message(
        &mut self,
        message: &str,
        current: Geometry,
        screen_width: i32,
        screen_height: i32,
    ) -> (reaction: Reaction)
        ensures
            (*final(self), reaction) == old(self).reacted(
                command_of(message@),
                current,
                screen_width,
                screen_height,
            ),
            reaction is Quit <==> trim_quotes(message@) == "close"@,
            reaction is Apply <==> trim_quotes(message@) == "toggle_fullscreen"@,
            final(self).fullscreen != old(self).fullscreen <==> trim_quotes(message@)
                == "toggle_fullscreen"@,
    {
        let command = parse_command(message);
        self.execute(command, current, screen_width, screen_height)
    }

    /// Reads a message from the page as it arrives, in UTF-16 code units
    /// without a terminator, and carries out what it asks.
    ///
    /// Units that are no text are an error and leave the state as it is.
    /// Every text is handled as `on_message` handles it.
    pub fn on_utf16_message(
        &mut self,
        units: &[u16],
        current: Geometry,
        screen_width: i32,
        screen_height: i32,
    ) -> (result: Result<Reaction, MessageError>)
        ensures
            is_utf16(units@) ==> (result matches Ok(reaction) && (*final(self), reaction) == old(
                self,
            ).reacted(
                command_of(utf16_decoded(units@)),
                current,
                screen_width,
                screen_height,
            )),
            !is_utf16(units@) ==> result == Err::<Reaction, MessageError>(MessageError::NotUtf16)
                && *final(self) == *old(self),
    {
        match decode_command(units) {
            Ok(command) => Ok(self.execute(command, current, screen_width, screen_height)),
            Err(error) => Err(error),
        }
    }
}

/// Leaving fullscreen gives the window exactly the rectangle and style bits
/// that were captured when it entered, whatever the window and the screen
/// were in between.
pub proof fn lemma_exit_restores_captured(
    shell: Shell,
    captured: Geometry,
    entry_width: i32,
    entry_height: i32,
    later: Geometry,
    exit_width: i32,
    exit_height: i32,
)
    requires
        !shell.fullscreen,
    ensures
        ({
            let (entered, _) = shell.toggled(captured, entry_width, entry_height);
            let (left, restored) = entered.toggled(later, exit_width, exit_height);
            &&& entered.fullscreen
            &&& entered.saved == captured
            &&& !left.fullscreen
            &&& restored == captured
        }),
{
}

/// Two toggles in a row, starting outside fullscreen, bring the window back
/// to the rectangle and style bits it started with.
pub proof fn lemma_toggle_twice_is_identity(
    shell: Shell,
    window: Geometry,
    screen_width: i32,
    screen_height: i32,
)
    requires
        !shell.fullscreen,
    ensures
        ({
            let (first, during) = shell.toggled(window, screen_width, screen_height);
            let (second, after) = first.toggled(during, screen_width, screen_height);
            &&& after == window
            &&& second.fullscreen == shell.fullscreen
        }),
{
}

/// Removing the decorations clears every decoration bit and no other bit.
pub proof fn lemma_undecorated(style: u32)
    ensures
        undecorated(style) & DECORATIONS == 0,
        undecorated(style) | (style & DECORATIONS) == style,
        undecorated(undecorated(style)) == undecorated(style),
{
    assert((style & !0x00CF_0000u32) & 0x00CF_0000u32 == 0) by (bit_vector);
    assert((style & !0x00CF_0000u32) | (style & 0x00CF_0000u32) == style) by (bit_vector);
    assert((style & !0x00CF_0000u32) & !0x00CF_0000u32 == style & !0x00CF_0000u32)
        by (bit_vector);
}

} // verus!
