//! The event-loop state machine: what each window event, and a write to the
//! shader file, does to the viewer's state, and what it asks the GPU and
//! window side to perform. The event loop itself, the GPU calls and the float
//! values live outside the library; they hand in plain facts about an event
//! (which key, which button, which half of the window the cursor is in) and
//! perform what comes back.

use vstd::prelude::*;

use crate::utils::Changed;
use crate::utils::CurrentView;
use crate::utils::Julia;
use crate::views::switchable::PositionOutcome;
use crate::views::switchable::SwitchableViewManager;
use crate::views::switchable::ViewTarget;
use crate::views::switchable::mouse_dispatch_rel;
use crate::views::switchable::position_dispatch_rel;
use crate::views::switchable::wheel_target;
use crate::views::view::ElementState;
use crate::views::view::MouseButton;

verus! {

/// The pressed key, as far as the viewer binds keys.
#[derive(Clone, Copy, Debug, PartialEq, Eq, Structural)]
pub enum Key {
    Escape,
    F11,
    Key1,
    Key2,
    Key3,
    Numpad1,
    Numpad2,
    Numpad3,
    Other,
}

/// The key, main row or numeric pad, that selects the single Mandelbrot view.
pub open spec fn selects_single_mandelbrot(key: Key) -> bool {
    key == Key::Key1 || key == Key::Numpad1
}

/// The key, main row or numeric pad, that selects the single Julia view.
pub open spec fn selects_single_julia(key: Key) -> bool {
    key == Key::Key2 || key == Key::Numpad2
}

/// The key, main row or numeric pad, that selects the split view.
pub open spec fn selects_double(key: Key) -> bool {
    key == Key::Key3 || key == Key::Numpad3
}

/// What a key press asks the window and GPU side to perform.
#[derive(Clone, Copy, Debug, PartialEq, Eq, Structural)]
pub enum KeyAction {
    /// Leave the event loop.
    Exit,
    /// Put the window into exclusive fullscreen, or take it out of it.
    SetFullscreen { full_screen: bool },
    /// Upload this Julia flag to the single view's uniform buffer and request
    /// a redraw.
    UploadJulia(Julia),
    /// Request a redraw.
    Redraw,
    /// Nothing to perform.
    Nothing,
}

/// What a scroll-wheel event asks for: which uniform to scale, on which view.
#[derive(Clone, Copy, Debug, PartialEq, Eq, Structural)]
pub struct WheelAction {
    /// Scale the iteration depth; otherwise scale the zoom factor.
    pub adjust_iterations: bool,
    pub target: ViewTarget,
}

/// What a cursor move asks for, and whether it was a drag.
#[derive(Clone, Copy, Debug, PartialEq, Eq, Structural)]
pub struct CursorMove {
    /// The move was a drag: the left button is down with the cursor on screen.
    pub active: bool,
    pub outcome: PositionOutcome,
}

/// Everything the event loop keeps between events.
pub struct ViewerController {
    pub views: SwitchableViewManager,
    pub changed: Changed,
    pub is_left_button_pressed: bool,
    pub is_cursor_on_screen: bool,
    pub is_full_screen: bool,
    pub please_set_title_back: bool,
}

impl ViewerController {
    /// The state the viewer starts in: windowed, nothing pressed, the cursor
    /// not yet seen, and one redraw owed for the first frame.
    pub fn new(views: SwitchableViewManager) -> (c: Self)
        ensures
            c.views == views,
            c.changed.0,
            !c.is_left_button_pressed,
            !c.is_cursor_on_screen,
            !c.is_full_screen,
            !c.please_set_title_back,
    {
        ViewerController {
            views,
            changed: Changed(true),
            is_left_button_pressed: false,
            is_cursor_on_screen: false,
            is_full_screen: false,
            please_set_title_back: false,
        }
    }

    /// A frame is about to be drawn: the redraw debt is paid, and the window
    /// title is restored where a shader reload had replaced it.
    pub fn redraw_requested(&mut self) -> (restore_title: bool)
        ensures
            restore_title == old(self).please_set_title_back,
            !final(self).please_set_title_back,
            !final(self).changed.0,
            final(self).views == old(self).views,
            final(self).is_left_button_pressed == old(self).is_left_button_pressed,
            final(self).is_cursor_on_screen == old(self).is_cursor_on_screen,
            final(self).is_full_screen == old(self).is_full_screen,
    {
        let restore_title = self.please_set_title_back;
        self.please_set_title_back = false;
        self.changed.set(false, "Just rendered so false.");
        restore_title
    }

    /// The window was resized; a resize to an empty window is ignored, any
    /// other owes a swap-chain rebuild, a window-size upload and a redraw.
    pub fn resized(&mut self, zero_area: bool) -> (rebuild: bool)
        ensures
            rebuild == !zero_area,
            zero_area ==> final(self).changed.0 == old(self).changed.0,
            !zero_area ==> final(self).changed.0,
            final(self).views == old(self).views,
            final(self).is_left_button_pressed == old(self).is_left_button_pressed,
            final(self).is_cursor_on_screen == old(self).is_cursor_on_screen,
            final(self).is_full_screen == old(self).is_full_screen,
            final(self).please_set_title_back == old(self).please_set_title_back,
    {
        if zero_area {
            false
        } else {
            self.changed.set(true, "resize");
            true
        }
    }

    /// The cursor left the window; drags pause until it comes back.
    pub fn cursor_left(&mut self)
        ensures
            !final(self).is_cursor_on_screen,
            final(self).views == old(self).views,
            final(self).changed.0 == old(self).changed.0,
            final(self).is_left_button_pressed == old(self).is_left_button_pressed,
            final(self).is_full_screen == old(self).is_full_screen,
            final(self).please_set_title_back == old(self).please_set_title_back,
    {
        self.is_cursor_on_screen = false;
    }

    /// The cursor came back onto the window.
    pub fn cursor_entered(&mut self)
        ensures
            final(self).is_cursor_on_screen,
            final(self).views == old(self).views,
            final(self).changed.0 == old(self).changed.0,
            final(self).is_left_button_pressed == old(self).is_left_button_pressed,
            final(self).is_full_screen == old(self).is_full_screen,
            final(self).please_set_title_back == old(self).please_set_title_back,
    {
        self.is_cursor_on_screen = true;
    }

    /// A cursor move: it is a drag exactly when the left button is down with
    /// the cursor on screen. The layout on screen answers it, and a redraw is
    /// owed after a drag, and after any move over the split layout, whose
    /// Julia generator follows the cursor.
    pub fn cursor_moved(&mut self, cursor_in_right_half: bool) -> (r: CursorMove)
        ensures
            r.active == (old(self).is_left_button_pressed && old(self).is_cursor_on_screen),
            position_dispatch_rel(
                old(self).views,
                final(self).views,
                cursor_in_right_half,
                r.active,
                r.outcome,
            ),
            final(self).changed.0 == (r.active || old(self).views.current == CurrentView::Double
                || old(self).changed.0),
            final(self).is_left_button_pressed == old(self).is_left_button_pressed,
            final(self).is_cursor_on_screen == old(self).is_cursor_on_screen,
            final(self).is_full_screen == old(self).is_full_screen,
            final(self).please_set_title_back == old(self).please_set_title_back,
    {
        let active = self.is_left_button_pressed && self.is_cursor_on_screen;
        let outcome = self.views.new_position(cursor_in_right_half, active);
        if active {
            self.changed.set(true, "cursor moved");
        } else if self.views.current == CurrentView::Double {
            self.changed.set(true, "Updated julia generator");
        }
        CursorMove { active, outcome }
    }

    /// A button event: the loop tracks the left button for drags, and the
    /// layout on screen tracks it for itself.
    pub fn mouse_input(&mut self, button: MouseButton, state: ElementState)
        ensures
            final(self).is_left_button_pressed == if button is Left {
                state is Pressed
            } else {
                old(self).is_left_button_pressed
            },
            mouse_dispatch_rel(old(self).views, final(self).views, button, state),
            final(self).changed.0 == old(self).changed.0,
            final(self).is_cursor_on_screen == old(self).is_cursor_on_screen,
            final(self).is_full_screen == old(self).is_full_screen,
            final(self).please_set_title_back == old(self).please_set_title_back,
    {
        if button == MouseButton::Left {
            self.is_left_button_pressed = state == ElementState::Pressed;
        }
        self.views.mouse_input(button, state);
    }

    /// A scroll-wheel event scales the iteration depth when alt is held, the
    /// zoom factor otherwise, on the view under the cursor, and owes a redraw.
    pub fn mouse_wheel(&mut self, alt: bool, cursor_in_left_half: bool) -> (r: WheelAction)
        ensures
            r.adjust_iterations == alt,
            r.target == wheel_target(old(self).views.current, cursor_in_left_half),
            final(self).changed.0,
            final(self).views == old(self).views,
            final(self).is_left_button_pressed == old(self).is_left_button_pressed,
            final(self).is_cursor_on_screen == old(self).is_cursor_on_screen,
            final(self).is_full_screen == old(self).is_full_screen,
            final(self).please_set_title_back == old(self).please_set_title_back,
    {
        let target = if alt {
            let t = self.views.iterations(cursor_in_left_half);
            self.changed.set(true, "iterations");
            t
        } else {
            let t = self.views.zoom(cursor_in_left_half);
            self.changed.set(true, "zoom");
            t
        };
        WheelAction { adjust_iterations: alt, target }
    }

    /// A key press: escape leaves, F11 toggles fullscreen, the number keys
    /// pick a layout, with the single layout also told which set to draw.
    pub fn key_pressed(&mut self, key: Key) -> (r: KeyAction)
        ensures
            key == Key::Escape ==> {
                &&& r == KeyAction::Exit
                &&& final(self).views == old(self).views
                &&& final(self).is_full_screen == old(self).is_full_screen
            },
            key == Key::F11 ==> {
                &&& final(self).is_full_screen == !old(self).is_full_screen
                &&& r == (KeyAction::SetFullscreen { full_screen: !old(self).is_full_screen })
                &&& final(self).views == old(self).views
            },
            selects_single_mandelbrot(key) ==> {
                &&& final(self).views.current == CurrentView::Single
                &&& r == KeyAction::UploadJulia(Julia { is_julia: false })
                &&& final(self).is_full_screen == old(self).is_full_screen
            },
            selects_single_julia(key) ==> {
                &&& final(self).views.current == CurrentView::Single
                &&& r == KeyAction::UploadJulia(Julia { is_julia: true })
                &&& final(self).is_full_screen == old(self).is_full_screen
            },
            selects_double(key) ==> {
                &&& final(self).views.current == CurrentView::Double
                &&& r == KeyAction::Redraw
                &&& final(self).is_full_screen == old(self).is_full_screen
            },
            key == Key::Other ==> {
                &&& r == KeyAction::Nothing
                &&& final(self).views == old(self).views
                &&& final(self).is_full_screen == old(self).is_full_screen
            },
            final(self).views.single == old(self).views.single,
            final(self).views.double == old(self).views.double,
            final(self).changed.0 == old(self).changed.0,
            final(self).is_left_button_pressed == old(self).is_left_button_pressed,
            final(self).is_cursor_on_screen == old(self).is_cursor_on_screen,
            final(self).please_set_title_back == old(self).please_set_title_back,
    {
        match key {
            Key::Escape => KeyAction::Exit,
            Key::F11 => {
                self.is_full_screen = !self.is_full_screen;
                KeyAction::SetFullscreen { full_screen: self.is_full_screen }
            },
            Key::Key1 | Key::Numpad1 => {
                self.views.current = CurrentView::Single;
                match self.views.set_julia(false) {
                    Some(julia) => KeyAction::UploadJulia(julia),
                    None => {
                        proof {
                            assert(false);
                        }
                        KeyAction::Nothing
                    },
                }
            },
            Key::Key2 | Key::Numpad2 => {
                self.views.current = CurrentView::Single;
                match self.views.set_julia(true) {
                    Some(julia) => KeyAction::UploadJulia(julia),
                    None => {
                        proof {
                            assert(false);
                        }
                        KeyAction::Nothing
                    },
                }
            },
            Key::Key3 | Key::Numpad3 => {
                self.views.current = CurrentView::Double;
                KeyAction::Redraw
            },
            Key::Other => KeyAction::Nothing,
        }
    }

    /// Once the queued events settle, a redraw is requested exactly when
    /// something changed since the last frame.
    pub fn events_cleared(&self) -> (redraw: bool)
        ensures
            redraw == self.changed.0,
    {
        self.changed.0
    }

    /// The watcher saw a write to the shader file: the caller recompiles and
    /// swaps the pipeline around this call; afterwards a redraw is owed and
    /// the next frame restores the window title the reload replaced.
    pub fn shader_file_written(&mut self)
        ensures
            final(self).changed.0,
            final(self).please_set_title_back,
            final(self).views == old(self).views,
            final(self).is_left_button_pressed == old(self).is_left_button_pressed,
            final(self).is_cursor_on_screen == old(self).is_cursor_on_screen,
            final(self).is_full_screen == old(self).is_full_screen,
    {
        self.changed.set(true, "Write to shader");
        self.please_set_title_back = true;
    }
}

} // verus!
