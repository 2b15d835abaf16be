//! From the events of the window to what the viewer is to do.

use vstd::prelude::*;
use crate::camera::Movement;

verus! {

/// A place of the pointer on the window, its coordinates as binary32 bit
/// patterns.
#[derive(Clone, Copy, Debug, PartialEq, Eq, Structural)]
pub struct Point {
    pub x: u32,
    pub y: u32,
}

/// A button of the pointer. Only the left one drags the view.
#[derive(Clone, Copy, Debug, PartialEq, Eq, Structural)]
pub enum PointerButton {
    Left,
    Other,
}

/// A key, as far as the viewer tells keys apart.
#[derive(Clone, Debug, PartialEq, Eq)]
pub enum Key {
    Escape,
    Space,
    /// A key that types the given text.
    Character(String),
    Other,
}

/// An event of the window.
#[derive(Clone, Debug, PartialEq, Eq)]
pub enum Event {
    /// The surface has a new size.
    Resize { width: u32, height: u32 },
    /// A button went down or up.
    PointerButton { button: PointerButton, pressed: bool },
    /// The pointer is now at `position`.
    PointerMove { position: Point },
    /// The wheel turned by `amount`, a binary32 bit pattern.
    Scroll { amount: u32 },
    /// A key went down or up.
    KeyPress { key: Key, pressed: bool },
    /// The window is to close.
    Close,
    /// The window wants a frame.
    Redraw,
}

/// What the viewer is to do about an event.
#[derive(Clone, Copy, Debug, PartialEq, Eq, Structural)]
pub enum Command {
    Nothing,
    /// Leave the event loop.
    Exit,
    /// End the process at once.
    Quit,
    /// Hand the new size to the renderer.
    Resize { width: u32, height: u32 },
    /// Show one frame.
    Render,
    /// Start the accumulation over and leave the camera alone.
    ResetAccumulation,
    /// Move the camera one step.
    Move(Movement),
    /// Turn the camera by the pointer's travel from `from` to `to`.
    Look { from: Point, to: Point },
    /// Change the field of view by the scroll `amount`.
    Zoom { amount: u32 },
}

/// What a key that types the single character `c` asks for.
pub open spec fn char_command(c: char) -> Command {
    if c == 'w' || c == 'W' {
        Command::Move(Movement::Forward)
    } else if c == 's' || c == 'S' {
        Command::Move(Movement::Backward)
    } else if c == 'a' || c == 'A' {
        Command::Move(Movement::Left)
    } else if c == 'd' || c == 'D' {
        Command::Move(Movement::Right)
    } else if c == 'q' || c == 'Q' {
        Command::Move(Movement::Down)
    } else if c == 'e' || c == 'E' {
        Command::Move(Movement::Up)
    } else if c == 'r' || c == 'R' {
        Command::ResetAccumulation
    } else {
        Command::Nothing
    }
}

/// What a key asks for. Only a key that goes down asks for anything, and a
/// key that types more or less than one character asks for nothing.
pub open spec fn key_command(key: Key, pressed: bool) -> Command {
    if !pressed {
        Command::Nothing
    } else {
        match key {
            Key::Escape => Command::Quit,
            Key::Space => Command::ResetAccumulation,
            Key::Character(text) => if text@.len() == 1 {
                char_command(text@[0])
            } else {
                Command::Nothing
            },
            Key::Other => Command::Nothing,
        }
    }
}

/// Tells what a key asks for.
pub fn handle_keyboard(key: &Key, pressed: bool) -> (command: Command)
    ensures
        command == key_command(*key, pressed),
{
    if !pressed {
        return Command::Nothing;
    }
    match key {
        Key::Escape => Command::Quit,
        Key::Space => Command::ResetAccumulation,
        Key::Character(text) => {
            let text = text.as_str();
            if text.unicode_len() != 1 {
                return Command::Nothing;
            }
            let c = text.get_char(0);
            if c == 'w' || c == 'W' {
                Command::Move(Movement::Forward)
            } else if c == 's' || c == 'S' {
                Command::Move(Movement::Backward)
            } else if c == 'a' || c == 'A' {
                Command::Move(Movement::Left)
            } else if c == 'd' || c == 'D' {
                Command::Move(Movement::Right)
            } else if c == 'q' || c == 'Q' {
                Command::Move(Movement::Down)
            } else if c == 'e' || c == 'E' {
                Command::Move(Movement::Up)
            } else if c == 'r' || c == 'R' {
                Command::ResetAccumulation
            } else {
                Command::Nothing
            }
        },
        Key::Other => Command::Nothing,
    }
}

/// What the router remembers of the pointer, as a value.
pub struct RouterModel {
    /// Whether the left button is down.
    pub held: bool,
    /// Where the pointer was last seen during the drag that is under way.
    pub last: Option<Point>,
}

impl RouterModel {
    /// No button is down and no drag is under way.
    pub open spec fn initial() -> RouterModel {
        RouterModel { held: false, last: None }
    }

    /// A place is remembered only while the button is down.
    pub open spec fn wf(self) -> bool {
        !self.held ==> self.last is None
    }

    /// The router after an event.
    pub open spec fn after(self, event: Event) -> RouterModel {
        match event {
            Event::PointerButton { button: PointerButton::Left, pressed } => RouterModel {
                held: pressed,
                last: if pressed {
                    self.last
                } else {
                    None
                },
            },
            Event::PointerMove { position } => if self.held {
                RouterModel { last: Some(position), ..self }
            } else {
                self
            },
            _ => self,
        }
    }

    /// What the event asks for.
    pub open spec fn command(self, event: Event) -> Command {
        match event {
            Event::Resize { width, height } => Command::Resize { width, height },
            Event::PointerButton { .. } => Command::Nothing,
            Event::PointerMove { position } => if self.held && self.last is Some {
                Command::Look { from: self.last->Some_0, to: position }
            } else {
                Command::Nothing
            },
            Event::Scroll { amount } => Command::Zoom { amount },
            Event::KeyPress { key, pressed } => key_command(key, pressed),
            Event::Close => Command::Exit,
            Event::Redraw => Command::Render,
        }
    }
}

/// Routes the events of the window and follows the drag of the pointer.
#[derive(Debug)]
pub struct InputRouter {
    mouse_down: bool,
    last_mouse_pos: Option<Point>,
}

impl View for InputRouter {
    type V = RouterModel;

    closed spec fn view(&self) -> RouterModel {
        RouterModel { held: self.mouse_down, last: self.last_mouse_pos }
    }
}

impl InputRouter {
    #[verifier::type_invariant]
    spec fn tidy(self) -> bool {
        self@.wf()
    }

    /// The router of a new viewer.
    pub fn new() -> (router: InputRouter)
        ensures
            router@ == RouterModel::initial(),
    {
        InputRouter { mouse_down: false, last_mouse_pos: None }
    }

    /// Whether the left button is down.
    pub fn mouse_down(&self) -> (held: bool)
        ensures
            held == self@.held,
    {
        self.mouse_down
    }

    /// Where the pointer was last seen during the drag that is under way.
    pub fn last_mouse_pos(&self) -> (last: Option<Point>)
        ensures
            last == self@.last,
            !self@.held ==> last is None,
    {
        proof {
            use_type_invariant(self);
        }
        self.last_mouse_pos
    }

    /// Takes one event and tells what the viewer is to do about it.
    ///
    /// While the left button is down, each move of the pointer but the first
    /// asks to turn the camera by the travel since the move before it. When
    /// the button goes up the place of the pointer is forgotten, so that the
    /// next drag starts afresh.
    pub fn route(&mut self, event: &Event) -> (command: Command)
        ensures
            command == old(self)@.command(*event),
            final(self)@ == old(self)@.after(*event),
            final(self)@.wf(),
    {
        proof {
            use_type_invariant(&*self);
        }
        match event {
            Event::Resize { width, height } => Command::Resize { width: *width, height: *height },
            Event::PointerButton { button, pressed } => {
                match button {
                    PointerButton::Left => {
                        let last = if *pressed {
                            self.last_mouse_pos
                        } else {
                            None
                        };
                        *self = InputRouter { mouse_down: *pressed, last_mouse_pos: last };
                    },
                    PointerButton::Other => {},
                }
                Command::Nothing
            },
            Event::PointerMove { position } => {
                if self.mouse_down {
                    let command = match self.last_mouse_pos {
                        Some(last) => Command::Look { from: last, to: *position },
                        None => Command::Nothing,
                    };
                    self.last_mouse_pos = Some(*position);
                    command
                } else {
                    Command::Nothing
                }
            },
            Event::Scroll { amount } => Command::Zoom { amount: *amount },
            Event::KeyPress { key, pressed } => handle_keyboard(key, *pressed),
            Event::Close => Command::Exit,
            Event::Redraw => Command::Render,
        }
    }
}

/// A new router is well-formed, and a well-formed router stays so under
/// every event.
pub proof fn lemma_router_stays_wf(s: RouterModel, event: Event)
    ensures
        RouterModel::initial().wf(),
        s.wf() ==> s.after(event).wf(),
{
}

/// While the button stays down, a move of the pointer asks to turn the
/// camera by exactly the travel since the move before it: the travels of a
/// drag join end to end, none is counted twice and none is left out.
pub proof fn lemma_drag_is_continuous(s: RouterModel, first: Point, second: Point)
    requires
        s.held,
    ensures
        s.after(Event::PointerMove { position: first }).command(
            Event::PointerMove { position: second },
        ) == (Command::Look { from: first, to: second }),
        s.last matches Some(p) ==> s.command(Event::PointerMove { position: first }) == (
        Command::Look { from: p, to: first }),
{
}

/// Letting the button go forgets the place of the pointer: whatever went
/// before, the first move after the button is down again asks for nothing.
pub proof fn lemma_release_forgets(s: RouterModel, position: Point)
    ensures
        s.after(Event::PointerButton { button: PointerButton::Left, pressed: false }).last is None,
        s.after(Event::PointerButton { button: PointerButton::Left, pressed: false }).after(
            Event::PointerButton { button: PointerButton::Left, pressed: true },
        ).command(Event::PointerMove { position }) == Command::Nothing,
{
}

/// While no button is down the pointer moves without effect.
pub proof fn lemma_idle_pointer(s: RouterModel, position: Point)
    requires
        !s.held,
    ensures
        s.command(Event::PointerMove { position }) == Command::Nothing,
        s.after(Event::PointerMove { position }) == s,
{
}

} // verus!
