//! What the front end decides: which event of the window system asks for
//! which action, and which key of the keyboard is which button of the
//! controller. Fetching events and keys is left to the program around the
//! library.

use vstd::prelude::*;

verus! {

/// What the user asked the front end to do.
#[derive(Clone, Copy, Debug, PartialEq, Eq, Structural)]
pub enum FrontendAction {
    Exit,
    SaveState,
    LoadState,
}

/// An event of the window system, as far as the front end cares.
#[derive(Clone, Copy, Debug, PartialEq, Eq, Structural)]
pub enum FrontendEvent {
    /// The window is to be closed.
    Quit,
    /// The window has a new size in pixels, width first.
    Resized { w: u32, h: u32 },
    /// The key that saves the state went down.
    SaveKeyDown,
    /// The key that loads the state went down.
    LoadKeyDown,
    /// Anything else.
    Other,
}

/// A value together with an action that came up while it was fetched.
pub struct FrontendResult<T> {
    pub result: T,
    pub action: Option<FrontendAction>,
}

/// What the front end remembers between events.
pub struct WindowState {
    /// The size that the window was last given, until it is taken.
    pub resized_to: Option<(u32, u32)>,
}

/// The buttons of one controller that are held down.
#[derive(Clone, Copy, Debug, PartialEq, Eq, Structural)]
pub struct InputState {
    pub a: bool,
    pub b: bool,
    pub x: bool,
    pub y: bool,
    pub l: bool,
    pub r: bool,
    pub start: bool,
    pub select: bool,
    pub up: bool,
    pub down: bool,
    pub left: bool,
    pub right: bool,
}

/// The keys of the keyboard that stand for buttons, each named by its
/// letter, and whether each is held down.
#[derive(Clone, Copy, Debug, PartialEq, Eq, Structural)]
pub struct KeyboardState {
    pub w: bool,
    pub a: bool,
    pub s: bool,
    pub d: bool,
    pub g: bool,
    pub h: bool,
    pub l: bool,
    pub k: bool,
    pub o: bool,
    pub i: bool,
    pub p: bool,
    pub q: bool,
}

/// Reads the first controller from the keyboard.
#[derive(Clone, Copy, Debug, PartialEq, Eq, Structural)]
pub struct KeyboardInput;

/// The action that an event asks for, if any.
pub open spec fn action_of(event: FrontendEvent) -> Option<FrontendAction> {
    match event {
        FrontendEvent::Quit => Some(FrontendAction::Exit),
        FrontendEvent::SaveKeyDown => Some(FrontendAction::SaveState),
        FrontendEvent::LoadKeyDown => Some(FrontendAction::LoadState),
        _ => None,
    }
}

/// The buttons that the keys stand for. The keys lie on the keyboard
/// somewhat like the buttons on the controller: W, A, S and D are the
/// directions, G and H are select and start, L, K, O and I are A, B, X and
/// Y, and Q and P are the shoulder buttons.
pub open spec fn buttons_of(keys: KeyboardState) -> InputState {
    InputState {
        a: keys.l,
        b: keys.k,
        x: keys.o,
        y: keys.i,
        l: keys.q,
        r: keys.p,
        start: keys.h,
        select: keys.g,
        up: keys.w,
        down: keys.s,
        left: keys.a,
        right: keys.d,
    }
}

impl WindowState {
    /// A state that remembers no size.
    pub fn new() -> (state: WindowState)
        ensures
            state.resized_to.is_none(),
    {
        WindowState { resized_to: None }
    }

    /// Takes note of an event and returns the action that it asks for. A
    /// new size of the window is remembered; nothing else changes the
    /// state.
    pub fn on_event(&mut self, event: FrontendEvent) -> (action: Option<FrontendAction>)
        ensures
            action == action_of(event),
            final(self).resized_to == match event {
                FrontendEvent::Resized { w, h } => Some((w, h)),
                _ => old(self).resized_to,
            },
    {
        match event {
            FrontendEvent::Quit => Some(FrontendAction::Exit),
            FrontendEvent::Resized { w, h } => {
                self.resized_to = Some((w, h));
                None
            },
            FrontendEvent::SaveKeyDown => Some(FrontendAction::SaveState),
            FrontendEvent::LoadKeyDown => Some(FrontendAction::LoadState),
            FrontendEvent::Other => None,
        }
    }

    /// Hands out the size that the window was last given and forgets it.
    pub fn resized(&mut self) -> (size: Option<(u32, u32)>)
        ensures
            size == old(self).resized_to,
            final(self).resized_to.is_none(),
    {
        let size = self.resized_to;
        self.resized_to = None;
        size
    }
}

impl InputState {
    /// No button is held down.
    pub open spec fn released() -> InputState {
        InputState {
            a: false,
            b: false,
            x: false,
            y: false,
            l: false,
            r: false,
            start: false,
            select: false,
            up: false,
            down: false,
            left: false,
            right: false,
        }
    }

    /// The state with no button held down.
    pub fn new() -> (state: InputState)
        ensures
            state == Self::released(),
    {
        InputState {
            a: false,
            b: false,
            x: false,
            y: false,
            l: false,
            r: false,
            start: false,
            select: false,
            up: false,
            down: false,
            left: false,
            right: false,
        }
    }

    /// Presses or releases button A.
    pub fn a(&mut self, pressed: bool)
        ensures
            *final(self) == (InputState { a: pressed, ..*old(self) }),
    {
        self.a = pressed;
    }

    /// Presses or releases button B.
    pub fn b(&mut self, pressed: bool)
        ensures
            *final(self) == (InputState { b: pressed, ..*old(self) }),
    {
        self.b = pressed;
    }

    /// Presses or releases button X.
    pub fn x(&mut self, pressed: bool)
        ensures
            *final(self) == (InputState { x: pressed, ..*old(self) }),
    {
        self.x = pressed;
    }

    /// Presses or releases button Y.
    pub fn y(&mut self, pressed: bool)
        ensures
            *final(self) == (InputState { y: pressed, ..*old(self) }),
    {
        self.y = pressed;
    }

    /// Presses or releases the left shoulder button.
    pub fn l(&mut self, pressed: bool)
        ensures
            *final(self) == (InputState { l: pressed, ..*old(self) }),
    {
        self.l = pressed;
    }

    /// Presses or releases the right shoulder button.
    pub fn r(&mut self, pressed: bool)
        ensures
            *final(self) == (InputState { r: pressed, ..*old(self) }),
    {
        self.r = pressed;
    }

    /// Presses or releases start.
    pub fn start(&mut self, pressed: bool)
        ensures
            *final(self) == (InputState { start: pressed, ..*old(self) }),
    {
        self.start = pressed;
    }

    /// Presses or releases select.
    pub fn select(&mut self, pressed: bool)
        ensures
            *final(self) == (InputState { select: pressed, ..*old(self) }),
    {
        self.select = pressed;
    }

    /// Presses or releases up.
    pub fn up(&mut self, pressed: bool)
        ensures
            *final(self) == (InputState { up: pressed, ..*old(self) }),
    {
        self.up = pressed;
    }

    /// Presses or releases down.
    pub fn down(&mut self, pressed: bool)
        ensures
            *final(self) == (InputState { down: pressed, ..*old(self) }),
    {
        self.down = pressed;
    }

    /// Presses or releases left.
    pub fn left(&mut self, pressed: bool)
        ensures
            *final(self) == (InputState { left: pressed, ..*old(self) }),
    {
        self.left = pressed;
    }

    /// Presses or releases right.
    pub fn right(&mut self, pressed: bool)
        ensures
            *final(self) == (InputState { right: pressed, ..*old(self) }),
    {
        self.right = pressed;
    }
}

impl KeyboardInput {
    /// Works out the buttons that are held down from the keys that are.
    pub fn poll(&mut self, keys: &KeyboardState) -> (input: InputState)
        ensures
            input == buttons_of(*keys),
    {
        let mut input = InputState::new();
        if keys.w {
            input.up(true);
        }
        if keys.a {
            input.left(true);
        }
        if keys.s {
            input.down(true);
        }
        if keys.d {
            input.right(true);
        }
        if keys.g {
            input.select(true);
        }
        if keys.h {
            input.start(true);
        }
        if keys.l {
            input.a(true);
        }
        if keys.k {
            input.b(true);
        }
        if keys.o {
            input.x(true);
        }
        if keys.i {
            input.y(true);
        }
        if keys.p {
            input.r(true);
        }
        if keys.q {
            input.l(true);
        }
        input
    }
}

} // verus!
