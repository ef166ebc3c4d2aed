use vstd::prelude::*;

verus! {

/// A tiny (4 bytes) struct that holds the state of a virtual gamepad as two
/// button bitmasks: the buttons down this frame and the buttons down the
/// previous frame.
#[derive(Clone, Copy, Debug, PartialEq, Eq, Structural, Default)]
pub struct GamePad {
    current: u16,
    previous: u16,
}

/// A virtual gamepad button. Each button owns one bit of a state mask; the
/// `NoButton` value owns no bit at all.
#[derive(Clone, Copy, Debug)]
pub enum Button {
    NoButton,
    Up,
    Down,
    Left,
    Right,
    A,
    B,
    X,
    Y,
    Start,
    Select,
    LeftTrigger,
    RightTrigger,
    LeftShoulder,
    RightShoulder,
    Menu,
}

/// The bit each button owns in a state mask.
pub open spec fn spec_mask(b: Button) -> u16 {
    match b {
        Button::NoButton => 0,
        Button::Up => 1,
        Button::Down => 2,
        Button::Left => 4,
        Button::Right => 8,
        Button::A => 16,
        Button::B => 32,
        Button::X => 64,
        Button::Y => 128,
        Button::Start => 256,
        Button::Select => 512,
        Button::LeftTrigger => 1024,
        Button::RightTrigger => 2048,
        Button::LeftShoulder => 4096,
        Button::RightShoulder => 8192,
        Button::Menu => 16384,
    }
}

/// The button whose mask is exactly `val`; `Button::NoButton` when `val` is zero,
/// out of range, or has several bits set.
pub open spec fn spec_button_from(val: u16) -> Button {
    if val == 1 {
        Button::Up
    } else if val == 2 {
        Button::Down
    } else if val == 4 {
        Button::Left
    } else if val == 8 {
        Button::Right
    } else if val == 16 {
        Button::A
    } else if val == 32 {
        Button::B
    } else if val == 64 {
        Button::X
    } else if val == 128 {
        Button::Y
    } else if val == 256 {
        Button::Start
    } else if val == 512 {
        Button::Select
    } else if val == 1024 {
        Button::LeftTrigger
    } else if val == 2048 {
        Button::RightTrigger
    } else if val == 4096 {
        Button::LeftShoulder
    } else if val == 8192 {
        Button::RightShoulder
    } else if val == 16384 {
        Button::Menu
    } else {
        Button::NoButton
    }
}

impl Button {
    /// The bit this button owns in a state mask.
    pub fn mask(self) -> (r: u16)
        ensures
            r == spec_mask(self),
    {
        match self {
            Button::NoButton => 0,
            Button::Up => 1,
            Button::Down => 2,
            Button::Left => 4,
            Button::Right => 8,
            Button::A => 16,
            Button::B => 32,
            Button::X => 64,
            Button::Y => 128,
            Button::Start => 256,
            Button::Select => 512,
            Button::LeftTrigger => 1024,
            Button::RightTrigger => 2048,
            Button::LeftShoulder => 4096,
            Button::RightShoulder => 8192,
            Button::Menu => 16384,
        }
    }
}

impl From<u16> for Button {
    fn from(val: u16) -> (r: Button) {
        match val {
            1 => Button::Up,
            2 => Button::Down,
            4 => Button::Left,
            8 => Button::Right,
            16 => Button::A,
            32 => Button::B,
            64 => Button::X,
            128 => Button::Y,
            256 => Button::Start,
            512 => Button::Select,
            1024 => Button::LeftTrigger,
            2048 => Button::RightTrigger,
            4096 => Button::LeftShoulder,
            8192 => Button::RightShoulder,
            16384 => Button::Menu,
            _ => Button::NoButton,
        }
    }
}

impl vstd::std_specs::convert::FromSpecImpl<u16> for Button {
    open spec fn obeys_from_spec() -> bool {
        true
    }

    open spec fn from_spec(val: u16) -> Button {
        spec_button_from(val)
    }
}

/// Whether `button`'s bit is set in the state mask `state`.
pub open spec fn down_in(state: u16, button: Button) -> bool {
    state & spec_mask(button) != 0
}

/// The display name of a state mask: the name of the single button it holds,
/// or a catch-all when it holds none or several.
pub open spec fn spec_state_name(state: u16) -> Seq<char> {
    match spec_button_from(state) {
        Button::NoButton => "None or Multiple"@,
        Button::Up => "Up"@,
        Button::Down => "Down"@,
        Button::Left => "Left"@,
        Button::Right => "Right"@,
        Button::A => "A"@,
        Button::B => "B"@,
        Button::X => "X"@,
        Button::Y => "Y"@,
        Button::Start => "Start"@,
        Button::Select => "Select"@,
        Button::LeftTrigger => "LeftTrigger"@,
        Button::RightTrigger => "RightTrigger"@,
        Button::LeftShoulder => "LeftShoulder"@,
        Button::RightShoulder => "RightShoulder"@,
        Button::Menu => "Menu"@,
    }
}

impl GamePad {
    /// The bitmask of buttons down this frame.
    pub closed spec fn spec_current(self) -> u16 {
        self.current
    }

    /// The bitmask of buttons down the previous frame.
    pub closed spec fn spec_previous(self) -> u16 {
        self.previous
    }

    /// A pad with no buttons down, now or the previous frame.
    pub fn new() -> (r: Self)
        ensures
            r.spec_current() == 0,
            r.spec_previous() == 0,
    {
        GamePad { current: 0, previous: 0 }
    }

    /// Whether `button` is down this frame.
    pub fn is_pressed(&self, button: Button) -> (r: bool)
        ensures
            r == down_in(self.spec_current(), button),
    {
        (self.current & button.mask()) != 0
    }

    /// Whether `button` is up this frame.
    pub fn is_released(&self, button: Button) -> (r: bool)
        ensures
            r == !down_in(self.spec_current(), button),
    {
        (self.current & button.mask()) == 0
    }

    /// Whether `button` went down between the previous frame and this one.
    pub fn is_just_pressed(&self, button: Button) -> (r: bool)
        ensures
            r == (down_in(self.spec_current(), button) && !down_in(
                self.spec_previous(),
                button,
            )),
    {
        self.is_pressed(button) && (self.previous & button.mask()) == 0
    }

    /// Whether `button` went up between the previous frame and this one.
    pub fn is_just_released(&self, button: Button) -> (r: bool)
        ensures
            r == (!down_in(self.spec_current(), button) && down_in(
                self.spec_previous(),
                button,
            )),
    {
        !self.is_pressed(button) && (self.previous & button.mask()) != 0
    }

    /// The display name of the current state.
    pub fn state_to_str(&self) -> (r: &'static str)
        ensures
            r@ == spec_state_name(self.spec_current()),
    {
        let state: Button = Button::from(self.current);
        match state {
            Button::NoButton => "None or Multiple",
            Button::Up => "Up",
            Button::Down => "Down",
            Button::Left => "Left",
            Button::Right => "Right",
            Button::A => "A",
            Button::B => "B",
            Button::X => "X",
            Button::Y => "Y",
            Button::Start => "Start",
            Button::Select => "Select",
            Button::LeftTrigger => "LeftTrigger",
            Button::RightTrigger => "RightTrigger",
            Button::LeftShoulder => "LeftShoulder",
            Button::RightShoulder => "RightShoulder",
            Button::Menu => "Menu",
        }
    }

    /// Sets or clears `button`'s bit in the current state.
    pub fn set(&mut self, button: Button, value: bool)
        ensures
            final(self).spec_current() == if value {
                old(self).spec_current() | spec_mask(button)
            } else {
                old(self).spec_current() & !spec_mask(button)
            },
            final(self).spec_previous() == old(self).spec_previous(),
    {
        if value {
            self.current = self.current | button.mask();
        } else {
            self.current = self.current & !button.mask();
        }
    }

    /// Snapshots the current state as the previous state; call once at the
    /// start of each frame, before applying that frame's input events.
    pub fn copy_current_to_previous_state(&mut self)
        ensures
            final(self).spec_previous() == old(self).spec_current(),
            final(self).spec_current() == old(self).spec_current(),
    {
        self.previous = self.current;
    }
}

} // verus!
