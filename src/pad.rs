use vstd::prelude::*;

verus! {

/// Buttons of one joypad.
#[derive(PartialEq, Eq, Structural, Debug, Clone, Copy)]
pub struct PadInput {
    pub a: bool,
    pub b: bool,
    pub select: bool,
    pub start: bool,
    pub up: bool,
    pub down: bool,
    pub left: bool,
    pub right: bool,
}

/// Both joypads.
#[derive(PartialEq, Eq, Structural, Debug, Clone, Copy)]
pub struct PadInputs {
    pub pad1: PadInput,
    pub pad2: PadInput,
}

/// Button `i` in the shift order A, B, Select, Start, Up, Down, Left, Right.
pub open spec fn button(p: PadInput, i: int) -> bool {
    if i == 0 {
        p.a
    } else if i == 1 {
        p.b
    } else if i == 2 {
        p.select
    } else if i == 3 {
        p.start
    } else if i == 4 {
        p.up
    } else if i == 5 {
        p.down
    } else if i == 6 {
        p.left
    } else {
        p.right
    }
}

impl Default for PadInput {
    fn default() -> (r: PadInput)
        ensures
            forall|i: int| 0 <= i < 8 ==> !#[trigger] button(r, i),
    {
        PadInput {
            a: false,
            b: false,
            select: false,
            start: false,
            up: false,
            down: false,
            left: false,
            right: false,
        }
    }
}

impl PadInputs {
    /// Both pads with no button pressed.
    pub fn new() -> (r: PadInputs)
        ensures
            forall|i: int| 0 <= i < 8 ==> !#[trigger] button(r.pad1, i) && !button(r.pad2, i),
    {
        PadInputs { pad1: PadInput::default(), pad2: PadInput::default() }
    }
}

/// Controller shift register: strobe latch and read index.
pub struct Pad {
    read_cycle: u8,
    strobe: bool,
}

impl Pad {
    pub closed spec fn wf(&self) -> bool {
        &&& self.read_cycle <= 8
        &&& self.strobe ==> self.read_cycle == 0
    }

    /// Index of the button that the next read returns.
    pub closed spec fn next_index(&self) -> int {
        if self.strobe {
            0
        } else {
            self.read_cycle as int % 8
        }
    }

    /// Index of the button that the next read returns once the strobe is clear.
    pub closed spec fn shift_index(&self) -> int {
        self.read_cycle as int % 8
    }

    /// The strobe latch.
    pub closed spec fn strobe(&self) -> bool {
        self.strobe
    }

    pub fn new() -> (r: Pad)
        ensures
            r.wf(),
            !r.strobe(),
            r.next_index() == 0,
    {
        Pad { read_cycle: 0, strobe: false }
    }

    /// Returns bit 0 of the shift register and moves to the next button. While the strobe
    /// is set the register keeps reloading, so reads return button A.
    pub fn read(&mut self, input: &PadInput) -> (r: u8)
        requires
            old(self).wf(),
        ensures
            final(self).wf(),
            r == if button(*input, old(self).next_index()) {
                1u8
            } else {
                0u8
            },
            final(self).strobe() == old(self).strobe(),
            !old(self).strobe() ==> final(self).next_index() == (old(self).next_index() + 1) % 8,
            old(self).strobe() ==> final(self).next_index() == 0,
    {
        if self.strobe {
            self.read_cycle = 0;
        } else {
            self.read_cycle = self.read_cycle % 8;
        }
        let i = self.read_cycle;
        let pressed = if i == 0 {
            input.a
        } else if i == 1 {
            input.b
        } else if i == 2 {
            input.select
        } else if i == 3 {
            input.start
        } else if i == 4 {
            input.up
        } else if i == 5 {
            input.down
        } else if i == 6 {
            input.left
        } else {
            input.right
        };
        if !self.strobe {
            self.read_cycle = self.read_cycle + 1;
        }
        if pressed {
            1
        } else {
            0
        }
    }

    /// Sets the strobe latch; setting it reloads the shift register (index 0).
    pub fn set_strobe(&mut self, value: bool)
        requires
            old(self).wf(),
        ensures
            final(self).wf(),
            final(self).strobe() == value,
            final(self).next_index() == if value {
                0
            } else {
                old(self).shift_index()
            },
            !value && !old(self).strobe() ==> final(self).next_index() == old(self).next_index(),
            old(self).strobe() ==> final(self).next_index() == 0,
    {
        self.strobe = value;
        if value {
            self.read_cycle = 0;
        }
    }
}

} // verus!
