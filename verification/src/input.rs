//! Controller input: the latest sample and which buttons changed since the
//! one before.
use vstd::prelude::*;
use crate::sys::ctrl::{CtrlButtons, SceCtrlData};

verus! {

/// The controller buttons.
pub type Buttons = CtrlButtons;

/// The controller state: the latest sample and the buttons that changed
/// with it.
#[derive(Clone)]
pub struct Input {
    ctrl_data: SceCtrlData,
    just_modified: Buttons,
}

/// What an [`Input`] holds.
pub struct InputModel {
    pub ctrl_data: SceCtrlData,
    pub just_modified: u32,
}

impl View for Input {
    type V = InputModel;

    closed spec fn view(&self) -> InputModel {
        InputModel { ctrl_data: self.ctrl_data, just_modified: self.just_modified@ }
    }
}

/// Every bit of `button` is set in `bits`.
pub open spec fn holds(bits: u32, button: u32) -> bool {
    bits & button == button
}

impl Default for Input {
    fn default() -> (i: Self)
        ensures
            i@.ctrl_data.timestamp == 0,
            i@.ctrl_data.buttons@ == 0,
            i@.ctrl_data.lx == 0,
            i@.ctrl_data.ly == 0,
            i@.just_modified == 0,
    {
        Input { ctrl_data: SceCtrlData::zeroed(), just_modified: CtrlButtons::empty() }
    }
}

impl Input {
    /// Takes a new controller sample: the buttons that differ from the
    /// previous sample are the ones just modified.
    pub fn read_mut(&mut self, sample: SceCtrlData)
        ensures
            final(self)@.ctrl_data == sample,
            final(self)@.just_modified == sample.buttons@ ^ old(self)@.ctrl_data.buttons@,
    {
        let previous_ctrl = self.ctrl_data.buttons;
        self.ctrl_data = sample;
        self.just_modified = self.ctrl_data.buttons.symmetric_difference(previous_ctrl);
    }

    /// The time of the latest sample.
    pub fn timestamp(&self) -> (t: u32)
        ensures
            t == self@.ctrl_data.timestamp,
    {
        self.ctrl_data.timestamp
    }

    /// `button` is held.
    pub fn button_pressed(&self, button: Buttons) -> (b: bool)
        ensures
            b == holds(self@.ctrl_data.buttons@, button@),
    {
        self.ctrl_data.buttons.contains(button)
    }

    /// `button` changed with the latest sample.
    pub fn button_just_modified(&self, button: Buttons) -> (b: bool)
        ensures
            b == holds(self@.just_modified, button@),
    {
        self.just_modified.contains(button)
    }

    /// `button` is held and changed with the latest sample.
    pub fn button_just_pressed(&self, button: Buttons) -> (b: bool)
        ensures
            b == (holds(self@.ctrl_data.buttons@, button@) && holds(self@.just_modified, button@)),
    {
        self.button_pressed(button) && self.button_just_modified(button)
    }

    /// `button` is not held and changed with the latest sample.
    pub fn button_just_released(&self, button: Buttons) -> (b: bool)
        ensures
            b == (!holds(self@.ctrl_data.buttons@, button@) && holds(self@.just_modified, button@)),
    {
        (!self.button_pressed(button)) && self.button_just_modified(button)
    }

    /// The analog stick's position.
    pub fn analog_stick(&self) -> (p: (u8, u8))
        ensures
            p == (self@.ctrl_data.lx, self@.ctrl_data.ly),
    {
        (self.ctrl_data.lx, self.ctrl_data.ly)
    }
}

proof fn lemma_single_bit(new: u32, old: u32, b: u32)
    by (bit_vector)
    requires
        b != 0,
        b & ((b - 1) as u32) == 0,
    ensures
        ((new ^ old) & b == b) == ((new & b == b) != (old & b == b)),
{
}

/// Law: after a sample is taken, a single button is just pressed exactly
/// when it is held now and was not held in the previous sample, and just
/// released exactly when it was held before and is not held now.
pub proof fn law_just_pressed_released(before: InputModel, after: InputModel, button: u32)
    requires
        button != 0,
        button & ((button - 1) as u32) == 0,
        after.just_modified == after.ctrl_data.buttons@ ^ before.ctrl_data.buttons@,
    ensures
        (holds(after.ctrl_data.buttons@, button) && holds(after.just_modified, button)) == (holds(
            after.ctrl_data.buttons@,
            button,
        ) && !holds(before.ctrl_data.buttons@, button)),
        (!holds(after.ctrl_data.buttons@, button) && holds(after.just_modified, button)) == (!holds(
            after.ctrl_data.buttons@,
            button,
        ) && holds(before.ctrl_data.buttons@, button)),
{
    lemma_single_bit(after.ctrl_data.buttons@, before.ctrl_data.buttons@, button);
}

} // verus!
