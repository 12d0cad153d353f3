//! The pins of the board, found by their index.

use vstd::prelude::*;

verus! {

/// The number of pins that the board offers.
pub const PIN_COUNT: usize = 24;

/// The index of the pin that drives the LED of the board.
pub const LED_PIN: u8 = 25;

/// Where the pin of a given index is kept, if the board has such a pin.
/// The indices 0 to 22 are general pins; index 25 is the LED. The indices
/// 23 and 24, and all above 25, name no pin.
pub open spec fn spec_pin_slot(idx: u8) -> Option<usize> {
    if idx <= 22 {
        Some(idx as usize)
    } else if idx == LED_PIN {
        Some(23)
    } else {
        None
    }
}

/// Where the pin of index `idx` is kept; `None` when the board has no pin
/// of that index.
pub fn pin_slot(idx: u8) -> (r: Option<usize>)
    ensures
        r == spec_pin_slot(idx),
        r matches Some(slot) ==> slot < PIN_COUNT,
{
    if idx <= 22 {
        Some(idx as usize)
    } else if idx == LED_PIN {
        Some(23)
    } else {
        None
    }
}

/// No two indices share a pin, and every slot holds the pin of some index.
pub proof fn lemma_pin_slots_are_distinct(a: u8, b: u8, slot: usize)
    ensures
        spec_pin_slot(a) is Some && spec_pin_slot(a) == spec_pin_slot(b) ==> a == b,
        slot < PIN_COUNT ==> exists|idx: u8| spec_pin_slot(idx) == Some(slot),
{
    if slot < PIN_COUNT {
        if slot == 23 {
            assert(spec_pin_slot(LED_PIN) == Some(slot));
        } else {
            assert(spec_pin_slot(slot as u8) == Some(slot));
        }
    }
}

/// The pins of the board, each of them a handle of type `P`.
pub struct GpioController<P> {
    pins: [P; PIN_COUNT],
}

impl<P> View for GpioController<P> {
    type V = Seq<P>;

    /// The handles, by slot.
    closed spec fn view(&self) -> Seq<P> {
        self.pins@
    }
}

impl<P> GpioController<P> {
    /// Takes the handles of the board: those of the pins 0 to 22 in order,
    /// then that of the LED.
    pub fn new(pins: [P; PIN_COUNT]) -> (r: Self)
        ensures
            r@ == pins@,
    {
        Self { pins }
    }

    /// Lends the handle of the pin of index `idx`; `None` when the board
    /// has no pin of that index.
    pub fn borrow(&mut self, idx: u8) -> (r: Option<&mut P>)
        ensures
            old(self)@.len() == PIN_COUNT,
            r is Some <==> spec_pin_slot(idx) is Some,
            match r {
                Some(pin) => *pin == old(self)@[spec_pin_slot(idx).unwrap() as int]
                    && final(self)@ == old(self)@.update(
                    spec_pin_slot(idx).unwrap() as int,
                    *final(pin),
                ),
                None => final(self)@ == old(self)@,
            },
    {
        match pin_slot(idx) {
            Some(slot) => Some(&mut self.pins[slot]),
            None => None,
        }
    }
}

} // verus!
