//! Light-emitting diodes.
//!
//! Each board LED is one bit of a GPIO data register; the model tracks the
//! level the driver last drove.

pub mod rgb;

use vstd::prelude::*;

verus! {

/// Index of one of the four board LEDs.
#[derive(Clone, Copy, Debug, PartialEq, Eq, Structural)]
pub enum LedIndex {
    Led0,
    Led1,
    Led2,
    Led3,
}

impl LedIndex {
    /// The LED's position among the four board LEDs.
    pub open spec fn spec_value(self) -> u32 {
        match self {
            Self::Led0 => 0,
            Self::Led1 => 1,
            Self::Led2 => 2,
            Self::Led3 => 3,
        }
    }

    /// The LED's position among the four board LEDs.
    pub fn to_u32(self) -> (result: u32)
        ensures
            result == self.spec_value(),
    {
        match self {
            Self::Led0 => 0,
            Self::Led1 => 1,
            Self::Led2 => 2,
            Self::Led3 => 3,
        }
    }
}

/// Interface for one board LED.
#[derive(Clone, Copy, Debug, PartialEq, Eq, Structural)]
pub struct Led {
    /// Address of the data register that drives the LED.
    pub address: u32,
    /// Bit index of the LED within that register.
    pub index: u32,
    /// The level the driver last drove.
    pub lit: bool,
}

impl Led {
    /// Enable or disable the LED.
    pub fn toggle(&mut self, enable: bool)
        ensures
            *final(self) == (Led { lit: enable, ..*old(self) }),
    {
        self.lit = enable;
    }
}

/// Interface for the four board LEDs.
pub struct Leds {
    /// Board LEDs, ordered by [`LedIndex`].
    pub leds: [Led; 4],
}

/// Find the first position holding the wanted LED index.
fn position_of(indices: &[LedIndex; 4], wanted: LedIndex) -> (result: u32)
    requires
        exists|position: int| 0 <= position < 4 && indices[position] == wanted,
    ensures
        result < 4,
        indices[result as int] == wanted,
{
    let mut position: u32 = 0;
    while position < 4
        invariant
            position <= 4,
            exists|later: int| 0 <= later < 4 && indices[later] == wanted,
            forall|earlier: int| 0 <= earlier < position ==> indices[earlier] != wanted,
        decreases 4 - position,
    {
        if indices[position as usize] == wanted {
            return position;
        }
        position = position + 1;
    }
    proof {
        assert(false);
    }
    0
}

impl Leds {
    /// Configure the LEDs' shared register address and their bit order:
    /// `indices[position]` names the LED driven by bit `position`.  Every
    /// LED must appear in the order.
    pub fn configure(address: u32, indices: [LedIndex; 4]) -> (result: Self)
        requires
            exists|position: int| 0 <= position < 4 && indices[position] is Led0,
            exists|position: int| 0 <= position < 4 && indices[position] is Led1,
            exists|position: int| 0 <= position < 4 && indices[position] is Led2,
            exists|position: int| 0 <= position < 4 && indices[position] is Led3,
        ensures
            forall|led: int|
                0 <= led < 4 ==> result.leds[led].address == address && !result.leds[led].lit
                    && result.leds[led].index < 4,
            indices[result.leds[0].index as int] is Led0,
            indices[result.leds[1].index as int] is Led1,
            indices[result.leds[2].index as int] is Led2,
            indices[result.leds[3].index as int] is Led3,
    {
        proof {
            assert(forall|position: int|
                0 <= position < 4 && indices[position] is Led0 ==> indices[position]
                    == LedIndex::Led0);
            assert(forall|position: int|
                0 <= position < 4 && indices[position] is Led1 ==> indices[position]
                    == LedIndex::Led1);
            assert(forall|position: int|
                0 <= position < 4 && indices[position] is Led2 ==> indices[position]
                    == LedIndex::Led2);
            assert(forall|position: int|
                0 <= position < 4 && indices[position] is Led3 ==> indices[position]
                    == LedIndex::Led3);
        }
        let led0_index = position_of(&indices, LedIndex::Led0);
        let led1_index = position_of(&indices, LedIndex::Led1);
        let led2_index = position_of(&indices, LedIndex::Led2);
        let led3_index = position_of(&indices, LedIndex::Led3);
        Self {
            leds: [
                Led { address, index: led0_index, lit: false },
                Led { address, index: led1_index, lit: false },
                Led { address, index: led2_index, lit: false },
                Led { address, index: led3_index, lit: false },
            ],
        }
    }

    /// Get an LED by its index.
    pub fn get_led(&self, index: LedIndex) -> (result: &Led)
        ensures
            *result == self.leds[index.spec_value() as int],
    {
        let index = index.to_u32();
        &self.leds[index as usize]
    }

    /// Enable or disable one LED.
    pub fn toggle_led(&mut self, index: LedIndex, enable: bool)
        ensures
            final(self).leds[index.spec_value() as int] == (Led {
                lit: enable,
                ..old(self).leds[index.spec_value() as int]
            }),
            forall|led: int|
                0 <= led < 4 && led != index.spec_value() ==> final(self).leds[led] == old(
                    self,
                ).leds[led],
    {
        let position = index.to_u32();
        let mut led = self.leds[position as usize];
        led.toggle(enable);
        self.leds[position as usize] = led;
    }

    /// Enable or disable all LEDs.
    pub fn toggle_all(&mut self, enable: bool)
        ensures
            forall|led: int|
                0 <= led < 4 ==> final(self).leds[led] == (Led {
                    lit: enable,
                    ..old(self).leds[led]
                }),
    {
        let mut position: usize = 0;
        while position < 4
            invariant
                position <= 4,
                forall|led: int|
                    0 <= led < position ==> self.leds[led] == (Led {
                        lit: enable,
                        ..old(self).leds[led]
                    }),
                forall|led: int| position <= led < 4 ==> self.leds[led] == old(self).leds[led],
            decreases 4 - position,
        {
            let mut led = self.leds[position];
            led.toggle(enable);
            self.leds[position] = led;
            position = position + 1;
        }
    }
}

} // verus!
