//! Light-emitting diode with colors.
//!
//! Each color channel is one bit of a GPIO data register; the model tracks
//! the levels the driver last drove.

use vstd::prelude::*;

verus! {

/// Interface for one board RGB LED.
#[derive(Clone, Copy, Debug, PartialEq, Eq, Structural)]
pub struct RgbLed {
    /// Address of the register driving the red channel.
    pub address_red: u32,
    /// Address of the register driving the green channel.
    pub address_green: u32,
    /// Address of the register driving the blue channel.
    pub address_blue: u32,
    /// Bit index of the red channel.
    pub index_red: u32,
    /// Bit index of the green channel.
    pub index_green: u32,
    /// Bit index of the blue channel.
    pub index_blue: u32,
    /// The level the driver last drove on the red channel.
    pub lit_red: bool,
    /// The level the driver last drove on the green channel.
    pub lit_green: bool,
    /// The level the driver last drove on the blue channel.
    pub lit_blue: bool,
}

impl RgbLed {
    /// An RGB LED with every color disabled.
    pub fn new(addresses: [u32; 3], indices: [u32; 3]) -> (result: Self)
        ensures
            result == (RgbLed {
                address_red: addresses[0],
                address_green: addresses[1],
                address_blue: addresses[2],
                index_red: indices[0],
                index_green: indices[1],
                index_blue: indices[2],
                lit_red: false,
                lit_green: false,
                lit_blue: false,
            }),
    {
        Self {
            address_red: addresses[0],
            address_green: addresses[1],
            address_blue: addresses[2],
            index_red: indices[0],
            index_green: indices[1],
            index_blue: indices[2],
            lit_red: false,
            lit_green: false,
            lit_blue: false,
        }
    }

    /// Get the color channels' register addresses.
    pub fn addresses(&self) -> (result: [u32; 3])
        ensures
            result == [self.address_red, self.address_green, self.address_blue],
    {
        [self.address_red, self.address_green, self.address_blue]
    }

    /// Get the color channels' bit indices.
    pub fn indices(&self) -> (result: [u32; 3])
        ensures
            result == [self.index_red, self.index_green, self.index_blue],
    {
        [self.index_red, self.index_green, self.index_blue]
    }

    /// Enable or disable the red color.
    pub fn toggle_red(&mut self, enable: bool)
        ensures
            *final(self) == (RgbLed { lit_red: enable, ..*old(self) }),
    {
        self.lit_red = enable;
    }

    /// Enable or disable the green color.
    pub fn toggle_green(&mut self, enable: bool)
        ensures
            *final(self) == (RgbLed { lit_green: enable, ..*old(self) }),
    {
        self.lit_green = enable;
    }

    /// Enable or disable the blue color.
    pub fn toggle_blue(&mut self, enable: bool)
        ensures
            *final(self) == (RgbLed { lit_blue: enable, ..*old(self) }),
    {
        self.lit_blue = enable;
    }

    /// Enable or disable all three colors at once.
    pub fn toggle(&mut self, enable_red: bool, enable_green: bool, enable_blue: bool)
        ensures
            *final(self) == (RgbLed {
                lit_red: enable_red,
                lit_green: enable_green,
                lit_blue: enable_blue,
                ..*old(self)
            }),
    {
        self.toggle_red(enable_red);
        self.toggle_green(enable_green);
        self.toggle_blue(enable_blue);
    }

    /// Disable the RGB LED.
    pub fn clear(&mut self)
        ensures
            *final(self) == (RgbLed {
                lit_red: false,
                lit_green: false,
                lit_blue: false,
                ..*old(self)
            }),
    {
        self.toggle(false, false, false);
    }
}

/// Interface for the board's RGB LEDs.
pub struct RgbLeds {
    /// The two board RGB LEDs.
    pub leds: [RgbLed; 2],
}

impl RgbLeds {
    /// The pair of board RGB LEDs.
    pub fn new(leds: [RgbLed; 2]) -> (result: Self)
        ensures
            result.leds == leds,
    {
        Self { leds }
    }

    /// Disable all board RGB LEDs.
    pub fn clear(&mut self)
        ensures
            forall|led: int|
                0 <= led < 2 ==> final(self).leds[led] == (RgbLed {
                    lit_red: false,
                    lit_green: false,
                    lit_blue: false,
                    ..old(self).leds[led]
                }),
    {
        let mut position: usize = 0;
        while position < 2
            invariant
                position <= 2,
                forall|led: int|
                    0 <= led < position ==> self.leds[led] == (RgbLed {
                        lit_red: false,
                        lit_green: false,
                        lit_blue: false,
                        ..old(self).leds[led]
                    }),
                forall|led: int| position <= led < 2 ==> self.leds[led] == old(self).leds[led],
            decreases 2 - position,
        {
            let mut led = self.leds[position];
            led.clear();
            self.leds[position] = led;
            position = position + 1;
        }
    }
}

} // verus!
