//! The status LED, as a model that development machines use in place of the
//! board's GPIO pin.
use vstd::prelude::*;

verus! {

/// Stand-in for the LED hardware: it only remembers whether the LED is lit.
#[derive(Debug)]
pub struct MockHardware {
    led_state: bool,
}

impl MockHardware {
    /// Whether the LED is lit.
    pub closed spec fn lit(&self) -> bool {
        self.led_state
    }

    /// A LED that is off.
    pub fn new() -> (r: MockHardware)
        ensures
            !r.lit(),
    {
        MockHardware { led_state: false }
    }

    /// Lights the LED.
    pub fn led_on(&mut self)
        ensures
            final(self).lit(),
    {
        self.led_state = true;
    }

    /// Puts the LED out.
    pub fn led_off(&mut self)
        ensures
            !final(self).lit(),
    {
        self.led_state = false;
    }

    /// Whether the LED is lit.
    pub fn is_lit(&self) -> (r: bool)
        ensures
            r == self.lit(),
    {
        self.led_state
    }
}

impl Default for MockHardware {
    fn default() -> (r: MockHardware)
        ensures
            !r.lit(),
    {
        MockHardware::new()
    }
}

/// The LED hardware of a machine without GPIO pins: the model, switched off.
pub fn get_hardware() -> (r: MockHardware)
    ensures
        !r.lit(),
{
    MockHardware::new()
}

} // verus!
