//! Interface for comparing the voltage of two pins.
//!
//! In differential mode the reference is another analog input pin; in
//! single-ended mode it is one of the internal reference voltages. The enums
//! name the pins and modes, with exact conversions to and from the numbers a
//! chip's registers use.

use vstd::prelude::*;

verus! {

/// An analog input pin.
#[derive(Copy, Clone, Debug, PartialEq, Eq, Structural)]
pub enum Pin {
    /// Analog input 0.
    AIN0,
    /// Analog input 1.
    AIN1,
    /// Analog input 2.
    AIN2,
    /// Analog input 3.
    AIN3,
    /// Analog input 4.
    AIN4,
    /// Analog input 5.
    AIN5,
    /// Analog input 6.
    AIN6,
    /// Analog input 7.
    AIN7,
    /// A number that names no input pin.
    ERROR,
}

/// The pin number of each input pin, with 8 for the error marker.
pub open spec fn spec_pin_num(pin: Pin) -> u32 {
    match pin {
        Pin::AIN0 => 0,
        Pin::AIN1 => 1,
        Pin::AIN2 => 2,
        Pin::AIN3 => 3,
        Pin::AIN4 => 4,
        Pin::AIN5 => 5,
        Pin::AIN6 => 6,
        Pin::AIN7 => 7,
        Pin::ERROR => 8,
    }
}

/// The pin number corresponding to the pin name.
pub fn return_pin_num(pin: Pin) -> (r: u32)
    ensures
        r == spec_pin_num(pin),
{
    match pin {
        Pin::AIN0 => 0,
        Pin::AIN1 => 1,
        Pin::AIN2 => 2,
        Pin::AIN3 => 3,
        Pin::AIN4 => 4,
        Pin::AIN5 => 5,
        Pin::AIN6 => 6,
        Pin::AIN7 => 7,
        Pin::ERROR => 8,
    }
}

/// The pin name corresponding to the pin number; numbers above 7 name no
/// pin.
pub fn return_pin_enum(pin_num: u32) -> (r: Pin)
    ensures
        pin_num <= 7 ==> spec_pin_num(r) == pin_num,
        pin_num > 7 ==> r == Pin::ERROR,
{
    match pin_num {
        0 => Pin::AIN0,
        1 => Pin::AIN1,
        2 => Pin::AIN2,
        3 => Pin::AIN3,
        4 => Pin::AIN4,
        5 => Pin::AIN5,
        6 => Pin::AIN6,
        7 => Pin::AIN7,
        _ => Pin::ERROR,
    }
}

/// A reference pin for single-ended mode: an analog input or one of the
/// internal reference voltages.
#[derive(Copy, Clone, Debug, PartialEq, Eq, Structural)]
pub enum RefPin {
    /// Analog input 0.
    AIN0,
    /// Analog input 1.
    AIN1,
    /// Analog input 2.
    AIN2,
    /// Analog input 3.
    AIN3,
    /// Analog input 4.
    AIN4,
    /// Analog input 5.
    AIN5,
    /// Analog input 6.
    AIN6,
    /// Analog input 7.
    AIN7,
    /// The internal 1.2 volt reference.
    Int1V2,
    /// The internal 1.8 volt reference.
    Int1V8,
    /// The internal 2.4 volt reference.
    Int2V4,
    /// The supply voltage.
    VDD,
    /// The external analog reference.
    ARef,
    /// A number that names no reference pin.
    ERROR,
}

/// The reference-pin number of each reference pin, with 13 for the error
/// marker.
pub open spec fn spec_ref_pin_num(ref_pin: RefPin) -> u32 {
    match ref_pin {
        RefPin::AIN0 => 0,
        RefPin::AIN1 => 1,
        RefPin::AIN2 => 2,
        RefPin::AIN3 => 3,
        RefPin::AIN4 => 4,
        RefPin::AIN5 => 5,
        RefPin::AIN6 => 6,
        RefPin::AIN7 => 7,
        RefPin::Int1V2 => 8,
        RefPin::Int1V8 => 9,
        RefPin::Int2V4 => 10,
        RefPin::VDD => 11,
        RefPin::ARef => 12,
        RefPin::ERROR => 13,
    }
}

/// The reference-pin number corresponding to the reference pin name.
pub fn return_ref_pin_num(ref_pin: RefPin) -> (r: u32)
    ensures
        r == spec_ref_pin_num(ref_pin),
{
    match ref_pin {
        RefPin::AIN0 => 0,
        RefPin::AIN1 => 1,
        RefPin::AIN2 => 2,
        RefPin::AIN3 => 3,
        RefPin::AIN4 => 4,
        RefPin::AIN5 => 5,
        RefPin::AIN6 => 6,
        RefPin::AIN7 => 7,
        RefPin::Int1V2 => 8,
        RefPin::Int1V8 => 9,
        RefPin::Int2V4 => 10,
        RefPin::VDD => 11,
        RefPin::ARef => 12,
        RefPin::ERROR => 13,
    }
}

/// The reference pin name corresponding to the reference-pin number;
/// numbers above 12 name no reference pin.
pub fn return_ref_pin_enum(ref_pin_num: u32) -> (r: RefPin)
    ensures
        ref_pin_num <= 12 ==> spec_ref_pin_num(r) == ref_pin_num,
        ref_pin_num > 12 ==> r == RefPin::ERROR,
{
    match ref_pin_num {
        0 => RefPin::AIN0,
        1 => RefPin::AIN1,
        2 => RefPin::AIN2,
        3 => RefPin::AIN3,
        4 => RefPin::AIN4,
        5 => RefPin::AIN5,
        6 => RefPin::AIN6,
        7 => RefPin::AIN7,
        8 => RefPin::Int1V2,
        9 => RefPin::Int1V8,
        10 => RefPin::Int2V4,
        11 => RefPin::VDD,
        12 => RefPin::ARef,
        _ => RefPin::ERROR,
    }
}

/// The comparator's main operation modes: single-ended or differential.
#[derive(Copy, Clone, Debug, PartialEq, Eq, Structural)]
pub enum OpModes {
    /// Single-ended mode, comparing one pin against a reference voltage.
    SE,
    /// Differential mode, comparing two pins against each other.
    Diff,
}

/// The mode number of each main operation mode.
pub open spec fn spec_op_mode(opmode: OpModes) -> u32 {
    match opmode {
        OpModes::SE => 0,
        OpModes::Diff => 1,
    }
}

/// The mode number corresponding to the main operation mode.
pub fn return_op_mode(opmode: OpModes) -> (r: u32)
    ensures
        r == spec_op_mode(opmode),
{
    match opmode {
        OpModes::SE => 0,
        OpModes::Diff => 1,
    }
}

/// The comparator's speed and power modes.
#[derive(Copy, Clone, Debug, PartialEq, Eq, Structural)]
pub enum SPModes {
    /// Low speed, low power.
    Low,
    /// Normal speed and power.
    Normal,
    /// High speed, high power.
    High,
}

/// The mode number of each speed and power mode.
pub open spec fn spec_sp_mode(spmode: SPModes) -> u32 {
    match spmode {
        SPModes::Low => 0,
        SPModes::Normal => 1,
        SPModes::High => 2,
    }
}

/// The mode number corresponding to the speed and power mode.
pub fn return_sp_mode(spmode: SPModes) -> (r: u32)
    ensures
        r == spec_sp_mode(spmode),
{
    match spmode {
        SPModes::Low => 0,
        SPModes::Normal => 1,
        SPModes::High => 2,
    }
}

/// Interface an analog comparator implements, generic over the input and
/// reference pin types a chip supports.
pub trait AnalogComparator<I, R> {
    /// Set the input pin for comparison.
    fn set_input(&mut self, input_pin: I);

    /// Set the reference pin.
    fn set_reference(&mut self, ref_pin: R);

    /// Set both the input and the reference pin.
    fn set_both(&mut self, input_pin: I, ref_pin: R);

    /// Start comparing the pin voltages, firing the client on the chosen
    /// edge.
    fn start_comparing(&mut self, input_pin: I, ref_pin: R, rising: bool, mode: OpModes);

    /// Stop the comparator.
    fn stop(&mut self);
}

/// Interface a user of the comparator implements to receive comparison
/// events.
pub trait Client<I, R> {
    /// Called with the edge direction and the pins that were compared.
    fn event(&mut self, rising: bool, input: I, reference: R);
}

} // verus!
