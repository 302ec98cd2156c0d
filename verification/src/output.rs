//! The two audio outputs and their numeric codes.

use vstd::prelude::*;

use crate::value::ParamValue;

verus! {

/// One of the two audio destinations of the device.
#[derive(Clone, Copy, Debug, PartialEq, Eq, Structural)]
pub enum Output {
    Headphones,
    Speakers,
}

/// The output that a numeric code stands for, if any.
pub open spec fn output_of_code(code: int) -> Option<Output> {
    if code == 0 {
        Some(Output::Headphones)
    } else if code == 1 {
        Some(Output::Speakers)
    } else {
        None
    }
}

/// The output that a device value selects: only the unsigned values 0 and 1 select one.
pub open spec fn output_of_value(value: ParamValue) -> Option<Output> {
    match value {
        ParamValue::U32(n) => output_of_code(n as int),
        _ => None,
    }
}

impl Output {
    /// The numeric code of this output: 0 for headphones, 1 for speakers.
    pub open spec fn code_spec(self) -> u8 {
        match self {
            Output::Headphones => 0u8,
            Output::Speakers => 1u8,
        }
    }

    /// The code that the device selector and the button state use for this output.
    #[verifier::when_used_as_spec(code_spec)]
    pub fn code(self) -> (c: u8)
        ensures
            c == self.code_spec(),
            output_of_code(c as int) == Some(self),
    {
        match self {
            Output::Headphones => 0,
            Output::Speakers => 1,
        }
    }

    /// Reads a button state code: 0 is headphones, 1 is speakers, anything else is unknown.
    pub fn from_code(code: u8) -> (o: Option<Output>)
        ensures
            o == output_of_code(code as int),
    {
        if code == 0 {
            Some(Output::Headphones)
        } else if code == 1 {
            Some(Output::Speakers)
        } else {
            None
        }
    }

    /// Reads the value of the device's output selector. Values other than the
    /// unsigned integers 0 and 1 name no output.
    pub fn try_from(value: &ParamValue) -> (o: Option<Output>)
        ensures
            o == output_of_value(*value),
    {
        match value {
            ParamValue::U32(n) => {
                if *n == 0 {
                    Some(Output::Headphones)
                } else if *n == 1 {
                    Some(Output::Speakers)
                } else {
                    None
                }
            },
            _ => None,
        }
    }
}

impl From<Output> for u8 {
    /// The numeric code of the output.
    fn from(output: Output) -> (code: u8) {
        output.code()
    }
}

impl vstd::std_specs::convert::FromSpecImpl<Output> for u8 {
    open spec fn obeys_from_spec() -> bool {
        true
    }

    open spec fn from_spec(output: Output) -> u8 {
        output.code_spec()
    }
}

/// Every output is read back from its own code, as a button state and as a selector value.
pub proof fn lemma_code_round_trip(output: Output)
    ensures
        output_of_code(output.code_spec() as int) == Some(output),
        output_of_value(ParamValue::U32(output.code_spec() as u32)) == Some(output),
        output.code_spec() <= 1,
{
}

} // verus!
