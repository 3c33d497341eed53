//! The event types an input device can report, and the button codes of the
//! key event type, each tied to its fixed numeric code.
use vstd::prelude::*;

verus! {

/// A top-level category of input capability.
#[derive(Clone, Copy, Debug, PartialEq, Eq, Structural)]
pub enum EventType {
    Synchro,
    Key,
    Relative,
    Absolute,
    Miscellaneous,
    Switch,
    LED,
    Sound,
    Repeat,
    FF,
    Power,
    FFStatus,
}

/// The numeric code of each event type.
pub open spec fn type_code(t: EventType) -> u8 {
    match t {
        EventType::Synchro => 0x00u8,
        EventType::Key => 0x01u8,
        EventType::Relative => 0x02u8,
        EventType::Absolute => 0x03u8,
        EventType::Miscellaneous => 0x04u8,
        EventType::Switch => 0x05u8,
        EventType::LED => 0x11u8,
        EventType::Sound => 0x12u8,
        EventType::Repeat => 0x14u8,
        EventType::FF => 0x15u8,
        EventType::Power => 0x16u8,
        EventType::FFStatus => 0x17u8,
    }
}

/// The event type whose code is `c`, if there is one.
pub open spec fn type_of_code(c: int) -> Option<EventType> {
    if c == 0x00 {
        Some(EventType::Synchro)
    } else if c == 0x01 {
        Some(EventType::Key)
    } else if c == 0x02 {
        Some(EventType::Relative)
    } else if c == 0x03 {
        Some(EventType::Absolute)
    } else if c == 0x04 {
        Some(EventType::Miscellaneous)
    } else if c == 0x05 {
        Some(EventType::Switch)
    } else if c == 0x11 {
        Some(EventType::LED)
    } else if c == 0x12 {
        Some(EventType::Sound)
    } else if c == 0x14 {
        Some(EventType::Repeat)
    } else if c == 0x15 {
        Some(EventType::FF)
    } else if c == 0x16 {
        Some(EventType::Power)
    } else if c == 0x17 {
        Some(EventType::FFStatus)
    } else {
        None
    }
}

/// The two tables are inverse to each other.
pub proof fn lemma_type_code_inverse(t: EventType, c: int)
    ensures
        type_of_code(type_code(t) as int) == Some(t),
        type_of_code(c) == Some(t) <==> c == type_code(t) as int,
{
}

impl EventType {
    /// The event type with code `code`, or `None` where no type has it.
    pub fn new(code: u8) -> (r: Option<EventType>)
        ensures
            r == type_of_code(code as int),
    {
        match code {
            0x00 => Some(EventType::Synchro),
            0x01 => Some(EventType::Key),
            0x02 => Some(EventType::Relative),
            0x03 => Some(EventType::Absolute),
            0x04 => Some(EventType::Miscellaneous),
            0x05 => Some(EventType::Switch),
            0x11 => Some(EventType::LED),
            0x12 => Some(EventType::Sound),
            0x14 => Some(EventType::Repeat),
            0x15 => Some(EventType::FF),
            0x16 => Some(EventType::Power),
            0x17 => Some(EventType::FFStatus),
            _ => None,
        }
    }

    /// The numeric code of this event type.
    pub fn code(&self) -> (r: u8)
        ensures
            r == type_code(*self),
    {
        match self {
            EventType::Synchro => 0x00,
            EventType::Key => 0x01,
            EventType::Relative => 0x02,
            EventType::Absolute => 0x03,
            EventType::Miscellaneous => 0x04,
            EventType::Switch => 0x05,
            EventType::LED => 0x11,
            EventType::Sound => 0x12,
            EventType::Repeat => 0x14,
            EventType::FF => 0x15,
            EventType::Power => 0x16,
            EventType::FFStatus => 0x17,
        }
    }
}

/// A button code of the key event type.
#[derive(Clone, Copy, Debug, PartialEq, Eq, Structural)]
pub enum EventCode {
    ButtonLeft,
    ButtonRight,
    ButtonMiddle,
    ButtonSide,
    ButtonExtra,
    ButtonForward,
    ButtonBack,
    ButtonTask,
}

/// The numeric code of each button.
pub open spec fn event_code_value(c: EventCode) -> u16 {
    match c {
        EventCode::ButtonLeft => 0x110u16,
        EventCode::ButtonRight => 0x111u16,
        EventCode::ButtonMiddle => 0x112u16,
        EventCode::ButtonSide => 0x113u16,
        EventCode::ButtonExtra => 0x114u16,
        EventCode::ButtonForward => 0x115u16,
        EventCode::ButtonBack => 0x116u16,
        EventCode::ButtonTask => 0x117u16,
    }
}

/// The button of the key event type whose code is `i`, if there is one.
pub open spec fn key_code_of(i: int) -> Option<EventCode> {
    if i == 0x110 {
        Some(EventCode::ButtonLeft)
    } else if i == 0x111 {
        Some(EventCode::ButtonRight)
    } else if i == 0x112 {
        Some(EventCode::ButtonMiddle)
    } else if i == 0x113 {
        Some(EventCode::ButtonSide)
    } else if i == 0x114 {
        Some(EventCode::ButtonExtra)
    } else if i == 0x115 {
        Some(EventCode::ButtonForward)
    } else if i == 0x116 {
        Some(EventCode::ButtonBack)
    } else if i == 0x117 {
        Some(EventCode::ButtonTask)
    } else {
        None
    }
}

/// The two tables of button codes are inverse to each other.
pub proof fn lemma_event_code_inverse(c: EventCode, i: int)
    ensures
        key_code_of(event_code_value(c) as int) == Some(c),
        key_code_of(i) == Some(c) <==> i == event_code_value(c) as int,
{
}

impl EventCode {
    /// The button numbered `index` under the key event type, or `None`
    /// where no modelled button has that code. Only the key type has codes
    /// here, over the indices below 0x300.
    pub fn new(event_type: EventType, index: usize) -> (r: Option<EventCode>)
        requires
            event_type == EventType::Key,
            index < 0x300,
        ensures
            r == key_code_of(index as int),
    {
        match event_type {
            EventType::Key => match index {
                0x110 => Some(EventCode::ButtonLeft),
                0x111 => Some(EventCode::ButtonRight),
                0x112 => Some(EventCode::ButtonMiddle),
                0x113 => Some(EventCode::ButtonSide),
                0x114 => Some(EventCode::ButtonExtra),
                0x115 => Some(EventCode::ButtonForward),
                0x116 => Some(EventCode::ButtonBack),
                0x117 => Some(EventCode::ButtonTask),
                _ => None,
            },
            _ => None,
        }
    }

    /// The numeric code of this button.
    pub fn code(&self) -> (r: u16)
        ensures
            r == event_code_value(*self),
    {
        match self {
            EventCode::ButtonLeft => 0x110,
            EventCode::ButtonRight => 0x111,
            EventCode::ButtonMiddle => 0x112,
            EventCode::ButtonSide => 0x113,
            EventCode::ButtonExtra => 0x114,
            EventCode::ButtonForward => 0x115,
            EventCode::ButtonBack => 0x116,
            EventCode::ButtonTask => 0x117,
        }
    }
}

} // verus!
