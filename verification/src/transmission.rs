//! Reading a transmission description into a type and a gear count.
//!
//! A description is tried against seven forms in a fixed order; the first
//! form whose marker occurs in the text decides the type and where the gear
//! count stands. A text whose gear count cannot be read under that form is
//! rejected: no later form is tried.

use vstd::prelude::*;
use crate::text::{chars_of, contains, contains_text, find, find_text, parse_u32, parse_unsigned, slice_chars};

verus! {

/// The kinds of transmission that a description can name.
#[derive(Clone, Copy, Debug, PartialEq, Eq, Structural)]
pub enum TransmissionType {
    Manual,
    Cvt,
    SemiAutoVariant,
    AutoManualVariant,
    SemiAutomatic,
    Automatic,
}

/// Why a description was rejected.
#[derive(Clone, Copy, Debug, PartialEq, Eq, Structural)]
pub enum ParseError {
    /// The text lacks the marker or bracket that the form expects, or has
    /// them in the wrong order.
    Pattern,
    /// The place of the gear count holds no positive number.
    Number,
}

impl TransmissionType {
    /// The code under which test records name this type.
    pub open spec fn code_text(self) -> Seq<char> {
        match self {
            TransmissionType::Manual => "M"@,
            TransmissionType::Cvt => "CVT"@,
            TransmissionType::SemiAutoVariant => "SCV"@,
            TransmissionType::AutoManualVariant => "AMS"@,
            TransmissionType::SemiAutomatic => "SA"@,
            TransmissionType::Automatic => "A"@,
        }
    }

    /// The code under which test records name this type.
    pub fn code(self) -> (r: &'static str)
        ensures
            r@ == self.code_text(),
    {
        match self {
            TransmissionType::Manual => "M",
            TransmissionType::Cvt => "CVT",
            TransmissionType::SemiAutoVariant => "SCV",
            TransmissionType::AutoManualVariant => "AMS",
            TransmissionType::SemiAutomatic => "SA",
            TransmissionType::Automatic => "A",
        }
    }
}

/// The gear count that `field` writes: a positive number.
pub open spec fn gear_number(field: Seq<char>) -> Result<int, ParseError> {
    match parse_unsigned(field) {
        Some(n) => if n >= 1 {
            Ok(n)
        } else {
            Err(ParseError::Number)
        },
        None => Err(ParseError::Number),
    }
}

/// The gear count written by the one character before the first `marker`.
pub open spec fn gear_before(text: Seq<char>, marker: Seq<char>) -> Result<int, ParseError> {
    match find_text(text, marker) {
        Some(i) => if i >= 1 {
            gear_number(text.subrange(i - 1, i))
        } else {
            Err(ParseError::Pattern)
        },
        None => Err(ParseError::Pattern),
    }
}

/// The gear count written between the end of the first `open` and the first
/// `close`.
pub open spec fn gear_between(text: Seq<char>, open: Seq<char>, close: Seq<char>) -> Result<
    int,
    ParseError,
> {
    match (find_text(text, open), find_text(text, close)) {
        (Some(i), Some(j)) => if i + open.len() <= j {
            gear_number(text.subrange(i + open.len(), j))
        } else {
            Err(ParseError::Pattern)
        },
        _ => Err(ParseError::Pattern),
    }
}

/// The type that `text` names: decided by the first of the markers, in this
/// order, that occurs in it.
pub open spec fn transmission_kind(text: Seq<char>) -> TransmissionType {
    if contains_text(text, "Manual"@) {
        TransmissionType::Manual
    } else if contains_text(text, "variable gear ratios"@) {
        TransmissionType::Cvt
    } else if contains_text(text, "AV-S"@) {
        TransmissionType::SemiAutoVariant
    } else if contains_text(text, "AM-S"@) {
        TransmissionType::AutoManualVariant
    } else if contains_text(text, "S"@) {
        TransmissionType::SemiAutomatic
    } else {
        TransmissionType::Automatic
    }
}

/// The gear count of `text` under the form that decides its type.
pub open spec fn transmission_gears(text: Seq<char>) -> Result<int, ParseError> {
    match transmission_kind(text) {
        TransmissionType::Manual => gear_before(text, "-spd"@),
        TransmissionType::Cvt => Ok(1),
        TransmissionType::SemiAutoVariant => gear_between(text, "S"@, ")"@),
        TransmissionType::AutoManualVariant => gear_between(text, "S"@, ")"@),
        TransmissionType::SemiAutomatic => gear_between(text, "S"@, ")"@),
        TransmissionType::Automatic => if contains_text(text, "-spd"@) {
            gear_before(text, "-spd"@)
        } else {
            gear_between(text, "(A"@, ")"@)
        },
    }
}

/// What a transmission description decodes to.
pub open spec fn decoded(text: Seq<char>) -> Result<(TransmissionType, u32), ParseError> {
    match transmission_gears(text) {
        Ok(n) => Ok((transmission_kind(text), n as u32)),
        Err(e) => Err(e),
    }
}

fn read_gear_number(field: &Vec<char>) -> (r: Result<u32, ParseError>)
    ensures
        r matches Ok(n) ==> gear_number(field@) == Ok::<int, ParseError>(n as int),
        r matches Err(e) ==> gear_number(field@) == Err::<int, ParseError>(e),
{
    match parse_u32(field) {
        Some(n) => if n >= 1 {
            Ok(n)
        } else {
            Err(ParseError::Number)
        },
        None => Err(ParseError::Number),
    }
}

fn read_gear_before(text: &Vec<char>, marker: &Vec<char>) -> (r: Result<u32, ParseError>)
    ensures
        r matches Ok(n) ==> gear_before(text@, marker@) == Ok::<int, ParseError>(n as int),
        r matches Err(e) ==> gear_before(text@, marker@) == Err::<int, ParseError>(e),
{
    match find(text, marker) {
        Some(i) => if i >= 1 {
            let field = slice_chars(text, i - 1, i);
            read_gear_number(&field)
        } else {
            Err(ParseError::Pattern)
        },
        None => Err(ParseError::Pattern),
    }
}

fn read_gear_between(text: &Vec<char>, open: &Vec<char>, close: &Vec<char>) -> (r: Result<
    u32,
    ParseError,
>)
    ensures
        r matches Ok(n) ==> gear_between(text@, open@, close@) == Ok::<int, ParseError>(n as int),
        r matches Err(e) ==> gear_between(text@, open@, close@) == Err::<int, ParseError>(e),
{
    let start = find(text, open);
    let end = find(text, close);
    match (start, end) {
        (Some(i), Some(j)) => if open.len() <= j && i <= j - open.len() {
            let field = slice_chars(text, i + open.len(), j);
            read_gear_number(&field)
        } else {
            Err(ParseError::Pattern)
        },
        _ => Err(ParseError::Pattern),
    }
}

/// Decodes a transmission description into its type and gear count.
///
/// The forms, in the order in which they are tried:
/// 1. the text holds `Manual`: manual, the digit before `-spd`;
/// 2. it holds `variable gear ratios`: continuously variable, one gear;
/// 3. it holds `AV-S`: the number between the first `S` and the first `)`;
/// 4. it holds `AM-S`: likewise;
/// 5. it holds `S`: semi-automatic, likewise;
/// 6. it holds `-spd`: automatic, the digit before `-spd`;
/// 7. otherwise: automatic, the number between `(A` and `)`.
pub fn decode_transmission(text: &str) -> (r: Result<(TransmissionType, u32), ParseError>)
    ensures
        r == decoded(text@),
{
    let chars = chars_of(text);
    let spd = chars_of("-spd");
    let s = chars_of("S");
    let close = chars_of(")");
    if contains(&chars, &chars_of("Manual")) {
        match read_gear_before(&chars, &spd) {
            Ok(n) => Ok((TransmissionType::Manual, n)),
            Err(e) => Err(e),
        }
    } else if contains(&chars, &chars_of("variable gear ratios")) {
        Ok((TransmissionType::Cvt, 1))
    } else if contains(&chars, &chars_of("AV-S")) {
        match read_gear_between(&chars, &s, &close) {
            Ok(n) => Ok((TransmissionType::SemiAutoVariant, n)),
            Err(e) => Err(e),
        }
    } else if contains(&chars, &chars_of("AM-S")) {
        match read_gear_between(&chars, &s, &close) {
            Ok(n) => Ok((TransmissionType::AutoManualVariant, n)),
            Err(e) => Err(e),
        }
    } else if contains(&chars, &s) {
        match read_gear_between(&chars, &s, &close) {
            Ok(n) => Ok((TransmissionType::SemiAutomatic, n)),
            Err(e) => Err(e),
        }
    } else if contains(&chars, &spd) {
        match read_gear_before(&chars, &spd) {
            Ok(n) => Ok((TransmissionType::Automatic, n)),
            Err(e) => Err(e),
        }
    } else {
        match read_gear_between(&chars, &chars_of("(A"), &close) {
            Ok(n) => Ok((TransmissionType::Automatic, n)),
            Err(e) => Err(e),
        }
    }
}

} // verus!
