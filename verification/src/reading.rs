//! The one domain entity: a decoded sensor observation.

use vstd::prelude::*;

verus! {

/// A JSON number exactly as the payload carried it: a sign, an integer
/// mantissa and a base-ten exponent, so that `positive`/`mantissa`/`exponent`
/// denote the value `(-1)^(1-positive) * mantissa * 10^exponent`.
#[derive(Clone, Copy, Debug, PartialEq, Eq, Structural)]
pub struct JsonNumber {
    pub positive: bool,
    pub mantissa: u64,
    pub exponent: i16,
}

impl JsonNumber {
    /// Assemble a number from its `(sign, mantissa, exponent)` triple.
    pub fn from_parts(parts: (bool, u64, i16)) -> (r: JsonNumber)
        ensures
            r.positive == parts.0,
            r.mantissa == parts.1,
            r.exponent == parts.2,
    {
        JsonNumber { positive: parts.0, mantissa: parts.1, exponent: parts.2 }
    }
}

/// One decoded sensor observation, built strictly from a single inbound
/// message. Each field is `None` where the payload's key is absent or its
/// value has the wrong type; a reading with all three fields absent is
/// still insertable.
#[derive(Clone, Debug)]
pub struct Reading {
    pub temperature: Option<JsonNumber>,
    pub relative_humidity: Option<JsonNumber>,
    pub time: Option<String>,
}

/// Mathematical model of a `Reading`: each numeric field as its
/// `(sign, mantissa, exponent)` triple, the timestamp as its characters.
#[verifier::ext_equal]
pub struct ReadingModel {
    pub temperature: Option<(bool, u64, i16)>,
    pub relative_humidity: Option<(bool, u64, i16)>,
    pub time: Option<Seq<char>>,
}

impl View for Reading {
    type V = ReadingModel;

    open spec fn view(&self) -> ReadingModel {
        ReadingModel {
            temperature: match self.temperature {
                Some(n) => Some((n.positive, n.mantissa, n.exponent)),
                None => None,
            },
            relative_humidity: match self.relative_humidity {
                Some(n) => Some((n.positive, n.mantissa, n.exponent)),
                None => None,
            },
            time: match self.time {
                Some(t) => Some(t@),
                None => None,
            },
        }
    }
}

} // verus!
