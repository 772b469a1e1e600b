//! Identity of the sled whose metrics are published.
use vstd::prelude::*;

verus! {

/// The baseboard of a sled, as far as metric labels need it.
#[derive(Clone, Debug, PartialEq, Eq)]
pub enum Baseboard {
    Gimlet { identifier: String, model: String, revision: u32 },
    Unknown,
    Pc { identifier: String, model: String },
}

/// The serial number used to label metrics of a sled with this baseboard.
pub open spec fn serial_of(b: Baseboard) -> Seq<char> {
    match b {
        Baseboard::Gimlet { identifier, .. } => identifier@,
        Baseboard::Unknown => "unknown"@,
        Baseboard::Pc { identifier, .. } => identifier@,
    }
}

impl Baseboard {
    /// The identifier of identified hardware, or "unknown".
    pub fn serial_number(&self) -> (r: String)
        ensures
            r@ == serial_of(*self),
    {
        match self {
            Baseboard::Gimlet { identifier, .. } => identifier.clone(),
            Baseboard::Unknown => String::from_str("unknown"),
            Baseboard::Pc { identifier, .. } => identifier.clone(),
        }
    }
}

/// Identifying information attached to every metric of a sled.
#[derive(Debug)]
pub struct SledIdentifiers {
    pub sled_id: uuid::Uuid,
    pub rack_id: uuid::Uuid,
    pub baseboard: Baseboard,
}

} // verus!
