use vstd::prelude::*;
use crate::text::str_eq;

verus! {

/// The EVM rule sets a compiler can target, named as a compiler input's
/// `evmVersion` field names them.
#[derive(Debug, Clone, Copy, PartialEq, Eq, Structural)]
pub enum EvmVersion {
    Homestead,
    TangerineWhistle,
    SpuriousDragon,
    Byzantium,
    Constantinople,
    Petersburg,
    Istanbul,
    Berlin,
    London,
    Paris,
    Shanghai,
}

pub open spec fn evm_name(v: EvmVersion) -> Seq<char> {
    match v {
        EvmVersion::Homestead => "homestead"@,
        EvmVersion::TangerineWhistle => "tangerineWhistle"@,
        EvmVersion::SpuriousDragon => "spuriousDragon"@,
        EvmVersion::Byzantium => "byzantium"@,
        EvmVersion::Constantinople => "constantinople"@,
        EvmVersion::Petersburg => "petersburg"@,
        EvmVersion::Istanbul => "istanbul"@,
        EvmVersion::Berlin => "berlin"@,
        EvmVersion::London => "london"@,
        EvmVersion::Paris => "paris"@,
        EvmVersion::Shanghai => "shanghai"@,
    }
}

pub open spec fn evm_of_name(s: Seq<char>) -> Option<EvmVersion> {
    if s == "homestead"@ {
        Some(EvmVersion::Homestead)
    } else if s == "tangerineWhistle"@ {
        Some(EvmVersion::TangerineWhistle)
    } else if s == "spuriousDragon"@ {
        Some(EvmVersion::SpuriousDragon)
    } else if s == "byzantium"@ {
        Some(EvmVersion::Byzantium)
    } else if s == "constantinople"@ {
        Some(EvmVersion::Constantinople)
    } else if s == "petersburg"@ {
        Some(EvmVersion::Petersburg)
    } else if s == "istanbul"@ {
        Some(EvmVersion::Istanbul)
    } else if s == "berlin"@ {
        Some(EvmVersion::Berlin)
    } else if s == "london"@ {
        Some(EvmVersion::London)
    } else if s == "paris"@ {
        Some(EvmVersion::Paris)
    } else if s == "shanghai"@ {
        Some(EvmVersion::Shanghai)
    } else {
        None
    }
}

/// Reads an EVM target by its name; `None` exactly on names outside the
/// catalogue.
pub fn parse_evm_version(s: &str) -> (r: Option<EvmVersion>)
    ensures
        r == evm_of_name(s@),
{
    if str_eq(s, "homestead") {
        Some(EvmVersion::Homestead)
    } else if str_eq(s, "tangerineWhistle") {
        Some(EvmVersion::TangerineWhistle)
    } else if str_eq(s, "spuriousDragon") {
        Some(EvmVersion::SpuriousDragon)
    } else if str_eq(s, "byzantium") {
        Some(EvmVersion::Byzantium)
    } else if str_eq(s, "constantinople") {
        Some(EvmVersion::Constantinople)
    } else if str_eq(s, "petersburg") {
        Some(EvmVersion::Petersburg)
    } else if str_eq(s, "istanbul") {
        Some(EvmVersion::Istanbul)
    } else if str_eq(s, "berlin") {
        Some(EvmVersion::Berlin)
    } else if str_eq(s, "london") {
        Some(EvmVersion::London)
    } else if str_eq(s, "paris") {
        Some(EvmVersion::Paris)
    } else if str_eq(s, "shanghai") {
        Some(EvmVersion::Shanghai)
    } else {
        None
    }
}

impl EvmVersion {
    /// The name under which a compiler input refers to this target.
    pub fn as_name(&self) -> (r: &'static str)
        ensures
            r@ == evm_name(*self),
    {
        match self {
            EvmVersion::Homestead => "homestead",
            EvmVersion::TangerineWhistle => "tangerineWhistle",
            EvmVersion::SpuriousDragon => "spuriousDragon",
            EvmVersion::Byzantium => "byzantium",
            EvmVersion::Constantinople => "constantinople",
            EvmVersion::Petersburg => "petersburg",
            EvmVersion::Istanbul => "istanbul",
            EvmVersion::Berlin => "berlin",
            EvmVersion::London => "london",
            EvmVersion::Paris => "paris",
            EvmVersion::Shanghai => "shanghai",
        }
    }
}

} // verus!
