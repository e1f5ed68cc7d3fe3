//! Classification enums: asset classes, instrument types and order book bin
//! aggregators, with their 4-bit wire ids.
//!
//! | ID  | Asset class              | Instrument type        |
//! |-----|--------------------------|------------------------|
//! | 0x0 | Equities (EQ)            | Spot (SPOT)            |
//! | 0x1 | Corporate Bonds (CB)     | Future (FUT)           |
//! | 0x2 | Sovereign Debt (SD)      | Forward (FWD)          |
//! | 0x3 | Forex (FX)               | Swap (SWAP)            |
//! | 0x4 | Commodities (CM)         | Perpetual Swap (PERP)  |
//! | 0x5 | Real Estate (RE)         | CFD (CFD)              |
//! | 0x6 | Crypto Assets (CR)       | Call Option (CALL)     |
//! | 0x7 | Private Markets (PM)     | Put Option (PUT)       |
//! | 0x8 | Collectibles (CL)        | Digital Option (DIGI)  |
//! | 0x9 | Infrastructure (IN)      | Barrier Option (BAR)   |
//! | 0xA | Indices (IP)             | Warrant (WAR)          |
//! | 0xB | Structured Products (SP) | Prediction (PRED)      |
//! | 0xC | Cash & Equivalents (CE)  | Fund or Trust (FUND)   |
//! | 0xD | Loans & Receivables (LR) | Structured (STRUCT)    |
//!
//! Ids 0xE and 0xF are reserved; decoding them gives the variant of id 0.

use vstd::prelude::*;

verus! {

/// Asset class (4-bit id).
#[allow(non_camel_case_types)]
#[derive(Debug, Clone, Copy, PartialEq, Eq, Structural)]
pub enum AssetClass {
    EQ,
    CB,
    SD,
    FX,
    CM,
    RE,
    CR,
    PM,
    CL,
    IN,
    IP,
    SP,
    CE,
    LR,
}

impl AssetClass {
    /// The 4-bit id of the class.
    pub open spec fn spec_id(self) -> u8 {
        match self {
            AssetClass::EQ => 0,
            AssetClass::CB => 1,
            AssetClass::SD => 2,
            AssetClass::FX => 3,
            AssetClass::CM => 4,
            AssetClass::RE => 5,
            AssetClass::CR => 6,
            AssetClass::PM => 7,
            AssetClass::CL => 8,
            AssetClass::IN => 9,
            AssetClass::IP => 10,
            AssetClass::SP => 11,
            AssetClass::CE => 12,
            AssetClass::LR => 13,
        }
    }

    /// The class of a 4-bit id (reserved ids give `EQ`).
    pub open spec fn spec_from_id(id: u8) -> AssetClass {
        if id == 1 {
            AssetClass::CB
        } else if id == 2 {
            AssetClass::SD
        } else if id == 3 {
            AssetClass::FX
        } else if id == 4 {
            AssetClass::CM
        } else if id == 5 {
            AssetClass::RE
        } else if id == 6 {
            AssetClass::CR
        } else if id == 7 {
            AssetClass::PM
        } else if id == 8 {
            AssetClass::CL
        } else if id == 9 {
            AssetClass::IN
        } else if id == 10 {
            AssetClass::IP
        } else if id == 11 {
            AssetClass::SP
        } else if id == 12 {
            AssetClass::CE
        } else if id == 13 {
            AssetClass::LR
        } else {
            AssetClass::EQ
        }
    }

    /// The 4-bit id of the class.
    pub fn id(self) -> (r: u8)
        ensures
            r == self.spec_id(),
            r < 14,
    {
        match self {
            AssetClass::EQ => 0,
            AssetClass::CB => 1,
            AssetClass::SD => 2,
            AssetClass::FX => 3,
            AssetClass::CM => 4,
            AssetClass::RE => 5,
            AssetClass::CR => 6,
            AssetClass::PM => 7,
            AssetClass::CL => 8,
            AssetClass::IN => 9,
            AssetClass::IP => 10,
            AssetClass::SP => 11,
            AssetClass::CE => 12,
            AssetClass::LR => 13,
        }
    }

    /// The class of a 4-bit id (reserved and out-of-range ids give `EQ`).
    pub fn from_id(id: u8) -> (r: AssetClass)
        ensures
            r == Self::spec_from_id(id),
    {
        match id {
            1 => AssetClass::CB,
            2 => AssetClass::SD,
            3 => AssetClass::FX,
            4 => AssetClass::CM,
            5 => AssetClass::RE,
            6 => AssetClass::CR,
            7 => AssetClass::PM,
            8 => AssetClass::CL,
            9 => AssetClass::IN,
            10 => AssetClass::IP,
            11 => AssetClass::SP,
            12 => AssetClass::CE,
            13 => AssetClass::LR,
            _ => AssetClass::EQ,
        }
    }
}

impl AssetClass {
    /// The name of the asset class, as `Debug` prints it.
    pub open spec fn spec_name(self) -> Seq<char> {
        match self {
            AssetClass::EQ => "EQ"@,
            AssetClass::CB => "CB"@,
            AssetClass::SD => "SD"@,
            AssetClass::FX => "FX"@,
            AssetClass::CM => "CM"@,
            AssetClass::RE => "RE"@,
            AssetClass::CR => "CR"@,
            AssetClass::PM => "PM"@,
            AssetClass::CL => "CL"@,
            AssetClass::IN => "IN"@,
            AssetClass::IP => "IP"@,
            AssetClass::SP => "SP"@,
            AssetClass::CE => "CE"@,
            AssetClass::LR => "LR"@,
        }
    }

    /// The name of the asset class, as `Debug` prints it.
    pub fn name(self) -> (r: &'static str)
        ensures
            r@ == self.spec_name(),
    {
        match self {
            AssetClass::EQ => "EQ",
            AssetClass::CB => "CB",
            AssetClass::SD => "SD",
            AssetClass::FX => "FX",
            AssetClass::CM => "CM",
            AssetClass::RE => "RE",
            AssetClass::CR => "CR",
            AssetClass::PM => "PM",
            AssetClass::CL => "CL",
            AssetClass::IN => "IN",
            AssetClass::IP => "IP",
            AssetClass::SP => "SP",
            AssetClass::CE => "CE",
            AssetClass::LR => "LR",
        }
    }
}

/// Instrument type (4-bit id).
#[allow(non_camel_case_types)]
#[derive(Debug, Clone, Copy, PartialEq, Eq, Structural)]
pub enum InstrumentType {
    SPOT,
    FUT,
    FWD,
    SWAP,
    PERP,
    CFD,
    CALL,
    PUT,
    DIGI,
    BAR,
    WAR,
    PRED,
    FUND,
    STRUCT,
}

impl InstrumentType {
    /// The 4-bit id of the type.
    pub open spec fn spec_id(self) -> u8 {
        match self {
            InstrumentType::SPOT => 0,
            InstrumentType::FUT => 1,
            InstrumentType::FWD => 2,
            InstrumentType::SWAP => 3,
            InstrumentType::PERP => 4,
            InstrumentType::CFD => 5,
            InstrumentType::CALL => 6,
            InstrumentType::PUT => 7,
            InstrumentType::DIGI => 8,
            InstrumentType::BAR => 9,
            InstrumentType::WAR => 10,
            InstrumentType::PRED => 11,
            InstrumentType::FUND => 12,
            InstrumentType::STRUCT => 13,
        }
    }

    /// The type of a 4-bit id (reserved ids give `SPOT`).
    pub open spec fn spec_from_id(id: u8) -> InstrumentType {
        if id == 1 {
            InstrumentType::FUT
        } else if id == 2 {
            InstrumentType::FWD
        } else if id == 3 {
            InstrumentType::SWAP
        } else if id == 4 {
            InstrumentType::PERP
        } else if id == 5 {
            InstrumentType::CFD
        } else if id == 6 {
            InstrumentType::CALL
        } else if id == 7 {
            InstrumentType::PUT
        } else if id == 8 {
            InstrumentType::DIGI
        } else if id == 9 {
            InstrumentType::BAR
        } else if id == 10 {
            InstrumentType::WAR
        } else if id == 11 {
            InstrumentType::PRED
        } else if id == 12 {
            InstrumentType::FUND
        } else if id == 13 {
            InstrumentType::STRUCT
        } else {
            InstrumentType::SPOT
        }
    }

    /// The 4-bit id of the type.
    pub fn id(self) -> (r: u8)
        ensures
            r == self.spec_id(),
            r < 14,
    {
        match self {
            InstrumentType::SPOT => 0,
            InstrumentType::FUT => 1,
            InstrumentType::FWD => 2,
            InstrumentType::SWAP => 3,
            InstrumentType::PERP => 4,
            InstrumentType::CFD => 5,
            InstrumentType::CALL => 6,
            InstrumentType::PUT => 7,
            InstrumentType::DIGI => 8,
            InstrumentType::BAR => 9,
            InstrumentType::WAR => 10,
            InstrumentType::PRED => 11,
            InstrumentType::FUND => 12,
            InstrumentType::STRUCT => 13,
        }
    }

    /// The type of a 4-bit id (reserved and out-of-range ids give `SPOT`).
    pub fn from_id(id: u8) -> (r: InstrumentType)
        ensures
            r == Self::spec_from_id(id),
    {
        match id {
            1 => InstrumentType::FUT,
            2 => InstrumentType::FWD,
            3 => InstrumentType::SWAP,
            4 => InstrumentType::PERP,
            5 => InstrumentType::CFD,
            6 => InstrumentType::CALL,
            7 => InstrumentType::PUT,
            8 => InstrumentType::DIGI,
            9 => InstrumentType::BAR,
            10 => InstrumentType::WAR,
            11 => InstrumentType::PRED,
            12 => InstrumentType::FUND,
            13 => InstrumentType::STRUCT,
            _ => InstrumentType::SPOT,
        }
    }
}

/// Aggregation method of order book bins.
#[allow(non_camel_case_types)]
#[derive(Debug, Clone, Copy, PartialEq, Eq, Hash, Structural)]
pub enum BinAggregator {
    /// 0: linear near mid, Gaussian growth.
    DEFAULT_LINGAUSSIAN,
    /// 1: linear, flattened geometric.
    DEFAULT_LINGEOFLAT,
    /// 2: bi-linear, geometric edges.
    DEFAULT_BILINGEO,
    /// 3: tri-linear, steeper edges.
    DEFAULT_TRILINEAR,
}

impl InstrumentType {
    /// The name of the instrument type, as `Debug` prints it.
    pub open spec fn spec_name(self) -> Seq<char> {
        match self {
            InstrumentType::SPOT => "SPOT"@,
            InstrumentType::FUT => "FUT"@,
            InstrumentType::FWD => "FWD"@,
            InstrumentType::SWAP => "SWAP"@,
            InstrumentType::PERP => "PERP"@,
            InstrumentType::CFD => "CFD"@,
            InstrumentType::CALL => "CALL"@,
            InstrumentType::PUT => "PUT"@,
            InstrumentType::DIGI => "DIGI"@,
            InstrumentType::BAR => "BAR"@,
            InstrumentType::WAR => "WAR"@,
            InstrumentType::PRED => "PRED"@,
            InstrumentType::FUND => "FUND"@,
            InstrumentType::STRUCT => "STRUCT"@,
        }
    }

    /// The name of the instrument type, as `Debug` prints it.
    pub fn name(self) -> (r: &'static str)
        ensures
            r@ == self.spec_name(),
    {
        match self {
            InstrumentType::SPOT => "SPOT",
            InstrumentType::FUT => "FUT",
            InstrumentType::FWD => "FWD",
            InstrumentType::SWAP => "SWAP",
            InstrumentType::PERP => "PERP",
            InstrumentType::CFD => "CFD",
            InstrumentType::CALL => "CALL",
            InstrumentType::PUT => "PUT",
            InstrumentType::DIGI => "DIGI",
            InstrumentType::BAR => "BAR",
            InstrumentType::WAR => "WAR",
            InstrumentType::PRED => "PRED",
            InstrumentType::FUND => "FUND",
            InstrumentType::STRUCT => "STRUCT",
        }
    }
}

/// Decoding an id gives back the class or type that has it.
pub proof fn law_class_ids_roundtrip(c: AssetClass, t: InstrumentType)
    ensures
        AssetClass::spec_from_id(c.spec_id()) == c,
        InstrumentType::spec_from_id(t.spec_id()) == t,
{
}

/// The asset classes in the order of the protocol's table (ids 0x0-0xD).
pub open spec fn documented_asset_classes() -> Seq<AssetClass> {
    seq![
        AssetClass::EQ, AssetClass::CB, AssetClass::SD, AssetClass::FX, AssetClass::CM,
        AssetClass::RE, AssetClass::CR, AssetClass::PM, AssetClass::CL, AssetClass::IN,
        AssetClass::IP, AssetClass::SP, AssetClass::CE, AssetClass::LR,
    ]
}

/// The instrument types in the order of the protocol's table (ids 0x0-0xD).
pub open spec fn documented_instrument_types() -> Seq<InstrumentType> {
    seq![
        InstrumentType::SPOT, InstrumentType::FUT, InstrumentType::FWD, InstrumentType::SWAP,
        InstrumentType::PERP, InstrumentType::CFD, InstrumentType::CALL, InstrumentType::PUT,
        InstrumentType::DIGI, InstrumentType::BAR, InstrumentType::WAR, InstrumentType::PRED,
        InstrumentType::FUND, InstrumentType::STRUCT,
    ]
}

/// Every asset class has the id of its row in the protocol's table (EQ 0x0,
/// CB 0x1, ..., CM 0x4, RE 0x5, ..., LR 0xD), every id of the table decodes to
/// its row, and the reserved ids 0xE and 0xF, like any larger id, decode to EQ.
pub proof fn law_asset_class_table(c: AssetClass, id: u8)
    ensures
        documented_asset_classes().len() == 14,
        documented_asset_classes()[c.spec_id() as int] == c,
        id < 14 ==> AssetClass::spec_from_id(id) == documented_asset_classes()[id as int],
        id < 14 ==> documented_asset_classes()[id as int].spec_id() == id,
        id >= 14 ==> AssetClass::spec_from_id(id) == AssetClass::EQ,
{
    let t = documented_asset_classes();
    assert(t[0] == AssetClass::EQ && t[1] == AssetClass::CB && t[2] == AssetClass::SD && t[3] == AssetClass::FX);
    assert(t[4] == AssetClass::CM && t[5] == AssetClass::RE && t[6] == AssetClass::CR && t[7] == AssetClass::PM);
    assert(t[8] == AssetClass::CL && t[9] == AssetClass::IN && t[10] == AssetClass::IP && t[11] == AssetClass::SP);
    assert(t[12] == AssetClass::CE && t[13] == AssetClass::LR);
}

/// Every instrument type has the id of its row in the protocol's table (SPOT
/// 0x0, FUT 0x1, FWD 0x2, SWAP 0x3, PERP 0x4, ..., STRUCT 0xD), every id of
/// the table decodes to its row, and the reserved ids 0xE and 0xF, like any
/// larger id, decode to SPOT.
pub proof fn law_instrument_type_table(t: InstrumentType, id: u8)
    ensures
        documented_instrument_types().len() == 14,
        documented_instrument_types()[t.spec_id() as int] == t,
        id < 14 ==> InstrumentType::spec_from_id(id) == documented_instrument_types()[id as int],
        id < 14 ==> documented_instrument_types()[id as int].spec_id() == id,
        id >= 14 ==> InstrumentType::spec_from_id(id) == InstrumentType::SPOT,
{
    let s = documented_instrument_types();
    assert(s[0] == InstrumentType::SPOT && s[1] == InstrumentType::FUT && s[2] == InstrumentType::FWD);
    assert(s[3] == InstrumentType::SWAP && s[4] == InstrumentType::PERP && s[5] == InstrumentType::CFD);
    assert(s[6] == InstrumentType::CALL && s[7] == InstrumentType::PUT && s[8] == InstrumentType::DIGI);
    assert(s[9] == InstrumentType::BAR && s[10] == InstrumentType::WAR && s[11] == InstrumentType::PRED);
    assert(s[12] == InstrumentType::FUND && s[13] == InstrumentType::STRUCT);
}

} // verus!
