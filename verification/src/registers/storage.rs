//! Registers of the attached energy-storage unit.

use vstd::prelude::*;
use super::{Access, Register, Type};

verus! {

#[verifier::allow_in_spec]
pub fn running_status() -> Register
    returns
        (Register {
            address: 37000,
            quantity: 1,
            gain: 0,
            unit: None,
            access: Access::RO,
            typ: Type::U16,
            name: "RUNNING_STATUS",
        }),
{
    Register {
        address: 37000,
        quantity: 1,
        gain: 0,
        unit: None,
        access: Access::RO,
        typ: Type::U16,
        name: "RUNNING_STATUS",
    }
}

#[verifier::allow_in_spec]
pub fn charge_discharge_power() -> Register
    returns
        (Register {
            address: 37001,
            quantity: 2,
            gain: 0,
            unit: Some("W"),
            access: Access::RO,
            typ: Type::I32,
            name: "CHARGE_DISCHARGE_POWER",
        }),
{
    Register {
        address: 37001,
        quantity: 2,
        gain: 0,
        unit: Some("W"),
        access: Access::RO,
        typ: Type::I32,
        name: "CHARGE_DISCHARGE_POWER",
    }
}

#[verifier::allow_in_spec]
pub fn charge_capacity_day() -> Register
    returns
        (Register {
            address: 37015,
            quantity: 2,
            gain: 2,
            unit: Some("kWh"),
            access: Access::RO,
            typ: Type::U32,
            name: "CHARGE_CAPACITY_DAY",
        }),
{
    Register {
        address: 37015,
        quantity: 2,
        gain: 2,
        unit: Some("kWh"),
        access: Access::RO,
        typ: Type::U32,
        name: "CHARGE_CAPACITY_DAY",
    }
}

#[verifier::allow_in_spec]
pub fn discharge_capacity_day() -> Register
    returns
        (Register {
            address: 37017,
            quantity: 2,
            gain: 2,
            unit: Some("kWh"),
            access: Access::RO,
            typ: Type::U32,
            name: "DISCHARGE_CAPACITY_DAY",
        }),
{
    Register {
        address: 37017,
        quantity: 2,
        gain: 2,
        unit: Some("kWh"),
        access: Access::RO,
        typ: Type::U32,
        name: "DISCHARGE_CAPACITY_DAY",
    }
}

/// What each running-status code of the storage unit means; codes outside
/// the table have no reading.
pub open spec fn spec_running_status(status: u16) -> Option<Seq<char>> {
    match status {
        0u16 => Some("offline"@),
        1u16 => Some("standby"@),
        2u16 => Some("running"@),
        3u16 => Some("fault"@),
        4u16 => Some("sleep mode"@),
        _ => None,
    }
}

/// The text of a storage running-status code, exactly as the table gives it.
pub fn running_status_to_string(status: u16) -> (r: Option<&'static str>)
    ensures
        match r {
            Some(s) => spec_running_status(status) == Some(s@),
            None => spec_running_status(status) is None,
        },
{
    match status {
        0 => Some("offline"),
        1 => Some("standby"),
        2 => Some("running"),
        3 => Some("fault"),
        4 => Some("sleep mode"),
        _ => None,
    }
}

} // verus!
