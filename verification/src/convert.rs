//! Conversions between a status code and the unsigned integer widths used on
//! the wire. Encoding is total and exact at every width, because the
//! discriminant space is small; decoding is total because every unknown
//! integer falls back to the `ConvertIntError` sentinel.

use crate::codes::StatusCode;
use vstd::prelude::*;

verus! {

impl From<StatusCode> for u16 {
    fn from(v: StatusCode) -> u16 {
        v.code()
    }
}

impl vstd::std_specs::convert::FromSpecImpl<StatusCode> for u16 {
    open spec fn obeys_from_spec() -> bool {
        true
    }

    open spec fn from_spec(v: StatusCode) -> u16 {
        v.code_spec() as u16
    }
}

impl From<StatusCode> for u32 {
    fn from(v: StatusCode) -> u32 {
        v.code() as u32
    }
}

impl vstd::std_specs::convert::FromSpecImpl<StatusCode> for u32 {
    open spec fn obeys_from_spec() -> bool {
        true
    }

    open spec fn from_spec(v: StatusCode) -> u32 {
        v.code_spec() as u32
    }
}

impl From<StatusCode> for u64 {
    fn from(v: StatusCode) -> u64 {
        v.code() as u64
    }
}

impl vstd::std_specs::convert::FromSpecImpl<StatusCode> for u64 {
    open spec fn obeys_from_spec() -> bool {
        true
    }

    open spec fn from_spec(v: StatusCode) -> u64 {
        v.code_spec() as u64
    }
}

impl From<StatusCode> for u128 {
    fn from(v: StatusCode) -> u128 {
        v.code() as u128
    }
}

impl vstd::std_specs::convert::FromSpecImpl<StatusCode> for u128 {
    open spec fn obeys_from_spec() -> bool {
        true
    }

    open spec fn from_spec(v: StatusCode) -> u128 {
        v.code_spec() as u128
    }
}

impl From<u16> for StatusCode {
    fn from(v: u16) -> StatusCode {
        StatusCode::from_code(v as u64)
    }
}

impl vstd::std_specs::convert::FromSpecImpl<u16> for StatusCode {
    open spec fn obeys_from_spec() -> bool {
        true
    }

    open spec fn from_spec(v: u16) -> StatusCode {
        StatusCode::status_spec(v as int)
    }
}

impl From<u32> for StatusCode {
    fn from(v: u32) -> StatusCode {
        StatusCode::from_code(v as u64)
    }
}

impl vstd::std_specs::convert::FromSpecImpl<u32> for StatusCode {
    open spec fn obeys_from_spec() -> bool {
        true
    }

    open spec fn from_spec(v: u32) -> StatusCode {
        StatusCode::status_spec(v as int)
    }
}

impl From<u64> for StatusCode {
    fn from(v: u64) -> StatusCode {
        StatusCode::from_code(v)
    }
}

impl vstd::std_specs::convert::FromSpecImpl<u64> for StatusCode {
    open spec fn obeys_from_spec() -> bool {
        true
    }

    open spec fn from_spec(v: u64) -> StatusCode {
        StatusCode::status_spec(v as int)
    }
}

impl From<u128> for StatusCode {
    fn from(v: u128) -> StatusCode {
        if v > u64::MAX as u128 {
            StatusCode::ConvertIntError
        } else {
            StatusCode::from_code(v as u64)
        }
    }
}

impl vstd::std_specs::convert::FromSpecImpl<u128> for StatusCode {
    open spec fn obeys_from_spec() -> bool {
        true
    }

    open spec fn from_spec(v: u128) -> StatusCode {
        StatusCode::status_spec(v as int)
    }
}

} // verus!
