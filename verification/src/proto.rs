//! Interop with the wire-message wrapper of the platform's protocol crate,
//! which carries a status purely as a bare `u32` field. Converting inbound
//! decodes that field; converting outbound encodes the discriminant into it.

use crate::codes::StatusCode;
use vstd::prelude::*;

verus! {

impl From<cita_cloud_proto::common::StatusCode> for StatusCode {
    fn from(status: cita_cloud_proto::common::StatusCode) -> StatusCode {
        StatusCode::from_code(status.code as u64)
    }
}

impl vstd::std_specs::convert::FromSpecImpl<cita_cloud_proto::common::StatusCode> for StatusCode {
    open spec fn obeys_from_spec() -> bool {
        true
    }

    open spec fn from_spec(v: cita_cloud_proto::common::StatusCode) -> StatusCode {
        StatusCode::status_spec(v.code as int)
    }
}

impl From<StatusCode> for cita_cloud_proto::common::StatusCode {
    fn from(v: StatusCode) -> cita_cloud_proto::common::StatusCode {
        cita_cloud_proto::common::StatusCode { code: v.code() as u32 }
    }
}

impl vstd::std_specs::convert::FromSpecImpl<StatusCode> for cita_cloud_proto::common::StatusCode {
    open spec fn obeys_from_spec() -> bool {
        true
    }

    open spec fn from_spec(v: StatusCode) -> cita_cloud_proto::common::StatusCode {
        cita_cloud_proto::common::StatusCode { code: v.code_spec() as u32 }
    }
}

} // verus!
