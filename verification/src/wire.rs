//! Declaration of the outside wire-message wrapper type, so that verified
//! code can pass it around and read its one field.

use cita_cloud_proto::common::StatusCode as ProtoStatusCode;
use vstd::prelude::*;

verus! {

/// Relies on `cita_cloud_proto::common::StatusCode` being a plain message
/// struct with the single public field `code: u32`; declaring it lets
/// verified code read and build that field directly.
#[verifier::external_type_specification]
pub struct ExProtoStatusCode(ProtoStatusCode);

} // verus!
