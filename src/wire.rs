use vstd::prelude::*;

verus! {

/// A gRPC status code; its variants are visible to proofs.
#[verifier::external_type_specification]
pub struct ExCode(tonic::Code);

/// A gRPC status: a code, a message and opaque details.
#[verifier::external_type_specification]
#[verifier::external_body]
pub struct ExStatus(tonic::Status);

/// A protobuf timestamp: seconds since the Unix epoch and a nanosecond fraction.
#[verifier::external_type_specification]
pub struct ExTimestamp(prost_types::Timestamp);

/// One row mutation of the database's wire protocol, carried opaquely.
#[verifier::external_type_specification]
#[verifier::external_body]
pub struct ExMutation(google_cloud_googleapis::spanner::v1::Mutation);

/// Relies on tonic::Status::code, which returns the status's code field.
pub assume_specification[ tonic::Status::code ](status: &tonic::Status) -> (r: tonic::Code);

/// Relies on the derived `Clone` of the protobuf `Mutation`, which copies every field.
pub assume_specification[ <google_cloud_googleapis::spanner::v1::Mutation as Clone>::clone ](
    m: &google_cloud_googleapis::spanner::v1::Mutation,
) -> (r: google_cloud_googleapis::spanner::v1::Mutation)
    ensures
        r == *m,
;

} // verus!
