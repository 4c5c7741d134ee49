//! Types of other crates that the library carries without looking into them.

use vstd::prelude::*;

verus! {

/// `std::io::Error`: carried, never looked into.
#[verifier::external_type_specification]
#[verifier::external_body]
pub struct ExIoError(std::io::Error);

/// `std::string::FromUtf8Error`: carried, never looked into.
#[verifier::external_type_specification]
#[verifier::external_body]
pub struct ExFromUtf8Error(std::string::FromUtf8Error);

/// `tokio::task::JoinError`: carried, never looked into.
#[verifier::external_type_specification]
#[verifier::external_body]
pub struct ExJoinError(tokio::task::JoinError);

/// `tokio::sync::mpsc::error::SendError`: carried, never looked into.
#[verifier::external_type_specification]
#[verifier::external_body]
#[verifier::reject_recursive_types(T)]
pub struct ExSendError<T>(tokio::sync::mpsc::error::SendError<T>);

/// `kube::Error`: carried, never looked into.
#[verifier::external_type_specification]
#[verifier::external_body]
pub struct ExKubeError(kube::Error);

/// `rustls::Error`: carried, never looked into.
#[verifier::external_type_specification]
#[verifier::external_body]
pub struct ExRustlsError(rustls::Error);

/// `data_encoding::SpecificationError`: carried, never looked into.
#[verifier::external_type_specification]
#[verifier::external_body]
pub struct ExSpecificationError(data_encoding::SpecificationError);

} // verus!
