//! Typed signing certificates. Extracting the fields from the
//! certificate data is a collaborator's business; the typed record holds
//! them as plain values.

use vstd::prelude::*;

verus! {

/// A signing certificate, reduced to the fields this tooling reads.
#[derive(Debug, Clone)]
pub struct Certificate {
    /// e.g. "Apple Development: a name (a team identifier)".
    pub common_name: String,
    /// e.g. the developer's name.
    pub organization_name: Option<String>,
}

impl Certificate {
    pub fn new(common_name: String, organization_name: Option<String>) -> (r: Certificate)
        ensures
            r.common_name@ == common_name@,
            r.organization_name == organization_name,
    {
        Certificate { common_name, organization_name }
    }
}

/// A certificate field that could not be read.
#[derive(Debug, Clone)]
pub enum X509FieldError {
    /// The named field is missing.
    FieldMissing { name: String },
    /// The field held text that is not valid UTF-8.
    FieldNotValidUtf8 { name: String },
}

/// Why a certificate could not be turned into a [`Certificate`].
#[derive(Debug, Clone)]
pub enum FromX509Error {
    CommonNameMissing(X509FieldError),
}

} // verus!
