//! The errors of estimation.

use vstd::prelude::*;

use crate::text::{concat, concat3};

verus! {

/// An I/O error from the standard library.
#[verifier::external_type_specification]
#[verifier::external_body]
pub struct ExIoError(std::io::Error);

/// What can go wrong while reading a configuration or estimating its cost.
#[derive(Debug)]
pub enum PreciousError {
    HclParse(String),
    UnsupportedResource(String),
    MissingField { resource: String, field: String },
    InvalidField { resource: String, field: String, reason: String },
    PricingError(String),
    Io(std::io::Error),
    Serialization(String),
}

/// An error as plain values.
pub ghost enum ErrorView {
    HclParse(Seq<char>),
    UnsupportedResource(Seq<char>),
    MissingField { resource: Seq<char>, field: Seq<char> },
    InvalidField { resource: Seq<char>, field: Seq<char>, reason: Seq<char> },
    PricingError(Seq<char>),
    Io,
    Serialization(Seq<char>),
}

impl View for PreciousError {
    type V = ErrorView;

    open spec fn view(&self) -> ErrorView {
        match self {
            PreciousError::HclParse(m) => ErrorView::HclParse(m@),
            PreciousError::UnsupportedResource(t) => ErrorView::UnsupportedResource(t@),
            PreciousError::MissingField { resource, field } => ErrorView::MissingField { resource: resource@, field: field@ },
            PreciousError::InvalidField { resource, field, reason } => ErrorView::InvalidField {
                resource: resource@,
                field: field@,
                reason: reason@,
            },
            PreciousError::PricingError(m) => ErrorView::PricingError(m@),
            PreciousError::Io(_) => ErrorView::Io,
            PreciousError::Serialization(m) => ErrorView::Serialization(m@),
        }
    }
}

/// The message of an error whose text does not come from the system.
pub open spec fn error_message(e: PreciousError) -> Seq<char> {
    match e {
        PreciousError::HclParse(m) => "failed to parse HCL: "@ + m@,
        PreciousError::UnsupportedResource(t) => "unsupported resource type: "@ + t@,
        PreciousError::MissingField { resource, field } => "missing required field '"@ + field@
            + "' on resource '"@ + resource@ + "'"@,
        PreciousError::InvalidField { resource, field, reason } => "invalid value for field '"@
            + field@ + "' on resource '"@ + resource@ + "': "@ + reason@,
        PreciousError::PricingError(m) => "pricing lookup failed: "@ + m@,
        PreciousError::Io(_) => "IO error: "@,
        PreciousError::Serialization(m) => "serialization error: "@ + m@,
    }
}

/// The text of an I/O error, by `<std::io::Error as Display>::to_string`.
///
/// Nothing is claimed of the text: the description of an operating-system
/// error comes from the system.
#[verifier::external_body]
fn io_error_text(e: &std::io::Error) -> String {
    e.to_string()
}

impl PreciousError {
    /// The message of this error (its `Display`); for an I/O error, the prefix
    /// is followed by the system's description.
    pub fn message(&self) -> (s: String)
        ensures
            !(self is Io) ==> s@ == error_message(*self),
            self is Io ==> crate::text::is_prefix("IO error: "@, s@),
    {
        match self {
            PreciousError::HclParse(m) => concat("failed to parse HCL: ", m.as_str()),
            PreciousError::UnsupportedResource(t) => concat("unsupported resource type: ", t.as_str()),
            PreciousError::MissingField { resource, field } => {
                let mut s = concat3("missing required field '", field.as_str(), "' on resource '");
                s.append(resource.as_str());
                s.append("'");
                s
            },
            PreciousError::InvalidField { resource, field, reason } => {
                let mut s = concat3("invalid value for field '", field.as_str(), "' on resource '");
                s.append(resource.as_str());
                s.append("': ");
                s.append(reason.as_str());
                s
            },
            PreciousError::PricingError(m) => concat("pricing lookup failed: ", m.as_str()),
            PreciousError::Io(e) => {
                let t = io_error_text(e);
                let s = concat("IO error: ", t.as_str());
                assert(s@.subrange(0, "IO error: "@.len() as int) =~= "IO error: "@);
                s
            },
            PreciousError::Serialization(m) => concat("serialization error: ", m.as_str()),
        }
    }
}

} // verus!
