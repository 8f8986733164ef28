//! The errors the engine surfaces.
//!
//! Everything fails fast to the caller: a rejected field value, a raw value
//! that does not decode, a store image that does not parse, or a failure of
//! the store itself. The last two arise only in the adapter around this
//! crate, which constructs them through the public variants.

use vstd::prelude::*;
use vstd::string::StringExecFns;

verus! {

/// Mathematical image of an [`OVConfigError`].
pub enum ErrorModel {
    BadValue { section: Seq<char>, key: Seq<char>, value: Seq<char> },
    ParseConfigError(Seq<char>),
    ParseValueError(Seq<char>),
    IoError(Seq<char>),
}

/// An error of the configuration engine.
///
/// `BadValue` names the section and key whose value a predicate rejected,
/// with the value written as raw text. `ParseValueError` carries the
/// decoder's account of a raw value that did not decode.
/// `ParseConfigError` and `IoError` carry the store adapter's account of a
/// store image that did not parse, or of a failing read or write.
#[derive(Debug)]
pub enum OVConfigError {
    BadValue { section: String, key: String, value: String },
    ParseConfigError(String),
    ParseValueError(String),
    IoError(String),
}

impl View for OVConfigError {
    type V = ErrorModel;

    open spec fn view(&self) -> ErrorModel {
        match self {
            OVConfigError::BadValue { section, key, value } => ErrorModel::BadValue {
                section: section@,
                key: key@,
                value: value@,
            },
            OVConfigError::ParseConfigError(s) => ErrorModel::ParseConfigError(s@),
            OVConfigError::ParseValueError(s) => ErrorModel::ParseValueError(s@),
            OVConfigError::IoError(s) => ErrorModel::IoError(s@),
        }
    }
}

/// The one-line text of an error.
pub open spec fn message_of(e: ErrorModel) -> Seq<char> {
    match e {
        ErrorModel::BadValue { section, key, value } => "OVConfigError: Bad ["@ + section + "]::"@
            + key + ". Found: "@ + value,
        ErrorModel::ParseConfigError(s) => "ParseConfigError: "@ + s,
        ErrorModel::ParseValueError(s) => "ParseValueError: "@ + s,
        ErrorModel::IoError(s) => "IoError: "@ + s,
    }
}

impl OVConfigError {
    /// Renders the error as its one-line text.
    pub fn message(&self) -> (r: String)
        ensures
            r@ == message_of(self@),
    {
        match self {
            OVConfigError::BadValue { section, key, value } => {
                let mut m = "OVConfigError: Bad [".to_owned();
                m.append(section.as_str());
                m.append("]::");
                m.append(key.as_str());
                m.append(". Found: ");
                m.append(value.as_str());
                proof {
                    assert(m@ =~= message_of(self@));
                }
                m
            },
            OVConfigError::ParseConfigError(s) => {
                let mut m = "ParseConfigError: ".to_owned();
                m.append(s.as_str());
                m
            },
            OVConfigError::ParseValueError(s) => {
                let mut m = "ParseValueError: ".to_owned();
                m.append(s.as_str());
                m
            },
            OVConfigError::IoError(s) => {
                let mut m = "IoError: ".to_owned();
                m.append(s.as_str());
                m
            },
        }
    }

    /// Whether the error is a rejected field value.
    pub fn is_bad_value(&self) -> (r: bool)
        ensures
            r == (self@ is BadValue),
    {
        match self {
            OVConfigError::BadValue { .. } => true,
            _ => false,
        }
    }
}

} // verus!
