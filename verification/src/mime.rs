//! MIME types for poster images, validated at construction.

use vstd::prelude::*;
use crate::paths::{extension_of, spec_extension_of};
use crate::text::str_eq;

verus! {

/// Whether a string is a well-formed Content-Type value. The judgement is
/// the mail library's; only `is_valid_content_type` exhibits it.
pub uninterp spec fn content_type_ok(s: Seq<char>) -> bool;

/// Relies on lettre's `ContentType::parse` (the `mime` crate's grammar
/// for RFC 2045 Content-Type values): whether a string parses depends on
/// its characters alone.
#[verifier::external_body]
fn is_valid_content_type(value: &str) -> (r: bool)
    ensures
        r == content_type_ok(value@),
{
    lettre::message::header::ContentType::parse(value).is_ok()
}

/// Why a MIME type could not be built.
#[derive(Clone, Copy, Debug, PartialEq, Eq, Structural)]
pub enum MimeTypeError {
    /// The string is not a well-formed Content-Type value.
    Invalid,
    /// The path has no extension to identify a type from.
    MissingExtension,
    /// The path's extension names no known image type.
    UnknownExtension,
}

impl MimeTypeError {
    /// A short description of the error.
    pub fn message_str(&self) -> (r: &'static str) {
        match self {
            MimeTypeError::Invalid => "invalid MIME type",
            MimeTypeError::MissingExtension => "file path does not have a valid extension",
            MimeTypeError::UnknownExtension => "could not determine MIME type for unknown extension",
        }
    }
}

/// A validated MIME type string.
#[derive(Debug, PartialEq, Eq, Hash, Clone)]
pub struct MimeType(String);

impl View for MimeType {
    type V = Seq<char>;

    closed spec fn view(&self) -> Seq<char> {
        self.0@
    }
}

/// The image MIME type the given file extension names, if any.
pub open spec fn spec_ext_mime(ext: Seq<char>) -> Option<Seq<char>> {
    if ext == "jpg"@ || ext == "jpeg"@ {
        Some("image/jpeg"@)
    } else if ext == "png"@ {
        Some("image/png"@)
    } else {
        None
    }
}

/// What `MimeType::identify_from_ext` yields for a path, up to the
/// validation of the mapped value.
pub open spec fn spec_identify_from_ext(
    path: Seq<char>,
    r: Result<MimeType, MimeTypeError>,
) -> bool {
    match spec_extension_of(path) {
        None => r == Result::<MimeType, MimeTypeError>::Err(MimeTypeError::MissingExtension),
        Some(ext) => match spec_ext_mime(ext) {
            None => r == Result::<MimeType, MimeTypeError>::Err(MimeTypeError::UnknownExtension),
            Some(m) => match r {
                Ok(mt) => mt@ == m && content_type_ok(m),
                Err(e) => e == MimeTypeError::Invalid && !content_type_ok(m),
            },
        },
    }
}

impl MimeType {
    /// A validated MIME type holds a string the mail library accepts.
    pub open spec fn wf(self) -> bool {
        content_type_ok(self@)
    }

    /// Checks that the mail library accepts `value` as a Content-Type.
    pub fn validate(value: &str) -> (r: Result<(), MimeTypeError>)
        ensures
            r is Ok <==> content_type_ok(value@),
            r is Err ==> r == Result::<(), MimeTypeError>::Err(MimeTypeError::Invalid),
    {
        if is_valid_content_type(value) {
            Ok(())
        } else {
            Err(MimeTypeError::Invalid)
        }
    }

    /// Builds a MIME type after validating the string.
    pub fn new(value: String) -> (r: Result<MimeType, MimeTypeError>)
        ensures
            r is Ok <==> content_type_ok(value@),
            r matches Ok(m) ==> m@ == value@ && m.wf(),
            r is Err ==> r == Result::<MimeType, MimeTypeError>::Err(MimeTypeError::Invalid),
    {
        match MimeType::validate(value.as_str()) {
            Ok(()) => Ok(MimeType(value)),
            Err(e) => Err(e),
        }
    }

    /// The image MIME type the given file extension names, if any.
    pub fn file_ext_to_mime_type(ext: &str) -> (r: Option<&'static str>)
        ensures
            match r {
                Some(m) => spec_ext_mime(ext@) == Some(m@),
                None => spec_ext_mime(ext@) is None,
            },
    {
        if str_eq(ext, "jpg") || str_eq(ext, "jpeg") {
            Some("image/jpeg")
        } else if str_eq(ext, "png") {
            Some("image/png")
        } else {
            None
        }
    }

    /// Identifies the MIME type of a file from its path's extension.
    pub fn identify_from_ext(path: &str) -> (r: Result<MimeType, MimeTypeError>)
        ensures
            spec_identify_from_ext(path@, r),
    {
        let ext = match extension_of(path) {
            None => {
                return Err(MimeTypeError::MissingExtension);
            },
            Some(e) => e,
        };
        let mime = match MimeType::file_ext_to_mime_type(ext) {
            None => {
                return Err(MimeTypeError::UnknownExtension);
            },
            Some(m) => m,
        };
        match MimeType::new(String::from_str(mime)) {
            Ok(mt) => Ok(mt),
            Err(e) => Err(e),
        }
    }

    /// The MIME type as a string.
    pub fn as_str(&self) -> (r: &str)
        ensures
            r@ == self@,
    {
        self.0.as_str()
    }

    /// A copy equal to this MIME type.
    pub fn duplicate(&self) -> (r: MimeType)
        ensures
            r == *self,
    {
        MimeType(self.0.clone())
    }
}

} // verus!
