//! Errors of a conversion, by category.
use vstd::prelude::*;
use vstd::string::*;

verus! {

/// Failures of a conversion, by category.
#[derive(Debug, Clone, PartialEq, Eq)]
pub enum JsonToHwpxError {
    /// The input document is invalid (blank identifier, unreadable JSON).
    Input(String),
    /// A step of the conversion failed (unknown image bytes, empty table).
    Conversion(String),
    /// Writing or reading bytes failed.
    Io(String),
    /// The package writer refused the content.
    Hwpx(String),
}

impl JsonToHwpxError {
    /// Process exit status for the command-line front end.
    pub fn exit_code(&self) -> (r: i32)
        ensures
            r == match self {
                JsonToHwpxError::Input(_) => 1i32,
                JsonToHwpxError::Conversion(_) => 2i32,
                JsonToHwpxError::Io(_) => 3i32,
                JsonToHwpxError::Hwpx(_) => 2i32,
            },
    {
        match self {
            JsonToHwpxError::Input(_) => 1,
            JsonToHwpxError::Conversion(_) => 2,
            JsonToHwpxError::Io(_) => 3,
            JsonToHwpxError::Hwpx(_) => 2,
        }
    }

    /// The category of the error followed by its detail.
    pub fn message(&self) -> (r: String)
        ensures
            r@ == match self {
                JsonToHwpxError::Input(m) => "input error: "@ + m@,
                JsonToHwpxError::Conversion(m) => "conversion error: "@ + m@,
                JsonToHwpxError::Io(m) => "I/O error: "@ + m@,
                JsonToHwpxError::Hwpx(m) => "package error: "@ + m@,
            },
    {
        let (prefix, detail) = match self {
            JsonToHwpxError::Input(m) => ("input error: ", m),
            JsonToHwpxError::Conversion(m) => ("conversion error: ", m),
            JsonToHwpxError::Io(m) => ("I/O error: ", m),
            JsonToHwpxError::Hwpx(m) => ("package error: ", m),
        };
        let mut r = String::from_str(prefix);
        r.append(detail.as_str());
        r
    }

    /// Machine-readable error code.
    pub fn error_code(&self) -> (r: &'static str)
        ensures
            r@ == match self {
                JsonToHwpxError::Input(_) => "INPUT_ERROR"@,
                JsonToHwpxError::Conversion(_) => "CONVERSION_ERROR"@,
                JsonToHwpxError::Io(_) => "IO_ERROR"@,
                JsonToHwpxError::Hwpx(_) => "HWPX_ERROR"@,
            },
    {
        match self {
            JsonToHwpxError::Input(_) => "INPUT_ERROR",
            JsonToHwpxError::Conversion(_) => "CONVERSION_ERROR",
            JsonToHwpxError::Io(_) => "IO_ERROR",
            JsonToHwpxError::Hwpx(_) => "HWPX_ERROR",
        }
    }
}

} // verus!
