//! Errors of the compiler core that are not diagnostics of a program.
use vstd::prelude::*;
use crate::text::cat3;

verus! {

/// An error met while processing Descar source code.
#[derive(Debug, PartialEq, Eq)]
pub enum DescarError {
    /// The source file has an unsupported extension.
    UnsupportedSourceExtension { extension: String },
    /// A source file could not be read.
    SourceRead { path: String, message: String },
}

/// The printed form of an error.
pub open spec fn descar_error_text(e: DescarError) -> Seq<char> {
    match e {
        DescarError::UnsupportedSourceExtension { extension } =>
            "unsupported source file extension: expected `.dr`, found `"@ + extension@ + "`"@,
        DescarError::SourceRead { path, message } => "failed to read source file `"@ + path@ + "`: "@ + message@,
    }
}

impl DescarError {
    /// The printed form of the error.
    pub fn to_string(&self) -> (r: String)
        ensures
            r@ == descar_error_text(*self),
    {
        match self {
            DescarError::UnsupportedSourceExtension { extension } => cat3(
                "unsupported source file extension: expected `.dr`, found `",
                extension.as_str(),
                "`",
            ),
            DescarError::SourceRead { path, message } => {
                let s = cat3("failed to read source file `", path.as_str(), "`: ");
                let mut s = s;
                s.append(message.as_str());
                s
            },
        }
    }
}

} // verus!
