//! Closed error taxonomy for the pipeline. Every fallible step returns one of
//! these variants to its immediate caller; no third-party error type crosses
//! the library boundary.

use vstd::prelude::*;

verus! {

/// Errors the pipeline can report.
#[derive(Clone, Copy, Debug, PartialEq, Eq, Structural)]
pub enum MinceError {
    /// Catch-all for unclassified failures; reserved, should be rare.
    Generic,
    /// The host failed to drain the file handle into bytes.
    FileRead,
    /// The byte buffer matches no image signature the sniffer recognizes.
    DetectImageFormat,
    /// The format was recognized but the payload is malformed or truncated.
    DecodeImage,
    /// The encoder cannot serialize this raster/format combination.
    EncodeImage,
}

impl MinceError {
    /// The descriptive message of this error, as a sequence of characters.
    pub open spec fn spec_message(self) -> Seq<char> {
        match self {
            MinceError::Generic => "IO error"@,
            MinceError::FileRead => "Failed to read file into bytes"@,
            MinceError::DetectImageFormat => "Failed to detect image format"@,
            MinceError::DecodeImage => "Failed to decode image"@,
            MinceError::EncodeImage => "Failed to encode image"@,
        }
    }

    /// The descriptive message the host-facing boundary reports for this
    /// error. Total and never empty.
    pub fn message(&self) -> (r: &'static str)
        ensures
            r@ == self.spec_message(),
            r@.len() > 0,
    {
        proof {
            reveal_strlit("IO error");
            reveal_strlit("Failed to read file into bytes");
            reveal_strlit("Failed to detect image format");
            reveal_strlit("Failed to decode image");
            reveal_strlit("Failed to encode image");
        }
        match self {
            MinceError::Generic => "IO error",
            MinceError::FileRead => "Failed to read file into bytes",
            MinceError::DetectImageFormat => "Failed to detect image format",
            MinceError::DecodeImage => "Failed to decode image",
            MinceError::EncodeImage => "Failed to encode image",
        }
    }
}

} // verus!
