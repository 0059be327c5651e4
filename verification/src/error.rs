//! The failure modes of a conversion.

use vstd::prelude::*;
use vstd::string::StringExecFns;

verus! {

/// The error of the operating system's I/O layer. Its contents are not
/// visible here; the value is only carried.
#[verifier::external_type_specification]
#[verifier::external_body]
pub struct ExIoError(std::io::Error);

/// Why a conversion failed, and at which stage.
#[derive(Debug)]
pub enum FbxError {
    /// The source bytes could not be read.
    Io(std::io::Error),
    /// The parser rejected the file.
    UfbxError(String),
    /// The parsed scene could not be converted.
    ConversionError(String),
    /// A mesh could not be represented.
    MeshConversion(String),
    /// A material could not be represented.
    MaterialConversion(String),
    /// A texture could not be loaded.
    TextureLoad(String),
    /// The data contradicts itself.
    InvalidData(String),
    /// The file uses a feature that is not supported.
    UnsupportedFeature(String),
}

impl FbxError {
    /// The fixed text that introduces the message of each kind of error.
    pub open spec fn prefix(&self) -> Seq<char> {
        match self {
            FbxError::Io(_) => "Failed to read FBX file: "@,
            FbxError::UfbxError(_) => "Failed to load FBX: "@,
            FbxError::ConversionError(_) => "Failed to convert FBX data: "@,
            FbxError::MeshConversion(_) => "Failed to convert mesh: "@,
            FbxError::MaterialConversion(_) => "Failed to convert material: "@,
            FbxError::TextureLoad(_) => "Failed to load texture: "@,
            FbxError::InvalidData(_) => "Invalid FBX data: "@,
            FbxError::UnsupportedFeature(_) => "Unsupported FBX feature: "@,
        }
    }

    /// The detail that an error carries, where it is text.
    pub open spec fn detail(&self) -> Option<Seq<char>> {
        match self {
            FbxError::Io(_) => None,
            FbxError::UfbxError(s) => Some(s@),
            FbxError::ConversionError(s) => Some(s@),
            FbxError::MeshConversion(s) => Some(s@),
            FbxError::MaterialConversion(s) => Some(s@),
            FbxError::TextureLoad(s) => Some(s@),
            FbxError::InvalidData(s) => Some(s@),
            FbxError::UnsupportedFeature(s) => Some(s@),
        }
    }

    /// The message of the error: its prefix followed by its detail. For an I/O
    /// error the detail is the platform's description of it.
    pub fn to_string(&self) -> (text: String)
        ensures
            text@.len() >= self.prefix().len(),
            text@.subrange(0, self.prefix().len() as int) == self.prefix(),
            self.detail() matches Some(d) ==> text@ == self.prefix() + d,
    {
        match self {
            FbxError::Io(e) => {
                let detail = e.to_string();
                String::from_str("Failed to read FBX file: ").concat(detail.as_str())
            },
            FbxError::UfbxError(s) => String::from_str("Failed to load FBX: ").concat(s.as_str()),
            FbxError::ConversionError(s) => String::from_str("Failed to convert FBX data: ").concat(
                s.as_str(),
            ),
            FbxError::MeshConversion(s) => String::from_str("Failed to convert mesh: ").concat(
                s.as_str(),
            ),
            FbxError::MaterialConversion(s) => String::from_str(
                "Failed to convert material: ",
            ).concat(s.as_str()),
            FbxError::TextureLoad(s) => String::from_str("Failed to load texture: ").concat(
                s.as_str(),
            ),
            FbxError::InvalidData(s) => String::from_str("Invalid FBX data: ").concat(s.as_str()),
            FbxError::UnsupportedFeature(s) => String::from_str("Unsupported FBX feature: ").concat(
                s.as_str(),
            ),
        }
    }
}

} // verus!
