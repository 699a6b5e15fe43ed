//! The failures that the library reports.
use vstd::prelude::*;
use crate::text::{decimal, decimal_digits};

verus! {

/// A failure of mesh, shader or program set-up, or of the version check.
#[derive(Debug, PartialEq, Eq)]
pub enum Error {
    /// The shader source could not be read; holds the reader's message.
    Io(String),
    /// The context could not create an object; holds the driver's message.
    GpuResource(String),
    /// A stage did not compile; holds the driver's info log as it came.
    Compile { info_log: String },
    /// A program did not link; holds the driver's info log as it came.
    Link { info_log: String },
    /// A program was used before it was linked.
    NotLinked,
    /// The vertex arrays and the index list do not describe one mesh.
    InvalidGeometry,
    /// A number that names no shader stage kind.
    UnknownShaderType(u32),
    /// The context is older than the library can work with.
    UnsupportedVersion,
}

impl Error {
    /// The failure in words: the message or info log that the failure
    /// carries, as it came; a fixed sentence for the others.
    pub open spec fn text(self) -> Seq<char> {
        match self {
            Error::Io(message) => message@,
            Error::GpuResource(message) => message@,
            Error::Compile { info_log } => info_log@,
            Error::Link { info_log } => info_log@,
            Error::NotLinked => "Shader program not been linked"@,
            Error::InvalidGeometry => "Mesh arrays do not describe one mesh"@,
            Error::UnknownShaderType(value) => "Unknown shader type: "@ + decimal_digits(
                value as nat,
            ),
            Error::UnsupportedVersion => "Application requies at least OpenGL v4.3.0"@,
        }
    }

    /// The failure in words.
    pub fn message(&self) -> (message: String)
        ensures
            message@ == self.text(),
    {
        match self {
            Error::Io(message) => message.clone(),
            Error::GpuResource(message) => message.clone(),
            Error::Compile { info_log } => info_log.clone(),
            Error::Link { info_log } => info_log.clone(),
            Error::NotLinked => String::from_str("Shader program not been linked"),
            Error::InvalidGeometry => String::from_str("Mesh arrays do not describe one mesh"),
            Error::UnknownShaderType(value) => {
                let mut message = String::from_str("Unknown shader type: ");
                let number = decimal(*value as u64);
                message.append(number.as_str());
                message
            },
            Error::UnsupportedVersion => String::from_str(
                "Application requies at least OpenGL v4.3.0",
            ),
        }
    }
}

} // verus!
