//! The two ways in which building the shader program can fail.

use vstd::prelude::*;
use vstd::string::StringExecFns;

verus! {

/// Why no shader program could be built. Either kind carries the text that
/// the driver gave as its diagnostic.
#[derive(Debug, PartialEq, Eq)]
pub enum Error {
    /// The compiler rejected the source of a shader stage.
    CompileError(String),
    /// The linker rejected the combination of stages.
    LinkError(String),
}

impl Error {
    /// The driver's diagnostic text.
    pub open spec fn diagnostic(self) -> Seq<char> {
        match self {
            Error::CompileError(log) => log@,
            Error::LinkError(log) => log@,
        }
    }

    /// What `message` puts in front of the diagnostic.
    pub open spec fn prefix(self) -> Seq<char> {
        match self {
            Error::CompileError(_) => "shader compilation failed: "@,
            Error::LinkError(_) => "program linking failed: "@,
        }
    }

    /// The driver's diagnostic text.
    pub fn log(&self) -> (log: &String)
        ensures
            log@ == self.diagnostic(),
    {
        match self {
            Error::CompileError(log) => log,
            Error::LinkError(log) => log,
        }
    }

    /// The text to print when the process gives up: which step failed,
    /// followed by the driver's diagnostic.
    pub fn message(&self) -> (text: String)
        ensures
            text@ == self.prefix() + self.diagnostic(),
    {
        match self {
            Error::CompileError(log) => {
                String::from_str("shader compilation failed: ").concat(log.as_str())
            },
            Error::LinkError(log) => {
                String::from_str("program linking failed: ").concat(log.as_str())
            },
        }
    }
}

} // verus!
