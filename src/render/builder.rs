//! Failures of building a program and its context into a rendering binding.
use vstd::prelude::*;
use vstd::string::StringExecFns;

verus! {

/// Why building a binding failed.
pub enum BuildError {
    ExpectedContext,
    ExpectedVertShaded,
    ExpectedFragShaded,
    /// The compiler's diagnostic, when it gave one.
    FailedToCompileShader(Option<String>),
    FailedToLinkProgram,
    CannotCreateShader,
    CannotCreateProgram,
}

impl BuildError {
    /// The text that describes the failure.
    pub open spec fn message(&self) -> Seq<char> {
        match self {
            BuildError::ExpectedContext => "expected webgl context to be defined"@,
            BuildError::ExpectedFragShaded => "expected frag shader to be defined"@,
            BuildError::ExpectedVertShaded => "expected vert shader to be defined"@,
            BuildError::FailedToCompileShader(None) => "failed to compile shader, for an unknown reason"@,
            BuildError::FailedToCompileShader(Some(reason)) => "failed to compile shader: "@ + reason@,
            BuildError::FailedToLinkProgram => "failed to link program"@,
            BuildError::CannotCreateShader => "could not create a shader from the context"@,
            BuildError::CannotCreateProgram => "could not create a program from the context"@,
        }
    }

    pub fn to_string(&self) -> (r: String)
        ensures
            r@ == self.message(),
    {
        match self {
            BuildError::ExpectedContext => "expected webgl context to be defined".to_owned(),
            BuildError::ExpectedFragShaded => "expected frag shader to be defined".to_owned(),
            BuildError::ExpectedVertShaded => "expected vert shader to be defined".to_owned(),
            BuildError::FailedToCompileShader(reason) => match reason {
                None => "failed to compile shader, for an unknown reason".to_owned(),
                Some(reason) => "failed to compile shader: ".to_owned().concat(reason.as_str()),
            },
            BuildError::FailedToLinkProgram => "failed to link program".to_owned(),
            BuildError::CannotCreateShader => "could not create a shader from the context".to_owned(),
            BuildError::CannotCreateProgram => "could not create a program from the context".to_owned(),
        }
    }
}

} // verus!
