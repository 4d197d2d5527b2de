//! The failure taxonomy of the build pipeline. Every failure is fatal: no
//! component recovers locally, the whole build aborts with a message.

use vstd::prelude::*;
use crate::toolchain::Step;

verus! {

/// Why spawning an external tool failed.
#[derive(Clone, Copy, Debug, PartialEq, Eq, Structural)]
pub enum SpawnErrorKind {
    /// The executable was not found on the host.
    NotFound,
    /// Any other spawn error.
    Other,
}

/// Which expected build artifact was absent.
#[derive(Clone, Copy, Debug, PartialEq, Eq, Structural)]
pub enum ArtifactKind {
    /// The directory the linker must search for the produced library.
    LibraryDir,
    /// The directory holding the public headers.
    IncludeDir,
}

/// A fatal build failure.
#[derive(Clone, Copy, Debug, PartialEq, Eq, Structural)]
pub enum BuildError {
    /// An external tool could not be started at all.
    ProcessSpawnFailure(Step, SpawnErrorKind),
    /// An external tool ran but exited with a non-zero status.
    ProcessExitFailure(Step),
    /// An expected post-build file or directory is absent.
    MissingArtifact(ArtifactKind),
    /// The expected source tree is absent after acquisition.
    SourceUnavailable,
    /// A generated header could not be decoded.
    EncodingFailure,
}

impl BuildError {
    /// The message each failure prints. The interpreter-lookup failure gets
    /// a more actionable message than a generic conversion failure.
    pub open spec fn spec_message(self) -> Seq<char> {
        match self {
            BuildError::ProcessSpawnFailure(step, _) => if step is ConvertProject {
                "could not start the interpreter; set the interpreter override to a working executable"@
            } else {
                "could not start an external build tool"@
            },
            BuildError::ProcessExitFailure(_) => {
                "an external build step exited with a failure status"@
            },
            BuildError::MissingArtifact(kind) => match kind {
                ArtifactKind::LibraryDir => {
                    "the library search directory expected after the build is missing"@
                },
                ArtifactKind::IncludeDir => {
                    "the include directory expected after the build is missing"@
                },
            },
            BuildError::SourceUnavailable => {
                "the expected source tree is still absent after acquisition"@
            },
            BuildError::EncodingFailure => {
                "a generated header is not valid 16-bit little-endian text"@
            },
        }
    }

    /// A descriptive message for the terminating build process to print.
    pub fn message(&self) -> (r: String)
        ensures
            r@ == self.spec_message(),
    {
        match self {
            BuildError::ProcessSpawnFailure(step, _) => {
                if let Step::ConvertProject = step {
                    String::from_str(
                        "could not start the interpreter; set the interpreter override to a working executable",
                    )
                } else {
                    String::from_str("could not start an external build tool")
                }
            },
            BuildError::ProcessExitFailure(_) => {
                String::from_str("an external build step exited with a failure status")
            },
            BuildError::MissingArtifact(kind) => {
                match kind {
                    ArtifactKind::LibraryDir => {
                        String::from_str(
                            "the library search directory expected after the build is missing",
                        )
                    },
                    ArtifactKind::IncludeDir => {
                        String::from_str(
                            "the include directory expected after the build is missing",
                        )
                    },
                }
            },
            BuildError::SourceUnavailable => {
                String::from_str("the expected source tree is still absent after acquisition")
            },
            BuildError::EncodingFailure => {
                String::from_str("a generated header is not valid 16-bit little-endian text")
            },
        }
    }
}

} // verus!
