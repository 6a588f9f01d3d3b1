use vstd::prelude::*;

verus! {

/// Closed error taxonomy for every failure the core can surface.
///
/// `InvalidArgument` is a contract violation caught before the OS boundary is
/// reached (a zero-sized access). `SizeMismatch` means the OS reported a byte
/// count different from the one requested. `OsError` carries the platform
/// error code of a failed OS call. `OpenProcessFailed` means handle
/// acquisition failed for the given process. `NotFound` means no enumerated
/// process matches the expected target name.
#[derive(Clone, Copy, Debug, PartialEq, Eq, Structural)]
pub enum AccessError {
    InvalidArgument,
    SizeMismatch { expected: u32, got: u32 },
    OsError { code: u32 },
    OpenProcessFailed { pid: u32 },
    NotFound,
}

impl AccessError {
    /// A short diagnostic text for display outside the library.
    pub fn describe(&self) -> (r: &'static str)
        ensures
            r@.len() > 0,
    {
        match self {
            AccessError::InvalidArgument => {
                proof {
                    reveal_strlit("zero-sized memory access requested");
                }
                "zero-sized memory access requested"
            },
            AccessError::SizeMismatch { .. } => {
                proof {
                    reveal_strlit("OS copied a different byte count than requested");
                }
                "OS copied a different byte count than requested"
            },
            AccessError::OsError { .. } => {
                proof {
                    reveal_strlit("OS call failed");
                }
                "OS call failed"
            },
            AccessError::OpenProcessFailed { .. } => {
                proof {
                    reveal_strlit("failed to open process");
                }
                "failed to open process"
            },
            AccessError::NotFound => {
                proof {
                    reveal_strlit("target process not found");
                }
                "target process not found"
            },
        }
    }
}

} // verus!
