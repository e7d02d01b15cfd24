//! How the outcome of a call into the VDO API becomes a `Result`.
//!
//! A call into the API may report a `GError`; it may also fail without one, by
//! returning a null object or a false success flag. A reported error is handed
//! on as it is; a failure without one becomes the error that belongs to the
//! operation.

use vstd::prelude::*;

use crate::error::{Error, ErrorCode};

verus! {

/// The operations of the VDO API that can fail without reporting an error.
#[derive(Debug, Clone, Copy, PartialEq, Eq, Structural)]
pub enum Operation {
    /// Creating a settings map.
    CreateMap,
    /// Creating a stream from its settings.
    CreateStream,
    /// Reading a stream's information.
    GetStreamInfo,
    /// Reading a stream's current settings.
    GetStreamSettings,
    /// Updating a stream's settings.
    SetStreamSettings,
    /// Setting a stream's framerate.
    SetFramerate,
    /// Starting a stream.
    StartStream,
    /// Forcing the next frame of a stream to be a keyframe.
    ForceKeyframe,
    /// Taking the next buffer of a stream.
    GetBuffer,
    /// Allocating a new buffer for a stream.
    AllocateBuffer,
    /// Capturing a single snapshot frame.
    CaptureSnapshot,
}

impl Operation {
    /// The error by which the operation fails when the API gives no reason.
    pub open spec fn failure_view(self) -> (ErrorCode, Option<Seq<char>>) {
        match self {
            Operation::CreateMap => (ErrorCode::Oom, Some("Failed to create VdoMap"@)),
            Operation::CreateStream => (ErrorCode::Failed, Some("Failed to create stream"@)),
            Operation::GetStreamInfo => (ErrorCode::Failed, Some("Failed to get stream info"@)),
            Operation::GetStreamSettings => (
                ErrorCode::Failed,
                Some("Failed to get stream settings"@),
            ),
            Operation::SetStreamSettings => (
                ErrorCode::Failed,
                Some("Failed to set stream settings"@),
            ),
            Operation::SetFramerate => (ErrorCode::Failed, Some("Failed to set framerate"@)),
            Operation::StartStream => (ErrorCode::Failed, Some("Failed to start stream"@)),
            Operation::ForceKeyframe => (ErrorCode::Failed, Some("Failed to force keyframe"@)),
            Operation::GetBuffer => (ErrorCode::NoData, Some("No buffer available"@)),
            Operation::AllocateBuffer => (ErrorCode::Oom, Some("Failed to allocate buffer"@)),
            Operation::CaptureSnapshot => (ErrorCode::Failed, Some("Failed to capture snapshot"@)),
        }
    }

    /// The error by which the operation fails when the API gives no reason.
    pub fn failure(self) -> (e: Error)
        ensures
            e@ == self.failure_view(),
    {
        match self {
            Operation::CreateMap => Error::new(ErrorCode::Oom, "Failed to create VdoMap"),
            Operation::CreateStream => Error::new(ErrorCode::Failed, "Failed to create stream"),
            Operation::GetStreamInfo => Error::new(ErrorCode::Failed, "Failed to get stream info"),
            Operation::GetStreamSettings => Error::new(
                ErrorCode::Failed,
                "Failed to get stream settings",
            ),
            Operation::SetStreamSettings => Error::new(
                ErrorCode::Failed,
                "Failed to set stream settings",
            ),
            Operation::SetFramerate => Error::new(ErrorCode::Failed, "Failed to set framerate"),
            Operation::StartStream => Error::new(ErrorCode::Failed, "Failed to start stream"),
            Operation::ForceKeyframe => Error::new(ErrorCode::Failed, "Failed to force keyframe"),
            Operation::GetBuffer => Error::new(ErrorCode::NoData, "No buffer available"),
            Operation::AllocateBuffer => Error::new(ErrorCode::Oom, "Failed to allocate buffer"),
            Operation::CaptureSnapshot => Error::new(
                ErrorCode::Failed,
                "Failed to capture snapshot",
            ),
        }
    }

    /// The result of one call of the operation: the error that the call
    /// reported, if any; otherwise `Ok` when the call succeeded (a non-null object
    /// or a true success flag) and the operation's own failure when it did not.
    pub fn outcome(self, reported: Option<Error>, succeeded: bool) -> (r: Result<(), Error>)
        ensures
            match reported {
                Some(e) => r == Err::<(), Error>(e),
                None => if succeeded {
                    r is Ok
                } else {
                    r matches Err(f) && f@ == self.failure_view()
                },
            },
    {
        check_gerror(reported)?;
        if succeeded {
            Ok(())
        } else {
            Err(self.failure())
        }
    }
}

/// The result of a call that can fail only by reporting an error: that error,
/// or `Ok` when there is none.
pub fn check_gerror(reported: Option<Error>) -> (r: Result<(), Error>)
    ensures
        match reported {
            Some(e) => r == Err::<(), Error>(e),
            None => r is Ok,
        },
{
    match reported {
        Some(e) => Err(e),
        None => Ok(()),
    }
}

} // verus!
