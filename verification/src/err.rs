//! Errors. Every failure is a value handed to the caller; nothing is
//! retried.
use vstd::prelude::*;

verus! {

/// What went wrong while the engine was set up or asked for something.
#[derive(Debug, Clone)]
pub enum ErrorKind {
    /// A failure of a collaborator, with its name.
    Other(String),
    /// Something that was asked for does not exist.
    NotFound,
}

/// The failures of the renderer.
#[derive(Clone, Copy, Debug, PartialEq, Eq, Structural)]
pub enum RenderError {
    /// No adapter, no device, or no compatible surface format. Fatal: the
    /// renderer cannot be built.
    DeviceInit,
    /// A shader did not compile or a layout did not match. Fatal: the
    /// renderer cannot be built.
    PipelineBuild,
    /// The backend refused a batch of a frame. The frame ends; the target
    /// holds whatever the backend had written by then.
    Submission,
    /// A readback did not complete in time, or completed with an error.
    /// Fatal to that readback only.
    ReadbackTimeout,
}

impl RenderError {
    /// The kind under which the engine reports this error, as a value of the
    /// model: a renderer that found no adapter or no surface format reports
    /// that something was not found, every other failure is reported by name.
    pub open spec fn spec_kind(self) -> (Option<Seq<char>>) {
        match self {
            RenderError::DeviceInit => None,
            RenderError::PipelineBuild => Some("PipelineBuildError"@),
            RenderError::Submission => Some("SubmissionError"@),
            RenderError::ReadbackTimeout => Some("ReadbackTimeout"@),
        }
    }

    /// The kind under which the engine reports this error.
    pub fn kind(&self) -> (kind: ErrorKind)
        ensures
            match kind {
                ErrorKind::NotFound => self.spec_kind().is_none(),
                ErrorKind::Other(name) => self.spec_kind() == Some(name@),
            },
    {
        match self {
            RenderError::DeviceInit => ErrorKind::NotFound,
            RenderError::PipelineBuild => ErrorKind::Other("PipelineBuildError".to_owned()),
            RenderError::Submission => ErrorKind::Other("SubmissionError".to_owned()),
            RenderError::ReadbackTimeout => ErrorKind::Other("ReadbackTimeout".to_owned()),
        }
    }

    /// Whether the renderer itself is lost with this error, as opposed to
    /// one frame or one readback.
    pub open spec fn spec_is_fatal(self) -> bool {
        self == RenderError::DeviceInit || self == RenderError::PipelineBuild
    }

    /// Whether the renderer itself is lost with this error.
    pub fn is_fatal(&self) -> (b: bool)
        ensures
            b == self.spec_is_fatal(),
    {
        match self {
            RenderError::DeviceInit => true,
            RenderError::PipelineBuild => true,
            RenderError::Submission => false,
            RenderError::ReadbackTimeout => false,
        }
    }
}

} // verus!
