//! The errors of growth, and the entry points of its steps.

use crate::text::joined;
use vstd::prelude::*;

pub use crate::detect::get_fs_type;
pub use crate::filesystem::{resize_filesystem, resize_fs};
pub use crate::grow::grow_partition;
pub use crate::luks::resize_luks;
pub use crate::report::format_bytes_human;
pub use crate::verify::verify_resize;

verus! {

/// Why growing a partition, a container or a filesystem failed.
#[derive(Clone, Debug, PartialEq, Eq)]
pub enum ResizeError {
    GrowPartition(String),
    ResizeFs(String),
    CommandFailed(String),
    DeviceNotFound(String),
    ResizeLuks(String),
    AlternativeApproachFailed(String),
    DetectFs(String),
}

/// What a [`ResizeError`] holds, with each text as a sequence of characters.
pub ghost enum ResizeErrorView {
    GrowPartition(Seq<char>),
    ResizeFs(Seq<char>),
    CommandFailed(Seq<char>),
    DeviceNotFound(Seq<char>),
    ResizeLuks(Seq<char>),
    AlternativeApproachFailed(Seq<char>),
    DetectFs(Seq<char>),
}

impl ResizeErrorView {
    /// The text that describes the error to the operator.
    pub open spec fn message(self) -> Seq<char> {
        match self {
            ResizeErrorView::GrowPartition(t) => "Failed to grow partition: "@ + t,
            ResizeErrorView::ResizeFs(t) => "Failed to resize filesystem: "@ + t,
            ResizeErrorView::CommandFailed(t) => "Command execution failed: "@ + t,
            ResizeErrorView::DeviceNotFound(t) => "Device not found: "@ + t,
            ResizeErrorView::ResizeLuks(t) => "Failed to resize LUKS container: "@ + t,
            ResizeErrorView::AlternativeApproachFailed(t) => "Alternative approach failed: "@ + t,
            ResizeErrorView::DetectFs(t) => "Failed to detect filesystem type for "@ + t,
        }
    }
}

impl View for ResizeError {
    type V = ResizeErrorView;

    open spec fn view(&self) -> ResizeErrorView {
        match self {
            ResizeError::GrowPartition(t) => ResizeErrorView::GrowPartition(t@),
            ResizeError::ResizeFs(t) => ResizeErrorView::ResizeFs(t@),
            ResizeError::CommandFailed(t) => ResizeErrorView::CommandFailed(t@),
            ResizeError::DeviceNotFound(t) => ResizeErrorView::DeviceNotFound(t@),
            ResizeError::ResizeLuks(t) => ResizeErrorView::ResizeLuks(t@),
            ResizeError::AlternativeApproachFailed(t) => ResizeErrorView::AlternativeApproachFailed(
                t@,
            ),
            ResizeError::DetectFs(t) => ResizeErrorView::DetectFs(t@),
        }
    }
}

impl ResizeError {
    /// The text that describes the error to the operator.
    pub fn message(&self) -> (text: String)
        ensures
            text@ == self@.message(),
    {
        match self {
            ResizeError::GrowPartition(t) => joined("Failed to grow partition: ", t.as_str()),
            ResizeError::ResizeFs(t) => joined("Failed to resize filesystem: ", t.as_str()),
            ResizeError::CommandFailed(t) => joined("Command execution failed: ", t.as_str()),
            ResizeError::DeviceNotFound(t) => joined("Device not found: ", t.as_str()),
            ResizeError::ResizeLuks(t) => joined("Failed to resize LUKS container: ", t.as_str()),
            ResizeError::AlternativeApproachFailed(t) => joined(
                "Alternative approach failed: ",
                t.as_str(),
            ),
            ResizeError::DetectFs(t) => joined("Failed to detect filesystem type for ", t.as_str()),
        }
    }
}

impl ResizeError {
    /// A copy of the error.
    pub fn duplicate(&self) -> (copy: ResizeError)
        ensures
            copy@ == self@,
    {
        match self {
            ResizeError::GrowPartition(t) => ResizeError::GrowPartition(t.clone()),
            ResizeError::ResizeFs(t) => ResizeError::ResizeFs(t.clone()),
            ResizeError::CommandFailed(t) => ResizeError::CommandFailed(t.clone()),
            ResizeError::DeviceNotFound(t) => ResizeError::DeviceNotFound(t.clone()),
            ResizeError::ResizeLuks(t) => ResizeError::ResizeLuks(t.clone()),
            ResizeError::AlternativeApproachFailed(t) => ResizeError::AlternativeApproachFailed(
                t.clone(),
            ),
            ResizeError::DetectFs(t) => ResizeError::DetectFs(t.clone()),
        }
    }
}

} // verus!
