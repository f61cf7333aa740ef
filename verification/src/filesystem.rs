//! Growth of a filesystem, by the tool of its family.

use crate::detect::{get_fs_type, FsDetection, FsDetectionView};
use crate::protocol::{
    view_outcome, Invocation, InvocationView, Reply, ReplyView, Request, RequestView, ToolOutcome,
};
use crate::resize::{ResizeError, ResizeErrorView};
use crate::text::{chars_of, fold_case, folded, joined, same_chars};
use vstd::prelude::*;

verus! {

/// The filesystem families that can be grown, each with its own tool.
#[derive(Clone, Copy, Debug, PartialEq, Eq, Structural)]
pub enum FsKind {
    /// ext2, ext3 and ext4.
    Ext,
    Xfs,
    Btrfs,
}

/// The family that a filesystem type name stands for, ASCII case ignored;
/// `None` where it is not one that can be grown.
pub open spec fn kind_of(name: Seq<char>) -> Option<FsKind> {
    let lowered = folded(name);
    if lowered == "ext4"@ || lowered == "ext3"@ || lowered == "ext2"@ {
        Some(FsKind::Ext)
    } else if lowered == "xfs"@ {
        Some(FsKind::Xfs)
    } else if lowered == "btrfs"@ {
        Some(FsKind::Btrfs)
    } else {
        None
    }
}

/// The family that a filesystem type name stands for.
pub fn fs_kind(name: &str) -> (kind: Option<FsKind>)
    ensures
        kind == kind_of(name@),
{
    let lowered = fold_case(&chars_of(name));
    if same_chars(&lowered, &chars_of("ext4")) || same_chars(&lowered, &chars_of("ext3"))
        || same_chars(&lowered, &chars_of("ext2")) {
        Some(FsKind::Ext)
    } else if same_chars(&lowered, &chars_of("xfs")) {
        Some(FsKind::Xfs)
    } else if same_chars(&lowered, &chars_of("btrfs")) {
        Some(FsKind::Btrfs)
    } else {
        None
    }
}

/// Where the growing of a filesystem stands.
#[derive(Clone, Copy, Debug, PartialEq, Eq, Structural)]
pub enum ResizeStage {
    /// The ext tool runs on the device.
    Extend,
    /// The XFS tool runs on the mount point.
    Grow,
    /// The XFS tool runs again, told to grow the data section.
    GrowData,
    /// The Btrfs tool runs its resize-to-maximum subcommand.
    Resize,
    /// The Btrfs tool runs the older form of that subcommand.
    ResizeLegacy,
    Succeeded,
    Failed,
}

/// Grows one filesystem of a given type with the tool of its family, and
/// with that tool's second form where the first fails.
#[derive(Clone, Debug, PartialEq, Eq)]
pub struct FsResize {
    fs_type: String,
    device: String,
    mount_point: String,
    stage: ResizeStage,
    failure: String,
}

/// What an [`FsResize`] holds, with each text as a sequence of characters.
pub ghost struct FsResizeView {
    pub fs_type: Seq<char>,
    pub device: Seq<char>,
    pub mount_point: Seq<char>,
    pub stage: ResizeStage,
    pub failure: Seq<char>,
}

impl FsResizeView {
    /// The machine before its first tool has run. A type of no known family
    /// fails at once.
    pub open spec fn start(fs_type: Seq<char>, device: Seq<char>, mount_point: Seq<char>) -> Self {
        let stage = match kind_of(fs_type) {
            Some(FsKind::Ext) => ResizeStage::Extend,
            Some(FsKind::Xfs) => ResizeStage::Grow,
            Some(FsKind::Btrfs) => ResizeStage::Resize,
            None => ResizeStage::Failed,
        };
        let failure = if kind_of(fs_type) is None {
            "Unsupported filesystem: "@ + fs_type
        } else {
            Seq::empty()
        };
        FsResizeView { fs_type, device, mount_point, stage, failure }
    }

    /// What the machine asks of the host: nothing once it has ended.
    pub open spec fn request(self) -> RequestView {
        match self.stage {
            ResizeStage::Extend => RequestView::Run(
                InvocationView::new("resize2fs"@).arg("-f"@).arg(self.device),
            ),
            ResizeStage::Grow => RequestView::Run(
                InvocationView::new("xfs_growfs"@).arg(self.mount_point),
            ),
            ResizeStage::GrowData => RequestView::Run(
                InvocationView::new("xfs_growfs"@).arg("-d"@).arg(self.mount_point),
            ),
            ResizeStage::Resize => RequestView::Run(
                InvocationView::new("btrfs"@).arg("filesystem"@).arg("resize"@).arg("max"@).arg(
                    self.mount_point,
                ),
            ),
            ResizeStage::ResizeLegacy => RequestView::Run(
                InvocationView::new("btrfs"@).arg("resize"@).arg("max"@).arg(self.mount_point),
            ),
            ResizeStage::Succeeded | ResizeStage::Failed => RequestView::Done,
        }
    }

    /// The machine stopped: in success, or in failure with the text that says why.
    pub open spec fn stopped(self, ok: bool, failure: Seq<char>) -> Self {
        if ok {
            FsResizeView { stage: ResizeStage::Succeeded, ..self }
        } else {
            FsResizeView { stage: ResizeStage::Failed, failure, ..self }
        }
    }

    /// The machine after `reply`. A tool that ran and failed is given its
    /// second form where it has one; a tool that could not be started is not
    /// tried again. A reply that answers no request of the machine changes
    /// nothing.
    pub open spec fn next(self, reply: ReplyView) -> Self {
        match reply {
            ReplyView::Tool(outcome) => match self.stage {
                ResizeStage::Extend => self.stopped(
                    outcome.succeeded(),
                    "Failed to resize "@ + self.fs_type + " filesystem"@,
                ),
                ResizeStage::Grow => if !outcome.succeeded() && outcome is Exited {
                    FsResizeView { stage: ResizeStage::GrowData, ..self }
                } else {
                    self.stopped(outcome.succeeded(), "Failed to resize XFS filesystem"@)
                },
                ResizeStage::GrowData => self.stopped(
                    outcome.succeeded(),
                    "Failed to resize XFS filesystem"@,
                ),
                ResizeStage::Resize => if !outcome.succeeded() && outcome is Exited {
                    FsResizeView { stage: ResizeStage::ResizeLegacy, ..self }
                } else {
                    self.stopped(outcome.succeeded(), "Failed to resize Btrfs filesystem"@)
                },
                ResizeStage::ResizeLegacy => self.stopped(
                    outcome.succeeded(),
                    "Failed to resize Btrfs filesystem"@,
                ),
                ResizeStage::Succeeded | ResizeStage::Failed => self,
            },
            _ => self,
        }
    }

    /// `None` while a tool is awaited, then success or the error.
    pub open spec fn result(self) -> Option<Result<(), ResizeErrorView>> {
        match self.stage {
            ResizeStage::Succeeded => Some(Ok(())),
            ResizeStage::Failed => Some(Err(ResizeErrorView::ResizeFs(self.failure))),
            _ => None,
        }
    }
}

impl View for FsResize {
    type V = FsResizeView;

    closed spec fn view(&self) -> FsResizeView {
        FsResizeView {
            fs_type: self.fs_type@,
            device: self.device@,
            mount_point: self.mount_point@,
            stage: self.stage,
            failure: self.failure@,
        }
    }
}

/// Starts growing the filesystem of type `fs_type` that lives on `device` and
/// is mounted at `mount_point`.
pub fn resize_fs(fs_type: &str, device: &str, mount_point: &str) -> (m: FsResize)
    ensures
        m@ == FsResizeView::start(fs_type@, device@, mount_point@),
{
    let (stage, failure) = match fs_kind(fs_type) {
        Some(FsKind::Ext) => (ResizeStage::Extend, String::new()),
        Some(FsKind::Xfs) => (ResizeStage::Grow, String::new()),
        Some(FsKind::Btrfs) => (ResizeStage::Resize, String::new()),
        None => (ResizeStage::Failed, joined("Unsupported filesystem: ", fs_type)),
    };
    FsResize {
        fs_type: fs_type.to_owned(),
        device: device.to_owned(),
        mount_point: mount_point.to_owned(),
        stage,
        failure,
    }
}

impl FsResize {
    /// What the machine needs next.
    pub fn request(&self) -> (r: Request)
        ensures
            r@ == self@.request(),
    {
        match self.stage {
            ResizeStage::Extend => Request::Run(
                Invocation::new("resize2fs").arg("-f").arg(self.device.as_str()),
            ),
            ResizeStage::Grow => Request::Run(
                Invocation::new("xfs_growfs").arg(self.mount_point.as_str()),
            ),
            ResizeStage::GrowData => Request::Run(
                Invocation::new("xfs_growfs").arg("-d").arg(self.mount_point.as_str()),
            ),
            ResizeStage::Resize => Request::Run(
                Invocation::new("btrfs").arg("filesystem").arg("resize").arg("max").arg(
                    self.mount_point.as_str(),
                ),
            ),
            ResizeStage::ResizeLegacy => Request::Run(
                Invocation::new("btrfs").arg("resize").arg("max").arg(self.mount_point.as_str()),
            ),
            ResizeStage::Succeeded | ResizeStage::Failed => Request::Done,
        }
    }

    fn stopped(self, ok: bool, failure: String) -> (m: FsResize)
        ensures
            m@ == self@.stopped(ok, failure@),
    {
        if ok {
            FsResize { stage: ResizeStage::Succeeded, ..self }
        } else {
            FsResize { stage: ResizeStage::Failed, failure, ..self }
        }
    }

    /// The machine after the host's reply.
    pub fn advance(self, reply: Reply) -> (m: FsResize)
        ensures
            m@ == self@.next(reply@),
    {
        match reply {
            Reply::Tool(outcome) => {
                let ok = outcome.succeeded();
                let ran = match outcome {
                    ToolOutcome::Exited { .. } => true,
                    ToolOutcome::NotLaunched { .. } => false,
                };
                match self.stage {
                    ResizeStage::Extend => {
                        let failure = joined("Failed to resize ", self.fs_type.as_str()).concat(
                            " filesystem",
                        );
                        self.stopped(ok, failure)
                    },
                    ResizeStage::Grow => if !ok && ran {
                        FsResize { stage: ResizeStage::GrowData, ..self }
                    } else {
                        self.stopped(ok, "Failed to resize XFS filesystem".to_owned())
                    },
                    ResizeStage::GrowData => self.stopped(
                        ok,
                        "Failed to resize XFS filesystem".to_owned(),
                    ),
                    ResizeStage::Resize => if !ok && ran {
                        FsResize { stage: ResizeStage::ResizeLegacy, ..self }
                    } else {
                        self.stopped(ok, "Failed to resize Btrfs filesystem".to_owned())
                    },
                    ResizeStage::ResizeLegacy => self.stopped(
                        ok,
                        "Failed to resize Btrfs filesystem".to_owned(),
                    ),
                    ResizeStage::Succeeded | ResizeStage::Failed => self,
                }
            },
            _ => self,
        }
    }

    /// `None` while a tool is awaited, then success or the error.
    pub fn result(&self) -> (r: Option<Result<(), ResizeError>>)
        ensures
            view_outcome(r) == self@.result(),
    {
        match self.stage {
            ResizeStage::Succeeded => Some(Ok(())),
            ResizeStage::Failed => Some(Err(ResizeError::ResizeFs(self.failure.clone()))),
            _ => None,
        }
    }
}

/// Grows the filesystem on a device: finds out which type the device really
/// holds, then grows it as that type. The type that the caller declared is
/// used only where detection fails.
#[derive(Clone, Debug, PartialEq, Eq)]
pub struct FilesystemResize {
    device: String,
    declared: String,
    mount_point: String,
    detection: FsDetection,
    resize: Option<FsResize>,
}

/// What a [`FilesystemResize`] holds, with each text as a sequence of characters.
pub ghost struct FilesystemResizeView {
    pub device: Seq<char>,
    /// The type that the caller declared.
    pub declared: Seq<char>,
    pub mount_point: Seq<char>,
    pub detection: FsDetectionView,
    /// The growing itself, once detection has ended.
    pub resize: Option<FsResizeView>,
}

impl FilesystemResizeView {
    /// The machine before detection has begun.
    pub open spec fn start(device: Seq<char>, fs_type: Seq<char>, mount_point: Seq<char>) -> Self {
        FilesystemResizeView {
            device,
            declared: fs_type,
            mount_point,
            detection: FsDetectionView::start(device),
            resize: None,
        }
    }

    /// The type to grow the filesystem as, given how detection ended.
    pub open spec fn chosen_type(self, detected: Result<Seq<char>, ResizeErrorView>) -> Seq<char> {
        match detected {
            Ok(found) => found,
            Err(_) => self.declared,
        }
    }

    /// What the machine asks of the host: nothing once it has ended.
    pub open spec fn request(self) -> RequestView {
        match self.resize {
            Some(resize) => resize.request(),
            None => self.detection.request(),
        }
    }

    /// The machine after `reply`: the reply goes to detection until that has
    /// ended, which starts the growing, and to the growing from then on.
    pub open spec fn next(self, reply: ReplyView) -> Self {
        match self.resize {
            Some(resize) => FilesystemResizeView { resize: Some(resize.next(reply)), ..self },
            None => {
                let detection = self.detection.next(reply);
                match detection.result() {
                    Some(detected) => FilesystemResizeView {
                        detection,
                        resize: Some(
                            FsResizeView::start(
                                self.chosen_type(detected),
                                self.device,
                                self.mount_point,
                            ),
                        ),
                        ..self
                    },
                    None => FilesystemResizeView { detection, ..self },
                }
            },
        }
    }

    /// `None` while the machine waits for the host, then how the growing
    /// ended.
    pub open spec fn result(self) -> Option<Result<(), ResizeErrorView>> {
        match self.resize {
            Some(resize) => resize.result(),
            None => None,
        }
    }
}

impl View for FilesystemResize {
    type V = FilesystemResizeView;

    closed spec fn view(&self) -> FilesystemResizeView {
        FilesystemResizeView {
            device: self.device@,
            declared: self.declared@,
            mount_point: self.mount_point@,
            detection: self.detection@,
            resize: match self.resize {
                Some(resize) => Some(resize@),
                None => None,
            },
        }
    }
}

/// Starts growing the filesystem on `device`, declared to be of type
/// `fs_type` and mounted at `mount_point`.
pub fn resize_filesystem(device: &str, fs_type: &str, mount_point: &str) -> (m: FilesystemResize)
    ensures
        m@ == FilesystemResizeView::start(device@, fs_type@, mount_point@),
{
    FilesystemResize {
        device: device.to_owned(),
        declared: fs_type.to_owned(),
        mount_point: mount_point.to_owned(),
        detection: get_fs_type(device),
        resize: None,
    }
}

impl FilesystemResize {
    /// What the machine needs next.
    pub fn request(&self) -> (r: Request)
        ensures
            r@ == self@.request(),
    {
        match &self.resize {
            Some(resize) => resize.request(),
            None => self.detection.request(),
        }
    }

    /// The machine after the host's reply.
    pub fn advance(self, reply: Reply) -> (m: FilesystemResize)
        ensures
            m@ == self@.next(reply@),
    {
        match self.resize {
            Some(resize) => FilesystemResize {
                device: self.device,
                declared: self.declared,
                mount_point: self.mount_point,
                detection: self.detection,
                resize: Some(resize.advance(reply)),
            },
            None => {
                let detection = self.detection.advance(reply);
                let resize = match detection.result() {
                    Some(Ok(found)) => Some(
                        resize_fs(
                            found.as_str(),
                            self.device.as_str(),
                            self.mount_point.as_str(),
                        ),
                    ),
                    Some(Err(_)) => Some(
                        resize_fs(
                            self.declared.as_str(),
                            self.device.as_str(),
                            self.mount_point.as_str(),
                        ),
                    ),
                    None => None,
                };
                FilesystemResize {
                    device: self.device,
                    declared: self.declared,
                    mount_point: self.mount_point,
                    detection,
                    resize,
                }
            },
        }
    }

    /// `None` while the machine waits for the host, then how the growing
    /// ended.
    pub fn result(&self) -> (r: Option<Result<(), ResizeError>>)
        ensures
            view_outcome(r) == self@.result(),
    {
        match &self.resize {
            Some(resize) => resize.result(),
            None => None,
        }
    }
}

/// The type that detection finds is the type that the filesystem is grown as,
/// whatever type was declared.
pub proof fn lemma_detected_type_decides(
    m: FilesystemResizeView,
    other: FilesystemResizeView,
    reply: ReplyView,
    found: Seq<char>,
)
    requires
        m.resize is None,
        m.detection.next(reply).result() == Some(Ok::<Seq<char>, ResizeErrorView>(found)),
        other == (FilesystemResizeView { declared: other.declared, ..m }),
    ensures
        m.next(reply).resize == Some(
            FsResizeView::start(found, m.device, m.mount_point),
        ),
        m.next(reply).resize == other.next(reply).resize,
{
}

/// Where no tool can tell the type, the filesystem is grown as the type that
/// was declared.
pub proof fn lemma_declared_type_is_the_fallback(m: FilesystemResizeView, reply: ReplyView)
    requires
        m.resize is None,
        m.detection.next(reply).result() is Some,
        m.detection.next(reply).result()->0 is Err,
    ensures
        m.next(reply).resize == Some(
            FsResizeView::start(m.declared, m.device, m.mount_point),
        ),
{
}

impl FilesystemResizeView {
    /// The growing has started if and only if detection has ended.
    pub open spec fn wf(self) -> bool {
        self.resize is None <==> self.detection.result() is None
    }
}

/// The growing of a filesystem starts well-formed and stays so; and while it
/// is well-formed, it asks for something exactly as long as it has no
/// result.
pub proof fn lemma_filesystem_resize_asks_until_finished(
    device: Seq<char>,
    fs_type: Seq<char>,
    mount_point: Seq<char>,
    m: FilesystemResizeView,
    reply: ReplyView,
)
    ensures
        FilesystemResizeView::start(device, fs_type, mount_point).wf(),
        m.wf() ==> m.next(reply).wf(),
        m.wf() ==> (m.request() is Done <==> m.result() is Some),
{
}

/// The growing by one tool family asks for something exactly as long as it
/// has no result.
pub proof fn lemma_resize_asks_until_finished(m: FsResizeView)
    ensures
        m.request() is Done <==> m.result() is Some,
{
}

/// The names of the types as the tools write them stand for their
/// families.
pub proof fn lemma_family_names()
    ensures
        kind_of("ext2"@) == Some(FsKind::Ext),
        kind_of("ext3"@) == Some(FsKind::Ext),
        kind_of("ext4"@) == Some(FsKind::Ext),
        kind_of("xfs"@) == Some(FsKind::Xfs),
        kind_of("btrfs"@) == Some(FsKind::Btrfs),
{
    reveal_strlit("ext2");
    reveal_strlit("ext3");
    reveal_strlit("ext4");
    reveal_strlit("xfs");
    reveal_strlit("btrfs");
    assert(folded("ext2"@) =~= "ext2"@);
    assert(folded("ext3"@) =~= "ext3"@);
    assert(folded("ext4"@) =~= "ext4"@);
    assert(folded("xfs"@) =~= "xfs"@);
    assert(folded("btrfs"@) =~= "btrfs"@);
}

/// Where detection finds XFS on a device, the XFS tool is what runs next,
/// whatever type was declared.
pub proof fn lemma_detected_xfs_runs_the_xfs_tool(m: FilesystemResizeView, reply: ReplyView)
    requires
        m.resize is None,
        m.detection.next(reply).result() == Some(Ok::<Seq<char>, ResizeErrorView>("xfs"@)),
    ensures
        m.next(reply).request() == RequestView::Run(
            InvocationView::new("xfs_growfs"@).arg(m.mount_point),
        ),
{
    lemma_family_names();
}

} // verus!
