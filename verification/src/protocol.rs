use crate::error::{CacheError, CacheErrorView, ErrorType};
use vstd::prelude::*;
use vstd::string::StringExecFns;

verus! {

/// One file-system request on the files of a single cached object. The
/// caller resolves the paths; the protocol only says what is done, and in
/// which order.
#[derive(Clone, Copy, Debug, PartialEq, Eq, Structural)]
pub enum FsAction {
    /// Create the cache root and its parents.
    EnsureRoot,
    /// Create the object's directory and its parents.
    EnsureDir,
    /// Read `meta`, read `hdr` and open `body`, in any order.
    ProbeObject,
    /// Ask for the length of `body`.
    MeasureBody,
    /// Ask whether `body` exists.
    BodyExists,
    /// Create the temporary file, or empty it.
    CreateTmp,
    /// Open the temporary file for appending.
    OpenTmpAppend,
    /// Append the pending chunk to the temporary file.
    WriteTmp,
    /// Flush the temporary file.
    FlushTmp,
    /// Rename the temporary file to `body`.
    RenameTmp,
    /// Open the temporary file for reading.
    OpenTmp,
    /// Create `body`, or empty it.
    CreateBody,
    /// Copy the temporary file into `body`.
    CopyTmp,
    /// Remove the temporary file.
    RemoveTmp,
    /// Write the serialized internal meta to `meta`.
    WriteMeta,
    /// Write the serialized header to `hdr`.
    WriteHdr,
    /// Remove `body`.
    RemoveBody,
    /// Remove `meta`.
    RemoveMeta,
    /// Remove `hdr`.
    RemoveHdr,
    /// Remove the object's directory if it is empty.
    RemoveDir,
}

/// What the file system answered to one request.
#[derive(Clone, Debug, PartialEq, Eq)]
pub enum FsReply {
    /// The request succeeded and has nothing to report.
    Done,
    /// The length asked for.
    Len(u64),
    /// Whether the file asked about exists.
    Found(bool),
    /// Which of the three parts of an object could be read or opened.
    Probe { meta: bool, hdr: bool, body: bool },
    /// The request failed; the text is the system's description.
    Failed(String),
}

/// An `FsReply` without the text of a failure.
#[derive(Clone, Copy, PartialEq, Eq, Structural)]
pub enum ReplyKind {
    Done,
    Len(u64),
    Found(bool),
    Probe { meta: bool, hdr: bool, body: bool },
    Failed,
}

impl View for FsReply {
    type V = ReplyKind;

    open spec fn view(&self) -> ReplyKind {
        match *self {
            FsReply::Done => ReplyKind::Done,
            FsReply::Len(n) => ReplyKind::Len(n),
            FsReply::Found(b) => ReplyKind::Found(b),
            FsReply::Probe { meta, hdr, body } => ReplyKind::Probe { meta, hdr, body },
            FsReply::Failed(_) => ReplyKind::Failed,
        }
    }
}

/// The description carried by a reply: that of a failure, else nothing.
pub open spec fn reply_detail(reply: FsReply) -> Seq<char> {
    match reply {
        FsReply::Failed(text) => text@,
        _ => Seq::empty(),
    }
}

/// The request whose failure ends an operation.
#[derive(Clone, Copy, Debug, PartialEq, Eq, Structural)]
pub enum Site {
    CreateRoot,
    MeasureBody,
    CreateTmp,
    OpenTmpAppend,
    WriteTmp,
    OpenTmp,
    CreateBody,
    CopyBody,
    WriteMeta,
    WriteHdr,
    UpdateMeta,
    UpdateHdr,
}

/// Where an operation of the disk cache stands. Each operation starts in
/// its first stage, moves on with every reply, and ends in a stage without
/// a request.
#[derive(Clone, Copy, Debug, PartialEq, Eq, Structural)]
pub enum Stage {
    // lookup
    LookupEnsureRoot,
    LookupProbe,
    LookupMeasure,
    /// End of a lookup: the object is published and `body` has this length.
    LookupHit(u64),
    /// End of a lookup: the object is absent or only partly written.
    LookupMiss,
    // preparing a miss handler
    SetupEnsureDir,
    SetupEnsureParent,
    SetupCreateTmp,
    /// End of the preparation: the temporary file exists and is empty.
    SetupReady,
    // writing one chunk of a body
    WriteOpen { flush: bool },
    WriteData { flush: bool },
    WriteFlush,
    /// End of a write: the chunk is appended.
    Written,
    // publishing
    FinishEnsureDir,
    FinishRename,
    FinishOpenTmp,
    FinishCreateBody,
    FinishCopy,
    FinishRemoveTmp,
    FinishWriteMeta,
    FinishWriteHdr,
    /// End of a publication: `body`, `meta` and `hdr` are in place.
    Published,
    // giving up a miss handler
    AbandonRemoveTmp,
    /// End of giving up: the temporary file was asked to go.
    Abandoned,
    // purge
    PurgeMeasure,
    PurgeRemoveBody { bytes: u64 },
    PurgeRemoveMeta { existed: bool, bytes: u64 },
    PurgeRemoveHdr { existed: bool, bytes: u64 },
    PurgeRemoveDir { existed: bool, bytes: u64 },
    /// End of a purge: whether `body` was removed, and the length it had.
    Purged { existed: bool, bytes: u64 },
    // meta update
    /// Start of a meta update; `serialized` tells whether the new meta could
    /// be serialized.
    UpdateCheckBody { serialized: bool },
    UpdateWriteMeta,
    UpdateWriteHdr,
    /// End of a meta update: whether `meta` and `hdr` were rewritten.
    Updated(bool),
    /// End of a meta update whose object exists but whose new meta could not
    /// be serialized.
    UpdateRejected,
    /// End of any operation that a failed request stopped.
    Failed(Site),
}

/// The request to make at `stage`; none where the operation has ended.
pub open spec fn stage_action(stage: Stage) -> Option<FsAction> {
    match stage {
        Stage::LookupEnsureRoot => Some(FsAction::EnsureRoot),
        Stage::LookupProbe => Some(FsAction::ProbeObject),
        Stage::LookupMeasure => Some(FsAction::MeasureBody),
        Stage::SetupEnsureDir => Some(FsAction::EnsureDir),
        Stage::SetupEnsureParent => Some(FsAction::EnsureDir),
        Stage::SetupCreateTmp => Some(FsAction::CreateTmp),
        Stage::WriteOpen { .. } => Some(FsAction::OpenTmpAppend),
        Stage::WriteData { .. } => Some(FsAction::WriteTmp),
        Stage::WriteFlush => Some(FsAction::FlushTmp),
        Stage::FinishEnsureDir => Some(FsAction::EnsureDir),
        Stage::FinishRename => Some(FsAction::RenameTmp),
        Stage::FinishOpenTmp => Some(FsAction::OpenTmp),
        Stage::FinishCreateBody => Some(FsAction::CreateBody),
        Stage::FinishCopy => Some(FsAction::CopyTmp),
        Stage::FinishRemoveTmp => Some(FsAction::RemoveTmp),
        Stage::FinishWriteMeta => Some(FsAction::WriteMeta),
        Stage::FinishWriteHdr => Some(FsAction::WriteHdr),
        Stage::AbandonRemoveTmp => Some(FsAction::RemoveTmp),
        Stage::PurgeMeasure => Some(FsAction::MeasureBody),
        Stage::PurgeRemoveBody { .. } => Some(FsAction::RemoveBody),
        Stage::PurgeRemoveMeta { .. } => Some(FsAction::RemoveMeta),
        Stage::PurgeRemoveHdr { .. } => Some(FsAction::RemoveHdr),
        Stage::PurgeRemoveDir { .. } => Some(FsAction::RemoveDir),
        Stage::UpdateCheckBody { .. } => Some(FsAction::BodyExists),
        Stage::UpdateWriteMeta => Some(FsAction::WriteMeta),
        Stage::UpdateWriteHdr => Some(FsAction::WriteHdr),
        Stage::LookupHit(_) | Stage::LookupMiss | Stage::SetupReady | Stage::Written
        | Stage::Published | Stage::Abandoned | Stage::Purged { .. } | Stage::Updated(_)
        | Stage::UpdateRejected | Stage::Failed(_) => None,
    }
}

/// Whether a reply reports success. A reply of another shape than the
/// request calls for counts as a failure.
pub open spec fn succeeded(reply: ReplyKind) -> bool {
    reply is Done
}

/// The stage that follows `stage` once its request is answered by `reply`.
///
/// Requests made on a best-effort basis (creating directories, flushing,
/// removing what may be gone) move on whatever the reply. An ended operation
/// stays where it is.
pub open spec fn stage_next(stage: Stage, reply: ReplyKind) -> Stage {
    match stage {
        Stage::LookupEnsureRoot => if succeeded(reply) {
            Stage::LookupProbe
        } else {
            Stage::Failed(Site::CreateRoot)
        },
        Stage::LookupProbe => match reply {
            ReplyKind::Probe { meta: true, hdr: true, body: true } => Stage::LookupMeasure,
            _ => Stage::LookupMiss,
        },
        Stage::LookupMeasure => match reply {
            ReplyKind::Len(n) => Stage::LookupHit(n),
            _ => Stage::Failed(Site::MeasureBody),
        },
        Stage::SetupEnsureDir => Stage::SetupEnsureParent,
        Stage::SetupEnsureParent => Stage::SetupCreateTmp,
        Stage::SetupCreateTmp => if succeeded(reply) {
            Stage::SetupReady
        } else {
            Stage::Failed(Site::CreateTmp)
        },
        Stage::WriteOpen { flush } => if succeeded(reply) {
            Stage::WriteData { flush }
        } else {
            Stage::Failed(Site::OpenTmpAppend)
        },
        Stage::WriteData { flush } => if !succeeded(reply) {
            Stage::Failed(Site::WriteTmp)
        } else if flush {
            Stage::WriteFlush
        } else {
            Stage::Written
        },
        Stage::WriteFlush => Stage::Written,
        Stage::FinishEnsureDir => Stage::FinishRename,
        Stage::FinishRename => if succeeded(reply) {
            Stage::FinishWriteMeta
        } else {
            Stage::FinishOpenTmp
        },
        Stage::FinishOpenTmp => if succeeded(reply) {
            Stage::FinishCreateBody
        } else {
            Stage::Failed(Site::OpenTmp)
        },
        Stage::FinishCreateBody => if succeeded(reply) {
            Stage::FinishCopy
        } else {
            Stage::Failed(Site::CreateBody)
        },
        Stage::FinishCopy => if succeeded(reply) {
            Stage::FinishRemoveTmp
        } else {
            Stage::Failed(Site::CopyBody)
        },
        Stage::FinishRemoveTmp => Stage::FinishWriteMeta,
        Stage::FinishWriteMeta => if succeeded(reply) {
            Stage::FinishWriteHdr
        } else {
            Stage::Failed(Site::WriteMeta)
        },
        Stage::FinishWriteHdr => if succeeded(reply) {
            Stage::Published
        } else {
            Stage::Failed(Site::WriteHdr)
        },
        Stage::AbandonRemoveTmp => Stage::Abandoned,
        Stage::PurgeMeasure => match reply {
            ReplyKind::Len(n) => Stage::PurgeRemoveBody { bytes: n },
            _ => Stage::PurgeRemoveBody { bytes: 0 },
        },
        Stage::PurgeRemoveBody { bytes } => Stage::PurgeRemoveMeta {
            existed: succeeded(reply),
            bytes,
        },
        Stage::PurgeRemoveMeta { existed, bytes } => Stage::PurgeRemoveHdr { existed, bytes },
        Stage::PurgeRemoveHdr { existed, bytes } => Stage::PurgeRemoveDir { existed, bytes },
        Stage::PurgeRemoveDir { existed, bytes } => Stage::Purged { existed, bytes },
        Stage::UpdateCheckBody { serialized } => match reply {
            ReplyKind::Found(true) => if serialized {
                Stage::UpdateWriteMeta
            } else {
                Stage::UpdateRejected
            },
            _ => Stage::Updated(false),
        },
        Stage::UpdateWriteMeta => if succeeded(reply) {
            Stage::UpdateWriteHdr
        } else {
            Stage::Failed(Site::UpdateMeta)
        },
        Stage::UpdateWriteHdr => if succeeded(reply) {
            Stage::Updated(true)
        } else {
            Stage::Failed(Site::UpdateHdr)
        },
        Stage::LookupHit(_) | Stage::LookupMiss | Stage::SetupReady | Stage::Written
        | Stage::Published | Stage::Abandoned | Stage::Purged { .. } | Stage::Updated(_)
        | Stage::UpdateRejected | Stage::Failed(_) => stage,
    }
}

/// The operations of the disk cache.
#[derive(Clone, Copy, Debug, PartialEq, Eq, Structural)]
pub enum Operation {
    Lookup,
    Setup,
    Write,
    Finish,
    Abandon,
    Purge,
    Update,
}

/// The operation that a failure at `site` ends.
pub open spec fn operation_at(site: Site) -> Operation {
    match site {
        Site::CreateRoot | Site::MeasureBody => Operation::Lookup,
        Site::CreateTmp => Operation::Setup,
        Site::OpenTmpAppend | Site::WriteTmp => Operation::Write,
        Site::OpenTmp | Site::CreateBody | Site::CopyBody | Site::WriteMeta | Site::WriteHdr =>
            Operation::Finish,
        Site::UpdateMeta | Site::UpdateHdr => Operation::Update,
    }
}

/// The operation that `stage` is a stage of.
pub open spec fn operation_of(stage: Stage) -> Operation {
    match stage {
        Stage::LookupEnsureRoot | Stage::LookupProbe | Stage::LookupMeasure | Stage::LookupHit(_)
        | Stage::LookupMiss => Operation::Lookup,
        Stage::SetupEnsureDir | Stage::SetupEnsureParent | Stage::SetupCreateTmp
        | Stage::SetupReady => Operation::Setup,
        Stage::WriteOpen { .. } | Stage::WriteData { .. } | Stage::WriteFlush | Stage::Written =>
            Operation::Write,
        Stage::FinishEnsureDir | Stage::FinishRename | Stage::FinishOpenTmp
        | Stage::FinishCreateBody | Stage::FinishCopy | Stage::FinishRemoveTmp
        | Stage::FinishWriteMeta | Stage::FinishWriteHdr | Stage::Published => Operation::Finish,
        Stage::AbandonRemoveTmp | Stage::Abandoned => Operation::Abandon,
        Stage::PurgeMeasure | Stage::PurgeRemoveBody { .. } | Stage::PurgeRemoveMeta { .. }
        | Stage::PurgeRemoveHdr { .. } | Stage::PurgeRemoveDir { .. } | Stage::Purged { .. } =>
            Operation::Purge,
        Stage::UpdateCheckBody { .. } | Stage::UpdateWriteMeta | Stage::UpdateWriteHdr
        | Stage::Updated(_) | Stage::UpdateRejected => Operation::Update,
        Stage::Failed(site) => operation_at(site),
    }
}

/// The largest number of requests that an operation at `stage` still makes.
pub open spec fn requests_left(stage: Stage) -> nat {
    match stage {
        Stage::LookupEnsureRoot => 3,
        Stage::LookupProbe => 2,
        Stage::LookupMeasure => 1,
        Stage::SetupEnsureDir => 3,
        Stage::SetupEnsureParent => 2,
        Stage::SetupCreateTmp => 1,
        Stage::WriteOpen { .. } => 3,
        Stage::WriteData { .. } => 2,
        Stage::WriteFlush => 1,
        Stage::FinishEnsureDir => 8,
        Stage::FinishRename => 7,
        Stage::FinishOpenTmp => 6,
        Stage::FinishCreateBody => 5,
        Stage::FinishCopy => 4,
        Stage::FinishRemoveTmp => 3,
        Stage::FinishWriteMeta => 2,
        Stage::FinishWriteHdr => 1,
        Stage::AbandonRemoveTmp => 1,
        Stage::PurgeMeasure => 5,
        Stage::PurgeRemoveBody { .. } => 4,
        Stage::PurgeRemoveMeta { .. } => 3,
        Stage::PurgeRemoveHdr { .. } => 2,
        Stage::PurgeRemoveDir { .. } => 1,
        Stage::UpdateCheckBody { .. } => 3,
        Stage::UpdateWriteMeta => 2,
        Stage::UpdateWriteHdr => 1,
        Stage::LookupHit(_) | Stage::LookupMiss | Stage::SetupReady | Stage::Written
        | Stage::Published | Stage::Abandoned | Stage::Purged { .. } | Stage::Updated(_)
        | Stage::UpdateRejected | Stage::Failed(_) => 0,
    }
}

/// Whatever the file system answers, an operation stays the operation it
/// is, and every answer brings it closer to its end: no operation makes
/// more than eight requests, and one that has none left has ended.
pub proof fn law_operations_end(stage: Stage, reply: ReplyKind)
    ensures
        operation_of(stage_next(stage, reply)) == operation_of(stage),
        requests_left(stage) <= 8,
        requests_left(stage) == 0 <==> stage_action(stage) is None,
        stage_action(stage) is Some ==> requests_left(stage_next(stage, reply)) < requests_left(
            stage,
        ),
{
}

/// Whether a failure at `stage` ends the operation with an error.
pub open spec fn fails_at(stage: Stage, reply: ReplyKind) -> bool {
    stage_action(stage) is Some && stage_next(stage, reply) is Failed
}

/// An operation of the disk cache in progress: its stage and, once a request
/// has failed for good, the system's description of that failure.
#[derive(Clone, Debug, PartialEq, Eq)]
pub struct DiskOp {
    pub stage: Stage,
    pub detail: String,
}

impl DiskOp {
    /// An operation that stands at `stage` and has seen no failure.
    pub fn at(stage: Stage) -> (op: DiskOp)
        ensures
            op.stage == stage,
            op.detail@ == Seq::<char>::empty(),
    {
        DiskOp { stage, detail: String::new() }
    }

    /// The request to make now; none once the operation has ended.
    pub fn action(&self) -> (r: Option<FsAction>)
        ensures
            r == stage_action(self.stage),
    {
        match self.stage {
            Stage::LookupEnsureRoot => Some(FsAction::EnsureRoot),
            Stage::LookupProbe => Some(FsAction::ProbeObject),
            Stage::LookupMeasure => Some(FsAction::MeasureBody),
            Stage::SetupEnsureDir => Some(FsAction::EnsureDir),
            Stage::SetupEnsureParent => Some(FsAction::EnsureDir),
            Stage::SetupCreateTmp => Some(FsAction::CreateTmp),
            Stage::WriteOpen { .. } => Some(FsAction::OpenTmpAppend),
            Stage::WriteData { .. } => Some(FsAction::WriteTmp),
            Stage::WriteFlush => Some(FsAction::FlushTmp),
            Stage::FinishEnsureDir => Some(FsAction::EnsureDir),
            Stage::FinishRename => Some(FsAction::RenameTmp),
            Stage::FinishOpenTmp => Some(FsAction::OpenTmp),
            Stage::FinishCreateBody => Some(FsAction::CreateBody),
            Stage::FinishCopy => Some(FsAction::CopyTmp),
            Stage::FinishRemoveTmp => Some(FsAction::RemoveTmp),
            Stage::FinishWriteMeta => Some(FsAction::WriteMeta),
            Stage::FinishWriteHdr => Some(FsAction::WriteHdr),
            Stage::AbandonRemoveTmp => Some(FsAction::RemoveTmp),
            Stage::PurgeMeasure => Some(FsAction::MeasureBody),
            Stage::PurgeRemoveBody { .. } => Some(FsAction::RemoveBody),
            Stage::PurgeRemoveMeta { .. } => Some(FsAction::RemoveMeta),
            Stage::PurgeRemoveHdr { .. } => Some(FsAction::RemoveHdr),
            Stage::PurgeRemoveDir { .. } => Some(FsAction::RemoveDir),
            Stage::UpdateCheckBody { .. } => Some(FsAction::BodyExists),
            Stage::UpdateWriteMeta => Some(FsAction::WriteMeta),
            Stage::UpdateWriteHdr => Some(FsAction::WriteHdr),
            _ => None,
        }
    }

    /// Whether the operation has ended.
    pub fn is_done(&self) -> (r: bool)
        ensures
            r == (stage_action(self.stage) is None),
    {
        self.action().is_none()
    }

    /// Takes the answer to the current request and moves to the next stage.
    /// Where the answer ends the operation with an error, its description is
    /// kept. On an ended operation nothing changes.
    pub fn advance(&mut self, reply: FsReply)
        ensures
            final(self).stage == stage_next(old(self).stage, reply@),
            final(self).detail@ == (if fails_at(old(self).stage, reply@) {
                reply_detail(reply)
            } else {
                old(self).detail@
            }),
    {
        let ok = matches!(reply, FsReply::Done);
        let next = match self.stage {
            Stage::LookupEnsureRoot => if ok {
                Stage::LookupProbe
            } else {
                Stage::Failed(Site::CreateRoot)
            },
            Stage::LookupProbe => match reply {
                FsReply::Probe { meta: true, hdr: true, body: true } => Stage::LookupMeasure,
                _ => Stage::LookupMiss,
            },
            Stage::LookupMeasure => match reply {
                FsReply::Len(n) => Stage::LookupHit(n),
                _ => Stage::Failed(Site::MeasureBody),
            },
            Stage::SetupEnsureDir => Stage::SetupEnsureParent,
            Stage::SetupEnsureParent => Stage::SetupCreateTmp,
            Stage::SetupCreateTmp => if ok {
                Stage::SetupReady
            } else {
                Stage::Failed(Site::CreateTmp)
            },
            Stage::WriteOpen { flush } => if ok {
                Stage::WriteData { flush }
            } else {
                Stage::Failed(Site::OpenTmpAppend)
            },
            Stage::WriteData { flush } => if !ok {
                Stage::Failed(Site::WriteTmp)
            } else if flush {
                Stage::WriteFlush
            } else {
                Stage::Written
            },
            Stage::WriteFlush => Stage::Written,
            Stage::FinishEnsureDir => Stage::FinishRename,
            Stage::FinishRename => if ok {
                Stage::FinishWriteMeta
            } else {
                Stage::FinishOpenTmp
            },
            Stage::FinishOpenTmp => if ok {
                Stage::FinishCreateBody
            } else {
                Stage::Failed(Site::OpenTmp)
            },
            Stage::FinishCreateBody => if ok {
                Stage::FinishCopy
            } else {
                Stage::Failed(Site::CreateBody)
            },
            Stage::FinishCopy => if ok {
                Stage::FinishRemoveTmp
            } else {
                Stage::Failed(Site::CopyBody)
            },
            Stage::FinishRemoveTmp => Stage::FinishWriteMeta,
            Stage::FinishWriteMeta => if ok {
                Stage::FinishWriteHdr
            } else {
                Stage::Failed(Site::WriteMeta)
            },
            Stage::FinishWriteHdr => if ok {
                Stage::Published
            } else {
                Stage::Failed(Site::WriteHdr)
            },
            Stage::AbandonRemoveTmp => Stage::Abandoned,
            Stage::PurgeMeasure => match reply {
                FsReply::Len(n) => Stage::PurgeRemoveBody { bytes: n },
                _ => Stage::PurgeRemoveBody { bytes: 0 },
            },
            Stage::PurgeRemoveBody { bytes } => Stage::PurgeRemoveMeta { existed: ok, bytes },
            Stage::PurgeRemoveMeta { existed, bytes } => Stage::PurgeRemoveHdr { existed, bytes },
            Stage::PurgeRemoveHdr { existed, bytes } => Stage::PurgeRemoveDir { existed, bytes },
            Stage::PurgeRemoveDir { existed, bytes } => Stage::Purged { existed, bytes },
            Stage::UpdateCheckBody { serialized } => match reply {
                FsReply::Found(true) => if serialized {
                    Stage::UpdateWriteMeta
                } else {
                    Stage::UpdateRejected
                },
                _ => Stage::Updated(false),
            },
            Stage::UpdateWriteMeta => if ok {
                Stage::UpdateWriteHdr
            } else {
                Stage::Failed(Site::UpdateMeta)
            },
            Stage::UpdateWriteHdr => if ok {
                Stage::Updated(true)
            } else {
                Stage::Failed(Site::UpdateHdr)
            },
            done => done,
        };
        let was_running = self.action().is_some();
        let now_failed = matches!(next, Stage::Failed(_));
        self.stage = next;
        if was_running && now_failed {
            self.detail = match reply {
                FsReply::Failed(text) => text,
                _ => String::new(),
            };
        }
    }
}

/// The words that open the explanation of a failure at `site`. Where the
/// cache root or the body is at fault, its path is part of them.
pub open spec fn site_prefix(site: Site, root: Seq<char>, body: Seq<char>) -> Seq<char> {
    match site {
        Site::CreateRoot => "Unable to create disk cache directory "@ + root + ": "@,
        Site::MeasureBody => "unable to determine file size for cached entry "@ + body + ": "@,
        Site::CreateTmp => "failed to create tmp file: "@,
        Site::OpenTmpAppend => "Can't open tmp file for append: "@,
        Site::WriteTmp => "Error writing to tmp file: "@,
        Site::OpenTmp => "Can't open tmp file for append: "@,
        Site::CreateBody => "Can't create cache file: "@,
        Site::CopyBody => "Failed to copy tmp to cache body: "@,
        Site::WriteMeta => "Failed to write cache meta: "@,
        Site::WriteHdr => "Failed to write cache hdr: "@,
        Site::UpdateMeta => "failed to update meta: "@,
        Site::UpdateHdr => "failed to update hdr: "@,
    }
}

/// The failure that a stopped operation surfaces: an `InternalError` whose
/// explanation names the request that failed and repeats the system's
/// description. It may be tried again where only a chunk was lost.
pub open spec fn site_failure(
    site: Site,
    root: Seq<char>,
    body: Seq<char>,
    detail: Seq<char>,
) -> CacheErrorView {
    CacheErrorView {
        etype: ErrorType::InternalError,
        context: site_prefix(site, root, body) + detail,
        retry: retry_after(site),
    }
}

/// Whether a request that failed at `site` may be tried again: so it is
/// where a chunk could not be written, for nothing has been published and
/// the writer is given up.
pub open spec fn retry_after(site: Site) -> bool {
    site == Site::OpenTmpAppend || site == Site::WriteTmp
}

/// The failure to surface for a request that failed at `site` on the object
/// with the given cache root and body path.
pub fn failure_at(site: Site, root: &str, body: &str, detail: &str) -> (e: CacheError)
    ensures
        e@ == site_failure(site, root@, body@, detail@),
{
    let mut context = String::new();
    match site {
        Site::CreateRoot => {
            context.append("Unable to create disk cache directory ");
            context.append(root);
            context.append(": ");
        },
        Site::MeasureBody => {
            context.append("unable to determine file size for cached entry ");
            context.append(body);
            context.append(": ");
        },
        Site::CreateTmp => {
            context.append("failed to create tmp file: ");
        },
        Site::OpenTmpAppend => {
            context.append("Can't open tmp file for append: ");
        },
        Site::WriteTmp => {
            context.append("Error writing to tmp file: ");
        },
        Site::OpenTmp => {
            context.append("Can't open tmp file for append: ");
        },
        Site::CreateBody => {
            context.append("Can't create cache file: ");
        },
        Site::CopyBody => {
            context.append("Failed to copy tmp to cache body: ");
        },
        Site::WriteMeta => {
            context.append("Failed to write cache meta: ");
        },
        Site::WriteHdr => {
            context.append("Failed to write cache hdr: ");
        },
        Site::UpdateMeta => {
            context.append("failed to update meta: ");
        },
        Site::UpdateHdr => {
            context.append("failed to update hdr: ");
        },
    }
    assert(context@ =~= site_prefix(site, root@, body@));
    context.append(detail);
    let retry = match site {
        Site::OpenTmpAppend => true,
        Site::WriteTmp => true,
        _ => false,
    };
    CacheError { etype: ErrorType::InternalError, context, retry }
}

} // verus!
