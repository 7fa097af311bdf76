use crate::error::CacheError;
use crate::layout::{join, join_path};
use crate::metrics::CacheMetrics;
use crate::protocol::{
    failure_at, operation_of, site_failure, stage_action, DiskOp, Operation, Site, Stage,
};
use crate::layout::is_object_name;
use crate::text::{decimal, decimal_string, digits_value, is_digit, law_decimal_round_trip};
use vstd::prelude::*;
use vstd::string::StringExecFns;

verus! {

/// How a miss handler ended.
#[derive(Clone, Copy, Debug, PartialEq, Eq, Structural)]
pub enum MissFinishType {
    /// A new object was published; its body has this many bytes.
    Created(usize),
    /// An object that was there grew by this many bytes. The disk cache
    /// never ends so; a backend beneath it may.
    Appended(usize),
}

/// A streaming writer for the body of an object that is being fetched. The
/// body is collected in a temporary file of its own and becomes visible
/// only when the handler is finished.
#[derive(Clone, Debug, PartialEq, Eq)]
pub struct DiskMissHandler {
    pub tmp_path: String,
    pub tmp_bytes_written: usize,
    // final locations
    pub dir: String,
    pub body_path: String,
    pub meta_path: String,
    pub hdr_path: String,
    pub meta_internal: Vec<u8>,
    pub meta_header: Vec<u8>,
}

/// The name of a temporary file: the object's name, the process and the
/// time of creation in nanoseconds, so that no two writers share a file.
pub open spec fn tmp_name(hint: Seq<char>, pid: u32, nanos: u128) -> Seq<char> {
    hint + ".tmp-"@ + decimal(pid as nat) + "-"@ + decimal(nanos as nat)
}

/// Whether `stage` ends the writing of a chunk.
pub open spec fn ends_write(stage: Stage) -> bool {
    stage_action(stage) is None && operation_of(stage) == Operation::Write
}

/// Whether `stage` ends a publication.
pub open spec fn ends_finish(stage: Stage) -> bool {
    stage_action(stage) is None && operation_of(stage) == Operation::Finish
}

/// Whether `stage` ends the creation of a temporary file.
pub open spec fn ends_setup(stage: Stage) -> bool {
    stage_action(stage) is None && operation_of(stage) == Operation::Setup
}

/// Whether `stage` ends the writing of a chunk.
pub fn ends_write_stage(stage: Stage) -> (r: bool)
    ensures
        r == ends_write(stage),
{
    match stage {
        Stage::Written => true,
        Stage::Failed(Site::OpenTmpAppend) => true,
        Stage::Failed(Site::WriteTmp) => true,
        _ => false,
    }
}

/// Whether `stage` ends a publication.
pub fn ends_finish_stage(stage: Stage) -> (r: bool)
    ensures
        r == ends_finish(stage),
{
    match stage {
        Stage::Published => true,
        Stage::Failed(Site::OpenTmp) => true,
        Stage::Failed(Site::CreateBody) => true,
        Stage::Failed(Site::CopyBody) => true,
        Stage::Failed(Site::WriteMeta) => true,
        Stage::Failed(Site::WriteHdr) => true,
        _ => false,
    }
}

/// Whether `stage` ends the creation of a temporary file.
pub fn ends_setup_stage(stage: Stage) -> (r: bool)
    ensures
        r == ends_setup(stage),
{
    match stage {
        Stage::SetupReady => true,
        Stage::Failed(Site::CreateTmp) => true,
        _ => false,
    }
}

impl DiskMissHandler {
    /// Names a temporary file for the object `hint` in `path_dir` and starts
    /// its creation: the directory first, on a best-effort basis, then the
    /// file.
    pub fn create_tmp(path_dir: &str, hint: &str, pid: u32, nanos: u128) -> (r: (String, DiskOp))
        ensures
            r.0@ == join(path_dir@, tmp_name(hint@, pid, nanos)),
            r.1.stage == Stage::SetupEnsureParent,
            r.1.detail@.len() == 0,
    {
        let mut name = hint.to_owned();
        name.append(".tmp-");
        name.append(decimal_string(pid as u128).as_str());
        name.append("-");
        name.append(decimal_string(nanos).as_str());
        (join_path(path_dir, name.as_str()), DiskOp::at(Stage::SetupEnsureParent))
    }

    /// Ends the creation of the temporary file: a file that could not be
    /// created is an `InternalError`.
    pub fn create_tmp_done(op: &DiskOp) -> (r: Result<(), CacheError>)
        requires
            ends_setup(op.stage),
        ensures
            op.stage == Stage::SetupReady ==> r is Ok,
            op.stage != Stage::SetupReady ==> (r matches Err(e) && e@ == site_failure(
                Site::CreateTmp,
                Seq::empty(),
                Seq::empty(),
                op.detail@,
            )),
    {
        match op.stage {
            Stage::SetupReady => Ok(()),
            _ => Err(failure_at(Site::CreateTmp, "", "", op.detail.as_str())),
        }
    }

    /// Starts the writing of one chunk: the temporary file is opened for
    /// appending and the chunk is appended; after the last chunk the file is
    /// flushed. Nothing is published.
    pub fn write_body(&self, is_eof: bool) -> (op: DiskOp)
        ensures
            op.stage == (Stage::WriteOpen { flush: is_eof }),
            op.detail@.len() == 0,
    {
        DiskOp::at(Stage::WriteOpen { flush: is_eof })
    }

    /// Ends the writing of a chunk of `len` bytes. Once the chunk is
    /// appended it counts as written. A file that could not be opened or
    /// written is an `InternalError`, and nothing is counted.
    pub fn write_body_done(&mut self, op: &DiskOp, len: usize) -> (r: Result<(), CacheError>)
        requires
            ends_write(op.stage),
            old(self).tmp_bytes_written + len <= usize::MAX,
        ensures
            op.stage == Stage::Written ==> r is Ok && *final(self) == (DiskMissHandler {
                tmp_bytes_written: (old(self).tmp_bytes_written + len) as usize,
                ..*old(self)
            }),
            op.stage matches Stage::Failed(site) ==> *final(self) == *old(self) && (
            r matches Err(e) && e@ == site_failure(site, Seq::empty(), Seq::empty(), op.detail@)),
    {
        match op.stage {
            Stage::Failed(site) => Err(failure_at(site, "", "", op.detail.as_str())),
            _ => {
                self.tmp_bytes_written = self.tmp_bytes_written + len;
                Ok(())
            },
        }
    }

    /// Starts the publication of the object: the directory is made sure of,
    /// the temporary file becomes `body` (by renaming, or by copying where
    /// renaming fails), and only then `meta` and `hdr` are written.
    pub fn finish(&self) -> (op: DiskOp)
        ensures
            op.stage == Stage::FinishEnsureDir,
            op.detail@.len() == 0,
    {
        DiskOp::at(Stage::FinishEnsureDir)
    }

    /// Ends the publication. Once all three files are in place the object is
    /// counted as inserted, the cache has grown by the bytes written, and
    /// that number is handed on for eviction. A publication that a failed
    /// request stopped is an `InternalError` and counts for nothing.
    pub fn finish_done(self, op: &DiskOp, metrics: &mut CacheMetrics) -> (r: Result<
        MissFinishType,
        CacheError,
    >)
        requires
            ends_finish(op.stage),
        ensures
            op.stage == Stage::Published ==> r == Ok::<MissFinishType, CacheError>(
                MissFinishType::Created(self.tmp_bytes_written),
            ) && *final(metrics) == old(metrics).admitted(self.tmp_bytes_written as u64),
            op.stage matches Stage::Failed(site) ==> *final(metrics) == *old(metrics) && (
            r matches Err(e) && e@ == site_failure(site, Seq::empty(), Seq::empty(), op.detail@)),
    {
        match op.stage {
            Stage::Failed(site) => Err(failure_at(site, "", "", op.detail.as_str())),
            _ => {
                metrics.record_insert(self.tmp_bytes_written as u64);
                Ok(MissFinishType::Created(self.tmp_bytes_written))
            },
        }
    }

    /// Partial reads of a body under way are not supported: there is no tag.
    pub fn streaming_write_tag(&self) -> (r: Option<Vec<u8>>)
        ensures
            r is None,
    {
        None
    }

    /// What is left to do for a handler that is given up, or dropped after
    /// its end: the temporary file is removed, whether it still exists or
    /// not. `body`, `meta` and `hdr` are not touched.
    pub fn abandon(&self) -> (op: DiskOp)
        ensures
            op.stage == Stage::AbandonRemoveTmp,
            op.detail@.len() == 0,
    {
        DiskOp::at(Stage::AbandonRemoveTmp)
    }
}

/// Two writers of the same object that differ in process or in time of
/// creation write to different temporary files.
pub proof fn law_tmp_names_differ(
    hint: Seq<char>,
    pid1: u32,
    nanos1: u128,
    pid2: u32,
    nanos2: u128,
)
    requires
        pid1 != pid2 || nanos1 != nanos2,
    ensures
        tmp_name(hint, pid1, nanos1) != tmp_name(hint, pid2, nanos2),
{
    reveal_strlit(".tmp-");
    reveal_strlit("-");
    let a = tmp_name(hint, pid1, nanos1);
    let b = tmp_name(hint, pid2, nanos2);
    let p1 = decimal(pid1 as nat);
    let p2 = decimal(pid2 as nat);
    let n1 = decimal(nanos1 as nat);
    let n2 = decimal(nanos2 as nat);
    law_decimal_round_trip(pid1 as nat, pid1 as nat);
    law_decimal_round_trip(pid2 as nat, pid2 as nat);
    law_decimal_round_trip(nanos1 as nat, nanos1 as nat);
    law_decimal_round_trip(nanos2 as nat, nanos2 as nat);
    if a == b {
        let lead: int = hint.len() as int + 5;
        assert(a.len() == lead + p1.len() + 1 + n1.len());
        assert(b.len() == lead + p2.len() + 1 + n2.len());
        // The dash after the process stands where the digits of the process end.
        assert(a[lead + p1.len()] == '-');
        assert(b[lead + p2.len()] == '-');
        if p1.len() < p2.len() {
            assert(b[lead + p1.len()] == p2[p1.len() as int]);
            assert(is_digit(p2[p1.len() as int]));
            assert(false);
        }
        if p2.len() < p1.len() {
            assert(a[lead + p2.len()] == p1[p2.len() as int]);
            assert(is_digit(p1[p2.len() as int]));
            assert(false);
        }
        assert forall|i: int| 0 <= i < p1.len() implies p1[i] == p2[i] by {
            assert(a[lead + i] == p1[i]);
            assert(b[lead + i] == p2[i]);
        }
        assert(p1 =~= p2);
        assert(n1.len() == n2.len());
        assert forall|i: int| 0 <= i < n1.len() implies n1[i] == n2[i] by {
            assert(a[lead + p1.len() + 1 + i] == n1[i]);
            assert(b[lead + p1.len() + 1 + i] == n2[i]);
        }
        assert(n1 =~= n2);
        assert(digits_value(p1) == pid1 && digits_value(p2) == pid2);
        assert(digits_value(n1) == nanos1 && digits_value(n2) == nanos2);
        assert(false);
    }
}

/// The temporary file of a writer is none of the three files of the object,
/// so that nothing is visible before the writer is finished.
pub proof fn law_tmp_is_no_object_file(dir: Seq<char>, hash: Seq<char>, pid: u32, nanos: u128)
    requires
        is_object_name(hash),
    ensures
        join(dir, tmp_name(hash, pid, nanos)) != join(dir, "body"@),
        join(dir, tmp_name(hash, pid, nanos)) != join(dir, "meta"@),
        join(dir, tmp_name(hash, pid, nanos)) != join(dir, "hdr"@),
{
    reveal_strlit(".tmp-");
    reveal_strlit("-");
    reveal_strlit("body");
    reveal_strlit("meta");
    reveal_strlit("hdr");
    let name = tmp_name(hash, pid, nanos);
    assert(name.len() >= 38);
    assert(name[0] == hash[0]);
    assert(crate::utils::is_upper_hex(hash[0]));
    let lead = join(dir, name).len() - name.len();
    assert("body"@[0] == 'b' && "meta"@[0] == 'm' && "hdr"@[0] == 'h');
    assert(join(dir, "body"@).len() == lead + 4);
    assert(join(dir, "meta"@).len() == lead + 4);
    assert(join(dir, "hdr"@).len() == lead + 3);
}

} // verus!
