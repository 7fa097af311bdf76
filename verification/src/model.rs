use crate::consts::DEFAULT_READ_BUFFER_SIZE;
use crate::handle_hit::{law_drain_yields_range, DiskHitHandler};
use crate::metrics::CacheMetrics;
use crate::protocol::{
    law_operations_end, operation_of, requests_left, stage_action, stage_next, FsAction,
    ReplyKind, Stage,
};
use vstd::prelude::*;

verus! {

/// The files of one object as a file system without faults holds them, each
/// with its content, and the temporary file of the one handler at work.
pub struct ObjectDisk {
    pub tmp: Option<Seq<u8>>,
    pub body: Option<Seq<u8>>,
    pub meta: Option<Seq<u8>>,
    pub hdr: Option<Seq<u8>>,
}

/// The data that the requests of one operation carry.
pub struct Payload {
    /// The chunk to append.
    pub chunk: Seq<u8>,
    /// The serialized internal meta.
    pub meta_internal: Seq<u8>,
    /// The serialized header.
    pub meta_header: Seq<u8>,
}

/// What a file system without faults answers to `action` on `disk`: a
/// request fails only where the file it needs is not there.
pub open spec fn model_answer(disk: ObjectDisk, action: FsAction) -> ReplyKind {
    match action {
        FsAction::EnsureRoot | FsAction::EnsureDir | FsAction::CreateTmp | FsAction::FlushTmp
        | FsAction::CreateBody | FsAction::WriteMeta | FsAction::WriteHdr => ReplyKind::Done,
        FsAction::ProbeObject => ReplyKind::Probe {
            meta: disk.meta is Some,
            hdr: disk.hdr is Some,
            body: disk.body is Some,
        },
        FsAction::MeasureBody => match disk.body {
            Some(b) => ReplyKind::Len(b.len() as u64),
            None => ReplyKind::Failed,
        },
        FsAction::BodyExists => ReplyKind::Found(disk.body is Some),
        FsAction::OpenTmpAppend | FsAction::WriteTmp | FsAction::RenameTmp | FsAction::OpenTmp
        | FsAction::CopyTmp | FsAction::RemoveTmp => if disk.tmp is Some {
            ReplyKind::Done
        } else {
            ReplyKind::Failed
        },
        FsAction::RemoveBody => if disk.body is Some {
            ReplyKind::Done
        } else {
            ReplyKind::Failed
        },
        FsAction::RemoveMeta => if disk.meta is Some {
            ReplyKind::Done
        } else {
            ReplyKind::Failed
        },
        FsAction::RemoveHdr => if disk.hdr is Some {
            ReplyKind::Done
        } else {
            ReplyKind::Failed
        },
        FsAction::RemoveDir => if disk.tmp is None && disk.body is None && disk.meta is None
            && disk.hdr is None {
            ReplyKind::Done
        } else {
            ReplyKind::Failed
        },
    }
}

/// What `action` leaves of `disk` on a file system without faults. A request
/// that fails changes nothing.
pub open spec fn model_effect(disk: ObjectDisk, action: FsAction, data: Payload) -> ObjectDisk {
    match action {
        FsAction::CreateTmp => ObjectDisk { tmp: Some(Seq::empty()), ..disk },
        FsAction::WriteTmp => match disk.tmp {
            Some(t) => ObjectDisk { tmp: Some(t + data.chunk), ..disk },
            None => disk,
        },
        FsAction::RenameTmp => match disk.tmp {
            Some(t) => ObjectDisk { tmp: None, body: Some(t), ..disk },
            None => disk,
        },
        FsAction::CreateBody => ObjectDisk { body: Some(Seq::empty()), ..disk },
        FsAction::CopyTmp => match disk.tmp {
            Some(t) => ObjectDisk { body: Some(t), ..disk },
            None => disk,
        },
        FsAction::RemoveTmp => ObjectDisk { tmp: None, ..disk },
        FsAction::WriteMeta => ObjectDisk { meta: Some(data.meta_internal), ..disk },
        FsAction::WriteHdr => ObjectDisk { hdr: Some(data.meta_header), ..disk },
        FsAction::RemoveBody => ObjectDisk { body: None, ..disk },
        FsAction::RemoveMeta => ObjectDisk { meta: None, ..disk },
        FsAction::RemoveHdr => ObjectDisk { hdr: None, ..disk },
        FsAction::EnsureRoot | FsAction::EnsureDir | FsAction::ProbeObject
        | FsAction::MeasureBody | FsAction::BodyExists | FsAction::OpenTmpAppend
        | FsAction::FlushTmp | FsAction::OpenTmp | FsAction::RemoveDir => disk,
    }
}

/// Where an operation that stands at `stage` ends, and what it leaves of
/// `disk`, when a file system without faults serves its requests and no
/// other writer interferes. `fuel` bounds the number of requests; no
/// operation makes more than eight.
pub open spec fn run(stage: Stage, disk: ObjectDisk, data: Payload, fuel: nat) -> (
    Stage,
    ObjectDisk,
)
    decreases fuel,
{
    match stage_action(stage) {
        Some(action) if fuel > 0 => run(
            stage_next(stage, model_answer(disk, action)),
            model_effect(disk, action, data),
            data,
            (fuel - 1) as nat,
        ),
        _ => (stage, disk),
    }
}

/// Enough fuel for any operation.
pub open spec fn enough() -> nat {
    8
}

/// Every operation runs to its end, and ends as the operation it started
/// as.
pub proof fn law_run_ends(stage: Stage, disk: ObjectDisk, data: Payload, fuel: nat)
    requires
        requests_left(stage) <= fuel,
    ensures
        stage_action(run(stage, disk, data, fuel).0) is None,
        operation_of(run(stage, disk, data, fuel).0) == operation_of(stage),
    decreases fuel,
{
    match stage_action(stage) {
        Some(action) => {
            let reply = model_answer(disk, action);
            law_operations_end(stage, reply);
            law_run_ends(
                stage_next(stage, reply),
                model_effect(disk, action, data),
                data,
                (fuel - 1) as nat,
            );
        },
        None => {},
    }
}

/// The bytes of all `chunks`, in order.
pub open spec fn concat(chunks: Seq<Seq<u8>>) -> Seq<u8>
    decreases chunks.len(),
{
    if chunks.len() == 0 {
        Seq::empty()
    } else {
        concat(chunks.drop_last()) + chunks.last()
    }
}

/// What writing `chunks` through a miss handler, one `write_body` each,
/// leaves of `disk`.
pub open spec fn write_all(disk: ObjectDisk, chunks: Seq<Seq<u8>>) -> ObjectDisk
    decreases chunks.len(),
{
    if chunks.len() == 0 {
        disk
    } else {
        run(
            Stage::WriteOpen { flush: false },
            write_all(disk, chunks.drop_last()),
            Payload { chunk: chunks.last(), meta_internal: Seq::empty(), meta_header: Seq::empty() },
            enough(),
        ).1
    }
}

/// A payload that carries the serialized meta and no chunk.
pub open spec fn meta_payload(meta_internal: Seq<u8>, meta_header: Seq<u8>) -> Payload {
    Payload { chunk: Seq::empty(), meta_internal, meta_header }
}

/// A payload that carries nothing.
pub open spec fn no_payload() -> Payload {
    meta_payload(Seq::empty(), Seq::empty())
}

/// Whether the object on `disk` is published: all three files are there.
pub open spec fn published(disk: ObjectDisk) -> bool {
    disk.body is Some && disk.meta is Some && disk.hdr is Some
}

/// A lookup hits exactly the published objects, and reports the length of
/// the body; it changes nothing on disk. So whatever a lookup finds has a
/// body, a meta and a header.
pub proof fn law_lookup_hits_published(disk: ObjectDisk)
    ensures
        run(Stage::LookupEnsureRoot, disk, no_payload(), enough()).1 == disk,
        published(disk) ==> run(Stage::LookupEnsureRoot, disk, no_payload(), enough()).0
            == Stage::LookupHit(disk.body->0.len() as u64),
        !published(disk) ==> run(Stage::LookupEnsureRoot, disk, no_payload(), enough()).0
            == Stage::LookupMiss,
{
    reveal_with_fuel(run, 5);
}

/// Writing chunks appends them to the temporary file, in order, and touches
/// nothing else.
pub proof fn lemma_write_all(disk: ObjectDisk, chunks: Seq<Seq<u8>>)
    requires
        disk.tmp is Some,
    ensures
        write_all(disk, chunks) == (ObjectDisk {
            tmp: Some(disk.tmp->0 + concat(chunks)),
            ..disk
        }),
    decreases chunks.len(),
{
    if chunks.len() == 0 {
        assert(disk.tmp->0 + concat(chunks) =~= disk.tmp->0);
    } else {
        lemma_write_all(disk, chunks.drop_last());
        reveal_with_fuel(run, 5);
        let before = write_all(disk, chunks.drop_last());
        assert(before.tmp->0 + chunks.last() =~= disk.tmp->0 + concat(chunks));
    }
}

/// The handler that a lookup hands out for a body of `total_len` bytes.
pub open spec fn handler_over(total_len: u64) -> DiskHitHandler {
    DiskHitHandler {
        total_len,
        range_start: 0,
        range_end: total_len,
        pos: 0,
        pending_seek: false,
        chunk: DEFAULT_READ_BUFFER_SIZE,
    }
}

/// A miss handler that is prepared, fed with `chunks` and finished publishes
/// the object: `body` holds exactly the bytes written, in order, `meta` and
/// `hdr` hold the serialized meta, and the temporary file is gone. The next
/// lookup is a hit on a body of that length, and reading its handler to the
/// end gives back exactly the bytes written.
pub proof fn law_finish_publishes(
    disk: ObjectDisk,
    chunks: Seq<Seq<u8>>,
    meta_internal: Seq<u8>,
    meta_header: Seq<u8>,
)
    ensures
        ({
            let prepared = run(Stage::SetupEnsureDir, disk, no_payload(), enough());
            let written = write_all(prepared.1, chunks);
            let finished = run(
                Stage::FinishEnsureDir,
                written,
                meta_payload(meta_internal, meta_header),
                enough(),
            );
            let found = run(Stage::LookupEnsureRoot, finished.1, no_payload(), enough());
            &&& prepared.0 == Stage::SetupReady
            &&& finished.0 == Stage::Published
            &&& finished.1 == (ObjectDisk {
                tmp: None,
                body: Some(concat(chunks)),
                meta: Some(meta_internal),
                hdr: Some(meta_header),
            })
            &&& found.0 == Stage::LookupHit(concat(chunks).len() as u64)
        }),
        concat(chunks).len() <= u64::MAX ==> handler_over(concat(chunks).len() as u64).drained(
            concat(chunks),
        ) == concat(chunks),
{
    if concat(chunks).len() <= u64::MAX {
        let whole = concat(chunks);
        law_drain_yields_range(handler_over(whole.len() as u64), whole);
        assert(whole.subrange(0, whole.len() as int) =~= whole);
    }
    reveal_with_fuel(run, 9);
    let prepared = run(Stage::SetupEnsureDir, disk, no_payload(), enough());
    assert(prepared.1 == ObjectDisk { tmp: Some(Seq::empty()), ..disk });
    lemma_write_all(prepared.1, chunks);
    assert(Seq::<u8>::empty() + concat(chunks) =~= concat(chunks));
    let written = write_all(prepared.1, chunks);
    let finished = run(
        Stage::FinishEnsureDir,
        written,
        meta_payload(meta_internal, meta_header),
        enough(),
    );
    law_lookup_hits_published(finished.1);
}

/// A miss handler that is given up before it is finished leaves no trace:
/// `body`, `meta` and `hdr` are what they were before the handler was made,
/// and no temporary file remains.
pub proof fn law_abandon_leaves_nothing(disk: ObjectDisk, chunks: Seq<Seq<u8>>)
    ensures
        ({
            let prepared = run(Stage::SetupEnsureDir, disk, no_payload(), enough());
            let written = write_all(prepared.1, chunks);
            let dropped = run(Stage::AbandonRemoveTmp, written, no_payload(), enough());
            &&& dropped.0 == Stage::Abandoned
            &&& dropped.1 == (ObjectDisk { tmp: None, ..disk })
        }),
{
    reveal_with_fuel(run, 5);
    let prepared = run(Stage::SetupEnsureDir, disk, no_payload(), enough());
    assert(prepared.1 == ObjectDisk { tmp: Some(Seq::empty()), ..disk });
    lemma_write_all(prepared.1, chunks);
}

/// A purge of an object that has a body removes all three files and
/// reports the body's length; the next lookup is a miss. The size of the
/// cache goes down by exactly that length, the bytes evicted go up by it,
/// and one more eviction is counted, as long as no counter wraps around.
pub proof fn law_purge_removes(disk: ObjectDisk, metrics: CacheMetrics)
    requires
        disk.body is Some,
    ensures
        ({
            let bytes = disk.body->0.len();
            let after = metrics.purged(true, bytes as u64);
            bytes <= i64::MAX && metrics.size_bytes - bytes >= i64::MIN ==> {
                &&& after.size_bytes == metrics.size_bytes - bytes
                &&& metrics.evicted_bytes + bytes <= u64::MAX ==> after.evicted_bytes
                    == metrics.evicted_bytes + bytes
                &&& metrics.evictions < u64::MAX ==> after.evictions == metrics.evictions + 1
                &&& after.inserts == metrics.inserts
                &&& after.misses == metrics.misses
            }
        }),
        ({
            let purged = run(Stage::PurgeMeasure, disk, no_payload(), enough());
            let found = run(Stage::LookupEnsureRoot, purged.1, no_payload(), enough());
            &&& purged.0 == (Stage::Purged { existed: true, bytes: disk.body->0.len() as u64 })
            &&& purged.1 == (ObjectDisk { tmp: disk.tmp, body: None, meta: None, hdr: None })
            &&& found.0 == Stage::LookupMiss
        }),
{
    reveal_with_fuel(run, 7);
}

/// A second purge of the same object finds nothing: it reports that the
/// object did not exist, leaves the disk as the first purge left it, and
/// takes nothing off any counter.
pub proof fn law_purge_idempotent(disk: ObjectDisk, metrics: CacheMetrics)
    ensures
        metrics.purged(false, 0) == metrics,
        ({
            let first = run(Stage::PurgeMeasure, disk, no_payload(), enough());
            let second = run(Stage::PurgeMeasure, first.1, no_payload(), enough());
            &&& second.0 == (Stage::Purged { existed: false, bytes: 0 })
            &&& second.1 == first.1
        }),
{
    reveal_with_fuel(run, 7);
}

/// Updating the meta of an object twice with the same meta leaves the disk
/// as the first update left it, and both updates report the same.
pub proof fn law_update_meta_idempotent(
    disk: ObjectDisk,
    meta_internal: Seq<u8>,
    meta_header: Seq<u8>,
)
    ensures
        ({
            let data = meta_payload(meta_internal, meta_header);
            let first = run(Stage::UpdateCheckBody { serialized: true }, disk, data, enough());
            let second = run(Stage::UpdateCheckBody { serialized: true }, first.1, data, enough());
            &&& first.0 == Stage::Updated(disk.body is Some)
            &&& second.0 == first.0
            &&& second.1 == first.1
            &&& disk.body is Some ==> first.1 == (ObjectDisk {
                meta: Some(meta_internal),
                hdr: Some(meta_header),
                ..disk
            })
            &&& disk.body is None ==> first.1 == disk
        }),
{
    reveal_with_fuel(run, 5);
}

/// Whatever the file system answers, `meta` and `hdr` are written only
/// after `body` has been put in place: a publication reaches the stage that
/// writes `meta` only through a rename that succeeded or a copy that
/// succeeded.
pub proof fn law_body_before_meta(stage: Stage, reply: ReplyKind)
    requires
        stage_next(stage, reply) == Stage::FinishWriteMeta,
        stage != Stage::FinishWriteMeta,
    ensures
        stage == Stage::FinishRename && reply is Done || stage == Stage::FinishRemoveTmp,
{
}

/// A publication that is cut short, after any number of its requests,
/// never leaves a new object half visible: on a disk that held neither
/// `meta` nor `hdr`, `meta` is only ever there together with `body`, `hdr`
/// only together with `meta`, and all three only once the publication has
/// ended.
pub proof fn law_publication_cut_short(disk: ObjectDisk, data: Payload, requests: nat)
    requires
        disk.tmp is Some,
        disk.meta is None,
        disk.hdr is None,
        requests <= enough(),
    ensures
        ({
            let cut = run(Stage::FinishEnsureDir, disk, data, requests);
            &&& cut.1.meta is Some ==> cut.1.body is Some
            &&& cut.1.hdr is Some ==> cut.1.meta is Some
            &&& published(cut.1) ==> cut.0 == Stage::Published
            &&& !published(cut.1) ==> run(Stage::LookupEnsureRoot, cut.1, no_payload(), enough()).0
                == Stage::LookupMiss
        }),
{
    reveal_with_fuel(run, 9);
    law_lookup_hits_published(run(Stage::FinishEnsureDir, disk, data, requests).1);
}

} // verus!
