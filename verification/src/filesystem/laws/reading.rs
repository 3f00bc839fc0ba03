//! What reads of the namespace and of file locations promise.

use vstd::prelude::*;

use crate::filesystem::command::InodeRead;
use crate::filesystem::context::{Authority, FileRange, FsFailure, RequestContext};
use crate::filesystem::read::{
    admit_layout, admit_listing, asks_for_block, block_location, block_offset, check_applied_state,
    child_error, classify_unavailable_read_location, first_bad_child, first_unlocated, get_attr,
    get_file_layout, has_usable_read_endpoint, is_usable, lemma_first_bad_child, lemma_usable_kept,
    plan_file_layout, plan_inode_mount, range_bounds, read_dir_entries, read_endpoint, selects,
    told_blocks_cover_the_range, unavailable_kind, unlocated, usable_workers, visible_block_len,
    AttrRead, BlockObservation, DirChild, GetAttrOutput, GetFileLayoutOutput, LayoutPlan,
    ReadDirEntry, StaleStateStatus,
};
use crate::fs::FileType;
use crate::ids::{InodeId, MountId};
use crate::inode::{blocks_cover_the_file, file_error, FileData, Inode};
use crate::layout::DURABLE_PREFIX_STORAGE_CHUNK_SIZE;
use crate::placement::{
    is_best, is_eligible, placement_status, CallerContextFields, PlacementRequest, PlacementStatus,
    ReportedBlockLocation, WorkerPlacementView,
};
use crate::rpc_error::{
    ErrorKind, InternalErrorKind, MetadataErrorKind, ProtocolErrorKind, WorkerErrorKind,
};
use crate::worker_info::WorkerEndpointInfoView;

verus! {

// ---- status ----

/// The status of an inode is that of the inode that is stored under its own key: a file with
/// its visible length, or a directory, with the attributes that were read.
pub proof fn a_status_is_that_of_the_stored_inode<A>(
    ctx: &RequestContext,
    inode: InodeId,
    read: AttrRead<A>,
    r: Result<(MountId, GetAttrOutput<A>), FsFailure>,
)
    requires
        call_ensures(get_attr::<A>, (ctx, inode, read), r),
    ensures
        r is Ok <==> read is Ok && read->Ok_0 is Some && (read->Ok_0->0).0.inode_id == inode,
        r is Ok ==> {
            let stored = (read->Ok_0->0).0;
            &&& r->Ok_0.0 == stored.mount_id
            &&& r->Ok_0.1.attrs == (read->Ok_0->0).1
            &&& r->Ok_0.1.kind == FileType::File <==> stored.kind is File
            &&& r->Ok_0.1.kind == FileType::Dir <==> stored.kind is Dir
            &&& stored.kind is File ==> r->Ok_0.1.len == stored.kind->File_0.len
            &&& stored.kind is Dir ==> r->Ok_0.1.len == 0
        },
        read is Ok && read->Ok_0 is None ==> r->Err_0.error.kind == ErrorKind::Metadata(
            MetadataErrorKind::NotFound,
        ),
        read is Ok && read->Ok_0 is Some && r is Err ==> r->Err_0.error.kind
            == ErrorKind::Internal(InternalErrorKind::Internal),
        read is Err ==> r->Err_0.error.message@ == (read->Err_0)@.text,
{
}

/// Locations and layouts are told of files only, and under the mount that the file is stored
/// with.
pub proof fn only_files_have_locations(
    ctx: &RequestContext,
    inode: InodeId,
    read: InodeRead,
    mount: Result<MountId, FsFailure>,
    admitted: Result<Inode, FsFailure>,
)
    requires
        call_ensures(plan_inode_mount, (ctx, inode, read), mount),
        call_ensures(admit_layout, (ctx, inode, read), admitted),
    ensures
        ({
            let is_file = read is Ok && read->Ok_0 is Some && (read->Ok_0->0).inode_id == inode
                && (read->Ok_0->0).kind is File;
            &&& mount is Ok <==> is_file
            &&& admitted is Ok <==> is_file
            &&& is_file ==> mount->Ok_0 == (read->Ok_0->0).mount_id
            &&& is_file ==> admitted->Ok_0 == read->Ok_0->0
        }),
        read is Ok && read->Ok_0 is None ==> {
            &&& mount->Err_0.error.kind == ErrorKind::Metadata(MetadataErrorKind::NotFound)
            &&& admitted->Err_0.error.kind == ErrorKind::Metadata(MetadataErrorKind::NotFound)
        },
        read is Ok && read->Ok_0 is Some && (read->Ok_0->0).inode_id == inode
            && (read->Ok_0->0).kind is Dir ==> {
            &&& mount->Err_0.error.kind == ErrorKind::Metadata(MetadataErrorKind::IsDirectory)
            &&& admitted->Err_0.error.kind == ErrorKind::Metadata(MetadataErrorKind::IsDirectory)
        },
{
}

/// Only a directory is listed, and under the mount that it is stored with.
pub proof fn only_directories_are_listed(
    ctx: &RequestContext,
    parent: InodeId,
    read: InodeRead,
    r: Result<MountId, FsFailure>,
)
    requires
        call_ensures(admit_listing, (ctx, parent, read), r),
    ensures
        r is Ok <==> read is Ok && read->Ok_0 is Some && (read->Ok_0->0).inode_id == parent
            && (read->Ok_0->0).kind is Dir,
        r is Ok ==> r->Ok_0 == (read->Ok_0->0).mount_id,
        read is Ok && read->Ok_0 is None ==> r->Err_0.error.kind == ErrorKind::Metadata(
            MetadataErrorKind::NotFound,
        ),
        read is Ok && read->Ok_0 is Some && (read->Ok_0->0).inode_id == parent
            && (read->Ok_0->0).kind is File ==> r->Err_0.error.kind == ErrorKind::Protocol(
            ProtocolErrorKind::InvalidArgument,
        ),
{
}

/// A page lists every entry once, in order, with its own name and the status of its own inode.
/// It is refused where an inode cannot be read, does not exist, or is stored under another key,
/// and only there.
pub proof fn a_page_lists_every_entry<A>(
    ctx: &RequestContext,
    authority: &Authority,
    parent: InodeId,
    children: Vec<DirChild<A>>,
    r: Result<Vec<ReadDirEntry<A>>, FsFailure>,
)
    requires
        call_ensures(read_dir_entries::<A>, (ctx, authority, parent, children), r),
    ensures
        match r {
            Ok(entries) => {
                &&& entries@.len() == children@.len()
                &&& forall|i: int|
                    0 <= i < children@.len() ==> {
                        let child = #[trigger] children@[i];
                        let found = child.read->Ok_0->0;
                        &&& child.read is Ok && child.read->Ok_0 is Some
                        &&& found.0.inode_id == child.inode_id
                        &&& entries@[i].name == child.name
                        &&& entries@[i].attrs == found.1
                        &&& entries@[i].kind == FileType::File <==> found.0.kind is File
                        &&& found.0.kind is File ==> entries@[i].len == found.0.kind->File_0.len
                        &&& found.0.kind is Dir ==> entries@[i].len == 0
                    }
            },
            Err(_) => exists|i: int|
                {
                    let child = #[trigger] children@[i];
                    &&& 0 <= i < children@.len()
                    &&& {
                        ||| child.read is Err
                        ||| child.read->Ok_0 is None
                        ||| (child.read->Ok_0->0).0.inode_id != child.inode_id
                    }
                },
        },
{
    lemma_first_bad_child(parent, children@, 0);
    if r is Ok {
        let entries = r->Ok_0;
        assert forall|i: int| 0 <= i < children@.len() implies {
            let child = #[trigger] children@[i];
            let found = child.read->Ok_0->0;
            &&& child.read is Ok && child.read->Ok_0 is Some
            &&& found.0.inode_id == child.inode_id
            &&& entries@[i].name == child.name
            &&& entries@[i].attrs == found.1
            &&& entries@[i].kind == FileType::File <==> found.0.kind is File
            &&& found.0.kind is File ==> entries@[i].len == found.0.kind->File_0.len
            &&& found.0.kind is Dir ==> entries@[i].len == 0
        } by {
            assert(crate::filesystem::read::lists_child(children@[i], entries@[i]));
        }
    } else {
        let i = first_bad_child(parent, children@, 0)->0;
        assert(child_error(parent, children@[i]) is Some);
    }
}

/// A read whose freshness cannot be judged is refused, and asks the caller to refresh.
pub proof fn unknown_freshness_is_refused(
    ctx: &RequestContext,
    authority: &Authority,
    status: StaleStateStatus,
    r: Result<(), FsFailure>,
)
    requires
        call_ensures(check_applied_state, (ctx, authority, status), r),
    ensures
        r is Ok <==> status == StaleStateStatus::Ready,
        r is Err ==> {
            &&& r->Err_0.error.kind == ErrorKind::Metadata(MetadataErrorKind::StaleState)
            &&& r->Err_0.error.recovery is RefreshMetadata
        },
{
}

// ---- file locations ----

/// The bytes that a request asks for: those of its range, or the whole file.
pub proof fn a_range_is_what_was_asked_for(file: FileData, range: Option<FileRange>)
    ensures
        match range {
            None => range_bounds(file, range) == Some((0u64, file.len)),
            Some(asked) => match range_bounds(file, range) {
                Some((start, end)) => start == asked.offset && end == asked.offset + asked.len,
                None => asked.offset + asked.len > u64::MAX,
            },
        },
{
}

proof fn lemma_location_of_ordinal(file: FileData, inode: InodeId, ordinal: int)
    requires
        file_error(file, inode) is None,
        0 <= ordinal < file.blocks@.len(),
    ensures
        file.layout.block_size > 0,
        0 <= block_offset(file, ordinal) < file.len,
        block_offset(file, ordinal) / file.layout.block_size as int == ordinal,
        block_offset(file, ordinal) % file.layout.block_size as int == 0,
        block_offset(file, ordinal) + visible_block_len(file, ordinal) <= file.len,
        0 < visible_block_len(file, ordinal) <= file.layout.block_size,
        visible_block_len(file, ordinal) == file.layout.block_size || block_offset(file, ordinal)
            + visible_block_len(file, ordinal) == file.len,
{
    let size = file.layout.block_size as int;
    blocks_cover_the_file(file.len as nat, size as nat, ordinal as nat);
    let offset = ordinal * size;
    assert(offset / size == ordinal && offset % size == 0) by (nonlinear_arith)
        requires
            size > 0,
            offset == ordinal * size,
    ;
}

/// Every location that is told names the block of the file at its own place: the block whose
/// number is the offset over the block size. It tells the bytes that the file has there, up to
/// the end of the block or of the file, and lies in the range that was asked for. Locations
/// come in file order, and no two name the same place.
pub proof fn told_locations_name_their_own_block(
    ctx: &RequestContext,
    authority: &Authority,
    inode: InodeId,
    file: &FileData,
    range: Option<FileRange>,
    has_workers: bool,
    plan: LayoutPlan,
    caller: Option<CallerContextFields>,
    observed: Vec<BlockObservation>,
    output: GetFileLayoutOutput,
    k: int,
)
    requires
        file_error(*file, inode) is None,
        call_ensures(
            plan_file_layout,
            (ctx, authority, inode, file, range, has_workers),
            Ok(plan),
        ),
        call_ensures(
            get_file_layout,
            (ctx, authority, inode, file, &plan, caller, observed),
            Ok(output),
        ),
        0 <= k < output.locations@.len(),
    ensures
        ({
            let told = output.locations@[k];
            let size = file.layout.block_size as int;
            let start = match range {
                None => 0,
                Some(asked) => asked.offset,
            };
            let end = match range {
                None => file.len as int,
                Some(asked) => asked.offset + asked.len,
            };
            &&& size > 0
            &&& told.file_offset as int % size == 0
            &&& told.file_offset as int / size < file.blocks@.len()
            &&& told.block_id == file.blocks@[told.file_offset as int / size]
            &&& 0 < told.len <= size
            &&& told.file_offset + told.len <= file.len
            &&& told.len == size || told.file_offset + told.len == file.len
            &&& told.effective_len == told.len
            &&& told.block_size == size
            &&& told.chunk_size == DURABLE_PREFIX_STORAGE_CHUNK_SIZE
            &&& told.block_format_id == file.layout.block_format_id
            &&& start < end
            &&& told.file_offset < end
            &&& told.file_offset + told.len > start
            &&& k + 1 < output.locations@.len() ==> told.file_offset < output.locations@[k
                + 1].file_offset
        }),
        output.file_size == file.len,
        output.generation == Some(file.generation),
{
    a_range_is_what_was_asked_for(*file, range);
    let bounds = range_bounds(*file, range)->0;
    let ordinals = plan.ordinals@;
    assert(selects(*file, ordinals, bounds.0, bounds.1));
    let told = output.locations@[k]@;
    assert(told == block_location(*file, ordinals[k] as int, told.workers));
    assert(ordinals[k] < file.blocks@.len());
    lemma_location_of_ordinal(*file, inode, ordinals[k] as int);
    if k + 1 < output.locations@.len() {
        let next = output.locations@[k + 1]@;
        assert(next == block_location(
            *file,
            ordinals[k + 1] as int,
            next.workers,
        ));
        assert(ordinals[k + 1] < file.blocks@.len());
        lemma_location_of_ordinal(*file, inode, ordinals[k + 1] as int);
        assert(ordinals[k] < ordinals[k + 1]);
        assert(ordinals[k] * file.layout.block_size < ordinals[k + 1] * file.layout.block_size)
            by (nonlinear_arith)
            requires
                ordinals[k] < ordinals[k + 1],
                file.layout.block_size > 0,
        ;
    }
}

/// For every visible byte that is asked for, one location is told, and it names the block that
/// holds the byte: the one whose number is the byte's position over the block size.
pub proof fn every_byte_is_told_in_its_block(
    ctx: &RequestContext,
    authority: &Authority,
    inode: InodeId,
    file: &FileData,
    range: Option<FileRange>,
    has_workers: bool,
    plan: LayoutPlan,
    caller: Option<CallerContextFields>,
    observed: Vec<BlockObservation>,
    output: GetFileLayoutOutput,
    byte: u64,
)
    requires
        file_error(*file, inode) is None,
        call_ensures(
            plan_file_layout,
            (ctx, authority, inode, file, range, has_workers),
            Ok(plan),
        ),
        call_ensures(
            get_file_layout,
            (ctx, authority, inode, file, &plan, caller, observed),
            Ok(output),
        ),
        byte < file.len,
        range is Some ==> (range->0).offset <= byte < (range->0).offset + (range->0).len,
    ensures
        exists|k: int|
            {
                let told = #[trigger] output.locations@[k];
                &&& 0 <= k < output.locations@.len()
                &&& told.file_offset <= byte < told.file_offset + told.len
                &&& told.block_id == file.blocks@[byte as int / file.layout.block_size as int]
            },
        forall|k: int|
            {
                let told = #[trigger] output.locations@[k];
                0 <= k < output.locations@.len() && told.file_offset <= byte < told.file_offset
                    + told.len ==> told.block_id == file.blocks@[byte as int
                    / file.layout.block_size as int]
            },
{
    a_range_is_what_was_asked_for(*file, range);
    let bounds = range_bounds(*file, range)->0;
    let ordinals = plan.ordinals@;
    assert(selects(*file, ordinals, bounds.0, bounds.1));
    told_blocks_cover_the_range(*file, inode, ordinals, bounds.0, bounds.1, byte);
    let size = file.layout.block_size as int;
    assert forall|k: int|
        {
            let told = #[trigger] output.locations@[k];
            0 <= k < output.locations@.len() && told.file_offset <= byte < told.file_offset
                + told.len ==> told.block_id == file.blocks@[byte as int / size]
        } by {
        if 0 <= k < output.locations@.len() {
            let told = output.locations@[k]@;
            assert(told == block_location(
                *file,
                ordinals[k] as int,
                told.workers,
            ));
            assert(ordinals[k] < file.blocks@.len());
            lemma_location_of_ordinal(*file, inode, ordinals[k] as int);
            let o = ordinals[k] as int;
            if told.file_offset <= byte < told.file_offset + told.len {
                assert(byte as int / size == o) by (nonlinear_arith)
                    requires
                        size > 0,
                        o * size <= byte < o * size + size,
                ;
            }
        }
    }
    let k = choose|k: int|
        0 <= k < ordinals.len() && block_offset(*file, #[trigger] ordinals[k] as int) <= byte
            < block_offset(*file, ordinals[k] as int) + visible_block_len(
            *file,
            ordinals[k] as int,
        );
    let told = output.locations@[k]@;
    assert(told == block_location(
        *file,
        ordinals[k] as int,
        told.workers,
    ));
    lemma_location_of_ordinal(*file, inode, ordinals[k] as int);
    assert(output.locations@[k].file_offset <= byte < output.locations@[k].file_offset
        + output.locations@[k].len);
}

/// A layout is planned if and only if the file is consistent, its range has an end, and the
/// owner group is known where workers are to be looked up: that is where some are known, the
/// file has blocks, and the range is not empty. The group is then that of the authority.
pub proof fn layouts_are_planned_for_a_reason(
    ctx: &RequestContext,
    authority: &Authority,
    inode: InodeId,
    file: &FileData,
    range: Option<FileRange>,
    has_workers: bool,
    r: Result<LayoutPlan, FsFailure>,
)
    requires
        call_ensures(plan_file_layout, (ctx, authority, inode, file, range, has_workers), r),
    ensures
        ({
            let bounded = range is Some ==> (range->0).offset + (range->0).len <= u64::MAX;
            let empty = match range {
                None => file.len == 0,
                Some(asked) => asked.len == 0,
            };
            let looked_up = has_workers && file.blocks@.len() > 0 && !empty;
            &&& r is Ok <==> file_error(*file, inode) is None && bounded && (looked_up
                ==> authority.group_name is Some)
            &&& r is Ok && looked_up ==> r->Ok_0.worker_group is Some && (
            r->Ok_0.worker_group->0)@ == (authority.group_name->0)@
            &&& r is Ok && !looked_up ==> r->Ok_0.worker_group is None
            &&& file_error(*file, inode) is None && !bounded ==> r->Err_0.error.kind
                == ErrorKind::Protocol(ProtocolErrorKind::InvalidArgument)
        }),
{
}

/// A reader is told one worker for each block, where workers are looked up, and none otherwise.
/// The worker is known to the group, registered and alive, and the process that is named
/// reported at least the bytes that are told.
pub proof fn readers_are_told_a_worker_that_holds_the_block(
    ctx: &RequestContext,
    authority: &Authority,
    inode: InodeId,
    file: &FileData,
    plan: &LayoutPlan,
    caller: Option<CallerContextFields>,
    observed: Vec<BlockObservation>,
    output: GetFileLayoutOutput,
    k: int,
)
    requires
        file_error(*file, inode) is None,
        forall|i: int|
            0 <= i < plan.ordinals@.len() ==> #[trigger] plan.ordinals@[i] < file.blocks@.len(),
        call_ensures(
            get_file_layout,
            (ctx, authority, inode, file, plan, caller, observed),
            Ok(output),
        ),
        0 <= k < output.locations@.len(),
    ensures
        plan.worker_group is None ==> output.locations@[k].workers@.len() == 0,
        plan.worker_group is Some ==> {
            let told = output.locations@[k];
            &&& told.workers@.len() == 1
            &&& exists|w: WorkerPlacementView, j: int|
                {
                    &&& #[trigger] observed@[k].workers@.contains(w)
                    &&& w.group_name@ == (plan.worker_group->0)@
                    &&& w.registered
                    &&& w.lease_valid
                    &&& told.workers@[0].worker_id == w.worker_id
                    &&& told.workers@[0].endpoint@ == w.endpoint@
                    &&& Some(told.workers@[0].worker_run_id) == w.worker_run_id
                    &&& 0 <= j < observed@[k].reported@.len()
                    &&& (#[trigger] observed@[k].reported@[j]).worker_id == w.worker_id
                    &&& observed@[k].reported@[j].worker_run_id
                        == told.workers@[0].worker_run_id
                    &&& observed@[k].reported@[j].effective_len >= told.len
                }
        },
{
    let told = output.locations@[k]@;
    let ordinal = plan.ordinals@[k] as int;
    assert(told == block_location(*file, ordinal, told.workers));
    assert(plan.ordinals@[k] < file.blocks@.len());
    lemma_location_of_ordinal(*file, inode, ordinal);
    let workers = output.locations@[k].workers@;
    assert(told.workers.len() == workers.len());
    if plan.worker_group is Some {
        let group = (plan.worker_group->0)@;
        crate::filesystem::read::readers_are_sent_to_holders(
            group,
            *file,
            ordinal,
            caller,
            observed@[k],
            told.workers,
        );
        assert(told.workers[0] == workers[0]@);
        let (w, j) = choose|w: WorkerPlacementView, j: int|
            {
                &&& #[trigger] observed@[k].workers@.contains(w)
                &&& w.group_name@ == group
                &&& w.registered
                &&& w.lease_valid
                &&& crate::filesystem::read::read_endpoint(w) == Ok::<
                    crate::worker_info::WorkerEndpointInfoView,
                    crate::error::MetadataErrorView,
                >(told.workers[0])
                &&& 0 <= j < observed@[k].reported@.len()
                &&& (#[trigger] observed@[k].reported@[j]).worker_id == w.worker_id
                &&& Some(observed@[k].reported@[j].worker_run_id) == w.worker_run_id
                &&& observed@[k].reported@[j].effective_len >= visible_block_len(*file, ordinal)
            };
        assert(observed@[k].workers@.contains(w));
        assert(observed@[k].reported@[j].worker_id == w.worker_id);
    }
}

/// A block that no live worker holds is a matter of a restart if and only if a known worker has
/// reported it from another process start than the one that runs now.
pub proof fn restarts_are_told_apart(
    reported: &Vec<ReportedBlockLocation>,
    workers: &Vec<WorkerPlacementView>,
    r: ErrorKind,
)
    requires
        call_ensures(classify_unavailable_read_location, (reported, workers), r),
    ensures
        r == ErrorKind::Worker(WorkerErrorKind::RunMismatch) <==> exists|i: int, j: int|
            {
                &&& 0 <= i < reported@.len()
                &&& 0 <= j < workers@.len()
                &&& (#[trigger] workers@[j]).worker_id == (#[trigger] reported@[i]).worker_id
                &&& workers@[j].worker_run_id is Some
                &&& workers@[j].worker_run_id->0 != reported@[i].worker_run_id
            },
        r == ErrorKind::Worker(WorkerErrorKind::RunMismatch) || r == ErrorKind::Worker(
            WorkerErrorKind::BlockLocationUnavailable,
        ),
{
    let rep = reported@;
    let known = workers@;
    if crate::filesystem::read::was_restarted(rep, known) {
        let (i, j) = choose|i: int, j: int|
            0 <= i < rep.len() && 0 <= j < known.len() && (#[trigger] known[j]).worker_id == (
            #[trigger] rep[i]).worker_id && known[j].worker_run_id is Some
                && known[j].worker_run_id != Some(rep[i].worker_run_id);
        assert(known[j].worker_id == rep[i].worker_id);
    }
}

/// A worker can be named to a reader if and only if its process is known, it has a number and
/// an endpoint, and it speaks the one protocol.
pub proof fn usable_workers_can_be_named(worker: &WorkerPlacementView, r: bool)
    requires
        call_ensures(has_usable_read_endpoint, (worker,), r),
    ensures
        r <==> {
            &&& worker.worker_run_id is Some
            &&& (worker.worker_run_id->0).0 != 0
            &&& worker.worker_id.0 != 0
            &&& worker.endpoint@.len() > 0
            &&& worker.worker_net_protocol == 1
        },
{
}

/// The locations of a file are told where workers are not looked up, and where each block has a
/// known worker of the group that can be named, is registered and alive, supports the format and
/// holds the visible bytes.
pub proof fn held_blocks_are_told(
    ctx: &RequestContext,
    authority: &Authority,
    inode: InodeId,
    file: &FileData,
    plan: &LayoutPlan,
    caller: Option<CallerContextFields>,
    observed: Vec<BlockObservation>,
    r: Result<GetFileLayoutOutput, FsFailure>,
)
    requires
        call_ensures(get_file_layout, (ctx, authority, inode, file, plan, caller, observed), r),
    ensures
        plan.worker_group is None ==> r is Ok,
        r is Err ==> {
            &&& plan.worker_group is Some
            &&& r->Err_0.error.recovery is RefreshMetadata
            &&& r->Err_0.error.recovery->RefreshMetadata_hint.worker_resolve_required
            &&& r->Err_0.mount_epoch == authority.mount_epoch
            &&& r->Err_0.error.kind == ErrorKind::Worker(WorkerErrorKind::RunMismatch)
                || r->Err_0.error.kind == ErrorKind::Worker(
                WorkerErrorKind::BlockLocationUnavailable,
            )
            &&& exists|k: int|
                #![trigger plan.ordinals@[k]]
                {
                    &&& 0 <= k < plan.ordinals@.len()
                    &&& forall|i: int, e: int|
                        {
                            let w = #[trigger] observed@[k].workers@[i];
                            let reported = #[trigger] observed@[k].reported@[e];
                            0 <= i < observed@[k].workers@.len() && 0 <= e
                                < observed@[k].reported@.len() ==> !{
                                &&& w.group_name@ == (plan.worker_group->0)@
                                &&& w.registered
                                &&& w.lease_valid
                                &&& w.worker_run_id == Some(reported.worker_run_id)
                                &&& (w.worker_run_id->0).0 != 0
                                &&& w.worker_id.0 != 0
                                &&& w.worker_id == reported.worker_id
                                &&& w.endpoint@.len() > 0
                                &&& w.worker_net_protocol == 1
                                &&& w.supported_block_formats@.contains(
                                    file.layout.block_format_id,
                                )
                                &&& reported.effective_len >= visible_block_len(
                                    *file,
                                    plan.ordinals@[k] as int,
                                )
                            }
                        }
                }
        },
{
    if r is Err {
        let group = (plan.worker_group->0)@;
        let ordinals = plan.ordinals@;
        let seen = observed@;
        let (k, kind) = choose|k: int, kind: ErrorKind|
            {
                &&& #[trigger] first_unlocated(*file, ordinals, group, caller, seen, k, kind)
                &&& (r->Err_0)@ == unlocated(
                    ctx@,
                    authority@,
                    kind,
                    file.blocks@[ordinals[k] as int],
                )
            };
        assert(first_unlocated(*file, ordinals, group, caller, seen, k, kind));
        let ordinal = ordinals[k] as int;
        let usable = usable_workers(seen[k].workers@);
        let req = choose|req: PlacementRequest|
            #[trigger] asks_for_block(req, group, *file, ordinal, caller, seen[k].reported@) && {
                if placement_status(req, usable) == PlacementStatus::NoLiveReplica {
                    Err::<Seq<WorkerEndpointInfoView>, ErrorKind>(kind) == Err::<
                        Seq<WorkerEndpointInfoView>,
                        ErrorKind,
                    >(unavailable_kind(seen[k].reported@, usable))
                } else {
                    exists|i: int|
                        #[trigger] is_best(req, usable, Seq::empty(), i) && Err::<
                            Seq<WorkerEndpointInfoView>,
                            ErrorKind,
                        >(kind) == Ok::<Seq<WorkerEndpointInfoView>, ErrorKind>(
                            seq![read_endpoint(usable[i])->Ok_0],
                        )
                }
            };
        assert forall|i: int, e: int|
            {
                let w = #[trigger] seen[k].workers@[i];
                let reported = #[trigger] seen[k].reported@[e];
                0 <= i < seen[k].workers@.len() && 0 <= e < seen[k].reported@.len() ==> !{
                    &&& w.group_name@ == group
                    &&& w.registered
                    &&& w.lease_valid
                    &&& w.worker_run_id == Some(reported.worker_run_id)
                    &&& (w.worker_run_id->0).0 != 0
                    &&& w.worker_id.0 != 0
                    &&& w.worker_id == reported.worker_id
                    &&& w.endpoint@.len() > 0
                    &&& w.worker_net_protocol == 1
                    &&& w.supported_block_formats@.contains(file.layout.block_format_id)
                    &&& reported.effective_len >= visible_block_len(*file, ordinal)
                }
            } by {
            let w = seen[k].workers@[i];
            let reported = seen[k].reported@[e];
            if 0 <= i < seen[k].workers@.len() && 0 <= e < seen[k].reported@.len() && w.group_name@
                == group && w.registered && w.lease_valid && w.worker_run_id == Some(
                reported.worker_run_id,
            ) && (w.worker_run_id->0).0 != 0 && w.worker_id.0 != 0 && w.worker_id
                == reported.worker_id && w.endpoint@.len() > 0 && w.worker_net_protocol == 1
                && w.supported_block_formats@.contains(file.layout.block_format_id)
                && reported.effective_len >= visible_block_len(*file, ordinal) {
                assert(is_usable(w));
                lemma_usable_kept(seen[k].workers@, i);
                let u = choose|u: int| 0 <= u < usable.len() && usable[u] == w;
                assert(req.existing@[e] == reported);
                assert(crate::placement::holds_prefix(req, w));
                assert(is_eligible(req, usable[u]));
            }
        }
    }
}

} // verus!
