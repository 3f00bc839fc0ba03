//! Reads of the namespace and of file locations.

use vstd::prelude::*;

use crate::error::{MetadataError, MetadataErrorCode, MetadataErrorView};
use crate::filesystem::command::InodeRead;
use crate::filesystem::context::{
    authority_hint, fs_failure_from_metadata_error, lookup_group_error, metadata_failure,
    persisted_endpoint, refresh_failure, refresh_metadata_failure_with_hint,
    refresh_metadata_fs_failure, require_worker_lookup_group, worker_endpoint_from_parts,
    Authority, AuthorityView, FileRange, FsFailure, FsFailureView, RequestContext,
    RequestContextView, SUPPORTED_REPLICA_COUNT,
};
use crate::filesystem::open::{
    check_stored_file, check_stored_inode, stored_file, stored_inode,
};
use crate::filesystem::write::with_inode;
use crate::fs::{ContentGeneration, FileType};
use crate::ids::{block_id_text, BlockId, GroupName, InodeId, MountId};
use crate::inode::{block_len_of, blocks_cover_the_file, blocks_for, file_error, FileData, Inode};
use crate::layout::DURABLE_PREFIX_STORAGE_CHUNK_SIZE;
use crate::location::{FileBlockLocation, FileBlockLocationView};
use crate::placement::{
    a_single_replica_is_the_best_worker, is_best, is_eligible, placement_status, planned_view,
    planned_views, CallerContextFields, PlacementOp, PlacementPlanner, PlacementRequest,
    PlacementStatus, ReportedBlockLocation, WorkerPlacementView,
};
use crate::rpc_error::{
    ErrorKind, MetadataErrorKind, RefreshHint, RefreshHintView, WorkerErrorKind,
};
use crate::text::{decimal, join};
use crate::worker_info::{endpoint_views, WorkerEndpointInfo, WorkerEndpointInfoView};

verus! {

// ---- freshness ----

/// Whether this node knows how far it has applied the group's log.
#[derive(Clone, Copy, Debug, PartialEq, Eq, Structural)]
pub enum StaleStateStatus {
    Ready,
    UnknownLastApplied,
}

/// Refuses a read whose freshness this node cannot judge.
pub fn check_applied_state(
    ctx: &RequestContext,
    authority: &Authority,
    status: StaleStateStatus,
) -> (r: Result<(), FsFailure>)
    ensures
        match status {
            StaleStateStatus::Ready => r is Ok,
            StaleStateStatus::UnknownLastApplied => {
                &&& r is Err
                &&& (r->Err_0)@ == refresh_failure(
                    ctx@,
                    ErrorKind::Metadata(MetadataErrorKind::StaleState),
                    "local applied state is unavailable for read freshness validation"@,
                    authority@,
                    RefreshHintView::none(),
                )
            },
        },
{
    match status {
        StaleStateStatus::Ready => Ok(()),
        StaleStateStatus::UnknownLastApplied => Err(
            refresh_metadata_fs_failure(
                ctx,
                ErrorKind::Metadata(MetadataErrorKind::StaleState),
                "local applied state is unavailable for read freshness validation".to_owned(),
                authority,
                RefreshHint::default(),
            ),
        ),
    }
}

// ---- status ----

/// What reading an inode with its attributes returned. The attributes are only carried.
pub type AttrRead<A> = Result<Option<(Inode, A)>, MetadataError>;

/// The inode part of what reading an inode with its attributes returned.
pub open spec fn inode_part<A>(read: AttrRead<A>) -> InodeRead {
    match read {
        Ok(Some(found)) => Ok(Some(found.0)),
        Ok(None) => Ok(None),
        Err(e) => Err(e),
    }
}

/// The status of an inode.
#[derive(Debug)]
pub struct GetAttrOutput<A> {
    pub kind: FileType,
    pub attrs: A,
    pub len: u64,
}

/// Returns the status of an inode, and the mount whose freshness is to be checked before it
/// is told.
pub fn get_attr<A>(ctx: &RequestContext, inode: InodeId, read: AttrRead<A>) -> (r: Result<
    (MountId, GetAttrOutput<A>),
    FsFailure,
>)
    ensures
        match stored_inode("GetStatus"@, "Inode not found: "@, inode, inode_part(read)) {
            Ok(stored) => {
                &&& r is Ok
                &&& (r->Ok_0).0 == stored.mount_id
                &&& (r->Ok_0).1.kind == stored.kind_type()
                &&& (r->Ok_0).1.attrs == (read->Ok_0->0).1
                &&& (r->Ok_0).1.len == stored.visible_len()
            },
            Err(e) => r is Err && (r->Err_0)@ == metadata_failure(
                ctx@,
                e,
                AuthorityView::unknown(),
            ),
        },
{
    let unknown = Authority::unknown();
    let (found, attrs) = match read {
        Ok(Some((found, attrs))) => (Ok(Some(found)), Some(attrs)),
        Ok(None) => (Ok(None), None),
        Err(e) => (Err(e), None),
    };
    match check_stored_inode("GetStatus", "Inode not found: ", inode, found) {
        Err(e) => Err(fs_failure_from_metadata_error(ctx, &e, &unknown)),
        Ok(stored) => {
            let attrs = attrs.unwrap();
            Ok(
                (
                    stored.mount_id,
                    GetAttrOutput { kind: stored.file_type(), attrs, len: stored.len() },
                ),
            )
        },
    }
}

/// Returns the mount of a file that is read by its inode, for data-read admission.
pub fn plan_inode_mount(ctx: &RequestContext, inode: InodeId, read: InodeRead) -> (r: Result<
    MountId,
    FsFailure,
>)
    ensures
        match stored_file("GetBlockLocations"@, inode, read) {
            Ok(stored) => r is Ok && r->Ok_0 == stored.mount_id,
            Err(e) => r is Err && (r->Err_0)@ == metadata_failure(
                ctx@,
                e,
                AuthorityView::unknown(),
            ),
        },
{
    match check_stored_file("GetBlockLocations", inode, read) {
        Ok(stored) => Ok(stored.mount_id),
        Err(e) => {
            let unknown = Authority::unknown();
            Err(fs_failure_from_metadata_error(ctx, &e, &unknown))
        },
    }
}

// ---- directories ----

/// The directory that reading `parent` gave, or why there is none.
pub open spec fn stored_directory(parent: InodeId, read: InodeRead) -> Result<
    Inode,
    MetadataErrorView,
> {
    match stored_inode("ListStatus"@, "Parent inode not found: "@, parent, read) {
        Err(e) => Err(e),
        Ok(found) => if found.kind is Dir {
            Ok(found)
        } else {
            Err(
                MetadataErrorView {
                    code: MetadataErrorCode::InvalidArgument,
                    text: "Parent is not a directory: "@ + decimal(parent.0 as nat),
                },
            )
        },
    }
}

/// Returns the mount of a directory that is to be listed.
pub fn admit_listing(ctx: &RequestContext, parent: InodeId, read: InodeRead) -> (r: Result<
    MountId,
    FsFailure,
>)
    ensures
        match stored_directory(parent, read) {
            Ok(found) => r is Ok && r->Ok_0 == found.mount_id,
            Err(e) => r is Err && (r->Err_0)@ == metadata_failure(
                ctx@,
                e,
                AuthorityView::unknown(),
            ),
        },
{
    let unknown = Authority::unknown();
    match check_stored_inode("ListStatus", "Parent inode not found: ", parent, read) {
        Err(e) => Err(fs_failure_from_metadata_error(ctx, &e, &unknown)),
        Ok(found) => {
            if !found.file_type().is_dir() {
                let error = MetadataError::InvalidArgument(
                    with_inode("Parent is not a directory: ", parent),
                );
                return Err(fs_failure_from_metadata_error(ctx, &error, &unknown));
            }
            Ok(found.mount_id)
        },
    }
}

/// A directory entry, and what reading its inode returned.
#[derive(Debug)]
pub struct DirChild<A> {
    pub name: String,
    pub inode_id: InodeId,
    pub read: AttrRead<A>,
}

/// A directory entry with the status of its inode.
#[derive(Debug)]
pub struct ReadDirEntry<A> {
    pub name: String,
    pub kind: FileType,
    pub attrs: A,
    pub len: u64,
}

/// The error for an entry whose inode does not exist.
pub open spec fn dangling_entry(name: Seq<char>, parent: InodeId, inode: InodeId) -> MetadataErrorView {
    MetadataErrorView {
        code: MetadataErrorCode::NotFound,
        text: "Directory dentry '"@ + name + "' under parent inode "@ + decimal(parent.0 as nat)
            + " points to missing inode "@ + decimal(inode.0 as nat),
    }
}

/// The error for an entry whose inode is stored under another key.
pub open spec fn corrupt_child(key: InodeId, stored: Inode) -> MetadataErrorView {
    MetadataErrorView {
        code: MetadataErrorCode::Internal,
        text: "child inode authority is corrupt for ListStatus: key="@ + decimal(key.0 as nat)
            + ", value_id="@ + decimal(stored.inode_id.0 as nat) + ", kind="@
            + stored.kind_type().text() + ", payload="@ + stored.kind_type().text(),
    }
}

/// Why an entry cannot be listed, if it cannot.
pub open spec fn child_error<A>(parent: InodeId, child: DirChild<A>) -> Option<MetadataErrorView> {
    match child.read {
        Err(e) => Some(e@),
        Ok(None) => Some(dangling_entry(child.name@, parent, child.inode_id)),
        Ok(Some(found)) => if found.0.inode_id != child.inode_id {
            Some(corrupt_child(child.inode_id, found.0))
        } else {
            None
        },
    }
}

/// Whether an entry is listed as this.
pub open spec fn lists_child<A>(child: DirChild<A>, entry: ReadDirEntry<A>) -> bool {
    &&& entry.name == child.name
    &&& entry.kind == (child.read->Ok_0->0).0.kind_type()
    &&& entry.attrs == (child.read->Ok_0->0).1
    &&& entry.len == (child.read->Ok_0->0).0.visible_len()
}

/// The first entry that cannot be listed, among those from `from` on.
pub open spec fn first_bad_child<A>(parent: InodeId, children: Seq<DirChild<A>>, from: int) -> Option<
    int,
>
    decreases children.len() - from,
{
    if from < 0 || from >= children.len() {
        None
    } else if child_error(parent, children[from]) is Some {
        Some(from)
    } else {
        first_bad_child(parent, children, from + 1)
    }
}

/// Where no entry is bad, each one can be listed; otherwise the one that is found cannot be.
pub proof fn lemma_first_bad_child<A>(parent: InodeId, children: Seq<DirChild<A>>, from: int)
    requires
        0 <= from <= children.len(),
    ensures
        match first_bad_child(parent, children, from) {
            None => forall|i: int|
                from <= i < children.len() ==> child_error(parent, #[trigger] children[i]) is None,
            Some(i) => from <= i < children.len() && child_error(parent, children[i]) is Some,
        },
    decreases children.len() - from,
{
    if from < children.len() && child_error(parent, children[from]) is None {
        lemma_first_bad_child(parent, children, from + 1);
    }
}

/// Returns the elements in reverse order.
fn reversed<T>(items: Vec<T>) -> (r: Vec<T>)
    ensures
        r@ == items@.reverse(),
{
    let ghost all = items@;
    let mut items = items;
    let mut out: Vec<T> = Vec::new();
    while items.len() > 0
        invariant
            items@ == all.take(items@.len() as int),
            items@.len() <= all.len(),
            out@.len() + items@.len() == all.len(),
            forall|k: int| 0 <= k < out@.len() ==> #[trigger] out@[k] == all[all.len() - 1 - k],
        decreases items.len(),
    {
        let ghost n = items@.len() as int;
        match items.pop() {
            Some(item) => {
                assert(item == all[n - 1]);
                out.push(item);
                assert(items@ =~= all.take(n - 1));
            },
            None => {},
        }
    }
    assert(out@ =~= all.reverse());
    out
}

fn child_failure<A>(parent: InodeId, name: &String, inode: InodeId, read: AttrRead<A>) -> (r: Result<
    (Inode, A),
    MetadataError,
>)
    ensures
        match r {
            Ok(found) => read == Ok::<Option<(Inode, A)>, MetadataError>(Some(found))
                && found.0.inode_id == inode,
            Err(e) => child_error(
                parent,
                DirChild { name: *name, inode_id: inode, read },
            ) == Some(e@),
        },
{
    match read {
        Err(e) => Err(e),
        Ok(None) => {
            let parent_text = parent.to_text();
            let inode_text = inode.to_text();
            let mut out = join("Directory dentry '", name.as_str());
            out.append("' under parent inode ");
            out.append(parent_text.as_str());
            out.append(" points to missing inode ");
            out.append(inode_text.as_str());
            Err(MetadataError::NotFound(out))
        },
        Ok(Some(found)) => {
            if found.0.inode_id != inode {
                let key_text = inode.to_text();
                let value_text = found.0.inode_id.to_text();
                let kind = found.0.file_type();
                let mut out = join(
                    "child inode authority is corrupt for ListStatus: key=",
                    key_text.as_str(),
                );
                out.append(", value_id=");
                out.append(value_text.as_str());
                out.append(", kind=");
                out.append(kind.name());
                out.append(", payload=");
                out.append(kind.name());
                return Err(MetadataError::Internal(out));
            }
            Ok(found)
        },
    }
}

/// Joins the entries of one page with the status of their inodes. The first entry without a
/// proper inode refuses the page.
pub fn read_dir_entries<A>(
    ctx: &RequestContext,
    authority: &Authority,
    parent: InodeId,
    children: Vec<DirChild<A>>,
) -> (r: Result<Vec<ReadDirEntry<A>>, FsFailure>)
    ensures
        match first_bad_child(parent, children@, 0) {
            None => {
                &&& r is Ok
                &&& (r->Ok_0)@.len() == children@.len()
                &&& forall|i: int|
                    0 <= i < children@.len() ==> lists_child(
                        children@[i],
                        #[trigger] (r->Ok_0)@[i],
                    )
            },
            Some(i) => r is Err && (r->Err_0)@ == metadata_failure(
                ctx@,
                child_error(parent, children@[i])->0,
                authority@,
            ),
        },
{
    let ghost all = children@;
    let mut rest = reversed(children);
    let mut out: Vec<ReadDirEntry<A>> = Vec::new();
    while rest.len() > 0
        invariant
            all == children@,
            rest@.len() + out@.len() == all.len(),
            forall|k: int|
                0 <= k < rest@.len() ==> #[trigger] rest@[k] == all[all.len() - 1 - k],
            forall|i: int| 0 <= i < out@.len() ==> lists_child(all[i], #[trigger] out@[i]),
            first_bad_child(parent, all, 0) == first_bad_child(parent, all, out@.len() as int),
        decreases rest.len(),
    {
        let ghost at = out@.len() as int;
        match rest.pop() {
            None => {},
            Some(child) => {
                assert(child == all[at]);
                let DirChild { name, inode_id, read } = child;
                match child_failure(parent, &name, inode_id, read) {
                    Err(e) => {
                        return Err(fs_failure_from_metadata_error(ctx, &e, authority));
                    },
                    Ok((found, attrs)) => {
                        out.push(
                            ReadDirEntry {
                                name,
                                kind: found.file_type(),
                                attrs,
                                len: found.len(),
                            },
                        );
                    },
                }
            },
        }
    }
    Ok(out)
}

// ---- file locations ----

/// The bounds of the bytes that are asked for, unless the range has no end.
pub open spec fn range_bounds(file: FileData, range: Option<FileRange>) -> Option<(u64, u64)> {
    match range {
        None => Some((0, file.len)),
        Some(range) => if range.offset + range.len > u64::MAX {
            None
        } else {
            Some((range.offset, (range.offset + range.len) as u64))
        },
    }
}

/// Where the block at `ordinal` begins in the file.
pub open spec fn block_offset(file: FileData, ordinal: int) -> int {
    ordinal * file.layout.block_size
}

/// How many bytes of the file the block at `ordinal` holds.
pub open spec fn visible_block_len(file: FileData, ordinal: int) -> nat {
    block_len_of(file.len as nat, file.layout.block_size as nat, ordinal as nat)
}

/// Whether the block at `ordinal` holds bytes between the bounds.
pub open spec fn overlaps(file: FileData, ordinal: int, start: u64, end: u64) -> bool {
    &&& start != end
    &&& block_offset(file, ordinal) < end
    &&& block_offset(file, ordinal) + visible_block_len(file, ordinal) > start
}

/// Whether `ordinals` are the blocks that hold bytes between the bounds, in file order.
pub open spec fn selects(file: FileData, ordinals: Seq<usize>, start: u64, end: u64) -> bool {
    &&& forall|i: int|
        0 <= i < ordinals.len() ==> #[trigger] ordinals[i] < file.blocks@.len() && overlaps(
            file,
            ordinals[i] as int,
            start,
            end,
        )
    &&& forall|i: int, j: int| 0 <= i < j < ordinals.len() ==> ordinals[i] < ordinals[j]
    &&& forall|o: usize|
        o < file.blocks@.len() && #[trigger] overlaps(file, o as int, start, end)
            ==> ordinals.contains(o)
}

/// The blocks whose locations are to be found, and the group of their workers where workers
/// are known.
#[derive(Debug)]
pub struct LayoutPlan {
    pub ordinals: Vec<usize>,
    pub worker_group: Option<GroupName>,
}

/// Why the locations of a file are not told, if they are not: the file is not consistent,
/// the range has no end, or workers are to be looked up without a known owner group.
pub open spec fn layout_refusal(
    ctx: RequestContextView,
    authority: AuthorityView,
    inode: InodeId,
    file: FileData,
    range: Option<FileRange>,
    has_workers: bool,
) -> Option<FsFailureView> {
    if file_error(file, inode) is Some {
        Some(metadata_failure(ctx, file_error(file, inode)->0, authority))
    } else if range_bounds(file, range) is None {
        Some(
            metadata_failure(
                ctx,
                MetadataErrorView {
                    code: MetadataErrorCode::InvalidArgument,
                    text: "range end overflows"@,
                },
                authority,
            ),
        )
    } else if looks_up_workers(file, range, has_workers) && authority.group_name is None {
        Some(metadata_failure(ctx, lookup_group_error("GetFileLayout"@), authority))
    } else {
        None
    }
}

/// Whether workers are looked up: some are known, the file has blocks, and the range is not
/// empty.
pub open spec fn looks_up_workers(file: FileData, range: Option<FileRange>, has_workers: bool) -> bool {
    let bounds = range_bounds(file, range)->0;
    has_workers && file.blocks@.len() > 0 && bounds.0 < bounds.1
}

/// Returns the file inode whose locations are asked for.
pub fn admit_layout(ctx: &RequestContext, inode: InodeId, read: InodeRead) -> (r: Result<
    Inode,
    FsFailure,
>)
    ensures
        match stored_file("GetFileLayout"@, inode, read) {
            Ok(stored) => r is Ok && r->Ok_0 == stored,
            Err(e) => r is Err && (r->Err_0)@ == metadata_failure(
                ctx@,
                e,
                AuthorityView::unknown(),
            ),
        },
{
    match check_stored_file("GetFileLayout", inode, read) {
        Ok(stored) => Ok(stored),
        Err(e) => {
            let unknown = Authority::unknown();
            Err(fs_failure_from_metadata_error(ctx, &e, &unknown))
        },
    }
}

fn select_blocks(file: &FileData, inode: InodeId, start: u64, end: u64) -> (r: Vec<usize>)
    requires
        file_error(*file, inode) is None,
    ensures
        selects(*file, r@, start, end),
{
    let mut out: Vec<usize> = Vec::new();
    let mut i: usize = 0;
    while i < file.blocks.len()
        invariant
            file_error(*file, inode) is None,
            i <= file.blocks@.len(),
            forall|k: int|
                0 <= k < out@.len() ==> #[trigger] out@[k] < i && overlaps(
                    *file,
                    out@[k] as int,
                    start,
                    end,
                ),
            forall|a: int, b: int| 0 <= a < b < out@.len() ==> out@[a] < out@[b],
            forall|o: usize|
                o < i && #[trigger] overlaps(*file, o as int, start, end) ==> out@.contains(o),
        decreases file.blocks.len() - i,
    {
        let len: u64 = file.block_len(i);
        let size: u64 = file.layout.block_size as u64;
        assert(i * size <= u64::MAX);
        let offset: u64 = i as u64 * size;
        if start != end && offset < end && offset + len > start {
            let ghost before = out@;
            out.push(i);
            proof {
                assert forall|o: usize|
                    o < i + 1 && #[trigger] overlaps(
                        *file,
                        o as int,
                        start,
                        end,
                    ) implies out@.contains(o) by {
                    if o < i {
                        assert(before.contains(o));
                        let k = choose|k: int| 0 <= k < before.len() && before[k] == o;
                        assert(out@[k] == o);
                    } else {
                        assert(out@[out@.len() - 1] == o);
                    }
                }
            }
        }
        i += 1;
    }
    out
}

/// Decides which blocks are to be located. The file's epochs and freshness have been checked
/// under `authority`.
pub fn plan_file_layout(
    ctx: &RequestContext,
    authority: &Authority,
    inode: InodeId,
    file: &FileData,
    range: Option<FileRange>,
    has_workers: bool,
) -> (r: Result<LayoutPlan, FsFailure>)
    ensures
        match layout_refusal(ctx@, authority@, inode, *file, range, has_workers) {
            Some(f) => r is Err && (r->Err_0)@ == f,
            None => {
                &&& r is Ok
                &&& selects(
                    *file,
                    (r->Ok_0).ordinals@,
                    (range_bounds(*file, range)->0).0,
                    (range_bounds(*file, range)->0).1,
                )
                &&& crate::header::optional_group((r->Ok_0).worker_group) == if looks_up_workers(
                    *file,
                    range,
                    has_workers,
                ) {
                    authority@.group_name
                } else {
                    None
                }
            },
        },
{
    match file.validate(inode) {
        Ok(()) => {},
        Err(e) => return Err(fs_failure_from_metadata_error(ctx, &e, authority)),
    }
    let (start, end) = match range {
        None => (0, file.len),
        Some(range) => match range.offset.checked_add(range.len) {
            Some(end) => (range.offset, end),
            None => {
                let error = MetadataError::InvalidArgument("range end overflows".to_owned());
                return Err(fs_failure_from_metadata_error(ctx, &error, authority));
            },
        },
    };
    let worker_group = if has_workers && file.blocks.len() > 0 && start < end {
        match require_worker_lookup_group(ctx, authority, "GetFileLayout") {
            Ok(group_name) => Some(group_name),
            Err(f) => return Err(f),
        }
    } else {
        None
    };
    let ordinals = select_blocks(file, inode, start, end);
    Ok(LayoutPlan { ordinals, worker_group })
}

/// What is known of a block: where it was reported, and the workers of its group.
#[derive(Debug)]
pub struct BlockObservation {
    pub reported: Vec<ReportedBlockLocation>,
    pub workers: Vec<WorkerPlacementView>,
}

/// The endpoint that a worker's fields name.
pub open spec fn read_endpoint(worker: WorkerPlacementView) -> Result<
    WorkerEndpointInfoView,
    MetadataErrorView,
> {
    persisted_endpoint(
        worker.worker_id,
        worker.endpoint@,
        worker.worker_net_protocol,
        worker.worker_run_id->0,
    )
}

/// Whether a worker can be named to a reader.
pub open spec fn is_usable(worker: WorkerPlacementView) -> bool {
    worker.worker_run_id is Some && read_endpoint(worker) is Ok
}

/// Returns whether a worker can be named to a reader.
pub fn has_usable_read_endpoint(worker: &WorkerPlacementView) -> (r: bool)
    ensures
        r == is_usable(*worker),
{
    match worker.worker_run_id {
        None => false,
        Some(run) => worker_endpoint_from_parts(
            worker.worker_id,
            worker.endpoint.clone(),
            worker.worker_net_protocol,
            run,
        ).is_ok(),
    }
}

/// The workers that can be named to a reader, in order.
pub open spec fn usable_workers(workers: Seq<WorkerPlacementView>) -> Seq<WorkerPlacementView>
    decreases workers.len(),
{
    if workers.len() == 0 {
        Seq::empty()
    } else if is_usable(workers.last()) {
        usable_workers(workers.drop_last()).push(workers.last())
    } else {
        usable_workers(workers.drop_last())
    }
}

proof fn lemma_usable_workers(workers: Seq<WorkerPlacementView>)
    ensures
        forall|i: int|
            0 <= i < usable_workers(workers).len() ==> is_usable(
                #[trigger] usable_workers(workers)[i],
            ),
    decreases workers.len(),
{
    if workers.len() > 0 {
        let before = usable_workers(workers.drop_last());
        let all = usable_workers(workers);
        lemma_usable_workers(workers.drop_last());
        assert forall|i: int| 0 <= i < all.len() implies is_usable(#[trigger] all[i]) by {
            if i < before.len() {
                assert(all[i] == before[i]);
            }
        }
    }
}

/// A worker that can be named to a reader is kept.
pub proof fn lemma_usable_kept(workers: Seq<WorkerPlacementView>, i: int)
    requires
        0 <= i < workers.len(),
        is_usable(workers[i]),
    ensures
        usable_workers(workers).contains(workers[i]),
    decreases workers.len(),
{
    let front = workers.drop_last();
    let kept = usable_workers(workers);
    if i < front.len() {
        lemma_usable_kept(front, i);
        assert(front[i] == workers[i]);
        let earlier = usable_workers(front);
        let k = choose|k: int| 0 <= k < earlier.len() && earlier[k] == workers[i];
        assert(kept[k] == workers[i]);
    } else {
        assert(kept[kept.len() - 1] == workers[i]);
    }
}

fn keep_usable(workers: Vec<WorkerPlacementView>) -> (r: Vec<WorkerPlacementView>)
    ensures
        r@ == usable_workers(workers@),
{
    let ghost all = workers@;
    let mut rest = workers;
    let mut kept: Vec<WorkerPlacementView> = Vec::new();
    assert(usable_workers(rest@) + kept@.reverse() =~= usable_workers(all));
    while rest.len() > 0
        invariant
            usable_workers(rest@) + kept@.reverse() == usable_workers(all),
        decreases rest.len(),
    {
        let ghost before = rest@;
        let ghost tail = kept@.reverse();
        match rest.pop() {
            None => {},
            Some(worker) => {
                assert(rest@ =~= before.drop_last());
                assert(worker == before.last());
                if has_usable_read_endpoint(&worker) {
                    kept.push(worker);
                    assert(kept@.reverse() =~= seq![worker] + tail);
                    assert(usable_workers(before) =~= usable_workers(rest@) + seq![worker]);
                    assert(usable_workers(rest@) + kept@.reverse() =~= usable_workers(before)
                        + tail);
                }
            },
        }
    }
    let out = reversed(kept);
    assert(out@ =~= usable_workers(all));
    out
}

/// Whether a worker that reported the block has been restarted since.
pub open spec fn was_restarted(
    reported: Seq<ReportedBlockLocation>,
    workers: Seq<WorkerPlacementView>,
) -> bool {
    exists|i: int, j: int|
        0 <= i < reported.len() && 0 <= j < workers.len() && (#[trigger] workers[j]).worker_id == (
        #[trigger] reported[i]).worker_id && workers[j].worker_run_id is Some
            && workers[j].worker_run_id != Some(reported[i].worker_run_id)
}

/// The kind of failure for a block that no live worker holds.
pub open spec fn unavailable_kind(
    reported: Seq<ReportedBlockLocation>,
    workers: Seq<WorkerPlacementView>,
) -> ErrorKind {
    if was_restarted(reported, workers) {
        ErrorKind::Worker(WorkerErrorKind::RunMismatch)
    } else {
        ErrorKind::Worker(WorkerErrorKind::BlockLocationUnavailable)
    }
}

/// Returns the kind of failure for a block that no live worker holds.
pub fn classify_unavailable_read_location(
    reported: &Vec<ReportedBlockLocation>,
    workers: &Vec<WorkerPlacementView>,
) -> (r: ErrorKind)
    ensures
        r == unavailable_kind(reported@, workers@),
{
    let mut i: usize = 0;
    while i < reported.len()
        invariant
            i <= reported@.len(),
            forall|a: int, b: int|
                0 <= a < i && 0 <= b < workers@.len() ==> !((#[trigger] workers@[b]).worker_id == (
                #[trigger] reported@[a]).worker_id && workers@[b].worker_run_id is Some
                    && workers@[b].worker_run_id != Some(reported@[a].worker_run_id)),
        decreases reported.len() - i,
    {
        let mut j: usize = 0;
        while j < workers.len()
            invariant
                i < reported@.len(),
                j <= workers@.len(),
                forall|b: int|
                    0 <= b < j ==> !((#[trigger] workers@[b]).worker_id
                        == reported@[i as int].worker_id && workers@[b].worker_run_id is Some
                        && workers@[b].worker_run_id != Some(reported@[i as int].worker_run_id)),
            decreases workers.len() - j,
        {
            let other_run = match workers[j].worker_run_id {
                Some(run) => run != reported[i].worker_run_id,
                None => false,
            };
            if workers[j].worker_id == reported[i].worker_id && other_run {
                assert(workers@[j as int].worker_id == reported@[i as int].worker_id);
                return ErrorKind::Worker(WorkerErrorKind::RunMismatch);
            }
            j += 1;
        }
        i += 1;
    }
    ErrorKind::Worker(WorkerErrorKind::BlockLocationUnavailable)
}

/// Whether a request asks for the worker from which the block at `ordinal` is read.
pub open spec fn asks_for_block(
    req: PlacementRequest,
    group: Seq<char>,
    file: FileData,
    ordinal: int,
    caller: Option<CallerContextFields>,
    reported: Seq<ReportedBlockLocation>,
) -> bool {
    &&& req.group_name@ == group
    &&& req.op == PlacementOp::Read
    &&& req.block_id == file.blocks@[ordinal]
    &&& req.visible_len == visible_block_len(file, ordinal)
    &&& req.layout == file.layout
    &&& req.caller == caller
    &&& req.existing@ == reported
    &&& req.exclude_workers@.len() == 0
    &&& req.target_replicas == SUPPORTED_REPLICA_COUNT
}

/// Whether looking for a reader's worker ends so: with the endpoint of the best usable
/// worker that holds the visible prefix, or with a kind of failure where there is none.
pub open spec fn reads_from(
    group: Seq<char>,
    file: FileData,
    ordinal: int,
    caller: Option<CallerContextFields>,
    observed: BlockObservation,
    outcome: Result<Seq<WorkerEndpointInfoView>, ErrorKind>,
) -> bool {
    let workers = usable_workers(observed.workers@);
    exists|req: PlacementRequest|
        #[trigger] asks_for_block(req, group, file, ordinal, caller, observed.reported@) && {
            if placement_status(req, workers) == PlacementStatus::NoLiveReplica {
                outcome == Err::<Seq<WorkerEndpointInfoView>, ErrorKind>(
                    unavailable_kind(observed.reported@, workers),
                )
            } else {
                exists|i: int|
                    #[trigger] is_best(req, workers, Seq::empty(), i) && outcome == Ok::<
                        Seq<WorkerEndpointInfoView>,
                        ErrorKind,
                    >(seq![read_endpoint(workers[i])->Ok_0])
            }
        }
}

/// What is told of the block at `ordinal`.
pub open spec fn block_location(
    file: FileData,
    ordinal: int,
    workers: Seq<WorkerEndpointInfoView>,
) -> FileBlockLocationView {
    FileBlockLocationView {
        block_id: file.blocks@[ordinal],
        file_offset: block_offset(file, ordinal) as u64,
        len: visible_block_len(file, ordinal) as u64,
        workers,
        block_format_id: file.layout.block_format_id,
        block_size: file.layout.block_size as u64,
        chunk_size: DURABLE_PREFIX_STORAGE_CHUNK_SIZE,
        effective_len: visible_block_len(file, ordinal) as u64,
    }
}

/// The failure for a block that no live worker holds.
pub open spec fn unlocated(
    ctx: RequestContextView,
    authority: AuthorityView,
    kind: ErrorKind,
    block: BlockId,
) -> FsFailureView {
    refresh_failure(
        ctx,
        kind,
        "no live replica holds the visible prefix of block "@ + block_id_text(block),
        authority,
        authority_hint(
            authority,
            RefreshHintView { worker_resolve_required: true, ..RefreshHintView::none() },
        ),
    )
}

fn locate_block(
    req: &PlacementRequest,
    workers: &Vec<WorkerPlacementView>,
    Ghost(group): Ghost<Seq<char>>,
    Ghost(file): Ghost<FileData>,
    Ghost(ordinal): Ghost<int>,
    Ghost(caller): Ghost<Option<CallerContextFields>>,
    Ghost(observed): Ghost<BlockObservation>,
) -> (r: Result<Vec<WorkerEndpointInfo>, ErrorKind>)
    requires
        asks_for_block(*req, group, file, ordinal, caller, observed.reported@),
        workers@ == usable_workers(observed.workers@),
    ensures
        match r {
            Ok(endpoints) => reads_from(
                group,
                file,
                ordinal,
                caller,
                observed,
                Ok(endpoint_views(endpoints@)),
            ),
            Err(kind) => reads_from(group, file, ordinal, caller, observed, Err(kind)),
        },
{
    let plan = PlacementPlanner.plan(req, workers);
    if plan.status == PlacementStatus::NoLiveReplica {
        return Err(classify_unavailable_read_location(&req.existing, workers));
    }
    let ghost planned = planned_views(plan.workers@);
    proof {
        a_single_replica_is_the_best_worker(*req, workers@, planned);
        lemma_usable_workers(observed.workers@);
    }
    let mut out: Vec<WorkerEndpointInfo> = Vec::new();
    let chosen = &plan.workers[0];
    assert(planned[0] == chosen@);
    let endpoint = worker_endpoint_from_parts(
        chosen.worker_id,
        chosen.endpoint.clone(),
        chosen.worker_net_protocol,
        chosen.worker_run_id,
    );
    proof {
        let i = choose|i: int|
            #[trigger] is_best(*req, workers@, Seq::empty(), i) && planned[0] == planned_view(
                *req,
                workers@[i],
            );
        assert(is_usable(workers@[i]));
        assert(endpoint is Ok);
    }
    match endpoint {
        Ok(endpoint) => {
            out.push(endpoint);
        },
        Err(_) => {},
    }
    proof {
        let i = choose|i: int|
            #[trigger] is_best(*req, workers@, Seq::empty(), i) && planned[0] == planned_view(
                *req,
                workers@[i],
            );
        assert(endpoint_views(out@) =~= seq![read_endpoint(workers@[i])->Ok_0]);
    }
    Ok(out)
}

/// What is told of a file's layout.
#[derive(Debug)]
pub struct GetFileLayoutOutput {
    pub file_size: u64,
    pub generation: Option<ContentGeneration>,
    pub locations: Vec<FileBlockLocation>,
}

/// Whether `locations` tell of exactly the planned blocks, each with the worker that it is
/// read from where workers were looked up, and with none otherwise.
pub open spec fn tells_blocks(
    file: FileData,
    ordinals: Seq<usize>,
    group: Option<Seq<char>>,
    caller: Option<CallerContextFields>,
    observed: Seq<BlockObservation>,
    locations: Seq<FileBlockLocation>,
) -> bool {
    &&& locations.len() == ordinals.len()
    &&& forall|k: int|
        0 <= k < locations.len() ==> {
            let told = (#[trigger] locations[k])@;
            &&& told == block_location(file, ordinals[k] as int, told.workers)
            &&& match group {
                None => told.workers.len() == 0,
                Some(group) => reads_from(
                    group,
                    file,
                    ordinals[k] as int,
                    caller,
                    observed[k],
                    Ok(told.workers),
                ),
            }
        }
}

/// Whether a block can be located.
pub open spec fn is_located(
    group: Seq<char>,
    file: FileData,
    ordinal: int,
    caller: Option<CallerContextFields>,
    observed: BlockObservation,
) -> bool {
    exists|workers: Seq<WorkerEndpointInfoView>|
        #[trigger] reads_from(group, file, ordinal, caller, observed, Ok(workers))
}

/// Whether the block at `k` of the plan is the first that cannot be located, with this kind
/// of failure.
pub open spec fn first_unlocated(
    file: FileData,
    ordinals: Seq<usize>,
    group: Seq<char>,
    caller: Option<CallerContextFields>,
    observed: Seq<BlockObservation>,
    k: int,
    kind: ErrorKind,
) -> bool {
    &&& 0 <= k < ordinals.len()
    &&& reads_from(group, file, ordinals[k] as int, caller, observed[k], Err(kind))
    &&& forall|i: int|
        0 <= i < k ==> is_located(
            group,
            file,
            ordinals[i] as int,
            caller,
            #[trigger] observed[i],
        )
}

/// Tells the locations of the planned blocks. `observed` holds what is known of each of
/// them, where the plan has a worker group.
pub fn get_file_layout(
    ctx: &RequestContext,
    authority: &Authority,
    inode: InodeId,
    file: &FileData,
    plan: &LayoutPlan,
    caller: Option<CallerContextFields>,
    observed: Vec<BlockObservation>,
) -> (r: Result<GetFileLayoutOutput, FsFailure>)
    requires
        file_error(*file, inode) is None,
        forall|i: int|
            0 <= i < plan.ordinals@.len() ==> #[trigger] plan.ordinals@[i] < file.blocks@.len(),
        plan.worker_group is Some ==> observed@.len() == plan.ordinals@.len(),
    ensures
        ({
            let group = crate::header::optional_group(plan.worker_group);
            match r {
                Ok(output) => {
                    &&& output.file_size == file.len
                    &&& output.generation == Some(file.generation)
                    &&& tells_blocks(
                        *file,
                        plan.ordinals@,
                        group,
                        caller,
                        observed@,
                        output.locations@,
                    )
                },
                Err(f) => exists|k: int, kind: ErrorKind|
                    {
                        &&& group is Some
                        &&& #[trigger] first_unlocated(
                            *file,
                            plan.ordinals@,
                            group->0,
                            caller,
                            observed@,
                            k,
                            kind,
                        )
                        &&& f@ == unlocated(
                            ctx@,
                            authority@,
                            kind,
                            file.blocks@[plan.ordinals@[k] as int],
                        )
                    },
            }
        }),
{
    let ghost group = crate::header::optional_group(plan.worker_group);
    let ghost all = observed@;
    let ghost who = caller;
    let ordinals = &plan.ordinals;
    let mut near = caller;
    let mut rest = reversed(observed);
    let mut locations: Vec<FileBlockLocation> = Vec::new();
    let mut i: usize = 0;
    while i < ordinals.len()
        invariant
            ordinals == &plan.ordinals,
            all == observed@,
            group == crate::header::optional_group(plan.worker_group),
            file_error(*file, inode) is None,
            forall|k: int|
                0 <= k < ordinals@.len() ==> #[trigger] ordinals@[k] < file.blocks@.len(),
            who == caller,
            near == who,
            i <= ordinals@.len(),
            locations@.len() == i,
            plan.worker_group is Some ==> all.len() == ordinals@.len() && rest@.len() == all.len()
                - i && forall|k: int|
                0 <= k < rest@.len() ==> #[trigger] rest@[k] == all[all.len() - 1 - k],
            tells_blocks(*file, ordinals@.take(i as int), group, who, all, locations@),
        decreases ordinals.len() - i,
    {
        let ordinal: usize = ordinals[i];
        let len: u64 = file.block_len(ordinal);
        let size: u64 = file.layout.block_size as u64;
        assert(ordinal * size <= u64::MAX);
        let file_offset: u64 = ordinal as u64 * size;
        let mut workers: Vec<WorkerEndpointInfo> = Vec::new();
        match &plan.worker_group {
            None => {},
            Some(group_name) => {
                let seen = match rest.pop() {
                    Some(seen) => seen,
                    None => BlockObservation { reported: Vec::new(), workers: Vec::new() },
                };
                assert(seen == all[i as int]);
                let ghost observation = seen;
                let usable = keep_usable(seen.workers);
                let req = PlacementRequest {
                    group_name: group_name.clone(),
                    op: PlacementOp::Read,
                    block_id: file.blocks[ordinal],
                    visible_len: len,
                    layout: file.layout,
                    caller: near,
                    existing: seen.reported,
                    exclude_workers: Vec::new(),
                    target_replicas: SUPPORTED_REPLICA_COUNT,
                };
                match locate_block(
                    &req,
                    &usable,
                    Ghost(group->0),
                    Ghost(*file),
                    Ghost(ordinal as int),
                    Ghost(who),
                    Ghost(observation),
                ) {
                    Ok(endpoints) => {
                        workers = endpoints;
                    },
                    Err(kind) => {
                        proof {
                            assert forall|k: int| 0 <= k < i implies is_located(
                                group->0,
                                *file,
                                ordinals@[k] as int,
                                who,
                                #[trigger] all[k],
                            ) by {
                                let told = locations@[k]@;
                                assert(reads_from(
                                    group->0,
                                    *file,
                                    ordinals@.take(i as int)[k] as int,
                                    who,
                                    all[k],
                                    Ok(told.workers),
                                ));
                            }
                            assert(first_unlocated(
                                *file,
                                ordinals@,
                                group->0,
                                who,
                                all,
                                i as int,
                                kind,
                            ));
                        }
                        let block = req.block_id.to_text();
                        let mut hint = RefreshHint::default();
                        hint.worker_resolve_required = true;
                        return Err(
                            refresh_metadata_failure_with_hint(
                                ctx,
                                kind,
                                join(
                                    "no live replica holds the visible prefix of block ",
                                    block.as_str(),
                                ),
                                authority,
                                hint,
                            ),
                        );
                    },
                }
                near = req.caller;
            },
        }
        let ghost earlier = locations@;
        locations.push(
            FileBlockLocation {
                block_id: file.blocks[ordinal],
                file_offset,
                len,
                workers,
                block_format_id: file.layout.block_format_id,
                block_size: size,
                chunk_size: DURABLE_PREFIX_STORAGE_CHUNK_SIZE,
                effective_len: len,
            },
        );
        proof {
            let next = ordinals@.take(i as int + 1);
            assert(next[i as int] == ordinal);
            assert forall|k: int| 0 <= k < locations@.len() implies {
                let told = (#[trigger] locations@[k])@;
                &&& told == block_location(*file, next[k] as int, told.workers)
                &&& match group {
                    None => told.workers.len() == 0,
                    Some(group) => reads_from(
                        group,
                        *file,
                        next[k] as int,
                        who,
                        all[k],
                        Ok(told.workers),
                    ),
                }
            } by {
                if k < i {
                    assert(locations@[k] == earlier[k]);
                    assert(next[k] == ordinals@.take(i as int)[k]);
                }
            }
        }
        i += 1;
    }
    assert(ordinals@.take(i as int) =~= ordinals@);
    Ok(
        GetFileLayoutOutput {
            file_size: file.len,
            generation: Some(file.generation),
            locations,
        },
    )
}

// ---- laws ----

/// Every visible byte that is asked for lies in exactly one of the blocks that are told.
pub proof fn told_blocks_cover_the_range(
    file: FileData,
    inode: InodeId,
    ordinals: Seq<usize>,
    start: u64,
    end: u64,
    byte: u64,
)
    requires
        file_error(file, inode) is None,
        selects(file, ordinals, start, end),
        start <= byte < end,
        byte < file.len,
    ensures
        exists|k: int|
            0 <= k < ordinals.len() && block_offset(file, #[trigger] ordinals[k] as int) <= byte
                < block_offset(file, ordinals[k] as int) + visible_block_len(
                file,
                ordinals[k] as int,
            ),
        forall|j: int, k: int|
            0 <= j < ordinals.len() && 0 <= k < ordinals.len() && block_offset(
                file,
                #[trigger] ordinals[j] as int,
            ) <= byte < block_offset(file, ordinals[j] as int) + visible_block_len(
                file,
                ordinals[j] as int,
            ) && block_offset(file, #[trigger] ordinals[k] as int) <= byte < block_offset(
                file,
                ordinals[k] as int,
            ) + visible_block_len(file, ordinals[k] as int) ==> j == k,
{
    let size = file.layout.block_size as nat;
    let len = file.len as nat;
    let o = byte as nat / size;
    assert(byte as nat == o * size + byte as nat % size) by (nonlinear_arith)
        requires
            o == byte as nat / size,
            size > 0,
    ;
    assert(byte as nat % size < size) by (nonlinear_arith)
        requires
            size > 0,
    ;
    assert(o < blocks_for(len, size)) by (nonlinear_arith)
        requires
            o * size <= byte,
            byte < len,
            size > 0,
            blocks_for(len, size) == if len % size == 0 {
                len / size
            } else {
                len / size + 1
            },
    ;
    blocks_cover_the_file(len, size, o);
    assert(o < file.blocks@.len());
    assert(file.blocks.len() == file.blocks@.len());
    let u = o as usize;
    assert(overlaps(file, u as int, start, end));
    assert(ordinals.contains(u));
    let k = choose|k: int| 0 <= k < ordinals.len() && ordinals[k] == u;
    assert(ordinals[k] == u);
    assert forall|j: int, k: int|
        0 <= j < ordinals.len() && 0 <= k < ordinals.len() && block_offset(
            file,
            #[trigger] ordinals[j] as int,
        ) <= byte < block_offset(file, ordinals[j] as int) + visible_block_len(
            file,
            ordinals[j] as int,
        ) && block_offset(file, #[trigger] ordinals[k] as int) <= byte < block_offset(
            file,
            ordinals[k] as int,
        ) + visible_block_len(file, ordinals[k] as int) implies j == k by {
        let a = ordinals[j] as int;
        let b = ordinals[k] as int;
        blocks_cover_the_file(len, size, a as nat);
        blocks_cover_the_file(len, size, b as nat);
        assert(a == b) by (nonlinear_arith)
            requires
                a * size <= byte < a * size + size,
                b * size <= byte < b * size + size,
        ;
        if j < k {
            assert(ordinals[j] < ordinals[k]);
        } else if k < j {
            assert(ordinals[k] < ordinals[j]);
        }
    }
}

proof fn lemma_usable_member(workers: Seq<WorkerPlacementView>, i: int)
    requires
        0 <= i < usable_workers(workers).len(),
    ensures
        workers.contains(usable_workers(workers)[i]),
    decreases workers.len(),
{
    let before = usable_workers(workers.drop_last());
    let w = usable_workers(workers)[i];
    if i < before.len() {
        lemma_usable_member(workers.drop_last(), i);
        assert(w == before[i]);
        let j = choose|j: int|
            0 <= j < workers.drop_last().len() && workers.drop_last()[j] == before[i];
        assert(workers[j] == w);
    } else {
        assert(w == workers.last());
        assert(workers[workers.len() - 1] == w);
    }
}

/// A reader is sent only to a known, live worker whose running process reported the whole
/// visible prefix of the block.
pub proof fn readers_are_sent_to_holders(
    group: Seq<char>,
    file: FileData,
    ordinal: int,
    caller: Option<CallerContextFields>,
    observed: BlockObservation,
    endpoints: Seq<WorkerEndpointInfoView>,
)
    requires
        reads_from(group, file, ordinal, caller, observed, Ok(endpoints)),
    ensures
        endpoints.len() == 1,
        exists|w: WorkerPlacementView, k: int|
            {
                &&& #[trigger] observed.workers@.contains(w)
                &&& w.group_name@ == group
                &&& w.registered
                &&& w.lease_valid
                &&& read_endpoint(w) == Ok::<WorkerEndpointInfoView, MetadataErrorView>(
                    endpoints[0],
                )
                &&& 0 <= k < observed.reported@.len()
                &&& (#[trigger] observed.reported@[k]).worker_id == w.worker_id
                &&& Some(observed.reported@[k].worker_run_id) == w.worker_run_id
                &&& observed.reported@[k].effective_len >= visible_block_len(file, ordinal)
            },
{
    let workers = usable_workers(observed.workers@);
    let req = choose|req: PlacementRequest|
        #[trigger] asks_for_block(req, group, file, ordinal, caller, observed.reported@) && {
            if placement_status(req, workers) == PlacementStatus::NoLiveReplica {
                Ok::<Seq<WorkerEndpointInfoView>, ErrorKind>(endpoints) == Err::<
                    Seq<WorkerEndpointInfoView>,
                    ErrorKind,
                >(unavailable_kind(observed.reported@, workers))
            } else {
                exists|i: int|
                    #[trigger] is_best(req, workers, Seq::empty(), i) && Ok::<
                        Seq<WorkerEndpointInfoView>,
                        ErrorKind,
                    >(endpoints) == Ok::<Seq<WorkerEndpointInfoView>, ErrorKind>(
                        seq![read_endpoint(workers[i])->Ok_0],
                    )
            }
        };
    let i = choose|i: int|
        #[trigger] is_best(req, workers, Seq::empty(), i) && Ok::<
            Seq<WorkerEndpointInfoView>,
            ErrorKind,
        >(endpoints) == Ok::<Seq<WorkerEndpointInfoView>, ErrorKind>(
            seq![read_endpoint(workers[i])->Ok_0],
        );
    assert(is_eligible(req, workers[i]));
    lemma_usable_workers(observed.workers@);
    lemma_usable_member(observed.workers@, i);
    assert(is_usable(workers[i]));
    let k = choose|k: int|
        0 <= k < req.existing@.len() && (#[trigger] req.existing@[k]).worker_id
            == workers[i].worker_id && Some(req.existing@[k].worker_run_id)
            == workers[i].worker_run_id && req.existing@[k].effective_len >= req.visible_len;
    assert(observed.reported@[k].worker_id == workers[i].worker_id);
    assert(endpoints =~= seq![read_endpoint(workers[i])->Ok_0]);
}

} // verus!
