//! Opening a file for write, and authorizing the streams of its writer.

use vstd::prelude::*;

use crate::error::{MetadataError, MetadataErrorCode, MetadataErrorView};
use crate::filesystem::command::{
    expected_reply, require_reply, ApplySuccess, Command, InodeRead, MountEntry, RaftReply,
};
use crate::filesystem::context::{
    fs_failure_from_metadata_error, lookup_group_error, metadata_failure,
    require_worker_lookup_group, session_terminal_failure, terminal_failure,
    validate_active_write_layout, Authority, AuthorityView, FsFailure, FsFailureView,
    RequestContext, RequestContextView, ResolvedPath, SUPPORTED_REPLICA_COUNT,
};
use crate::filesystem::namespace::{session_limit_message, session_limit_text};
use crate::filesystem::write::{
    endpoints_of_plan, known_workers, planned_endpoints, session_expired, session_invalid,
};
use crate::fs::{ContentGeneration, FileType, WriteMode};
use crate::header::optional_group;
use crate::ids::{BlockId, ClientId, GroupName, InodeId, WorkerId};
use crate::inode::{
    block_len_of, block_ordinal, blocks_cover_the_file, blocks_for, file_error, find_block,
    not_a_file, not_a_file_error, FileData, Inode, InodeKind,
};
use crate::layout::{layout_error, BlockShape, FileLayout, DURABLE_PREFIX_STORAGE_CHUNK_SIZE};
use crate::lease::{FencingToken, LeaseEpoch};
use crate::location::{located_views, LocatedBlock, LocatedBlockView};
use crate::placement::{
    is_plan, placement_failure_text, placement_status, planned_views, PlacementOp, PlacementPlan,
    PlacementPlanner, PlacementRequest, PlacementStatus, PlannedWorkerView,
    ReportedBlockLocation, WorkerPlacementView,
};
use crate::rpc_error::{ErrorKind, MetadataErrorKind};
use crate::session::model::{RegistryView, WriteOpening};
use crate::session::registry::{optional_target_view, SessionRegistry};
use crate::session::types::{
    chain_error, validate_ancestor_chain, BeginSessionError, BeginSessionInput,
    BeginSessionInputView, RegistryLimits, WriteOpeningError, WriteSession, WriteSessionView,
};
use crate::text::{decimal, decimal_text, join};
use crate::worker_info::{endpoint_views, Tier, WorkerRunId};

verus! {

/// The error for an inode that is stored under another key.
pub open spec fn corrupt_inode(operation: Seq<char>, key: InodeId, stored: Inode) -> MetadataErrorView {
    MetadataErrorView {
        code: MetadataErrorCode::Internal,
        text: "inode authority is corrupt for "@ + operation + ": key="@ + decimal(key.0 as nat)
            + ", value_id="@ + decimal(stored.inode_id.0 as nat) + ", kind="@
            + stored.kind_type().text() + ", payload="@ + stored.kind_type().text(),
    }
}

/// The inode that reading `key` gave, or why there is none. `missing` words its absence.
pub open spec fn stored_inode(
    operation: Seq<char>,
    missing: Seq<char>,
    key: InodeId,
    read: InodeRead,
) -> Result<Inode, MetadataErrorView> {
    match read {
        Err(e) => Err(e@),
        Ok(None) => Err(
            MetadataErrorView {
                code: MetadataErrorCode::NotFound,
                text: missing + decimal(key.0 as nat),
            },
        ),
        Ok(Some(inode)) => if inode.inode_id != key {
            Err(corrupt_inode(operation, key, inode))
        } else {
            Ok(inode)
        },
    }
}

/// Returns the inode that reading `key` gave. An inode stored under another key is refused.
pub fn check_stored_inode(operation: &str, missing: &str, key: InodeId, read: InodeRead) -> (r:
    Result<Inode, MetadataError>)
    ensures
        ({
            let stored = stored_inode(operation@, missing@, key, read);
            match r {
                Ok(inode) => stored == Ok::<Inode, MetadataErrorView>(inode),
                Err(e) => stored == Err::<Inode, MetadataErrorView>(e@),
            }
        }),
{
    match read {
        Err(e) => Err(e),
        Ok(None) => {
            let text = key.to_text();
            Err(MetadataError::NotFound(join(missing, text.as_str())))
        },
        Ok(Some(inode)) => {
            if inode.inode_id != key {
                let key_text = key.to_text();
                let value_text = inode.inode_id.to_text();
                let kind = inode.file_type();
                let mut out = join("inode authority is corrupt for ", operation);
                out.append(": key=");
                out.append(key_text.as_str());
                out.append(", value_id=");
                out.append(value_text.as_str());
                out.append(", kind=");
                out.append(kind.name());
                out.append(", payload=");
                out.append(kind.name());
                return Err(MetadataError::Internal(out));
            }
            Ok(inode)
        },
    }
}

/// The file inode that reading `key` gave, or why there is none.
pub open spec fn stored_file(operation: Seq<char>, key: InodeId, read: InodeRead) -> Result<
    Inode,
    MetadataErrorView,
> {
    match stored_inode(operation, "Inode not found: "@, key, read) {
        Err(e) => Err(e),
        Ok(inode) => if inode.kind is Dir {
            Err(not_a_file(key))
        } else {
            Ok(inode)
        },
    }
}

/// Returns the file inode that reading `key` gave.
pub fn check_stored_file(operation: &str, key: InodeId, read: InodeRead) -> (r: Result<
    Inode,
    MetadataError,
>)
    ensures
        match r {
            Ok(inode) => stored_file(operation@, key, read) == Ok::<Inode, MetadataErrorView>(
                inode,
            ),
            Err(e) => stored_file(operation@, key, read) == Err::<Inode, MetadataErrorView>(e@),
        },
{
    let inode = match check_stored_inode(operation, "Inode not found: ", key, read) {
        Ok(inode) => inode,
        Err(e) => return Err(e),
    };
    match inode.file_type() {
        FileType::File => Ok(inode),
        FileType::Dir => Err(not_a_file_error(key)),
    }
}

// ---- opening ----

/// The file inode that may be opened, or why there is none: the chain must be a path to it,
/// and it must be a file that is stored under its own key.
pub open spec fn openable(
    ctx: RequestContextView,
    inode: InodeId,
    chain: Seq<InodeId>,
    read: InodeRead,
) -> Result<Inode, FsFailureView> {
    if chain_error(inode, chain) is Some {
        Err(
            metadata_failure(
                ctx,
                MetadataErrorView {
                    code: MetadataErrorCode::Internal,
                    text: (chain_error(inode, chain)->0).text(),
                },
                AuthorityView::unknown(),
            ),
        )
    } else {
        match stored_file("OpenWrite"@, inode, read) {
            Ok(found) => Ok(found),
            Err(e) => Err(metadata_failure(ctx, e, AuthorityView::unknown())),
        }
    }
}

/// Checks the chain and the stored inode of a file that is to be opened.
pub fn admit_open(
    ctx: &RequestContext,
    inode: InodeId,
    chain: &Vec<InodeId>,
    read: InodeRead,
) -> (r: Result<Inode, FsFailure>)
    ensures
        match r {
            Ok(found) => openable(ctx@, inode, chain@, read) == Ok::<Inode, FsFailureView>(
                found,
            ),
            Err(f) => openable(ctx@, inode, chain@, read) == Err::<Inode, FsFailureView>(f@),
        },
{
    let unknown = Authority::unknown();
    match validate_ancestor_chain(inode, chain) {
        Ok(()) => {},
        Err(e) => {
            let error = MetadataError::Internal(e.message());
            return Err(fs_failure_from_metadata_error(ctx, &error, &unknown));
        },
    }
    match check_stored_file("OpenWrite", inode, read) {
        Ok(found) => Ok(found),
        Err(e) => Err(fs_failure_from_metadata_error(ctx, &e, &unknown)),
    }
}

/// What refuses an opening that did not begin.
pub open spec fn opening_refusal(error: BeginSessionError, inode: InodeId) -> MetadataErrorView {
    match error {
        BeginSessionError::Busy => MetadataErrorView {
            code: MetadataErrorCode::Busy,
            text: "File already has an opening or active write session: "@ + decimal(
                inode.0 as nat,
            ),
        },
        BeginSessionError::LimitExceeded(rejection) => MetadataErrorView {
            code: MetadataErrorCode::WriteSessionLimitExceeded,
            text: session_limit_text(rejection),
        },
        BeginSessionError::LeaseEpochExhausted => MetadataErrorView {
            code: MetadataErrorCode::ResourceExhausted,
            text: "write lease epoch exhausted for inode "@ + decimal(inode.0 as nat),
        },
        BeginSessionError::OpeningIdExhausted => MetadataErrorView {
            code: MetadataErrorCode::ResourceExhausted,
            text: "leader-local write opening identity exhausted"@,
        },
        BeginSessionError::InvalidAncestorChain => MetadataErrorView {
            code: MetadataErrorCode::Internal,
            text: "validated write session ancestor chain was rejected"@,
        },
    }
}

fn opening_refusal_error(error: BeginSessionError, inode: InodeId) -> (r: MetadataError)
    ensures
        r@ == opening_refusal(error, inode),
{
    match error {
        BeginSessionError::Busy => {
            let text = inode.to_text();
            MetadataError::Busy(
                join("File already has an opening or active write session: ", text.as_str()),
            )
        },
        BeginSessionError::LimitExceeded(rejection) => MetadataError::WriteSessionLimitExceeded(
            session_limit_message(rejection),
        ),
        BeginSessionError::LeaseEpochExhausted => {
            let text = inode.to_text();
            MetadataError::ResourceExhausted(
                join("write lease epoch exhausted for inode ", text.as_str()),
            )
        },
        BeginSessionError::OpeningIdExhausted => MetadataError::ResourceExhausted(
            "leader-local write opening identity exhausted".to_owned(),
        ),
        BeginSessionError::InvalidAncestorChain => MetadataError::Internal(
            "validated write session ancestor chain was rejected".to_owned(),
        ),
    }
}

/// What the opening of a stored file asks of the registry.
pub open spec fn opening_input(
    ctx: RequestContextView,
    path: Seq<char>,
    inode: Inode,
    layout: FileLayout,
    chain: Seq<InodeId>,
    mode: WriteMode,
) -> BeginSessionInputView {
    BeginSessionInputView {
        normalized_path: path,
        mount_id: inode.mount_id,
        inode_id: inode.inode_id,
        current_lease_epoch: inode.kind->File_0.lease_epoch,
        mode,
        open_client_id: ctx.caller.client.client_id,
        layout,
        ancestor_inode_ids: chain,
    }
}

/// What beginning an opening does and answers.
pub open spec fn opening_begun(
    v: RegistryView,
    limits: RegistryLimits,
    ctx: RequestContextView,
    authority: AuthorityView,
    path: Seq<char>,
    inode: Inode,
    layout: Result<FileLayout, MetadataErrorView>,
    chain: Seq<InodeId>,
    mode: WriteMode,
    now_ms: u64,
) -> (RegistryView, Result<WriteOpening, FsFailureView>) {
    let plain = authority.without_route();
    match layout {
        Err(e) => (v, Err(metadata_failure(ctx, e, plain))),
        Ok(layout) => if layout_error(layout) is Some {
            (
                v,
                Err(
                    metadata_failure(
                        ctx,
                        MetadataErrorView {
                            code: MetadataErrorCode::InvalidArgument,
                            text: "invalid file layout: "@ + (layout_error(layout)->0).text(),
                        },
                        plain,
                    ),
                ),
            )
        } else if inode.kind is Dir {
            (v, Err(metadata_failure(ctx, not_a_file(inode.inode_id), plain)))
        } else {
            let begun = v.begin_session(
                limits,
                opening_input(ctx, path, inode, layout, chain, mode),
                now_ms,
            );
            match begun.1 {
                Err(e) => (
                    begun.0,
                    Err(metadata_failure(ctx, opening_refusal(e, inode.inode_id), plain)),
                ),
                Ok(opening) => (begun.0, Ok(opening)),
            }
        },
    }
}

/// The value of what reading a layout returned.
pub open spec fn layout_read_view(layout: Result<FileLayout, MetadataError>) -> Result<
    FileLayout,
    MetadataErrorView,
> {
    match layout {
        Ok(l) => Ok(l),
        Err(e) => Err(e@),
    }
}

/// Begins the opening of a stored file. The command acquires the epoch that the opening
/// proposes.
pub fn begin_open(
    registry: &mut SessionRegistry,
    ctx: &RequestContext,
    authority: &Authority,
    path: String,
    inode: &Inode,
    layout: Result<FileLayout, MetadataError>,
    chain: Vec<InodeId>,
    mode: WriteMode,
    now_ms: u64,
) -> (r: Result<(WriteOpening, Command), FsFailure>)
    requires
        old(registry).wf(),
    ensures
        final(registry).wf(),
        final(registry).limits() == old(registry).limits(),
        ({
            let outcome = opening_begun(
                old(registry)@,
                old(registry).limits(),
                ctx@,
                authority@,
                path@,
                *inode,
                layout_read_view(layout),
                chain@,
                mode,
                now_ms,
            );
            &&& final(registry)@ == outcome.0
            &&& match r {
                Ok(o) => outcome.1 == Ok::<WriteOpening, FsFailureView>(o.0) && o.1 == (
                Command::AcquireWriteLease {
                    inode_id: inode.inode_id,
                    expected_lease_epoch: inode.kind->File_0.lease_epoch,
                }),
                Err(f) => outcome.1 == Err::<WriteOpening, FsFailureView>(f@),
            }
        }),
{
    let plain = authority.without_route();
    let layout = match layout {
        Ok(layout) => layout,
        Err(e) => return Err(fs_failure_from_metadata_error(ctx, &e, &plain)),
    };
    match validate_active_write_layout(&layout) {
        Ok(()) => {},
        Err(e) => return Err(fs_failure_from_metadata_error(ctx, &e, &plain)),
    }
    let base_epoch = match inode.file() {
        Ok(file) => file.lease_epoch,
        Err(e) => return Err(fs_failure_from_metadata_error(ctx, &e, &plain)),
    };
    let input = BeginSessionInput {
        normalized_path: path,
        mount_id: inode.mount_id,
        inode_id: inode.inode_id,
        current_lease_epoch: base_epoch,
        mode,
        open_client_id: ctx.caller.client.client_id,
        layout,
        ancestor_inode_ids: chain,
    };
    match registry.begin_session_at(input, now_ms) {
        Ok(opening) => Ok(
            (
                opening,
                Command::AcquireWriteLease {
                    inode_id: inode.inode_id,
                    expected_lease_epoch: base_epoch,
                },
            ),
        ),
        Err(e) => {
            let error = opening_refusal_error(e, inode.inode_id);
            Err(fs_failure_from_metadata_error(ctx, &error, &plain))
        },
    }
}

/// The success of the command that acquires the epoch of an opening.
pub open spec fn lease_acquired(opening: WriteOpening) -> ApplySuccess {
    ApplySuccess::WriteLeaseAcquired {
        inode_id: opening.inode_id,
        lease_epoch: opening.proposed_lease_epoch,
    }
}

/// Checks that the epoch of an opening was acquired. Otherwise the opening is released.
pub fn confirm_lease(
    registry: &mut SessionRegistry,
    ctx: &RequestContext,
    authority: &Authority,
    opening: WriteOpening,
    reply: RaftReply,
) -> (r: Result<(), FsFailure>)
    requires
        old(registry).wf(),
    ensures
        final(registry).wf(),
        final(registry).limits() == old(registry).limits(),
        match expected_reply("AcquireWriteLease"@, reply, lease_acquired(opening)) {
            Ok(()) => r is Ok && final(registry)@ == old(registry)@,
            Err(e) => {
                &&& r is Err
                &&& (r->Err_0)@ == metadata_failure(ctx@, e, authority@.without_route())
                &&& final(registry)@ == old(registry)@.cancel_opening(
                    opening.inode_id,
                    opening.opening_id,
                )
            },
        },
{
    let wanted = ApplySuccess::WriteLeaseAcquired {
        inode_id: opening.inode_id,
        lease_epoch: opening.proposed_lease_epoch,
    };
    match require_reply("AcquireWriteLease", reply, wanted) {
        Ok(()) => Ok(()),
        Err(e) => {
            opening.release(registry);
            let plain = authority.without_route();
            Err(fs_failure_from_metadata_error(ctx, &e, &plain))
        },
    }
}

/// The file that an opening sees once its epoch is in force, or why it sees none.
pub open spec fn opened_snapshot(
    ctx: RequestContextView,
    authority: AuthorityView,
    opening: WriteOpening,
    read: InodeRead,
) -> Result<FileData, FsFailureView> {
    let plain = authority.without_route();
    match read {
        Err(e) => Err(metadata_failure(ctx, e@, plain)),
        Ok(None) => Err(
            metadata_failure(
                ctx,
                MetadataErrorView {
                    code: MetadataErrorCode::NotFound,
                    text: "opened file disappeared"@,
                },
                plain,
            ),
        ),
        Ok(Some(inode)) => match inode.kind {
            InodeKind::Dir => Err(metadata_failure(ctx, not_a_file(inode.inode_id), plain)),
            InodeKind::File(file) => if file_error(file, opening.inode_id) is Some {
                Err(metadata_failure(ctx, file_error(file, opening.inode_id)->0, plain))
            } else if file.lease_epoch != opening.proposed_lease_epoch {
                Err(
                    terminal_failure(
                        ctx,
                        session_invalid(),
                        "opened writer was fenced"@,
                        authority,
                    ),
                )
            } else {
                Ok(file)
            },
        },
    }
}

fn snapshot_file(
    ctx: &RequestContext,
    authority: &Authority,
    opening: WriteOpening,
    read: InodeRead,
) -> (r: Result<FileData, FsFailure>)
    ensures
        match r {
            Ok(file) => opened_snapshot(ctx@, authority@, opening, read) == Ok::<
                FileData,
                FsFailureView,
            >(file),
            Err(f) => opened_snapshot(ctx@, authority@, opening, read) == Err::<
                FileData,
                FsFailureView,
            >(f@),
        },
{
    let plain = authority.without_route();
    match read {
        Err(e) => Err(fs_failure_from_metadata_error(ctx, &e, &plain)),
        Ok(None) => {
            let error = MetadataError::NotFound("opened file disappeared".to_owned());
            Err(fs_failure_from_metadata_error(ctx, &error, &plain))
        },
        Ok(Some(inode)) => match inode.kind {
            InodeKind::Dir => {
                let error = not_a_file_error(inode.inode_id);
                Err(fs_failure_from_metadata_error(ctx, &error, &plain))
            },
            InodeKind::File(file) => {
                match file.validate(opening.inode_id) {
                    Ok(()) => {},
                    Err(e) => return Err(fs_failure_from_metadata_error(ctx, &e, &plain)),
                }
                if file.lease_epoch != opening.proposed_lease_epoch {
                    return Err(
                        session_terminal_failure(
                            ctx,
                            ErrorKind::Metadata(MetadataErrorKind::SessionInvalid),
                            "opened writer was fenced".to_owned(),
                            authority,
                        ),
                    );
                }
                Ok(file)
            },
        },
    }
}

/// Takes the snapshot of the visible file, after the epoch of the opening was acquired.
/// Otherwise the opening is released.
pub fn take_snapshot(
    registry: &mut SessionRegistry,
    ctx: &RequestContext,
    authority: &Authority,
    opening: WriteOpening,
    read: InodeRead,
) -> (r: Result<FileData, FsFailure>)
    requires
        old(registry).wf(),
    ensures
        final(registry).wf(),
        final(registry).limits() == old(registry).limits(),
        match r {
            Ok(file) => final(registry)@ == old(registry)@ && opened_snapshot(
                ctx@,
                authority@,
                opening,
                read,
            ) == Ok::<FileData, FsFailureView>(file),
            Err(f) => final(registry)@ == old(registry)@.cancel_opening(
                opening.inode_id,
                opening.opening_id,
            ) && opened_snapshot(ctx@, authority@, opening, read) == Err::<
                FileData,
                FsFailureView,
            >(f@),
        },
{
    match snapshot_file(ctx, authority, opening, read) {
        Ok(file) => Ok(file),
        Err(f) => {
            opening.release(registry);
            Err(f)
        },
    }
}

/// Whether an opening takes the existing tail block: an append to a file whose last block
/// is not full.
pub open spec fn takes_tail(mode: WriteMode, file: FileData) -> bool {
    mode == WriteMode::Append && file.len as nat % file.layout.block_size as nat != 0
}

/// Returns whether an opening takes the existing tail block.
pub fn needs_tail(mode: WriteMode, file: &FileData) -> (r: bool)
    requires
        file.layout.block_size > 0,
    ensures
        r == takes_tail(mode, *file),
{
    match mode {
        WriteMode::Append => file.len % file.layout.block_size as u64 != 0,
        WriteMode::Overwrite => false,
    }
}

/// A consistent file that does not end at a block boundary has a tail block, which is
/// partly filled.
pub proof fn partial_files_have_a_tail(file: FileData, inode: InodeId)
    requires
        file_error(file, inode) is None,
        takes_tail(WriteMode::Append, file),
    ensures
        file.blocks@.len() > 0,
        ({
            let last = (file.blocks@.len() - 1) as nat;
            0 < block_len_of(file.len as nat, file.layout.block_size as nat, last)
                < file.layout.block_size
        }),
{
    let len = file.len as nat;
    let size = file.layout.block_size as nat;
    let last = (blocks_for(len, size) - 1) as nat;
    assert(blocks_for(len, size) > 0);
    blocks_cover_the_file(len, size, last);
    let q = len / size;
    assert(len == q * size + len % size) by (nonlinear_arith)
        requires
            q == len / size,
            size > 0,
    ;
    assert(len % size < size) by (nonlinear_arith)
        requires
            size > 0,
    ;
    assert(last == q);
    assert(last * size + block_len_of(len, size, last) == len);
}

/// Whether a request asks for a live worker that holds all visible bytes of the tail block.
pub open spec fn asks_for_tail(
    request: PlacementRequest,
    file: FileData,
    existing: Seq<ReportedBlockLocation>,
) -> bool {
    &&& request.op == PlacementOp::Read
    &&& request.block_id == file.blocks@.last()
    &&& request.visible_len == block_len_of(
        file.len as nat,
        file.layout.block_size as nat,
        (file.blocks@.len() - 1) as nat,
    )
    &&& request.layout == file.layout
    &&& request.caller is None
    &&& request.existing@ == existing
    &&& request.exclude_workers@.len() == 0
    &&& request.target_replicas == SUPPORTED_REPLICA_COUNT
}

/// Why a tail block cannot be looked up, if it cannot: no owner group is known, or no
/// workers are.
pub open spec fn tail_unknown(
    ctx: RequestContextView,
    authority: AuthorityView,
    has_workers: bool,
) -> Option<FsFailureView> {
    if authority.group_name is None {
        Some(metadata_failure(ctx, lookup_group_error("OpenWrite"@), authority))
    } else if !has_workers {
        Some(
            metadata_failure(
                ctx,
                MetadataErrorView {
                    code: MetadataErrorCode::ServiceUnavailable,
                    text: "Worker manager is unavailable"@,
                },
                authority.without_route(),
            ),
        )
    } else {
        None
    }
}

/// Asks for the placement of the tail block, or releases the opening. `existing` holds the
/// reported locations of that block.
pub fn request_tail(
    registry: &mut SessionRegistry,
    ctx: &RequestContext,
    authority: &Authority,
    opening: WriteOpening,
    file: &FileData,
    has_workers: bool,
    existing: Vec<ReportedBlockLocation>,
) -> (r: Result<PlacementRequest, FsFailure>)
    requires
        old(registry).wf(),
        file_error(*file, opening.inode_id) is None,
        file.blocks@.len() > 0,
    ensures
        final(registry).wf(),
        final(registry).limits() == old(registry).limits(),
        match tail_unknown(ctx@, authority@, has_workers) {
            Some(f) => {
                &&& r is Err
                &&& (r->Err_0)@ == f
                &&& final(registry)@ == old(registry)@.cancel_opening(
                    opening.inode_id,
                    opening.opening_id,
                )
            },
            None => {
                &&& final(registry)@ == old(registry)@
                &&& r is Ok
                &&& Some((r->Ok_0).group_name@) == authority@.group_name
                &&& asks_for_tail(r->Ok_0, *file, existing@)
            },
        },
{
    let group_name = match require_worker_lookup_group(ctx, authority, "OpenWrite") {
        Ok(group_name) => group_name,
        Err(f) => {
            opening.release(registry);
            return Err(f);
        },
    };
    if !has_workers {
        opening.release(registry);
        let error = MetadataError::ServiceUnavailable("Worker manager is unavailable".to_owned());
        let plain = authority.without_route();
        return Err(fs_failure_from_metadata_error(ctx, &error, &plain));
    }
    let ordinal: usize = file.blocks.len() - 1;
    Ok(
        PlacementRequest {
            group_name,
            op: PlacementOp::Read,
            block_id: file.blocks[ordinal],
            visible_len: file.block_len(ordinal),
            layout: file.layout,
            caller: None,
            existing,
            exclude_workers: Vec::new(),
            target_replicas: SUPPORTED_REPLICA_COUNT,
        },
    )
}

/// The tier of the first reported location of a worker process.
pub open spec fn reported_tier(
    existing: Seq<ReportedBlockLocation>,
    worker: WorkerId,
    run: WorkerRunId,
    from: int,
) -> Option<Tier>
    decreases existing.len() - from,
{
    if from < 0 || from >= existing.len() {
        None
    } else if existing[from].worker_id == worker && existing[from].worker_run_id == run {
        Some(existing[from].tier)
    } else {
        reported_tier(existing, worker, run, from + 1)
    }
}

fn find_reported_tier(
    existing: &Vec<ReportedBlockLocation>,
    worker: WorkerId,
    run: WorkerRunId,
) -> (r: Option<Tier>)
    ensures
        r == reported_tier(existing@, worker, run, 0),
{
    let mut i: usize = 0;
    while i < existing.len()
        invariant
            i <= existing@.len(),
            reported_tier(existing@, worker, run, 0) == reported_tier(
                existing@,
                worker,
                run,
                i as int,
            ),
        decreases existing.len() - i,
    {
        if existing[i].worker_id == worker && existing[i].worker_run_id == run {
            return Some(existing[i].tier);
        }
        i += 1;
    }
    None
}

/// The tail block on the workers that were chosen, or why there is none.
pub open spec fn tail_target(
    file: FileData,
    owner: ClientId,
    epoch: LeaseEpoch,
    existing: Seq<ReportedBlockLocation>,
    status: PlacementStatus,
    workers: Seq<PlannedWorkerView>,
) -> Result<LocatedBlockView, MetadataErrorView> {
    let last = (file.blocks@.len() - 1) as nat;
    let size = file.layout.block_size as nat;
    if status != PlacementStatus::Placed {
        Err(
            MetadataErrorView {
                code: MetadataErrorCode::ServiceUnavailable,
                text: placement_failure_text(status),
            },
        )
    } else if workers.len() == 0 || reported_tier(
        existing,
        workers[0].worker_id,
        workers[0].worker_run_id,
        0,
    ) is None {
        Err(
            MetadataErrorView {
                code: MetadataErrorCode::ServiceUnavailable,
                text: "tail placement has no tier"@,
            },
        )
    } else {
        match planned_endpoints(workers) {
            Err(e) => Err(e),
            Ok(worker_endpoints) => Ok(
                LocatedBlockView {
                    block_id: file.blocks@.last(),
                    file_offset: (last * size) as u64,
                    block_size: file.layout.block_size as u64,
                    worker_endpoints,
                    fencing_token: FencingToken { block_id: file.blocks@.last(), owner, epoch },
                    write_offset: block_len_of(file.len as nat, size, last) as u64,
                    chunk_size: DURABLE_PREFIX_STORAGE_CHUNK_SIZE,
                    block_format_id: file.layout.block_format_id,
                    tier: reported_tier(
                        existing,
                        workers[0].worker_id,
                        workers[0].worker_run_id,
                        0,
                    )->0,
                },
            ),
        }
    }
}

/// Locates the existing tail block on a live worker, without allocating a new block.
pub fn locate_append_tail(
    file: &FileData,
    inode: InodeId,
    owner: ClientId,
    epoch: LeaseEpoch,
    existing: &Vec<ReportedBlockLocation>,
    plan: &PlacementPlan,
) -> (r: Result<LocatedBlock, MetadataError>)
    requires
        file_error(*file, inode) is None,
        file.blocks@.len() > 0,
    ensures
        ({
            let located = tail_target(
                *file,
                owner,
                epoch,
                existing@,
                plan.status,
                planned_views(plan.workers@),
            );
            match r {
                Ok(t) => located == Ok::<LocatedBlockView, MetadataErrorView>(t@),
                Err(e) => located == Err::<LocatedBlockView, MetadataErrorView>(e@),
            }
        }),
{
    let ordinal: usize = file.blocks.len() - 1;
    let block_id = file.blocks[ordinal];
    let len: u64 = file.block_len(ordinal);
    if plan.status != PlacementStatus::Placed {
        return Err(MetadataError::ServiceUnavailable(plan.failure_message()));
    }
    let tier = if plan.workers.len() == 0 {
        None
    } else {
        find_reported_tier(existing, plan.workers[0].worker_id, plan.workers[0].worker_run_id)
    };
    let ghost views = planned_views(plan.workers@);
    assert(plan.workers@.len() > 0 ==> views[0] == plan.workers@[0]@);
    let tier = match tier {
        Some(tier) => tier,
        None => return Err(
            MetadataError::ServiceUnavailable("tail placement has no tier".to_owned()),
        ),
    };
    let worker_endpoints = match endpoints_of_plan(&plan.workers) {
        Ok(p) => p.0,
        Err(e) => return Err(e),
    };
    assert(ordinal * file.layout.block_size <= u64::MAX);
    Ok(
        LocatedBlock {
            block_id,
            file_offset: ordinal as u64 * file.layout.block_size as u64,
            block_size: file.layout.block_size as u64,
            worker_endpoints,
            fencing_token: FencingToken::new(block_id, owner, epoch),
            write_offset: len,
            chunk_size: DURABLE_PREFIX_STORAGE_CHUNK_SIZE,
            block_format_id: file.layout.block_format_id,
            tier,
        },
    )
}

/// Takes the tail block for an opening from the workers that were chosen, or releases the
/// opening.
pub fn take_tail(
    registry: &mut SessionRegistry,
    ctx: &RequestContext,
    authority: &Authority,
    opening: WriteOpening,
    file: &FileData,
    existing: &Vec<ReportedBlockLocation>,
    plan: &PlacementPlan,
) -> (r: Result<LocatedBlock, FsFailure>)
    requires
        old(registry).wf(),
        file_error(*file, opening.inode_id) is None,
        file.blocks@.len() > 0,
    ensures
        final(registry).wf(),
        final(registry).limits() == old(registry).limits(),
        ({
            let located = tail_target(
                *file,
                ctx@.caller.client.client_id,
                opening.proposed_lease_epoch,
                existing@,
                plan.status,
                planned_views(plan.workers@),
            );
            match r {
                Ok(t) => {
                    &&& located == Ok::<LocatedBlockView, MetadataErrorView>(t@)
                    &&& final(registry)@ == old(registry)@
                },
                Err(f) => {
                    &&& located is Err
                    &&& f@ == metadata_failure(
                        ctx@,
                        located->Err_0,
                        authority@.without_route(),
                    )
                    &&& final(registry)@ == old(registry)@.cancel_opening(
                        opening.inode_id,
                        opening.opening_id,
                    )
                },
            }
        }),
{
    match locate_append_tail(
        file,
        opening.inode_id,
        ctx.caller.client.client_id,
        opening.proposed_lease_epoch,
        existing,
        plan,
    ) {
        Ok(target) => Ok(target),
        Err(e) => {
            opening.release(registry);
            let plain = authority.without_route();
            Err(fs_failure_from_metadata_error(ctx, &e, &plain))
        },
    }
}

/// What the client of an opened session is told.
#[derive(Debug)]
pub struct OpenWriteOutput {
    pub inode_id: InodeId,
    pub lease_epoch: LeaseEpoch,
    pub layout: FileLayout,
    pub base_size: u64,
    pub expires_at_ms: u64,
    pub generation: ContentGeneration,
    pub tail_block: Option<LocatedBlock>,
}

/// The value of an `OpenWriteOutput`.
pub struct OpenWriteOutputView {
    pub inode_id: InodeId,
    pub lease_epoch: LeaseEpoch,
    pub layout: FileLayout,
    pub base_size: u64,
    pub expires_at_ms: u64,
    pub generation: ContentGeneration,
    pub tail_block: Option<LocatedBlockView>,
}

impl View for OpenWriteOutput {
    type V = OpenWriteOutputView;

    open spec fn view(&self) -> OpenWriteOutputView {
        OpenWriteOutputView {
            inode_id: self.inode_id,
            lease_epoch: self.lease_epoch,
            layout: self.layout,
            base_size: self.base_size,
            expires_at_ms: self.expires_at_ms,
            generation: self.generation,
            tail_block: optional_target_view(self.tail_block),
        }
    }
}

/// What the client of a session is told. The first target is told only where it is an
/// existing tail.
pub open spec fn open_output(s: WriteSessionView) -> OpenWriteOutputView {
    OpenWriteOutputView {
        inode_id: s.inode_id,
        lease_epoch: s.lease_epoch,
        layout: s.layout,
        base_size: s.base_size,
        expires_at_ms: s.expires_at_ms,
        generation: s.generation,
        tail_block: if s.issued_targets.len() > 0 && s.issued_targets[0].write_offset > 0 {
            Some(s.issued_targets[0])
        } else {
            None
        },
    }
}

/// Returns what the client of a session is told.
pub fn open_write_output(session: &WriteSession) -> (r: OpenWriteOutput)
    ensures
        r@ == open_output(session@),
{
    let ghost views = located_views(session.issued_targets@);
    let tail_block = if session.issued_targets.len() > 0 {
        assert(views[0] == session.issued_targets@[0]@);
        if session.issued_targets[0].write_offset > 0 {
            Some(session.issued_targets[0].clone())
        } else {
            None
        }
    } else {
        None
    };
    OpenWriteOutput {
        inode_id: session.inode_id,
        lease_epoch: session.lease_epoch,
        layout: session.layout,
        base_size: session.base_size,
        expires_at_ms: session.expires_at_ms,
        generation: session.generation,
        tail_block,
    }
}

/// What refuses an opening whose session could not be installed.
pub open spec fn activation_refusal(
    ctx: RequestContextView,
    authority: AuthorityView,
    inode: InodeId,
    error: WriteOpeningError,
) -> FsFailureView {
    match error {
        WriteOpeningError::TargetLimit => metadata_failure(
            ctx,
            MetadataErrorView {
                code: MetadataErrorCode::GlobalWriteTargetLimitExceeded,
                text: "opening a tail exceeds the target limit"@,
            },
            authority.without_route(),
        ),
        WriteOpeningError::Expired | WriteOpeningError::NotCurrent => terminal_failure(
            ctx,
            session_expired(),
            "write opening expired before activation for inode_id="@ + decimal(inode.0 as nat),
            authority,
        ),
        WriteOpeningError::LeaseEpochMismatch { expected, got } => metadata_failure(
            ctx,
            MetadataErrorView {
                code: MetadataErrorCode::Internal,
                text: "write opening epoch mismatch after Raft apply for inode_id="@ + decimal(
                    inode.0 as nat,
                ) + ": expected "@ + decimal(expected.0 as nat) + ", got "@ + decimal(
                    got.0 as nat,
                ),
            },
            authority.without_route(),
        ),
    }
}

fn activation_failure(
    ctx: &RequestContext,
    authority: &Authority,
    inode: InodeId,
    error: WriteOpeningError,
) -> (r: FsFailure)
    ensures
        r@ == activation_refusal(ctx@, authority@, inode, error),
{
    let plain = authority.without_route();
    let inode_text = inode.to_text();
    match error {
        WriteOpeningError::TargetLimit => {
            let error = MetadataError::GlobalWriteTargetLimitExceeded(
                "opening a tail exceeds the target limit".to_owned(),
            );
            fs_failure_from_metadata_error(ctx, &error, &plain)
        },
        WriteOpeningError::LeaseEpochMismatch { expected, got } => {
            let expected_text = decimal_text(expected.0 as u128);
            let got_text = decimal_text(got.0 as u128);
            let mut out = join(
                "write opening epoch mismatch after Raft apply for inode_id=",
                inode_text.as_str(),
            );
            out.append(": expected ");
            out.append(expected_text.as_str());
            out.append(", got ");
            out.append(got_text.as_str());
            fs_failure_from_metadata_error(ctx, &MetadataError::Internal(out), &plain)
        },
        _ => session_terminal_failure(
            ctx,
            ErrorKind::Metadata(MetadataErrorKind::SessionExpired),
            join(
                "write opening expired before activation for inode_id=",
                inode_text.as_str(),
            ),
            authority,
        ),
    }
}

/// What finishing an opening does and answers.
pub open spec fn opening_finished(
    v: RegistryView,
    limits: RegistryLimits,
    ctx: RequestContextView,
    authority: AuthorityView,
    opening: WriteOpening,
    file: FileData,
    tail: Option<LocatedBlockView>,
    now_ms: u64,
) -> (RegistryView, Result<OpenWriteOutputView, FsFailureView>) {
    let activated = opening.activated(
        v,
        limits,
        opening.proposed_lease_epoch,
        now_ms,
        file,
        tail,
    );
    match activated.1 {
        Ok(s) => (activated.0, Ok(open_output(s))),
        Err(e) => (
            activated.0,
            Err(activation_refusal(ctx, authority, opening.inode_id, e)),
        ),
    }
}

/// Finishes an opening: its epoch is in force, `file` is the visible file and `tail` its
/// existing tail block where the opening takes it.
pub fn finish_open(
    registry: &mut SessionRegistry,
    ctx: &RequestContext,
    authority: &Authority,
    opening: WriteOpening,
    file: &FileData,
    tail: Option<LocatedBlock>,
    now_ms: u64,
) -> (r: Result<OpenWriteOutput, FsFailure>)
    requires
        old(registry).wf(),
    ensures
        final(registry).wf(),
        final(registry).limits() == old(registry).limits(),
        ({
            let outcome = opening_finished(
                old(registry)@,
                old(registry).limits(),
                ctx@,
                authority@,
                opening,
                *file,
                optional_target_view(tail),
                now_ms,
            );
            &&& final(registry)@ == outcome.0
            &&& match r {
                Ok(o) => outcome.1 == Ok::<OpenWriteOutputView, FsFailureView>(o@),
                Err(f) => outcome.1 == Err::<OpenWriteOutputView, FsFailureView>(f@),
            }
        }),
{
    match opening.activate(registry, opening.proposed_lease_epoch, file, tail, now_ms) {
        Ok(session) => Ok(open_write_output(&session)),
        Err(e) => Err(activation_failure(ctx, authority, opening.inode_id, e)),
    }
}

/// Whether an opening may end so after its command returned: its epoch must be in force, the
/// visible file is taken from then, and the tail block of an append from the best worker
/// that holds it.
pub open spec fn open_settled(
    v: RegistryView,
    limits: RegistryLimits,
    ctx: RequestContextView,
    authority: AuthorityView,
    opening: WriteOpening,
    mode: WriteMode,
    reply: RaftReply,
    read: InodeRead,
    existing: Seq<ReportedBlockLocation>,
    workers: Option<Seq<WorkerPlacementView>>,
    now_ms: u64,
    outcome: (RegistryView, Result<OpenWriteOutputView, FsFailureView>),
) -> bool {
    let plain = authority.without_route();
    let released = v.cancel_opening(opening.inode_id, opening.opening_id);
    let acquired = expected_reply("AcquireWriteLease"@, reply, lease_acquired(opening));
    let snapshot = opened_snapshot(ctx, authority, opening, read);
    if acquired is Err {
        outcome == (
            released,
            Err::<OpenWriteOutputView, FsFailureView>(
                metadata_failure(ctx, acquired->Err_0, plain),
            ),
        )
    } else if snapshot is Err {
        outcome == (released, Err::<OpenWriteOutputView, FsFailureView>(snapshot->Err_0))
    } else if !takes_tail(mode, snapshot->Ok_0) {
        outcome == opening_finished(
            v,
            limits,
            ctx,
            authority,
            opening,
            snapshot->Ok_0,
            None,
            now_ms,
        )
    } else if tail_unknown(ctx, authority, workers is Some) is Some {
        outcome == (
            released,
            Err::<OpenWriteOutputView, FsFailureView>(
                tail_unknown(ctx, authority, workers is Some)->0,
            ),
        )
    } else {
        exists|req: PlacementRequest, planned: Seq<PlannedWorkerView>|
            {
                &&& Some(req.group_name@) == authority.group_name
                &&& asks_for_tail(req, snapshot->Ok_0, existing)
                &&& #[trigger] is_plan(req, workers->0, planned)
                &&& match tail_target(
                    snapshot->Ok_0,
                    ctx.caller.client.client_id,
                    opening.proposed_lease_epoch,
                    existing,
                    placement_status(req, workers->0),
                    planned,
                ) {
                    Err(e) => outcome == (
                        released,
                        Err::<OpenWriteOutputView, FsFailureView>(
                            metadata_failure(ctx, e, plain),
                        ),
                    ),
                    Ok(tail) => outcome == opening_finished(
                        v,
                        limits,
                        ctx,
                        authority,
                        opening,
                        snapshot->Ok_0,
                        Some(tail),
                        now_ms,
                    ),
                }
            }
    }
}

/// The value of what a session registry and an opening came to.
pub open spec fn open_outcome(
    v: RegistryView,
    r: Result<OpenWriteOutput, FsFailure>,
) -> (RegistryView, Result<OpenWriteOutputView, FsFailureView>) {
    (
        v,
        match r {
            Ok(o) => Ok(o@),
            Err(f) => Err(f@),
        },
    )
}

/// Ends an opening with what its command returned. `read` is to be taken after that,
/// `existing` holds the reported locations of the file's last block, and `workers` are those
/// of the owner group, where workers are known at all.
pub fn settle_open(
    registry: &mut SessionRegistry,
    ctx: &RequestContext,
    authority: &Authority,
    opening: WriteOpening,
    mode: WriteMode,
    reply: RaftReply,
    read: InodeRead,
    existing: Vec<ReportedBlockLocation>,
    workers: &Option<Vec<WorkerPlacementView>>,
    now_ms: u64,
) -> (r: Result<OpenWriteOutput, FsFailure>)
    requires
        old(registry).wf(),
    ensures
        final(registry).wf(),
        final(registry).limits() == old(registry).limits(),
        open_settled(
            old(registry)@,
            old(registry).limits(),
            ctx@,
            authority@,
            opening,
            mode,
            reply,
            read,
            existing@,
            known_workers(*workers),
            now_ms,
            open_outcome(final(registry)@, r),
        ),
{
    match confirm_lease(registry, ctx, authority, opening, reply) {
        Ok(()) => {},
        Err(f) => return Err(f),
    }
    let file = match take_snapshot(registry, ctx, authority, opening, read) {
        Ok(file) => file,
        Err(f) => return Err(f),
    };
    if !needs_tail(mode, &file) {
        return finish_open(registry, ctx, authority, opening, &file, None, now_ms);
    }
    proof {
        partial_files_have_a_tail(file, opening.inode_id);
    }
    let request = match request_tail(
        registry,
        ctx,
        authority,
        opening,
        &file,
        workers.is_some(),
        existing,
    ) {
        Ok(request) => request,
        Err(f) => return Err(f),
    };
    let plan = PlacementPlanner.plan(&request, workers.as_ref().unwrap());
    let tail = match take_tail(
        registry,
        ctx,
        authority,
        opening,
        &file,
        &request.existing,
        &plan,
    ) {
        Ok(tail) => tail,
        Err(f) => return Err(f),
    };
    finish_open(registry, ctx, authority, opening, &file, Some(tail), now_ms)
}

/// An opening that fails leaves nothing behind: it is not in the registry any more.
pub proof fn a_failed_opening_leaves_nothing_behind(
    v: RegistryView,
    limits: RegistryLimits,
    ctx: RequestContextView,
    authority: AuthorityView,
    opening: WriteOpening,
    mode: WriteMode,
    reply: RaftReply,
    read: InodeRead,
    existing: Seq<ReportedBlockLocation>,
    workers: Option<Seq<WorkerPlacementView>>,
    now_ms: u64,
    outcome: (RegistryView, Result<OpenWriteOutputView, FsFailureView>),
)
    requires
        open_settled(
            v,
            limits,
            ctx,
            authority,
            opening,
            mode,
            reply,
            read,
            existing,
            workers,
            now_ms,
            outcome,
        ),
        outcome.1 is Err,
    ensures
        !outcome.0.is_current_opening(opening.inode_id, opening.opening_id),
{
}

/// An opening that succeeds tells the file as it is stored under the epoch that was
/// acquired, and its session has that epoch.
pub proof fn an_opened_session_has_the_acquired_epoch(
    v: RegistryView,
    limits: RegistryLimits,
    ctx: RequestContextView,
    authority: AuthorityView,
    opening: WriteOpening,
    mode: WriteMode,
    reply: RaftReply,
    read: InodeRead,
    existing: Seq<ReportedBlockLocation>,
    workers: Option<Seq<WorkerPlacementView>>,
    now_ms: u64,
    outcome: (RegistryView, Result<OpenWriteOutputView, FsFailureView>),
)
    requires
        open_settled(
            v,
            limits,
            ctx,
            authority,
            opening,
            mode,
            reply,
            read,
            existing,
            workers,
            now_ms,
            outcome,
        ),
        outcome.1 is Ok,
    ensures
        reply == Ok::<ApplySuccess, MetadataError>(lease_acquired(opening)),
        ({
            let told = outcome.1->Ok_0;
            let file = (read->Ok_0->0).kind->File_0;
            let session = outcome.0.find_session(opening.inode_id);
            &&& session is Some
            &&& (session->0).lease_epoch == opening.proposed_lease_epoch
            &&& file.lease_epoch == opening.proposed_lease_epoch
            &&& told.lease_epoch == opening.proposed_lease_epoch
            &&& told.base_size == file.len
            &&& told.generation == file.generation
            &&& (session->0).base_size == file.len
            &&& (session->0).generation == file.generation
        }),
{
}

/// Whether a path still leads to the opened inode as it did when it was resolved.
pub open spec fn same_topology(
    before: ResolvedPath,
    current: Option<ResolvedPath>,
    inode: InodeId,
) -> bool {
    match current {
        None => false,
        Some(now) => {
            &&& now.mount_ctx@ == before.mount_ctx@
            &&& now.inode_id == Some(inode)
            &&& now.ancestor_inode_ids@ == before.ancestor_inode_ids@
        },
    }
}

fn same_chain(a: &Vec<InodeId>, b: &Vec<InodeId>) -> (r: bool)
    ensures
        r == (a@ == b@),
{
    if a.len() != b.len() {
        return false;
    }
    let mut i: usize = 0;
    while i < a.len()
        invariant
            a@.len() == b@.len(),
            i <= a@.len(),
            forall|k: int| 0 <= k < i ==> #[trigger] a@[k] == b@[k],
        decreases a.len() - i,
    {
        if a[i] != b[i] {
            assert(a@[i as int] != b@[i as int]);
            return false;
        }
        i += 1;
    }
    assert(a@ =~= b@);
    true
}

/// Returns whether a path still leads to the opened inode as it did when it was resolved.
pub fn is_same_topology(
    before: &ResolvedPath,
    current: &Option<ResolvedPath>,
    inode: InodeId,
) -> (r: bool)
    ensures
        r == same_topology(*before, *current, inode),
{
    match current {
        None => false,
        Some(now) => {
            let same_inode = match now.inode_id {
                Some(id) => id == inode,
                None => false,
            };
            now.mount_ctx.mount_id == before.mount_ctx.mount_id && now.mount_ctx.mount_epoch
                == before.mount_ctx.mount_epoch && now.mount_ctx.owner_group_name.same(
                &before.mount_ctx.owner_group_name,
            ) && now.mount_ctx.root_inode_id == before.mount_ctx.root_inode_id && same_inode
                && same_chain(&now.ancestor_inode_ids, &before.ancestor_inode_ids)
        },
    }
}

/// Looks at the path once more before the session is shown to its client. Where the path
/// has changed, only the session with the opened epoch goes.
pub fn confirm_topology(
    registry: &mut SessionRegistry,
    ctx: &RequestContext,
    authority: &Authority,
    before: &ResolvedPath,
    current: &Option<ResolvedPath>,
    opened: &OpenWriteOutput,
) -> (r: Result<(), FsFailure>)
    requires
        old(registry).wf(),
    ensures
        final(registry).wf(),
        final(registry).limits() == old(registry).limits(),
        if same_topology(*before, *current, opened.inode_id) {
            r is Ok && final(registry)@ == old(registry)@
        } else {
            &&& r is Err
            &&& (r->Err_0)@ == metadata_failure(
                ctx@,
                MetadataErrorView {
                    code: MetadataErrorCode::Again,
                    text: "namespace topology changed during OpenWrite"@,
                },
                authority@.without_route(),
            )
            &&& final(registry)@ == old(registry)@.remove_session_if_epoch(
                opened.inode_id,
                opened.lease_epoch,
            ).0
        },
{
    if is_same_topology(before, current, opened.inode_id) {
        return Ok(());
    }
    registry.remove_session_if_epoch(opened.inode_id, opened.lease_epoch);
    let error = MetadataError::Again("namespace topology changed during OpenWrite".to_owned());
    let plain = authority.without_route();
    Err(fs_failure_from_metadata_error(ctx, &error, &plain))
}

// ---- stream authorization ----

/// What a worker asks before it accepts a write stream.
#[derive(Debug)]
pub struct AuthorizeBlockWriteArgs {
    pub group_name: GroupName,
    pub worker_id: WorkerId,
    pub worker_run_id: WorkerRunId,
    pub fencing_token: FencingToken,
    pub write_offset: u64,
    pub shape: BlockShape,
    pub tier: Tier,
}

/// The error for a writer that is not authorized.
pub open spec fn unauthorized() -> MetadataErrorView {
    MetadataErrorView {
        code: MetadataErrorCode::PermissionDenied,
        text: "block writer is no longer authorized"@,
    }
}

fn unauthorized_error() -> (r: MetadataError)
    ensures
        r@ == unauthorized(),
{
    MetadataError::PermissionDenied("block writer is no longer authorized".to_owned())
}

/// The first target of a block, among those from `from` on.
pub open spec fn target_of_block(targets: Seq<LocatedBlockView>, id: BlockId, from: int) -> Option<
    int,
>
    decreases targets.len() - from,
{
    if from < 0 || from >= targets.len() {
        None
    } else if targets[from].block_id == id {
        Some(from)
    } else {
        target_of_block(targets, id, from + 1)
    }
}

/// The target that is found is the first one of the block; none is found where the block has
/// none.
pub proof fn the_first_target_is_found(targets: Seq<LocatedBlockView>, id: BlockId, from: int)
    requires
        0 <= from <= targets.len(),
    ensures
        match target_of_block(targets, id, from) {
            Some(i) => {
                &&& from <= i < targets.len()
                &&& targets[i].block_id == id
                &&& forall|k: int| from <= k < i ==> (#[trigger] targets[k]).block_id != id
            },
            None => forall|k: int|
                from <= k < targets.len() ==> (#[trigger] targets[k]).block_id != id,
        },
    decreases targets.len() - from,
{
    if from < targets.len() && targets[from].block_id != id {
        the_first_target_is_found(targets, id, from + 1);
    }
}

/// Returns the position of the first target of a block.
pub fn find_target(targets: &Vec<LocatedBlock>, id: BlockId) -> (r: Option<usize>)
    ensures
        match r {
            Some(i) => i < targets@.len() && target_of_block(located_views(targets@), id, 0)
                == Some(i as int),
            None => target_of_block(located_views(targets@), id, 0) is None,
        },
{
    let ghost views = located_views(targets@);
    let mut i: usize = 0;
    while i < targets.len()
        invariant
            views == located_views(targets@),
            i <= targets@.len(),
            target_of_block(views, id, 0) == target_of_block(views, id, i as int),
        decreases targets.len() - i,
    {
        assert(views[i as int] == targets@[i as int]@);
        if targets[i].block_id == id {
            return Some(i);
        }
        i += 1;
    }
    None
}

/// Whether a stream matches the target that was issued for its block: token, shape, tier,
/// an offset that the target leaves to the writer, and one of its worker processes.
pub open spec fn matches_target(args: AuthorizeBlockWriteArgs, target: LocatedBlockView) -> bool {
    &&& target.fencing_token == args.fencing_token
    &&& target.block_size == args.shape.block_size
    &&& target.block_format_id == args.shape.block_format_id
    &&& target.chunk_size == args.shape.chunk_size
    &&& target.tier == args.tier
    &&& target.write_offset <= args.write_offset < target.block_size
    &&& exists|i: int|
        0 <= i < target.worker_endpoints.len() && (
        #[trigger] target.worker_endpoints[i]).worker_id == args.worker_id
            && target.worker_endpoints[i].worker_run_id == args.worker_run_id
}

/// Whether the worker process of a stream is alive.
pub open spec fn is_live_process(
    args: AuthorizeBlockWriteArgs,
    workers: Seq<WorkerPlacementView>,
) -> bool {
    exists|i: int|
        0 <= i < workers.len() && (#[trigger] workers[i]).worker_id == args.worker_id
            && workers[i].worker_run_id == Some(args.worker_run_id) && workers[i].lease_valid
}

fn matches_issued(args: &AuthorizeBlockWriteArgs, target: &LocatedBlock) -> (r: bool)
    ensures
        r == matches_target(*args, target@),
{
    if target.fencing_token != args.fencing_token || target.block_size != args.shape.block_size
        || target.block_format_id != args.shape.block_format_id || target.chunk_size
        != args.shape.chunk_size || target.tier != args.tier || args.write_offset
        < target.write_offset || args.write_offset >= target.block_size {
        return false;
    }
    let ghost views = endpoint_views(target.worker_endpoints@);
    let mut i: usize = 0;
    while i < target.worker_endpoints.len()
        invariant
            views == endpoint_views(target.worker_endpoints@),
            target.fencing_token == args.fencing_token,
            target.block_size == args.shape.block_size,
            target.block_format_id == args.shape.block_format_id,
            target.chunk_size == args.shape.chunk_size,
            target.tier == args.tier,
            target.write_offset <= args.write_offset < target.block_size,
            i <= target.worker_endpoints@.len(),
            forall|k: int|
                0 <= k < i ==> !((#[trigger] views[k]).worker_id == args.worker_id
                    && views[k].worker_run_id == args.worker_run_id),
        decreases target.worker_endpoints.len() - i,
    {
        assert(views[i as int] == target.worker_endpoints@[i as int]@);
        if target.worker_endpoints[i].worker_id == args.worker_id
            && target.worker_endpoints[i].worker_run_id == args.worker_run_id {
            return true;
        }
        i += 1;
    }
    false
}

fn process_is_live(args: &AuthorizeBlockWriteArgs, workers: &Vec<WorkerPlacementView>) -> (r: bool)
    ensures
        r == is_live_process(*args, workers@),
{
    let mut i: usize = 0;
    while i < workers.len()
        invariant
            i <= workers@.len(),
            forall|k: int|
                0 <= k < i ==> !((#[trigger] workers@[k]).worker_id == args.worker_id
                    && workers@[k].worker_run_id == Some(args.worker_run_id)
                    && workers@[k].lease_valid),
        decreases workers.len() - i,
    {
        let worker = &workers[i];
        let same_run = match worker.worker_run_id {
            Some(run) => run == args.worker_run_id,
            None => false,
        };
        if worker.worker_id == args.worker_id && same_run && worker.lease_valid {
            assert(workers@[i as int].worker_id == args.worker_id);
            return true;
        }
        i += 1;
    }
    false
}

/// What looking a mount up returned.
pub type MountRead = Result<Option<MountEntry>, MetadataError>;

/// How many bytes of the block are visible, where the stream is authorized by the durable
/// file and the session's issued targets.
pub open spec fn stream_authorization(
    session: WriteSessionView,
    caller_group: Option<Seq<char>>,
    args: AuthorizeBlockWriteArgs,
    inode_read: InodeRead,
    mount_read: MountRead,
    workers: Option<Seq<WorkerPlacementView>>,
) -> Result<u64, MetadataErrorView> {
    let block = args.fencing_token.block_id;
    match inode_read {
        Err(e) => Err(e@),
        Ok(None) => Err(unauthorized()),
        Ok(Some(inode)) => match mount_read {
            Err(e) => Err(e@),
            Ok(None) => Err(unauthorized()),
            Ok(Some(mount)) => if mount.namespace_owner_group_name@ != args.group_name@
                || caller_group != Some(args.group_name@) {
                Err(unauthorized())
            } else {
                match inode.kind {
                    InodeKind::Dir => Err(not_a_file(inode.inode_id)),
                    InodeKind::File(file) => if file_error(file, block.inode_id) is Some {
                        Err(file_error(file, block.inode_id)->0)
                    } else if file.lease_epoch != session.lease_epoch {
                        Err(unauthorized())
                    } else {
                        let at = target_of_block(session.issued_targets, block, 0);
                        let ordinal = block_ordinal(file.blocks@, block, 0);
                        let visible = if ordinal is Some {
                            block_len_of(
                                file.len as nat,
                                file.layout.block_size as nat,
                                ordinal->0 as nat,
                            )
                        } else {
                            0
                        };
                        if at is None || !matches_target(args, session.issued_targets[at->0])
                            || workers is None || !is_live_process(args, workers->0) || visible
                            > args.write_offset {
                            Err(unauthorized())
                        } else {
                            Ok(visible as u64)
                        }
                    },
                }
            },
        },
    }
}

fn authorize_stream(
    session: &WriteSession,
    caller_group: &Option<GroupName>,
    args: &AuthorizeBlockWriteArgs,
    inode_read: InodeRead,
    mount_read: MountRead,
    workers: &Option<Vec<WorkerPlacementView>>,
) -> (r: Result<u64, MetadataError>)
    ensures
        ({
            let authorized = stream_authorization(
                session@,
                optional_group(*caller_group),
                *args,
                inode_read,
                mount_read,
                known_workers(*workers),
            );
            match r {
                Ok(n) => authorized == Ok::<u64, MetadataErrorView>(n),
                Err(e) => authorized == Err::<u64, MetadataErrorView>(e@),
            }
        }),
{
    let block = args.fencing_token.block_id;
    let inode = match inode_read {
        Err(e) => return Err(e),
        Ok(None) => return Err(unauthorized_error()),
        Ok(Some(inode)) => inode,
    };
    let mount = match mount_read {
        Err(e) => return Err(e),
        Ok(None) => return Err(unauthorized_error()),
        Ok(Some(mount)) => mount,
    };
    let same_caller_group = match caller_group {
        Some(g) => g.same(&args.group_name),
        None => false,
    };
    if !mount.namespace_owner_group_name.same(&args.group_name) || !same_caller_group {
        return Err(unauthorized_error());
    }
    let file = match inode.file() {
        Ok(file) => file,
        Err(e) => return Err(e),
    };
    match file.validate(block.inode_id) {
        Ok(()) => {},
        Err(e) => return Err(e),
    }
    if file.lease_epoch != session.lease_epoch {
        return Err(unauthorized_error());
    }
    let at = match find_target(&session.issued_targets, block) {
        Some(at) => at,
        None => return Err(unauthorized_error()),
    };
    assert(session@.issued_targets[at as int] == session.issued_targets@[at as int]@);
    if !matches_issued(args, &session.issued_targets[at]) {
        return Err(unauthorized_error());
    }
    match workers {
        None => return Err(unauthorized_error()),
        Some(workers) => {
            if !process_is_live(args, workers) {
                return Err(unauthorized_error());
            }
        },
    }
    let visible: u64 = match find_block(&file.blocks, block) {
        Some(ordinal) => file.block_len(ordinal),
        None => 0,
    };
    if visible > args.write_offset {
        return Err(unauthorized_error());
    }
    Ok(visible)
}

/// What authorizing a stream does and answers. The session must be live and belong to the
/// token's owner and epoch; the rest is up to the durable file and the issued targets.
pub open spec fn write_authorized(
    v: RegistryView,
    caller_group: Option<Seq<char>>,
    args: AuthorizeBlockWriteArgs,
    inode_read: InodeRead,
    mount_read: MountRead,
    workers: Option<Seq<WorkerPlacementView>>,
    now_ms: u64,
) -> (RegistryView, Result<u64, MetadataErrorView>) {
    let inode = args.fencing_token.block_id.inode_id;
    let t = v.tidied(inode.0, now_ms);
    match t.find_session(inode) {
        None => (t, Err(unauthorized())),
        Some(session) => {
            let checked = t.validate_session(inode, args.fencing_token.epoch, now_ms);
            if checked.1 is Err || session.open_client_id != args.fencing_token.owner
                || session.lease_epoch != args.fencing_token.epoch {
                (checked.0, Err(unauthorized()))
            } else {
                (
                    checked.0,
                    stream_authorization(
                        session,
                        caller_group,
                        args,
                        inode_read,
                        mount_read,
                        workers,
                    ),
                )
            }
        },
    }
}

/// Authorizes a write stream. Returns how many bytes of its block are visible. The reads
/// are to be taken from the leader's applied state.
pub fn authorize_block_write(
    registry: &mut SessionRegistry,
    caller_group: &Option<GroupName>,
    args: &AuthorizeBlockWriteArgs,
    inode_read: InodeRead,
    mount_read: MountRead,
    workers: &Option<Vec<WorkerPlacementView>>,
    now_ms: u64,
) -> (r: Result<u64, MetadataError>)
    requires
        old(registry).wf(),
    ensures
        final(registry).wf(),
        final(registry).limits() == old(registry).limits(),
        ({
            let outcome = write_authorized(
                old(registry)@,
                optional_group(*caller_group),
                *args,
                inode_read,
                mount_read,
                known_workers(*workers),
                now_ms,
            );
            &&& final(registry)@ == outcome.0
            &&& match r {
                Ok(n) => outcome.1 == Ok::<u64, MetadataErrorView>(n),
                Err(e) => outcome.1 == Err::<u64, MetadataErrorView>(e@),
            }
        }),
{
    let inode = args.fencing_token.block_id.inode_id;
    let session = match registry.get_session(inode, now_ms) {
        Some(session) => session,
        None => return Err(unauthorized_error()),
    };
    if registry.validate_session(inode, args.fencing_token.epoch, now_ms).is_err() {
        return Err(unauthorized_error());
    }
    if session.open_client_id != args.fencing_token.owner || session.lease_epoch
        != args.fencing_token.epoch {
        return Err(unauthorized_error());
    }
    authorize_stream(&session, caller_group, args, inode_read, mount_read, workers)
}

/// A stream is authorized only for the live session with the durable epoch, for a block
/// that was issued to its client, and never over bytes that are already visible.
pub proof fn authorized_streams_write_behind_the_visible_end(
    v: RegistryView,
    caller_group: Option<Seq<char>>,
    args: AuthorizeBlockWriteArgs,
    inode_read: InodeRead,
    mount_read: MountRead,
    workers: Option<Seq<WorkerPlacementView>>,
    now_ms: u64,
)
    requires
        write_authorized(
            v,
            caller_group,
            args,
            inode_read,
            mount_read,
            workers,
            now_ms,
        ).1 is Ok,
    ensures
        ({
            let inode = args.fencing_token.block_id.inode_id;
            let session = v.tidied(inode.0, now_ms).find_session(inode);
            let visible = write_authorized(
                v,
                caller_group,
                args,
                inode_read,
                mount_read,
                workers,
                now_ms,
            ).1->Ok_0;
            &&& session is Some
            &&& (session->0).open_client_id == args.fencing_token.owner
            &&& (session->0).lease_epoch == args.fencing_token.epoch
            &&& inode_read matches Ok(Some(stored))
            &&& (inode_read->Ok_0->0).kind->File_0.lease_epoch == args.fencing_token.epoch
            &&& visible <= args.write_offset
        }),
{
}

} // verus!
