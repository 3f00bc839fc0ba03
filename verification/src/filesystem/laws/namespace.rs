//! What creating, renaming and deleting promise.

use vstd::prelude::*;

use crate::config::MAX_PATH_COMPONENTS;
use crate::error::MetadataError;
use crate::filesystem::command::{ApplySuccess, Command, InodeRead, RaftReply, RoutedFsWriteCtx};
use crate::filesystem::context::{
    metadata_failure, Authority, AuthorityView, FsFailure, FsSuccess, MountContext, RequestContext,
    RequestContextView, ResolvedPath,
};
use crate::filesystem::namespace::{
    admit_delete, admit_rename, begin_create, check_rename_parents, create_activation_refusal,
    create_refusal, decode_delete, decode_directory, decode_rename, execute_rename, finish_create,
    plan_create_directory, plan_create_directory_recursive, plan_create_parent, plan_delete_target,
    plan_rename, require_create_deadline, route_create, routed_result, CreateDirectoryOutput,
    CreateStep, CreatedFileOutput, DentryRead, DirectoryReply, RenameReads,
};
use crate::fs::WriteMode;
use crate::group_watermark::RaftLogId;
use crate::ids::InodeId;
use crate::layout::{layout_error, FileLayout};
use crate::rpc_error::{ErrorKind, InternalErrorKind, MetadataErrorKind, ProtocolErrorKind};
use crate::session::index::CreateFileOperationId;
use crate::session::laws::{a_sweep_takes_no_capacity, swept_keeps_what_is_live};
use crate::session::model::{CreateOpening, MAX_EXPIRED_SESSION_RETIREMENTS_PER_CALL};
use crate::session::registry::SessionRegistry;
use crate::session::types::{BeginCreateSessionError, WriteOpeningError};

verus! {

// ---- directories ----

/// A directory is created in the parent that its path resolved to, under the last name of the
/// path, and without creating parents. Only a mount root has no parent to be created in.
pub proof fn a_directory_is_created_in_its_parent(
    ctx: &RequestContext,
    resolved: ResolvedPath,
    r: Result<Command, FsFailure>,
)
    requires
        call_ensures(plan_create_directory, (ctx, resolved), r),
    ensures
        r is Ok <==> resolved.parent_inode_id is Some && resolved.name is Some,
        match r {
            Ok(Command::CreateDirectory { root_inode_id, components, recursive }) => {
                &&& resolved.parent_inode_id == Some(root_inode_id)
                &&& components@.len() == 1
                &&& components@[0]@ == (resolved.name->0)@
                &&& !recursive
            },
            Ok(_) => false,
            Err(f) => {
                &&& f.error.kind == ErrorKind::Protocol(ProtocolErrorKind::InvalidArgument)
                &&& f.mount_epoch == Some(resolved.mount_ctx.mount_epoch)
                &&& f.group_name is Some
                &&& (f.group_name->0)@ == resolved.mount_ctx.owner_group_name@
            },
        },
{
}

/// A recursive creation goes from the mount root down all components that were asked for.
pub proof fn a_recursive_creation_starts_at_the_mount_root(
    ctx: &RequestContext,
    mount: &MountContext,
    components: Vec<String>,
    r: Result<Command, FsFailure>,
)
    requires
        call_ensures(plan_create_directory_recursive, (ctx, mount, components), r),
    ensures
        r is Ok <==> components@.len() > 0,
        match r {
            Ok(Command::CreateDirectory { root_inode_id, components: asked, recursive }) => {
                &&& root_inode_id == mount.root_inode_id
                &&& asked == components
                &&& recursive
            },
            Ok(_) => false,
            Err(f) => f.error.kind == ErrorKind::Protocol(ProtocolErrorKind::InvalidArgument),
        },
{
}

/// A created directory is answered with the inode and the attributes that applying its
/// command gave, and with nothing else.
pub proof fn a_created_directory_is_the_applied_one<A>(
    reply: DirectoryReply<A>,
    r: Result<CreateDirectoryOutput<A>, MetadataError>,
)
    requires
        call_ensures(decode_directory::<A>, (reply,), r),
    ensures
        match r {
            Ok(output) => reply == Ok::<(ApplySuccess, Option<A>), MetadataError>(
                (
                    ApplySuccess::DirectoryEnsured { inode_id: output.inode_id },
                    Some(output.attrs),
                ),
            ),
            Err(e) => match reply {
                Err(cause) => e@ == cause@,
                Ok((ApplySuccess::DirectoryEnsured { .. }, Some(_))) => false,
                Ok(_) => e is Internal,
            },
        },
{
}

/// What a routed command gave is answered as it is, under the owner group and the mount epoch
/// of its route, and with the applied state of a leader.
pub proof fn a_routed_answer_tells_its_route<T>(
    ctx: &RequestContext,
    routed: &RoutedFsWriteCtx,
    result: Result<T, MetadataError>,
    leader_state: Option<RaftLogId>,
    r: Result<FsSuccess<T>, FsFailure>,
)
    requires
        call_ensures(routed_result::<T>, (ctx, routed, result, leader_state), r),
    ensures
        r is Ok <==> result is Ok,
        match r {
            Ok(success) => {
                &&& result == Ok::<T, MetadataError>(success.payload)
                &&& success.group_name is Some
                &&& (success.group_name->0)@ == routed.group_name@
                &&& success.mount_epoch == Some(routed.mount_epoch)
                &&& success.route_epoch is None
                &&& success.state@.len() == (if leader_state is Some {
                    1nat
                } else {
                    0nat
                })
                &&& leader_state is Some ==> {
                    &&& success.state@[0].state_id == leader_state->0
                    &&& success.state@[0].group_name@ == routed.group_name@
                }
            },
            Err(f) => {
                &&& f.error.message@ == (result->Err_0)@.text
                &&& f.group_name is Some
                &&& (f.group_name->0)@ == routed.group_name@
                &&& f.mount_epoch == Some(routed.mount_epoch)
                &&& f.state@.len() == 0
            },
        },
{
    let views = crate::group_watermark::watermark_views(r->Ok_0.state@);
    if r is Ok {
        assert(views.len() == r->Ok_0.state@.len());
        if leader_state is Some {
            assert(views[0] == r->Ok_0.state@[0]@);
        }
    } else {
        assert(crate::group_watermark::watermark_views(r->Err_0.state@).len()
            == r->Err_0.state@.len());
    }
}

// ---- rename ----

/// A rename takes the entry that the source path resolved to and puts it where the target
/// path leads: into the parent of the target, under its name. It is bound to the inode of the
/// source, to the inode that it replaces and to the lease epoch of a replaced file.
pub proof fn a_rename_goes_from_its_source_to_its_target(
    ctx: &RequestContext,
    src_path: &str,
    src: ResolvedPath,
    dst: ResolvedPath,
    dst_read: InodeRead,
    flags: u32,
    r: Result<Command, FsFailure>,
)
    requires
        call_ensures(plan_rename, (ctx, src_path, src, dst, dst_read, flags), r),
    ensures
        r is Ok <==> {
            &&& src.parent_inode_id is Some && src.name is Some && src.inode_id is Some
            &&& dst.parent_inode_id is Some && dst.name is Some
            &&& dst.inode_id is Some ==> dst_read is Ok
        },
        match r {
            Ok(
                Command::Rename {
                    src_parent_inode_id,
                    src_name,
                    expected_src_inode_id,
                    dst_parent_inode_id,
                    dst_name,
                    expected_dst_inode_id,
                    expected_dst_lease_epoch,
                    flags: asked,
                },
            ) => {
                &&& src.parent_inode_id == Some(src_parent_inode_id)
                &&& src_name@ == (src.name->0)@
                &&& src.inode_id == Some(expected_src_inode_id)
                &&& dst.parent_inode_id == Some(dst_parent_inode_id)
                &&& dst_name@ == (dst.name->0)@
                &&& expected_dst_inode_id == dst.inode_id
                &&& expected_dst_lease_epoch is Some <==> dst.inode_id is Some && dst_read is Ok
                    && dst_read->Ok_0 is Some && (dst_read->Ok_0->0).kind is File
                &&& expected_dst_lease_epoch is Some ==> expected_dst_lease_epoch->0 == (
                dst_read->Ok_0->0).kind->File_0.lease_epoch
                &&& asked == flags
            },
            Ok(_) => false,
            Err(f) => {
                &&& f.error.kind == ErrorKind::Metadata(MetadataErrorKind::NotFound) <== {
                    &&& src.parent_inode_id is Some && src.name is Some
                    &&& src.inode_id is None
                }
                &&& f.error.kind == ErrorKind::Protocol(ProtocolErrorKind::InvalidArgument) <== {
                    ||| src.parent_inode_id is None
                    ||| src.name is None
                    ||| src.inode_id is Some && (dst.parent_inode_id is None || dst.name is None)
                }
            },
        },
{
}

/// A rename passes the check of its parents if and only if both exist on one mount and it asks
/// for no other flag than the first one.
pub proof fn renames_stay_on_one_mount(
    ctx: &RequestContext,
    flags: u32,
    src_parent: InodeId,
    src_read: &InodeRead,
    dst_parent: InodeId,
    dst_read: &InodeRead,
    src_authority: &Authority,
    r: Result<(), FsFailure>,
)
    requires
        call_ensures(
            check_rename_parents,
            (ctx, flags, src_parent, src_read, dst_parent, dst_read, src_authority),
            r,
        ),
    ensures
        r is Ok <==> {
            &&& flags == 0 || flags == 1
            &&& *src_read is Ok && src_read->Ok_0 is Some
            &&& *dst_read is Ok && dst_read->Ok_0 is Some
            &&& (src_read->Ok_0->0).mount_id == (dst_read->Ok_0->0).mount_id
        },
        flags > 1 ==> r is Err && r->Err_0.error.kind == ErrorKind::Protocol(
            ProtocolErrorKind::Unsupported,
        ),
        flags <= 1 && *src_read is Ok && src_read->Ok_0 is None ==> r is Err
            && r->Err_0.error.kind == ErrorKind::Metadata(MetadataErrorKind::NotFound),
        flags <= 1 && *src_read is Ok && src_read->Ok_0 is Some && *dst_read is Ok
            && dst_read->Ok_0 is None ==> r is Err && r->Err_0.error.kind == ErrorKind::Metadata(
            MetadataErrorKind::NotFound,
        ),
        flags <= 1 && *src_read is Ok && src_read->Ok_0 is Some && *dst_read is Ok
            && dst_read->Ok_0 is Some && (src_read->Ok_0->0).mount_id != (
        dst_read->Ok_0->0).mount_id ==> r is Err && r->Err_0.error.kind == ErrorKind::Metadata(
            MetadataErrorKind::CrossMountRename,
        ),
{
}

/// No rename crosses a live writer. While a session or a pending create lives at or below the
/// source, or at or below a target that exists, the rename is refused as busy.
pub proof fn renames_never_cross_a_writer(
    registry: &mut SessionRegistry,
    ctx: &RequestContext,
    authority: &Authority,
    src_inode: InodeId,
    dentry: &DentryRead,
    dst_read: &InodeRead,
    now_ms: u64,
    r: Result<(), FsFailure>,
)
    requires
        call_ensures(
            admit_rename,
            (registry, ctx, authority, src_inode, dentry, dst_read, now_ms),
            r,
        ),
    ensures
        r is Ok <==> {
            &&& !old(registry)@.writes_under(src_inode, now_ms)
            &&& *dentry is Ok
            &&& dentry->Ok_0 is Some ==> *dst_read is Ok && (dst_read->Ok_0 is Some
                ==> !old(registry)@.writes_under(dentry->Ok_0->0, now_ms))
        },
        old(registry)@.writes_under(src_inode, now_ms) ==> r is Err && r->Err_0.error.kind
            == ErrorKind::Metadata(MetadataErrorKind::Busy),
        *dentry is Ok && dentry->Ok_0 is Some && *dst_read is Ok && dst_read->Ok_0 is Some
            && old(registry)@.writes_under(dentry->Ok_0->0, now_ms) ==> r is Err
            && r->Err_0.error.kind == ErrorKind::Metadata(MetadataErrorKind::Busy),
{
}

/// A planned rename is proposed on the route that it was given, and only where its parents
/// are on one mount and no writer stands at or below its source or the entry that it replaces.
pub proof fn checked_renames_keep_their_route(
    registry: &mut SessionRegistry,
    ctx: &RequestContext,
    command: &Command,
    reads: &RenameReads,
    src_authority: &Authority,
    routed: Result<RoutedFsWriteCtx, FsFailure>,
    now_ms: u64,
    r: Result<RoutedFsWriteCtx, FsFailure>,
)
    requires
        *command is Rename,
        call_ensures(
            execute_rename,
            (registry, ctx, command, reads, src_authority, routed, now_ms),
            r,
        ),
    ensures
        r is Ok ==> routed == r,
        r is Ok <==> {
            &&& routed is Ok
            &&& command->Rename_flags <= 1
            &&& reads.src_parent is Ok && reads.src_parent->Ok_0 is Some
            &&& reads.dst_parent is Ok && reads.dst_parent->Ok_0 is Some
            &&& (reads.src_parent->Ok_0->0).mount_id == (reads.dst_parent->Ok_0->0).mount_id
            &&& !old(registry)@.writes_under(command->Rename_expected_src_inode_id, now_ms)
            &&& reads.dentry is Ok
            &&& reads.dentry->Ok_0 is Some ==> reads.replaced is Ok && (reads.replaced->Ok_0
                is Some ==> !old(registry)@.writes_under(reads.dentry->Ok_0->0, now_ms))
        },
{
}

/// Only the success of its own command ends a rename or a delete well. An error is told as it
/// is, and the success of another command is an internal error.
pub proof fn only_their_own_success_ends_a_rename_or_delete(
    reply: RaftReply,
    renamed: Result<(), MetadataError>,
    deleted: Result<(), MetadataError>,
)
    requires
        call_ensures(decode_rename, (reply,), renamed),
        call_ensures(decode_delete, (reply,), deleted),
    ensures
        renamed is Ok <==> reply == Ok::<ApplySuccess, MetadataError>(ApplySuccess::RenameApplied),
        deleted is Ok <==> reply == Ok::<ApplySuccess, MetadataError>(ApplySuccess::DeleteApplied),
        reply is Err ==> renamed->Err_0@ == (reply->Err_0)@ && deleted->Err_0@
            == (reply->Err_0)@,
        reply is Ok && renamed is Err ==> renamed->Err_0 is Internal,
        reply is Ok && deleted is Err ==> deleted->Err_0 is Internal,
{
}

// ---- delete ----

/// A delete is about the inode that its path resolved to, below the parent that it resolved
/// to. A mount root cannot be deleted, and neither can what does not exist.
pub proof fn a_delete_is_about_the_resolved_entry(
    ctx: &RequestContext,
    path: &str,
    resolved: &ResolvedPath,
    r: Result<(InodeId, InodeId), FsFailure>,
)
    requires
        call_ensures(plan_delete_target, (ctx, path, resolved), r),
    ensures
        r is Ok <==> resolved.parent_inode_id is Some && resolved.name is Some
            && resolved.inode_id is Some,
        r is Ok ==> resolved.parent_inode_id == Some(r->Ok_0.0) && resolved.inode_id == Some(
            r->Ok_0.1,
        ),
        resolved.parent_inode_id is None || resolved.name is None ==> r->Err_0.error.kind
            == ErrorKind::Protocol(ProtocolErrorKind::InvalidArgument),
        resolved.parent_inode_id is Some && resolved.name is Some && resolved.inode_id is None
            ==> r->Err_0.error.kind == ErrorKind::Metadata(MetadataErrorKind::NotFound),
{
}

/// An admitted delete proposes what was asked for: this inode, on this route, with the flag of
/// the request, and fenced by the stored epoch of a file. A delete that is not recursive never
/// becomes recursive. While a writer lives at or below the target, it is refused as busy.
pub proof fn a_delete_proposes_what_was_asked_for(
    registry: &mut SessionRegistry,
    ctx: &RequestContext,
    routed: &RoutedFsWriteCtx,
    relative_components: Vec<String>,
    inode: InodeId,
    read: &InodeRead,
    recursive: bool,
    now_ms: u64,
    r: Result<Command, FsFailure>,
)
    requires
        call_ensures(
            admit_delete,
            (registry, ctx, routed, relative_components, inode, read, recursive, now_ms),
            r,
        ),
    ensures
        r is Ok <==> !old(registry)@.writes_under(inode, now_ms) && *read is Ok
            && read->Ok_0 is Some,
        match r {
            Ok(
                Command::Delete {
                    mount_id,
                    expected_mount_epoch,
                    mount_root_inode_id,
                    relative_components: components,
                    expected_inode_id,
                    expected_file_lease_epoch,
                    recursive: proposed,
                },
            ) => {
                &&& mount_id == routed.mount_id
                &&& expected_mount_epoch == routed.mount_epoch
                &&& mount_root_inode_id == routed.mount_root_inode_id
                &&& components@ == relative_components@
                &&& expected_inode_id == inode
                &&& expected_file_lease_epoch is Some <==> (read->Ok_0->0).kind is File
                &&& expected_file_lease_epoch is Some ==> expected_file_lease_epoch->0 == (
                read->Ok_0->0).kind->File_0.lease_epoch
                &&& proposed == recursive
            },
            Ok(_) => false,
            Err(f) => {
                &&& old(registry)@.writes_under(inode, now_ms) ==> f.error.kind
                    == ErrorKind::Metadata(MetadataErrorKind::Busy)
                &&& !old(registry)@.writes_under(inode, now_ms) && *read is Ok ==> f.error.kind
                    == ErrorKind::Metadata(MetadataErrorKind::NotFound)
            },
        },
{
}

// ---- create ----

/// A file is created in the parent that its path resolved to, and the chain that holds its
/// session leads from the mount root to that parent: it is the resolved chain, without the
/// target where that exists already.
pub proof fn a_file_is_created_in_its_parent(
    ctx: &RequestContext,
    resolved: &ResolvedPath,
    r: Result<(InodeId, Vec<InodeId>), FsFailure>,
)
    requires
        call_ensures(plan_create_parent, (ctx, resolved), r),
    ensures
        match r {
            Ok((parent, chain)) => {
                &&& resolved.parent_inode_id == Some(parent)
                &&& resolved.name is Some
                &&& chain@.len() > 0
                &&& chain@[chain@.len() - 1] == parent
                &&& resolved.inode_id is None ==> chain@ == resolved.ancestor_inode_ids@
                &&& resolved.inode_id is Some ==> chain@.len() + 1
                    == resolved.ancestor_inode_ids@.len()
                &&& forall|i: int|
                    0 <= i < chain@.len() ==> #[trigger] chain@[i]
                        == resolved.ancestor_inode_ids@[i]
            },
            Err(f) => resolved.parent_inode_id is None || resolved.name is None ==> f.error.kind
                == ErrorKind::Protocol(ProtocolErrorKind::InvalidArgument),
        },
        resolved.parent_inode_id is Some && resolved.name is Some && resolved.inode_id is None
            && resolved.ancestor_inode_ids@.len() > 0 && resolved.ancestor_inode_ids@.last()
            == resolved.parent_inode_id->0 ==> r is Ok,
{
}

/// A create is refused from its deadline on, and never before.
pub proof fn creates_end_at_their_deadline(
    ctx: &RequestContext,
    now_ms: u64,
    r: Result<(), MetadataError>,
)
    requires
        call_ensures(require_create_deadline, (ctx, now_ms), r),
    ensures
        r is Ok <==> (now_ms as int) < ctx.caller.deadline.0,
        r is Err ==> r->Err_0 is InvalidArgument,
{
}

/// A create goes where it was routed, and only with a layout that files can have.
pub proof fn creates_keep_their_route(
    ctx: &RequestContext,
    layout: FileLayout,
    routed: Result<RoutedFsWriteCtx, FsFailure>,
    r: Result<RoutedFsWriteCtx, FsFailure>,
)
    requires
        call_ensures(route_create, (ctx, layout, routed), r),
    ensures
        r is Ok ==> r == routed && layout_error(layout) is None,
        routed is Ok && layout_error(layout) is None ==> r is Ok,
        layout_error(layout) is Some ==> r is Err && r->Err_0.error.kind == ErrorKind::Protocol(
            ProtocolErrorKind::InvalidArgument,
        ),
        layout_error(layout) is None && routed is Err ==> r is Err && (r->Err_0)@ == (
        routed->Err_0)@,
{
}

/// A new create reserves its path for the caller and proposes the file that was asked for: for
/// the caller's operation, on the route that was given, at the path, with the layout and with
/// the deadline of the request. The session expires when the command says so.
pub proof fn a_new_create_reserves_and_proposes_its_file(
    registry: &mut SessionRegistry,
    ctx: &RequestContext,
    routed: &RoutedFsWriteCtx,
    path: String,
    components: Vec<String>,
    chain: Vec<InodeId>,
    layout: FileLayout,
    now_ms: u64,
    opening: CreateOpening,
    command: Command,
)
    requires
        old(registry).wf(),
        call_ensures(
            begin_create,
            (registry, ctx, routed, path, components, chain, layout, now_ms),
            Ok(CreateStep::Propose(opening, command)),
        ),
    ensures
        opening.operation_id.client_id == ctx.caller.client.client_id,
        opening.operation_id.call_id == ctx.caller.client.call_id,
        match command {
            Command::CreateFile {
                operation_id,
                request_deadline_ms,
                session_expires_at_ms,
                normalized_path,
                mount_id,
                expected_mount_epoch,
                mount_root_inode_id,
                relative_components,
                layout: proposed,
            } => {
                &&& operation_id == opening.operation_id
                &&& request_deadline_ms == ctx.caller.deadline.0
                &&& session_expires_at_ms == opening.expires_at_ms
                &&& normalized_path@ == path@
                &&& mount_id == routed.mount_id
                &&& expected_mount_epoch == routed.mount_epoch
                &&& mount_root_inode_id == routed.mount_root_inode_id
                &&& relative_components@ == components@
                &&& proposed == layout
            },
            _ => false,
        },
        ({
            let op = opening.operation_id;
            let reserved = final(registry)@.creates[op];
            &&& final(registry)@.creates.contains_key(op)
            &&& reserved.opening_id == opening.opening_id
            &&& reserved.open_client_id == ctx.caller.client.client_id
            &&& reserved.normalized_path == path@
            &&& reserved.mount_id == routed.mount_id
            &&& reserved.parent_ancestor_inode_ids == chain@
            &&& reserved.expires_at_ms == opening.expires_at_ms
            &&& reserved.operation_id == op
            &&& reserved.request_deadline_ms == ctx.caller.deadline.0
            &&& reserved.expected_mount_epoch == routed.mount_epoch
            &&& reserved.mount_root_inode_id == routed.mount_root_inode_id
        }),
        opening.expires_at_ms == if now_ms + old(registry).limits().session_ttl_ms
            > u64::MAX {
            u64::MAX as int
        } else {
            now_ms + old(registry).limits().session_ttl_ms
        },
{
}

/// A create that is repeated while its session lives is answered with the file that it made:
/// what the active session of the same operation was given when it was created.
pub proof fn a_repeated_create_is_answered_with_its_file(
    registry: &mut SessionRegistry,
    ctx: &RequestContext,
    routed: &RoutedFsWriteCtx,
    path: String,
    components: Vec<String>,
    chain: Vec<InodeId>,
    layout: FileLayout,
    now_ms: u64,
    output: CreatedFileOutput,
)
    requires
        old(registry).wf(),
        call_ensures(
            begin_create,
            (registry, ctx, routed, path, components, chain, layout, now_ms),
            Ok(CreateStep::Replay(output)),
        ),
    ensures
        exists|k: u64|
            {
                let session = old(registry)@.entries[k]->Active_0;
                let replay = session.create_replay->0;
                &&& #[trigger] old(registry)@.entries.contains_key(k)
                &&& old(registry)@.entries[k] is Active
                &&& session.create_replay is Some
                &&& replay.operation_id.client_id == ctx.caller.client.client_id
                &&& replay.operation_id.call_id == ctx.caller.client.call_id
                &&& replay.normalized_path == path@
                &&& replay.mount_id == routed.mount_id
                &&& replay.request_deadline_ms == ctx.caller.deadline.0
                &&& replay.expected_mount_epoch == routed.mount_epoch
                &&& replay.mount_root_inode_id == routed.mount_root_inode_id
                &&& output.inode_id == replay.response.inode_id
                &&& output.lease_epoch == replay.response.lease_epoch
                &&& output.layout == replay.response.layout
                &&& output.expires_at_ms == replay.response.expires_at_ms
                &&& output.generation == replay.response.generation
            },
{
    let op = CreateFileOperationId {
        client_id: ctx.caller.client.client_id,
        call_id: ctx.caller.client.call_id,
    };
    let v = old(registry)@;
    let limits = old(registry).limits();
    crate::session::model::lemma_without_create(v, limits, op);
    let retired = v.retire_create(op, now_ms);
    swept_keeps_what_is_live(
        retired,
        limits,
        now_ms,
        MAX_EXPIRED_SESSION_RETIREMENTS_PER_CALL as nat,
    );
    let t = retired.sweep(now_ms);
    let k = choose|k: u64| t.replays(op, k);
    assert(t.replays(op, k));
    assert(v.entries.contains_key(k));
}

/// A create that ends well is answered with the file that applying its command made, and its
/// session stands in the registry: for the client that reserved it, empty, replacing nothing,
/// under the epoch that was given. The reservation is gone.
pub proof fn a_made_file_is_answered_and_has_a_session(
    registry: &mut SessionRegistry,
    ctx: &RequestContext,
    routed: &RoutedFsWriteCtx,
    opening: CreateOpening,
    reply: RaftReply,
    now_ms: u64,
    output: CreatedFileOutput,
)
    requires
        call_ensures(
            finish_create,
            (registry, ctx, routed, opening, reply, now_ms),
            Ok(output),
        ),
    ensures
        reply == Ok::<ApplySuccess, MetadataError>(
            ApplySuccess::FileCreated {
                inode_id: output.inode_id,
                layout: output.layout,
                lease_epoch: output.lease_epoch,
                expires_at_ms: output.expires_at_ms,
                generation: output.generation,
            },
        ),
        ({
            let op = opening.operation_id;
            let reserved = old(registry)@.creates[op];
            let session = final(registry)@.entries[output.inode_id.0]->Active_0;
            &&& old(registry)@.creates.contains_key(op)
            &&& reserved.opening_id == opening.opening_id
            &&& now_ms < reserved.expires_at_ms
            &&& now_ms < output.expires_at_ms
            &&& !old(registry)@.entries.contains_key(output.inode_id.0)
            &&& final(registry)@.entries.contains_key(output.inode_id.0)
            &&& final(registry)@.entries[output.inode_id.0] is Active
            &&& session.inode_id == output.inode_id
            &&& session.lease_epoch == output.lease_epoch
            &&& session.layout == output.layout
            &&& session.expires_at_ms == output.expires_at_ms
            &&& session.generation == output.generation
            &&& session.base_size == 0
            &&& session.mode == WriteMode::Overwrite
            &&& session.open_client_id == reserved.open_client_id
            &&& session.mount_id == reserved.mount_id
            &&& session.ancestor_inode_ids == reserved.parent_ancestor_inode_ids.push(
                output.inode_id,
            )
            &&& session.issued_targets.len() == 0
            &&& session.pending_allocate_block is None
            &&& session.active_publication is None
            &&& !session.publication_submitted
            &&& session.create_replay is Some
            &&& session.create_replay->0.operation_id == op
            &&& session.create_replay->0.request_deadline_ms == reserved.request_deadline_ms
            &&& session.create_replay->0.normalized_path == reserved.normalized_path
            &&& session.create_replay->0.mount_id == reserved.mount_id
            &&& session.create_replay->0.expected_mount_epoch == reserved.expected_mount_epoch
            &&& session.create_replay->0.mount_root_inode_id == reserved.mount_root_inode_id
            &&& session.create_replay->0.response.inode_id == output.inode_id
            &&& session.create_replay->0.response.lease_epoch == output.lease_epoch
            &&& session.create_replay->0.response.layout == output.layout
            &&& session.create_replay->0.response.expires_at_ms == output.expires_at_ms
            &&& session.create_replay->0.response.generation == output.generation
            &&& final(registry)@.creates == old(registry)@.creates.remove(op)
            &&& forall|k: u64|
                k != output.inode_id.0 ==> (#[trigger] final(registry)@.entries.contains_key(k)
                    <==> old(registry)@.entries.contains_key(k)) && final(registry)@.entries[k]
                    == old(registry)@.entries[k]
        }),
{
}

/// A create whose command fails is told the error of the command, and gives its reservation
/// back. No session changes.
pub proof fn a_failed_create_is_told_and_given_back(
    registry: &mut SessionRegistry,
    ctx: &RequestContext,
    routed: &RoutedFsWriteCtx,
    opening: CreateOpening,
    error: MetadataError,
    now_ms: u64,
    r: Result<CreatedFileOutput, FsFailure>,
)
    requires
        call_ensures(
            finish_create,
            (registry, ctx, routed, opening, Err(error), now_ms),
            r,
        ),
    ensures
        r is Err,
        r->Err_0.error.message@ == error@.text,
        final(registry)@.entries == old(registry)@.entries,
        old(registry)@.creates.contains_key(opening.operation_id)
            && old(registry)@.creates[opening.operation_id].opening_id == opening.opening_id
            ==> final(registry)@.creates == old(registry)@.creates.remove(opening.operation_id),
{
}

/// A create is reserved, where its operation is new, its path is free, capacity is left and its
/// parent chain is a path.
pub proof fn a_free_path_can_be_created(
    registry: &mut SessionRegistry,
    ctx: &RequestContext,
    routed: &RoutedFsWriteCtx,
    path: String,
    components: Vec<String>,
    chain: Vec<InodeId>,
    layout: FileLayout,
    now_ms: u64,
    r: Result<CreateStep, FsFailure>,
)
    requires
        old(registry).wf(),
        call_ensures(
            begin_create,
            (registry, ctx, routed, path, components, chain, layout, now_ms),
            r,
        ),
        ctx.caller.deadline.0 >= 0,
        0 < chain@.len() <= MAX_PATH_COMPONENTS,
        chain@.no_duplicates(),
        ({
            let v = old(registry)@;
            let me = ctx.caller.client.client_id;
            let op = CreateFileOperationId { client_id: me, call_id: ctx.caller.client.call_id };
            &&& !v.creates.contains_key(op)
            &&& forall|k: u64| #[trigger]
                v.entries.contains_key(k) && v.entries[k] is Active
                    && v.entries[k]->Active_0.create_replay is Some
                    ==> v.entries[k]->Active_0.create_replay->0.operation_id != op
            &&& forall|other: CreateFileOperationId| #[trigger]
                v.creates.contains_key(other) ==> !(v.creates[other].mount_id == routed.mount_id
                    && v.creates[other].normalized_path == path@)
            &&& v.entries.dom().len() + v.creates.dom().len() < old(
                registry,
            ).limits().max_sessions
            &&& v.client_occupied(me) < old(registry).limits().max_sessions_per_client
            &&& v.next_opening_id < u64::MAX
        }),
    ensures
        r is Ok,
        r->Ok_0 is Propose,
{
    let v = old(registry)@;
    let limits = old(registry).limits();
    let me = ctx.caller.client.client_id;
    let op = CreateFileOperationId { client_id: me, call_id: ctx.caller.client.call_id };
    let budget = MAX_EXPIRED_SESSION_RETIREMENTS_PER_CALL as nat;
    assert(v.retire_create(op, now_ms) == v);
    swept_keeps_what_is_live(v, limits, now_ms, budget);
    a_sweep_takes_no_capacity(v, limits, me, now_ms, budget);
    let t = v.sweep(now_ms);
    if t.is_replayable(op) {
        let k = choose|k: u64| t.replays(op, k);
        assert(t.replays(op, k));
        assert(v.entries.contains_key(k));
    }
    if t.path_held(routed.mount_id, path@) {
        let other = choose|other: CreateFileOperationId| #[trigger]
            t.creates.contains_key(other) && t.creates[other].mount_id == routed.mount_id
                && t.creates[other].normalized_path == path@;
        assert(v.creates.contains_key(other));
    }
}

/// A file that was made gets its session, while its reservation is held and not expired, its
/// epoch is a real one, and its inode is new.
pub proof fn a_made_file_gets_its_session(
    registry: &mut SessionRegistry,
    ctx: &RequestContext,
    routed: &RoutedFsWriteCtx,
    opening: CreateOpening,
    made: CreatedFileOutput,
    now_ms: u64,
    r: Result<CreatedFileOutput, FsFailure>,
)
    requires
        call_ensures(
            finish_create,
            (
                registry,
                ctx,
                routed,
                opening,
                Ok(
                    ApplySuccess::FileCreated {
                        inode_id: made.inode_id,
                        layout: made.layout,
                        lease_epoch: made.lease_epoch,
                        expires_at_ms: made.expires_at_ms,
                        generation: made.generation,
                    },
                ),
                now_ms,
            ),
            r,
        ),
        ({
            let v = old(registry)@;
            let reserved = v.creates[opening.operation_id];
            let path = reserved.parent_ancestor_inode_ids.push(made.inode_id);
            &&& v.creates.contains_key(opening.operation_id)
            &&& reserved.opening_id == opening.opening_id
            &&& now_ms < reserved.expires_at_ms
            &&& now_ms < made.expires_at_ms
            &&& made.lease_epoch.0 != 0
            &&& !v.entries.contains_key(made.inode_id.0)
            &&& path.len() <= MAX_PATH_COMPONENTS + 1
            &&& path.no_duplicates()
        }),
    ensures
        r == Ok::<CreatedFileOutput, FsFailure>(made),
{
    let path = old(registry)@.creates[opening.operation_id].parent_ancestor_inode_ids.push(
        made.inode_id,
    );
    assert(path.last() == made.inode_id);
}

/// Each refusal of a create has its kind: one that is pending, or a path that is held, asks to
/// try again, an identity that stands for another request is not valid, and used-up capacity
/// says so.
pub proof fn create_refusals_are_told_apart(
    ctx: RequestContextView,
    authority: AuthorityView,
    error: BeginCreateSessionError,
)
    ensures
        ({
            let told = metadata_failure(ctx, create_refusal(error), authority).error;
            match error {
                BeginCreateSessionError::Pending => told.kind == ErrorKind::Metadata(
                    MetadataErrorKind::Conflict,
                ) && told.recovery is Retry,
                BeginCreateSessionError::PathBusy => told.kind == ErrorKind::Metadata(
                    MetadataErrorKind::Conflict,
                ) && told.recovery is Retry,
                BeginCreateSessionError::IdentityMismatch => told.kind == ErrorKind::Protocol(
                    ProtocolErrorKind::InvalidArgument,
                ) && told.recovery is Fail,
                BeginCreateSessionError::LimitExceeded(_) => told.kind == ErrorKind::Metadata(
                    MetadataErrorKind::ResourceExhausted,
                ) && told.recovery is Retry,
                BeginCreateSessionError::OpeningIdExhausted => told.kind == ErrorKind::Metadata(
                    MetadataErrorKind::ResourceExhausted,
                ) && told.recovery is Fail,
                BeginCreateSessionError::InvalidAncestorChain => told.kind
                    == ErrorKind::Internal(InternalErrorKind::Internal) && told.recovery is Fail,
            }
        }),
{
}

/// A file whose session could not be installed asks to try again, unless its epoch was not the
/// one that was due.
pub proof fn uninstalled_creates_ask_to_try_again(
    ctx: RequestContextView,
    authority: AuthorityView,
    error: WriteOpeningError,
    inode: InodeId,
)
    ensures
        ({
            let told = metadata_failure(
                ctx,
                create_activation_refusal(error, inode),
                authority,
            ).error;
            &&& error is LeaseEpochMismatch <==> told.kind == ErrorKind::Internal(
                InternalErrorKind::Internal,
            )
            &&& !(error is LeaseEpochMismatch) ==> told.recovery is Retry
        }),
{
}

} // verus!
