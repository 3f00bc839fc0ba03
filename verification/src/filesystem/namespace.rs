//! Creating, renaming and deleting.

use vstd::prelude::*;

use crate::error::{MetadataError, MetadataErrorCode, MetadataErrorView};
use crate::filesystem::command::{
    expected_reply, require_reply, unexpected_raft_apply_success, unexpected_success,
    ApplySuccess, Command, InodeRead, RaftReply, RoutedFsWriteCtx,
};
use crate::filesystem::context::{
    fs_failure_from_metadata_error, metadata_failure, success_with_route_epoch,
    validate_active_write_layout, Authority, AuthorityView, FsFailure, FsFailureView, FsSuccess,
    MountContext, RequestContext, RequestContextView, ResolvedPath,
};
use crate::fs::ContentGeneration;
use crate::group_watermark::RaftLogId;
use crate::ids::{InodeId, MountId};
use crate::inode::InodeKind;
use crate::layout::{layout_error, FileLayout};
use crate::lease::LeaseEpoch;
use crate::session::index::CreateFileOperationId;
use crate::session::model::{
    BeginCreateSession, CreateOpening, RegistryView,
};
use crate::session::registry::SessionRegistry;
use crate::session::types::{
    BeginCreateSessionError, BeginCreateSessionInput, BeginCreateSessionInputView,
    CreateSessionReplay, WriteOpeningError, WriteSessionLimitExceeded,
};
use crate::text::{decimal, decimal_text, join};

verus! {

/// The error for an operation on a mount root.
pub open spec fn mount_root_error() -> MetadataErrorView {
    MetadataErrorView {
        code: MetadataErrorCode::InvalidArgument,
        text: "Cannot operate on mount root"@,
    }
}

fn mount_root_failure(ctx: &RequestContext, mount: &MountContext) -> (r: FsFailure)
    ensures
        r@ == metadata_failure(ctx@, mount_root_error(), mount@.authority()),
{
    let error = MetadataError::InvalidArgument("Cannot operate on mount root".to_owned());
    let authority = mount.authority();
    fs_failure_from_metadata_error(ctx, &error, &authority)
}

// ---- directories ----

/// Plans the creation of one directory below its existing parent.
pub fn plan_create_directory(ctx: &RequestContext, resolved: ResolvedPath) -> (r: Result<
    Command,
    FsFailure,
>)
    ensures
        match (resolved.parent_inode_id, resolved.name) {
            (Some(parent), Some(name)) => match r {
                Ok(Command::CreateDirectory { root_inode_id, components, recursive }) => {
                    &&& root_inode_id == parent
                    &&& components@.len() == 1
                    &&& components@[0]@ == name@
                    &&& !recursive
                },
                _ => false,
            },
            _ => r is Err && (r->Err_0)@ == metadata_failure(
                ctx@,
                mount_root_error(),
                resolved.mount_ctx@.authority(),
            ),
        },
{
    match (resolved.parent_inode_id, resolved.name) {
        (Some(parent), Some(name)) => {
            let mut components: Vec<String> = Vec::new();
            components.push(name);
            Ok(Command::CreateDirectory { root_inode_id: parent, components, recursive: false })
        },
        _ => Err(mount_root_failure(ctx, &resolved.mount_ctx)),
    }
}

/// Plans the creation of a directory and of all of its missing parents.
pub fn plan_create_directory_recursive(
    ctx: &RequestContext,
    mount: &MountContext,
    components: Vec<String>,
) -> (r: Result<Command, FsFailure>)
    ensures
        components@.len() == 0 ==> r is Err && (r->Err_0)@ == metadata_failure(
            ctx@,
            mount_root_error(),
            mount@.authority(),
        ),
        components@.len() > 0 ==> r == Ok::<Command, FsFailure>(
            Command::CreateDirectory {
                root_inode_id: mount.root_inode_id,
                components,
                recursive: true,
            },
        ),
{
    if components.len() == 0 {
        return Err(mount_root_failure(ctx, mount));
    }
    Ok(
        Command::CreateDirectory {
            root_inode_id: mount.root_inode_id,
            components,
            recursive: true,
        },
    )
}

/// What proposing a directory returned. A directory comes with its attributes, which are only
/// carried; other successes have none.
pub type DirectoryReply<A> = Result<(ApplySuccess, Option<A>), MetadataError>;

/// What the creation of a directory answers.
#[derive(Debug)]
pub struct CreateDirectoryOutput<A> {
    pub inode_id: InodeId,
    pub attrs: A,
}

/// The directory that a creation ensured.
pub open spec fn directory_reply<A>(reply: DirectoryReply<A>) -> Result<
    CreateDirectoryOutput<A>,
    MetadataErrorView,
> {
    match reply {
        Err(e) => Err(e@),
        Ok((ApplySuccess::DirectoryEnsured { inode_id }, Some(attrs))) => Ok(
            CreateDirectoryOutput { inode_id, attrs },
        ),
        Ok((success, _)) => Err(unexpected_success("CreateDirectory"@, success)),
    }
}

/// Returns the directory that a creation ensured.
pub fn decode_directory<A>(reply: DirectoryReply<A>) -> (r: Result<
    CreateDirectoryOutput<A>,
    MetadataError,
>)
    ensures
        match r {
            Ok(o) => directory_reply(reply) == Ok::<CreateDirectoryOutput<A>, MetadataErrorView>(o),
            Err(e) => directory_reply(reply) == Err::<CreateDirectoryOutput<A>, MetadataErrorView>(
                e@,
            ),
        },
{
    match reply {
        Err(e) => Err(e),
        Ok((success, attrs)) => match (success, attrs) {
            (ApplySuccess::DirectoryEnsured { inode_id }, Some(attrs)) => Ok(
                CreateDirectoryOutput { inode_id, attrs },
            ),
            _ => Err(unexpected_raft_apply_success("CreateDirectory", success)),
        },
    }
}

/// Answers a routed operation with what its command returned.
pub fn routed_result<T>(
    ctx: &RequestContext,
    routed: &RoutedFsWriteCtx,
    result: Result<T, MetadataError>,
    leader_state: Option<RaftLogId>,
) -> (r: Result<FsSuccess<T>, FsFailure>)
    ensures
        match result {
            Ok(payload) => r is Ok && (r->Ok_0).payload == payload && (r->Ok_0).told_by(
                routed.authority_view(),
                leader_state,
            ),
            Err(e) => r is Err && (r->Err_0)@ == metadata_failure(
                ctx@,
                e@,
                routed.authority_view(),
            ),
        },
{
    let authority = routed.authority();
    match result {
        Ok(payload) => Ok(success_with_route_epoch(payload, &authority, leader_state)),
        Err(e) => Err(fs_failure_from_metadata_error(ctx, &e, &authority)),
    }
}

// ---- rename ----

/// What a rename is to do, once both of its paths are resolved.
pub struct RenamePlanView {
    pub src_parent_inode_id: InodeId,
    pub src_name: Seq<char>,
    pub expected_src_inode_id: InodeId,
    pub dst_parent_inode_id: InodeId,
    pub dst_name: Seq<char>,
    pub expected_dst_inode_id: Option<InodeId>,
    pub expected_dst_lease_epoch: Option<LeaseEpoch>,
    pub flags: u32,
}

/// The plan that a rename command carries.
pub open spec fn rename_command_view(command: Command) -> Option<RenamePlanView> {
    match command {
        Command::Rename {
            src_parent_inode_id,
            src_name,
            expected_src_inode_id,
            dst_parent_inode_id,
            dst_name,
            expected_dst_inode_id,
            expected_dst_lease_epoch,
            flags,
        } => Some(
            RenamePlanView {
                src_parent_inode_id,
                src_name: src_name@,
                expected_src_inode_id,
                dst_parent_inode_id,
                dst_name: dst_name@,
                expected_dst_inode_id,
                expected_dst_lease_epoch,
                flags,
            },
        ),
        _ => None,
    }
}

/// The epoch that fences the file which a rename replaces. A directory, and a target that
/// is gone, have none.
pub open spec fn replaced_lease_epoch(read: InodeRead) -> Option<LeaseEpoch> {
    match read {
        Ok(Some(inode)) => match inode.kind {
            InodeKind::File(file) => Some(file.lease_epoch),
            InodeKind::Dir => None,
        },
        _ => None,
    }
}

/// The plan of a rename, or the first reason against it. `dst_read` is what reading the
/// target returned, where there is one.
pub open spec fn rename_plan(
    ctx: RequestContextView,
    src_path: Seq<char>,
    src: ResolvedPath,
    dst: ResolvedPath,
    dst_read: InodeRead,
    flags: u32,
) -> Result<RenamePlanView, FsFailureView> {
    if src.parent_inode_id is None || src.name is None {
        Err(
            metadata_failure(
                ctx,
                MetadataErrorView {
                    code: MetadataErrorCode::InvalidArgument,
                    text: "Cannot rename a mount root"@,
                },
                src.mount_ctx@.authority(),
            ),
        )
    } else if src.inode_id is None {
        Err(
            metadata_failure(
                ctx,
                MetadataErrorView {
                    code: MetadataErrorCode::NotFound,
                    text: "Source not found: "@ + src_path,
                },
                src.mount_ctx@.authority(),
            ),
        )
    } else if dst.parent_inode_id is None || dst.name is None {
        Err(
            metadata_failure(
                ctx,
                MetadataErrorView {
                    code: MetadataErrorCode::InvalidArgument,
                    text: "Cannot rename to a mount root"@,
                },
                dst.mount_ctx@.authority(),
            ),
        )
    } else if dst.inode_id is Some && dst_read is Err {
        Err(metadata_failure(ctx, (dst_read->Err_0)@, dst.mount_ctx@.authority()))
    } else {
        Ok(
            RenamePlanView {
                src_parent_inode_id: src.parent_inode_id->0,
                src_name: (src.name->0)@,
                expected_src_inode_id: src.inode_id->0,
                dst_parent_inode_id: dst.parent_inode_id->0,
                dst_name: (dst.name->0)@,
                expected_dst_inode_id: dst.inode_id,
                expected_dst_lease_epoch: if dst.inode_id is Some {
                    replaced_lease_epoch(dst_read)
                } else {
                    None
                },
                flags,
            },
        )
    }
}

/// Plans a rename of two resolved paths.
pub fn plan_rename(
    ctx: &RequestContext,
    src_path: &str,
    src: ResolvedPath,
    dst: ResolvedPath,
    dst_read: InodeRead,
    flags: u32,
) -> (r: Result<Command, FsFailure>)
    ensures
        ({
            let plan = rename_plan(ctx@, src_path@, src, dst, dst_read, flags);
            match r {
                Ok(command) => plan is Ok && rename_command_view(command) == Some(plan->Ok_0),
                Err(f) => plan == Err::<RenamePlanView, FsFailureView>(f@),
            }
        }),
{
    let src_authority = src.mount_ctx.authority();
    let dst_authority = dst.mount_ctx.authority();
    let (src_parent_inode_id, src_name) = match (src.parent_inode_id, src.name) {
        (Some(parent), Some(name)) => (parent, name),
        _ => {
            let error = MetadataError::InvalidArgument("Cannot rename a mount root".to_owned());
            return Err(fs_failure_from_metadata_error(ctx, &error, &src_authority));
        },
    };
    let expected_src_inode_id = match src.inode_id {
        Some(inode_id) => inode_id,
        None => {
            let error = MetadataError::NotFound(join("Source not found: ", src_path));
            return Err(fs_failure_from_metadata_error(ctx, &error, &src_authority));
        },
    };
    let (dst_parent_inode_id, dst_name) = match (dst.parent_inode_id, dst.name) {
        (Some(parent), Some(name)) => (parent, name),
        _ => {
            let error = MetadataError::InvalidArgument("Cannot rename to a mount root".to_owned());
            return Err(fs_failure_from_metadata_error(ctx, &error, &dst_authority));
        },
    };
    let expected_dst_lease_epoch = match dst.inode_id {
        None => None,
        Some(_) => match &dst_read {
            Err(e) => return Err(fs_failure_from_metadata_error(ctx, e, &dst_authority)),
            Ok(None) => None,
            Ok(Some(inode)) => match &inode.kind {
                InodeKind::File(file) => Some(file.lease_epoch),
                InodeKind::Dir => None,
            },
        },
    };
    Ok(
        Command::Rename {
            src_parent_inode_id,
            src_name,
            expected_src_inode_id,
            dst_parent_inode_id,
            dst_name,
            expected_dst_inode_id: dst.inode_id,
            expected_dst_lease_epoch,
            flags,
        },
    )
}

/// Whether a rename asks for flags that are not supported.
pub open spec fn has_unsupported_flags(flags: u32) -> bool {
    flags > 1
}

/// Why a rename of entries below two parents is refused before it is routed.
/// `src_authority` is the authority of the source's mount as far as it is known.
pub open spec fn rename_parents_failure(
    ctx: RequestContextView,
    flags: u32,
    src_parent: InodeId,
    src_read: InodeRead,
    dst_parent: InodeId,
    dst_read: InodeRead,
    src_authority: AuthorityView,
) -> Option<FsFailureView> {
    let none = AuthorityView::unknown();
    if has_unsupported_flags(flags) {
        Some(
            metadata_failure(
                ctx,
                MetadataErrorView {
                    code: MetadataErrorCode::NotSupported,
                    text: "Unsupported rename flags: "@ + decimal(flags as nat),
                },
                none,
            ),
        )
    } else {
        match src_read {
            Err(e) => Some(metadata_failure(ctx, e@, none)),
            Ok(None) => Some(
                metadata_failure(
                    ctx,
                    MetadataErrorView {
                        code: MetadataErrorCode::NotFound,
                        text: "Source parent inode not found: "@ + decimal(src_parent.0 as nat),
                    },
                    none,
                ),
            ),
            Ok(Some(src)) => match dst_read {
                Err(e) => Some(metadata_failure(ctx, e@, none)),
                Ok(None) => Some(
                    metadata_failure(
                        ctx,
                        MetadataErrorView {
                            code: MetadataErrorCode::NotFound,
                            text: "Destination parent inode not found: "@ + decimal(
                                dst_parent.0 as nat,
                            ),
                        },
                        none,
                    ),
                ),
                Ok(Some(dst)) => if src.mount_id != dst.mount_id {
                    Some(
                        metadata_failure(
                            ctx,
                            MetadataErrorView {
                                code: MetadataErrorCode::CrossMountRename,
                                text: "Cross-mount rename not allowed: src_mount=MountId("@
                                    + decimal(src.mount_id.0 as nat) + "), dst_mount=MountId("@
                                    + decimal(dst.mount_id.0 as nat) + ")"@,
                            },
                            src_authority,
                        ),
                    )
                } else {
                    None
                },
            },
        }
    }
}

/// Checks the flags of a rename and that both parents exist on one mount.
pub fn check_rename_parents(
    ctx: &RequestContext,
    flags: u32,
    src_parent: InodeId,
    src_read: &InodeRead,
    dst_parent: InodeId,
    dst_read: &InodeRead,
    src_authority: &Authority,
) -> (r: Result<(), FsFailure>)
    ensures
        ({
            let failure = rename_parents_failure(
                ctx@,
                flags,
                src_parent,
                *src_read,
                dst_parent,
                *dst_read,
                src_authority@,
            );
            match r {
                Ok(()) => failure is None,
                Err(f) => failure == Some(f@),
            }
        }),
{
    let none = Authority::unknown();
    let supported_mask: u32 = 0x1;
    assert(flags & !0x1u32 != 0 <==> flags > 1) by (bit_vector);
    if flags & !supported_mask != 0 {
        let text = decimal_text(flags as u128);
        let error = MetadataError::NotSupported(join("Unsupported rename flags: ", text.as_str()));
        return Err(fs_failure_from_metadata_error(ctx, &error, &none));
    }
    let src_mount = match src_read {
        Ok(Some(inode)) => inode.mount_id,
        Ok(None) => {
            let text = src_parent.to_text();
            let error = MetadataError::NotFound(
                join("Source parent inode not found: ", text.as_str()),
            );
            return Err(fs_failure_from_metadata_error(ctx, &error, &none));
        },
        Err(e) => return Err(fs_failure_from_metadata_error(ctx, e, &none)),
    };
    let dst_mount = match dst_read {
        Ok(Some(inode)) => inode.mount_id,
        Ok(None) => {
            let text = dst_parent.to_text();
            let error = MetadataError::NotFound(
                join("Destination parent inode not found: ", text.as_str()),
            );
            return Err(fs_failure_from_metadata_error(ctx, &error, &none));
        },
        Err(e) => return Err(fs_failure_from_metadata_error(ctx, e, &none)),
    };
    if src_mount != dst_mount {
        let src_text = src_mount.to_text();
        let dst_text = dst_mount.to_text();
        let mut out = join(
            "Cross-mount rename not allowed: src_mount=MountId(",
            src_text.as_str(),
        );
        out.append("), dst_mount=MountId(");
        out.append(dst_text.as_str());
        out.append(")");
        let error = MetadataError::CrossMountRename(out);
        return Err(fs_failure_from_metadata_error(ctx, &error, src_authority));
    }
    Ok(())
}

/// The error for a live writer at or below an inode.
pub open spec fn active_write_error(prefix: Seq<char>, inode: InodeId) -> MetadataErrorView {
    MetadataErrorView {
        code: MetadataErrorCode::Busy,
        text: prefix + decimal(inode.0 as nat),
    }
}

fn active_write_failure(ctx: &RequestContext, prefix: &str, inode: InodeId, authority: &Authority) -> (r:
    FsFailure)
    ensures
        r@ == metadata_failure(ctx@, active_write_error(prefix@, inode), authority@),
{
    let text = inode.to_text();
    let error = MetadataError::Busy(join(prefix, text.as_str()));
    fs_failure_from_metadata_error(ctx, &error, authority)
}

/// What looking a directory entry up returned.
pub type DentryRead = Result<Option<InodeId>, MetadataError>;

/// Why live writers refuse a rename: one at or below the source, or one at or below the
/// target that the rename replaces. `dst_read` is what reading that target returned.
pub open spec fn rename_busy_failure(
    v: RegistryView,
    ctx: RequestContextView,
    authority: AuthorityView,
    src_inode: InodeId,
    dentry: DentryRead,
    dst_read: InodeRead,
    now_ms: u64,
) -> Option<FsFailureView> {
    if v.writes_under(src_inode, now_ms) {
        Some(
            metadata_failure(
                ctx,
                active_write_error("Rename source contains an active write lease: "@, src_inode),
                authority,
            ),
        )
    } else {
        match dentry {
            Err(e) => Some(metadata_failure(ctx, e@, authority)),
            Ok(None) => None,
            Ok(Some(dst_inode)) => match dst_read {
                Err(e) => Some(metadata_failure(ctx, e@, authority)),
                Ok(None) => None,
                Ok(Some(_)) => if v.writes_under(dst_inode, now_ms) {
                    Some(
                        metadata_failure(
                            ctx,
                            active_write_error(
                                "Rename target contains an active write lease: "@,
                                dst_inode,
                            ),
                            authority,
                        ),
                    )
                } else {
                    None
                },
            },
        }
    }
}

/// Whether the writers of the replaced target are looked at: the source has none, and there
/// is such a target.
pub open spec fn looks_at_target(
    v: RegistryView,
    src_inode: InodeId,
    dentry: DentryRead,
    dst_read: InodeRead,
    now_ms: u64,
) -> bool {
    &&& !v.writes_under(src_inode, now_ms)
    &&& dentry matches Ok(Some(_))
    &&& dst_read matches Ok(Some(_))
}

/// Checks that no live writer stands in the way of a rename. A live writer at or below the
/// source or the replaced target fails it.
pub fn admit_rename(
    registry: &mut SessionRegistry,
    ctx: &RequestContext,
    authority: &Authority,
    src_inode: InodeId,
    dentry: &DentryRead,
    dst_read: &InodeRead,
    now_ms: u64,
) -> (r: Result<(), FsFailure>)
    requires
        old(registry).wf(),
    ensures
        final(registry).wf(),
        final(registry).limits() == old(registry).limits(),
        ({
            let failure = rename_busy_failure(
                old(registry)@,
                ctx@,
                authority@,
                src_inode,
                *dentry,
                *dst_read,
                now_ms,
            );
            match r {
                Ok(()) => failure is None,
                Err(f) => failure == Some(f@),
            }
        }),
        final(registry)@ == if looks_at_target(
            old(registry)@,
            src_inode,
            *dentry,
            *dst_read,
            now_ms,
        ) {
            old(registry)@.sweep(now_ms).sweep(now_ms)
        } else {
            old(registry)@.sweep(now_ms)
        },
{
    proof {
        if let Ok(Some(dst)) = *dentry {
            crate::session::laws::sweep_keeps_live_writes(
                registry@,
                registry.limits(),
                dst,
                now_ms,
            );
        }
    }
    if registry.has_active_write_under(src_inode, now_ms) {
        return Err(
            active_write_failure(
                ctx,
                "Rename source contains an active write lease: ",
                src_inode,
                authority,
            ),
        );
    }
    match dentry {
        Err(e) => Err(fs_failure_from_metadata_error(ctx, e, authority)),
        Ok(None) => Ok(()),
        Ok(Some(dst_inode)) => match dst_read {
            Err(e) => Err(fs_failure_from_metadata_error(ctx, e, authority)),
            Ok(None) => Ok(()),
            Ok(Some(inode)) => {
                let active = if inode.file_type().is_file() {
                    registry.has_active_write(*dst_inode, now_ms)
                } else {
                    registry.has_active_write_under(*dst_inode, now_ms)
                };
                if active {
                    Err(
                        active_write_failure(
                            ctx,
                            "Rename target contains an active write lease: ",
                            *dst_inode,
                            authority,
                        ),
                    )
                } else {
                    Ok(())
                }
            },
        },
    }
}

/// What a rename reads before it is proposed.
#[derive(Debug)]
pub struct RenameReads {
    pub src_parent: InodeRead,
    pub dst_parent: InodeRead,
    /// The entry that the rename replaces.
    pub dentry: DentryRead,
    /// The inode of that entry.
    pub replaced: InodeRead,
}

/// The value of what routing a write returned.
pub open spec fn route_view(routed: Result<RoutedFsWriteCtx, FsFailure>) -> Result<
    RoutedFsWriteCtx,
    FsFailureView,
> {
    match routed {
        Ok(r) => Ok(r),
        Err(f) => Err(f@),
    }
}

/// What the checks of a rename do, and why they refuse it, if they do: flags and parents
/// first, then the route, then live writers.
pub open spec fn rename_checked(
    v: RegistryView,
    ctx: RequestContextView,
    plan: RenamePlanView,
    reads: RenameReads,
    src_authority: AuthorityView,
    routed: Result<RoutedFsWriteCtx, FsFailureView>,
    now_ms: u64,
) -> (RegistryView, Option<FsFailureView>) {
    let parents = rename_parents_failure(
        ctx,
        plan.flags,
        plan.src_parent_inode_id,
        reads.src_parent,
        plan.dst_parent_inode_id,
        reads.dst_parent,
        src_authority,
    );
    if parents is Some {
        (v, parents)
    } else {
        match routed {
            Err(f) => (v, Some(f)),
            Ok(route) => (
                if looks_at_target(
                    v,
                    plan.expected_src_inode_id,
                    reads.dentry,
                    reads.replaced,
                    now_ms,
                ) {
                    v.sweep(now_ms).sweep(now_ms)
                } else {
                    v.sweep(now_ms)
                },
                rename_busy_failure(
                    v,
                    ctx,
                    route.authority_view(),
                    plan.expected_src_inode_id,
                    reads.dentry,
                    reads.replaced,
                    now_ms,
                ),
            ),
        }
    }
}

/// Makes every check of a planned rename, in order. Returns where it is to be proposed.
pub fn execute_rename(
    registry: &mut SessionRegistry,
    ctx: &RequestContext,
    command: &Command,
    reads: &RenameReads,
    src_authority: &Authority,
    routed: Result<RoutedFsWriteCtx, FsFailure>,
    now_ms: u64,
) -> (r: Result<RoutedFsWriteCtx, FsFailure>)
    requires
        old(registry).wf(),
        rename_command_view(*command) is Some,
    ensures
        final(registry).wf(),
        final(registry).limits() == old(registry).limits(),
        ({
            let outcome = rename_checked(
                old(registry)@,
                ctx@,
                rename_command_view(*command)->0,
                *reads,
                src_authority@,
                route_view(routed),
                now_ms,
            );
            &&& final(registry)@ == outcome.0
            &&& match r {
                Ok(route) => outcome.1 is None && routed == Ok::<RoutedFsWriteCtx, FsFailure>(
                    route,
                ),
                Err(f) => outcome.1 == Some(f@),
            }
        }),
{
    let (src_parent, src_inode, dst_parent, flags) = match command {
        Command::Rename {
            src_parent_inode_id,
            expected_src_inode_id,
            dst_parent_inode_id,
            flags,
            ..
        } => (*src_parent_inode_id, *expected_src_inode_id, *dst_parent_inode_id, *flags),
        _ => (InodeId(0), InodeId(0), InodeId(0), 0),
    };
    match check_rename_parents(
        ctx,
        flags,
        src_parent,
        &reads.src_parent,
        dst_parent,
        &reads.dst_parent,
        src_authority,
    ) {
        Ok(()) => {},
        Err(f) => return Err(f),
    }
    let route = match routed {
        Ok(route) => route,
        Err(f) => return Err(f),
    };
    let authority = route.authority();
    match admit_rename(
        registry,
        ctx,
        &authority,
        src_inode,
        &reads.dentry,
        &reads.replaced,
        now_ms,
    ) {
        Ok(()) => Ok(route),
        Err(f) => Err(f),
    }
}

/// Accepts only the success of a rename.
pub fn decode_rename(reply: RaftReply) -> (r: Result<(), MetadataError>)
    ensures
        match r {
            Ok(()) => expected_reply("Rename"@, reply, ApplySuccess::RenameApplied) is Ok,
            Err(e) => expected_reply("Rename"@, reply, ApplySuccess::RenameApplied) == Err::<
                (),
                MetadataErrorView,
            >(e@),
        },
{
    require_reply("Rename", reply, ApplySuccess::RenameApplied)
}

/// A rename never crosses a live writer: where the check lets it pass, no session or
/// pending create lives at or below its source, nor at or below a target that exists.
pub proof fn admitted_renames_cross_no_writer(
    v: RegistryView,
    ctx: RequestContextView,
    authority: AuthorityView,
    src_inode: InodeId,
    dentry: DentryRead,
    dst_read: InodeRead,
    now_ms: u64,
)
    requires
        rename_busy_failure(v, ctx, authority, src_inode, dentry, dst_read, now_ms) is None,
    ensures
        !v.writes_under(src_inode, now_ms),
        match (dentry, dst_read) {
            (Ok(Some(dst)), Ok(Some(_))) => !v.writes_under(dst, now_ms),
            _ => true,
        },
{
}

// ---- create ----

/// What a client needs to begin writing a file that was just created.
#[derive(Clone, Copy, Debug, PartialEq, Eq, Structural)]
pub struct CreatedFileOutput {
    pub inode_id: InodeId,
    pub lease_epoch: LeaseEpoch,
    pub layout: FileLayout,
    pub expires_at_ms: u64,
    pub generation: ContentGeneration,
}

/// The chain to the parent of a resolved path: without the target, where the target exists.
pub open spec fn parent_chain(resolved: ResolvedPath) -> Seq<InodeId> {
    let chain = resolved.ancestor_inode_ids@;
    if resolved.inode_id is Some && chain.len() > 0 {
        chain.drop_last()
    } else {
        chain
    }
}

/// The parent of a file that is to be created, and the chain to it.
pub open spec fn create_parent(ctx: RequestContextView, resolved: ResolvedPath) -> Result<
    (InodeId, Seq<InodeId>),
    FsFailureView,
> {
    let chain = parent_chain(resolved);
    if resolved.parent_inode_id is None || resolved.name is None {
        Err(metadata_failure(ctx, mount_root_error(), resolved.mount_ctx@.authority()))
    } else if chain.len() == 0 || chain.last() != resolved.parent_inode_id->0 {
        Err(
            metadata_failure(
                ctx,
                MetadataErrorView {
                    code: MetadataErrorCode::Internal,
                    text: "CreateFile resolved parent chain is inconsistent"@,
                },
                resolved.mount_ctx@.authority(),
            ),
        )
    } else {
        Ok((resolved.parent_inode_id->0, chain))
    }
}

/// Returns the parent of a file that is to be created, and the chain to it.
pub fn plan_create_parent(ctx: &RequestContext, resolved: &ResolvedPath) -> (r: Result<
    (InodeId, Vec<InodeId>),
    FsFailure,
>)
    ensures
        match r {
            Ok(p) => create_parent(ctx@, *resolved) == Ok::<
                (InodeId, Seq<InodeId>),
                FsFailureView,
            >((p.0, p.1@)),
            Err(f) => create_parent(ctx@, *resolved) == Err::<
                (InodeId, Seq<InodeId>),
                FsFailureView,
            >(f@),
        },
{
    let parent = match (resolved.parent_inode_id, &resolved.name) {
        (Some(parent), Some(_)) => parent,
        _ => return Err(mount_root_failure(ctx, &resolved.mount_ctx)),
    };
    let mut chain = crate::session::types::copy_inodes(&resolved.ancestor_inode_ids);
    if resolved.inode_id.is_some() {
        chain.pop();
    }
    assert(chain@ =~= parent_chain(*resolved));
    if chain.len() == 0 || chain[chain.len() - 1] != parent {
        let error = MetadataError::Internal(
            "CreateFile resolved parent chain is inconsistent".to_owned(),
        );
        let authority = resolved.mount_ctx.authority();
        return Err(fs_failure_from_metadata_error(ctx, &error, &authority));
    }
    Ok((parent, chain))
}

/// What refuses a create that could not be reserved.
pub open spec fn create_refusal(error: BeginCreateSessionError) -> MetadataErrorView {
    match error {
        BeginCreateSessionError::Pending => MetadataErrorView {
            code: MetadataErrorCode::Again,
            text: "the same CreateFile operation is still pending"@,
        },
        BeginCreateSessionError::PathBusy => MetadataErrorView {
            code: MetadataErrorCode::Again,
            text: "another CreateFile operation is pending for this path"@,
        },
        BeginCreateSessionError::IdentityMismatch => MetadataErrorView {
            code: MetadataErrorCode::InvalidArgument,
            text: "CreateFile operation identity was reused for another request"@,
        },
        BeginCreateSessionError::LimitExceeded(rejection) => MetadataErrorView {
            code: MetadataErrorCode::WriteSessionLimitExceeded,
            text: session_limit_text(rejection),
        },
        BeginCreateSessionError::OpeningIdExhausted => MetadataErrorView {
            code: MetadataErrorCode::ResourceExhausted,
            text: "leader-local write opening identity exhausted"@,
        },
        BeginCreateSessionError::InvalidAncestorChain => MetadataErrorView {
            code: MetadataErrorCode::Internal,
            text: "validated CreateFile parent chain was rejected"@,
        },
    }
}

/// The wording for a session limit that was reached.
pub open spec fn session_limit_text(rejection: WriteSessionLimitExceeded) -> Seq<char> {
    rejection.limit.text() + " limit "@ + decimal(rejection.maximum as nat) + " reached"@
}

/// Returns the wording for a session limit that was reached.
pub fn session_limit_message(rejection: WriteSessionLimitExceeded) -> (r: String)
    ensures
        r@ == session_limit_text(rejection),
{
    let maximum = decimal_text(rejection.maximum as u128);
    let mut out = join(rejection.limit.label(), " limit ");
    out.append(maximum.as_str());
    out.append(" reached");
    out
}

fn create_refusal_error(error: BeginCreateSessionError) -> (r: MetadataError)
    ensures
        r@ == create_refusal(error),
{
    match error {
        BeginCreateSessionError::Pending => MetadataError::Again(
            "the same CreateFile operation is still pending".to_owned(),
        ),
        BeginCreateSessionError::PathBusy => MetadataError::Again(
            "another CreateFile operation is pending for this path".to_owned(),
        ),
        BeginCreateSessionError::IdentityMismatch => MetadataError::InvalidArgument(
            "CreateFile operation identity was reused for another request".to_owned(),
        ),
        BeginCreateSessionError::LimitExceeded(rejection) =>
            MetadataError::WriteSessionLimitExceeded(session_limit_message(rejection)),
        BeginCreateSessionError::OpeningIdExhausted => MetadataError::ResourceExhausted(
            "leader-local write opening identity exhausted".to_owned(),
        ),
        BeginCreateSessionError::InvalidAncestorChain => MetadataError::Internal(
            "validated CreateFile parent chain was rejected".to_owned(),
        ),
    }
}

/// What a create is to do next.
pub enum CreateStep {
    /// The operation already succeeded: answer as it did.
    Replay(CreatedFileOutput),
    /// Capacity is reserved: propose the command, then finish the opening.
    Propose(CreateOpening, Command),
}

/// The reservation that a create of this caller asks for.
pub open spec fn create_input(
    ctx: RequestContextView,
    routed: RoutedFsWriteCtx,
    normalized_path: Seq<char>,
    chain: Seq<InodeId>,
) -> BeginCreateSessionInputView {
    BeginCreateSessionInputView {
        operation_id: CreateFileOperationId {
            client_id: ctx.caller.client.client_id,
            call_id: ctx.caller.client.call_id,
        },
        request_deadline_ms: ctx.caller.deadline.0 as u64,
        normalized_path,
        mount_id: routed.mount_id,
        expected_mount_epoch: routed.mount_epoch,
        mount_root_inode_id: routed.mount_root_inode_id,
        open_client_id: ctx.caller.client.client_id,
        parent_ancestor_inode_ids: chain,
    }
}

/// The response that a session of a create replays.
pub open spec fn created_output(replay: CreateSessionReplay) -> CreatedFileOutput {
    CreatedFileOutput {
        inode_id: replay.inode_id,
        lease_epoch: replay.lease_epoch,
        layout: replay.layout,
        expires_at_ms: replay.expires_at_ms,
        generation: replay.generation,
    }
}

/// Whether a command creates the file that was reserved.
pub open spec fn creates_reserved_file(
    command: Command,
    input: BeginCreateSessionInputView,
    expires_at_ms: u64,
    components: Seq<String>,
    layout: FileLayout,
) -> bool {
    match command {
        Command::CreateFile {
            operation_id,
            request_deadline_ms,
            session_expires_at_ms,
            normalized_path,
            mount_id,
            expected_mount_epoch,
            mount_root_inode_id,
            relative_components,
            layout: command_layout,
        } => {
            &&& operation_id == input.operation_id
            &&& request_deadline_ms == input.request_deadline_ms
            &&& session_expires_at_ms == expires_at_ms
            &&& normalized_path@ == input.normalized_path
            &&& mount_id == input.mount_id
            &&& expected_mount_epoch == input.expected_mount_epoch
            &&& mount_root_inode_id == input.mount_root_inode_id
            &&& relative_components@ == components
            &&& command_layout == layout
        },
        _ => false,
    }
}

/// Rejects a create whose deadline has passed.
pub fn require_create_deadline(ctx: &RequestContext, now_ms: u64) -> (r: Result<
    (),
    MetadataError,
>)
    ensures
        if now_ms >= ctx@.caller.deadline.0 {
            &&& r is Err
            &&& (r->Err_0)@ == (MetadataErrorView {
                code: MetadataErrorCode::InvalidArgument,
                text: "CreateFile request deadline has expired"@,
            })
        } else {
            r is Ok
        },
{
    if ctx.caller.deadline.has_passed(now_ms) {
        return Err(
            MetadataError::InvalidArgument("CreateFile request deadline has expired".to_owned()),
        );
    }
    Ok(())
}

/// Reserves a create, or replays it. A deadline before the Unix epoch is rejected.
pub fn begin_create(
    registry: &mut SessionRegistry,
    ctx: &RequestContext,
    routed: &RoutedFsWriteCtx,
    normalized_path: String,
    relative_components: Vec<String>,
    chain: Vec<InodeId>,
    layout: FileLayout,
    now_ms: u64,
) -> (r: Result<CreateStep, FsFailure>)
    requires
        old(registry).wf(),
    ensures
        final(registry).wf(),
        final(registry).limits() == old(registry).limits(),
        ctx@.caller.deadline.0 < 0 ==> {
            &&& final(registry)@ == old(registry)@
            &&& r is Err
            &&& (r->Err_0)@ == metadata_failure(
                ctx@,
                MetadataErrorView {
                    code: MetadataErrorCode::InvalidArgument,
                    text: "CreateFile deadline must be non-negative"@,
                },
                routed.authority_view(),
            )
        },
        ctx@.caller.deadline.0 >= 0 ==> {
            let input = create_input(ctx@, *routed, normalized_path@, chain@);
            let outcome = old(registry)@.begin_create_session(
                old(registry).limits(),
                input,
                now_ms,
            );
            &&& final(registry)@ == outcome.0
            &&& match outcome.1 {
                Err(e) => r is Err && (r->Err_0)@ == metadata_failure(
                    ctx@,
                    create_refusal(e),
                    routed.authority_view(),
                ),
                Ok(BeginCreateSession::Replay(replay)) => r is Ok && r->Ok_0
                    == CreateStep::Replay(created_output(replay)),
                Ok(BeginCreateSession::Reserved(opening)) => match r {
                    Ok(CreateStep::Propose(o, command)) => o == opening && creates_reserved_file(
                        command,
                        input,
                        opening.expires_at_ms,
                        relative_components@,
                        layout,
                    ),
                    _ => false,
                },
            }
        },
{
    let authority = routed.authority();
    let deadline_ms: i64 = ctx.caller.deadline.as_unix_ms();
    if deadline_ms < 0 {
        let error = MetadataError::InvalidArgument(
            "CreateFile deadline must be non-negative".to_owned(),
        );
        return Err(fs_failure_from_metadata_error(ctx, &error, &authority));
    }
    let request_deadline_ms: u64 = deadline_ms as u64;
    let operation_id = CreateFileOperationId {
        client_id: ctx.caller.client.client_id,
        call_id: ctx.caller.client.call_id,
    };
    let input = BeginCreateSessionInput {
        operation_id,
        request_deadline_ms,
        normalized_path: normalized_path.clone(),
        mount_id: routed.mount_id,
        expected_mount_epoch: routed.mount_epoch,
        mount_root_inode_id: routed.mount_root_inode_id,
        open_client_id: ctx.caller.client.client_id,
        parent_ancestor_inode_ids: chain,
    };
    assert(input@ == create_input(ctx@, *routed, normalized_path@, chain@));
    match registry.begin_create_session_at(input, now_ms) {
        Err(e) => {
            let error = create_refusal_error(e);
            Err(fs_failure_from_metadata_error(ctx, &error, &authority))
        },
        Ok(BeginCreateSession::Replay(replay)) => Ok(
            CreateStep::Replay(
                CreatedFileOutput {
                    inode_id: replay.inode_id,
                    lease_epoch: replay.lease_epoch,
                    layout: replay.layout,
                    expires_at_ms: replay.expires_at_ms,
                    generation: replay.generation,
                },
            ),
        ),
        Ok(BeginCreateSession::Reserved(opening)) => {
            let command = Command::CreateFile {
                operation_id,
                request_deadline_ms,
                session_expires_at_ms: opening.expires_at_ms,
                normalized_path,
                mount_id: routed.mount_id,
                expected_mount_epoch: routed.mount_epoch,
                mount_root_inode_id: routed.mount_root_inode_id,
                relative_components,
                layout,
            };
            Ok(CreateStep::Propose(opening, command))
        },
    }
}

/// Why a create is refused before anything is reserved, if it is: the layout of new files
/// is not valid, or the write has no route.
pub open spec fn create_unroutable(
    ctx: RequestContextView,
    layout: FileLayout,
    routed: Result<RoutedFsWriteCtx, FsFailureView>,
) -> Option<FsFailureView> {
    match layout_error(layout) {
        Some(e) => Some(
            metadata_failure(
                ctx,
                MetadataErrorView {
                    code: MetadataErrorCode::InvalidArgument,
                    text: "invalid file layout: "@ + e.text(),
                },
                AuthorityView::unknown(),
            ),
        ),
        None => match routed {
            Err(f) => Some(f),
            Ok(_) => None,
        },
    }
}

/// Checks the layout of new files, then that the create has a route.
pub fn route_create(
    ctx: &RequestContext,
    layout: FileLayout,
    routed: Result<RoutedFsWriteCtx, FsFailure>,
) -> (r: Result<RoutedFsWriteCtx, FsFailure>)
    ensures
        match create_unroutable(ctx@, layout, route_view(routed)) {
            Some(f) => r is Err && (r->Err_0)@ == f,
            None => r is Ok && r == routed,
        },
{
    match validate_active_write_layout(&layout) {
        Ok(()) => {},
        Err(e) => {
            let unknown = Authority::unknown();
            return Err(fs_failure_from_metadata_error(ctx, &e, &unknown));
        },
    }
    routed
}

/// The file that a create made.
pub open spec fn create_reply(reply: RaftReply) -> Result<CreatedFileOutput, MetadataErrorView> {
    match reply {
        Err(e) => Err(e@),
        Ok(ApplySuccess::FileCreated { inode_id, layout, lease_epoch, expires_at_ms, generation }) =>
            Ok(CreatedFileOutput { inode_id, lease_epoch, layout, expires_at_ms, generation }),
        Ok(success) => Err(unexpected_success("CreateFile"@, success)),
    }
}

fn decode_create(reply: RaftReply) -> (r: Result<CreatedFileOutput, MetadataError>)
    ensures
        match r {
            Ok(o) => create_reply(reply) == Ok::<CreatedFileOutput, MetadataErrorView>(o),
            Err(e) => create_reply(reply) == Err::<CreatedFileOutput, MetadataErrorView>(e@),
        },
{
    match reply {
        Err(e) => Err(e),
        Ok(success) => match success {
            ApplySuccess::FileCreated {
                inode_id,
                layout,
                lease_epoch,
                expires_at_ms,
                generation,
            } => Ok(
                CreatedFileOutput { inode_id, lease_epoch, layout, expires_at_ms, generation },
            ),
            _ => Err(unexpected_raft_apply_success("CreateFile", success)),
        },
    }
}

/// What refuses a create whose file exists but whose session could not be installed.
pub open spec fn create_activation_refusal(
    error: WriteOpeningError,
    inode: InodeId,
) -> MetadataErrorView {
    match error {
        WriteOpeningError::LeaseEpochMismatch { expected, got } => MetadataErrorView {
            code: MetadataErrorCode::Internal,
            text: "CreateFile opening epoch mismatch for inode "@ + decimal(inode.0 as nat)
                + ": expected "@ + decimal(expected.0 as nat) + ", got "@ + decimal(got.0 as nat),
        },
        _ => MetadataErrorView {
            code: MetadataErrorCode::Again,
            text: "CreateFile committed but its local write opening expired for inode "@ + decimal(
                inode.0 as nat,
            ),
        },
    }
}

fn create_activation_error(error: WriteOpeningError, inode: InodeId) -> (r: MetadataError)
    ensures
        r@ == create_activation_refusal(error, inode),
{
    let inode_text = inode.to_text();
    match error {
        WriteOpeningError::LeaseEpochMismatch { expected, got } => {
            let expected_text = decimal_text(expected.0 as u128);
            let got_text = decimal_text(got.0 as u128);
            let mut out = join(
                "CreateFile opening epoch mismatch for inode ",
                inode_text.as_str(),
            );
            out.append(": expected ");
            out.append(expected_text.as_str());
            out.append(", got ");
            out.append(got_text.as_str());
            MetadataError::Internal(out)
        },
        _ => MetadataError::Again(
            join(
                "CreateFile committed but its local write opening expired for inode ",
                inode_text.as_str(),
            ),
        ),
    }
}

/// What finishing a create does and answers: a create that failed is released, one that
/// was applied becomes an active session.
pub open spec fn create_finished(
    v: RegistryView,
    ctx: RequestContextView,
    authority: AuthorityView,
    opening: CreateOpening,
    reply: RaftReply,
    now_ms: u64,
) -> (RegistryView, Result<CreatedFileOutput, FsFailureView>) {
    match create_reply(reply) {
        Err(e) => (
            v.cancel_create_opening(opening.operation_id, opening.opening_id),
            Err(metadata_failure(ctx, e, authority)),
        ),
        Ok(created) => {
            let activated = opening.activated(
                v,
                created.inode_id,
                created.lease_epoch,
                created.expires_at_ms,
                created.layout,
                created.generation,
                now_ms,
            );
            match activated.1 {
                Err(e) => (
                    activated.0,
                    Err(
                        metadata_failure(
                            ctx,
                            create_activation_refusal(e, created.inode_id),
                            authority,
                        ),
                    ),
                ),
                Ok(s) => (
                    activated.0,
                    Ok(
                        CreatedFileOutput {
                            inode_id: s.inode_id,
                            lease_epoch: s.lease_epoch,
                            layout: s.layout,
                            expires_at_ms: s.expires_at_ms,
                            generation: s.generation,
                        },
                    ),
                ),
            }
        },
    }
}

/// Finishes a create with what its command returned.
pub fn finish_create(
    registry: &mut SessionRegistry,
    ctx: &RequestContext,
    routed: &RoutedFsWriteCtx,
    opening: CreateOpening,
    reply: RaftReply,
    now_ms: u64,
) -> (r: Result<CreatedFileOutput, FsFailure>)
    requires
        old(registry).wf(),
    ensures
        final(registry).wf(),
        final(registry).limits() == old(registry).limits(),
        ({
            let outcome = create_finished(
                old(registry)@,
                ctx@,
                routed.authority_view(),
                opening,
                reply,
                now_ms,
            );
            &&& final(registry)@ == outcome.0
            &&& match r {
                Ok(o) => outcome.1 == Ok::<CreatedFileOutput, FsFailureView>(o),
                Err(f) => outcome.1 == Err::<CreatedFileOutput, FsFailureView>(f@),
            }
        }),
{
    let authority = routed.authority();
    let created = match decode_create(reply) {
        Ok(created) => created,
        Err(e) => {
            opening.release(registry);
            return Err(fs_failure_from_metadata_error(ctx, &e, &authority));
        },
    };
    match opening.activate(
        registry,
        created.inode_id,
        created.lease_epoch,
        created.expires_at_ms,
        created.layout,
        created.generation,
        now_ms,
    ) {
        Ok(session) => Ok(
            CreatedFileOutput {
                inode_id: session.inode_id,
                lease_epoch: session.lease_epoch,
                layout: session.layout,
                expires_at_ms: session.expires_at_ms,
                generation: session.generation,
            },
        ),
        Err(e) => {
            let error = create_activation_error(e, created.inode_id);
            Err(fs_failure_from_metadata_error(ctx, &error, &authority))
        },
    }
}

/// A create answers with the file that was made, and its replay answers the same.
pub proof fn a_finished_create_answers_what_was_made(
    v: RegistryView,
    ctx: RequestContextView,
    authority: AuthorityView,
    opening: CreateOpening,
    reply: RaftReply,
    now_ms: u64,
)
    requires
        create_finished(v, ctx, authority, opening, reply, now_ms).1 is Ok,
    ensures
        create_reply(reply) is Ok,
        create_finished(v, ctx, authority, opening, reply, now_ms).1->Ok_0
            == create_reply(reply)->Ok_0,
        ({
            let w = create_finished(v, ctx, authority, opening, reply, now_ms).0;
            let made = create_reply(reply)->Ok_0;
            &&& w.replays(opening.operation_id, made.inode_id.0)
            &&& created_output(
                (w.entries[made.inode_id.0]->Active_0.create_replay->0).response,
            ) == made
        }),
{
}

/// A create that fails leaves nothing behind: it holds neither capacity nor its path.
pub proof fn a_failed_create_leaves_nothing_behind(
    v: RegistryView,
    ctx: RequestContextView,
    authority: AuthorityView,
    opening: CreateOpening,
    reply: RaftReply,
    now_ms: u64,
)
    requires
        create_finished(v, ctx, authority, opening, reply, now_ms).1 is Err,
    ensures
        !create_finished(v, ctx, authority, opening, reply, now_ms).0.is_current_create(
            opening.operation_id,
            opening.opening_id,
        ),
{
}

// ---- delete ----

/// The target of a delete and its parent.
pub open spec fn delete_target(
    ctx: RequestContextView,
    path: Seq<char>,
    resolved: ResolvedPath,
) -> Result<(InodeId, InodeId), FsFailureView> {
    if resolved.parent_inode_id is None || resolved.name is None {
        Err(metadata_failure(ctx, mount_root_error(), resolved.mount_ctx@.authority()))
    } else if resolved.inode_id is None {
        Err(
            metadata_failure(
                ctx,
                MetadataErrorView {
                    code: MetadataErrorCode::NotFound,
                    text: "Entry not found: "@ + path,
                },
                resolved.mount_ctx@.authority(),
            ),
        )
    } else {
        Ok((resolved.parent_inode_id->0, resolved.inode_id->0))
    }
}

/// Returns the parent and the target of a delete.
pub fn plan_delete_target(ctx: &RequestContext, path: &str, resolved: &ResolvedPath) -> (r: Result<
    (InodeId, InodeId),
    FsFailure,
>)
    ensures
        match r {
            Ok(t) => delete_target(ctx@, path@, *resolved) == Ok::<
                (InodeId, InodeId),
                FsFailureView,
            >(t),
            Err(f) => delete_target(ctx@, path@, *resolved) == Err::<
                (InodeId, InodeId),
                FsFailureView,
            >(f@),
        },
{
    let parent = match (resolved.parent_inode_id, &resolved.name) {
        (Some(parent), Some(_)) => parent,
        _ => return Err(mount_root_failure(ctx, &resolved.mount_ctx)),
    };
    match resolved.inode_id {
        Some(target) => Ok((parent, target)),
        None => {
            let error = MetadataError::NotFound(join("Entry not found: ", path));
            let authority = resolved.mount_ctx.authority();
            Err(fs_failure_from_metadata_error(ctx, &error, &authority))
        },
    }
}

/// The epoch that fences a file which is to be deleted, or why the delete is refused.
pub open spec fn delete_admission(
    v: RegistryView,
    ctx: RequestContextView,
    authority: AuthorityView,
    inode: InodeId,
    read: InodeRead,
    now_ms: u64,
) -> Result<Option<LeaseEpoch>, FsFailureView> {
    if v.writes_under(inode, now_ms) {
        Err(
            metadata_failure(
                ctx,
                active_write_error("Delete target contains an active write lease: "@, inode),
                authority,
            ),
        )
    } else {
        match read {
            Err(e) => Err(metadata_failure(ctx, e@, authority)),
            Ok(None) => Err(
                metadata_failure(
                    ctx,
                    MetadataErrorView {
                        code: MetadataErrorCode::NotFound,
                        text: "Delete target inode not found: "@ + decimal(inode.0 as nat),
                    },
                    authority,
                ),
            ),
            Ok(Some(_)) => Ok(replaced_lease_epoch(read)),
        }
    }
}

/// Whether a command deletes exactly this inode under this route.
pub open spec fn deletes(
    command: Command,
    routed: RoutedFsWriteCtx,
    components: Seq<String>,
    inode: InodeId,
    lease_epoch: Option<LeaseEpoch>,
    is_recursive: bool,
) -> bool {
    match command {
        Command::Delete {
            mount_id,
            expected_mount_epoch,
            mount_root_inode_id,
            relative_components,
            expected_inode_id,
            expected_file_lease_epoch,
            recursive,
        } => {
            &&& mount_id == routed.mount_id
            &&& expected_mount_epoch == routed.mount_epoch
            &&& mount_root_inode_id == routed.mount_root_inode_id
            &&& relative_components@ == components
            &&& expected_inode_id == inode
            &&& expected_file_lease_epoch == lease_epoch
            &&& recursive == is_recursive
        },
        _ => false,
    }
}

/// Checks that no live writer stands in the way of a delete, and returns its command.
pub fn admit_delete(
    registry: &mut SessionRegistry,
    ctx: &RequestContext,
    routed: &RoutedFsWriteCtx,
    relative_components: Vec<String>,
    inode: InodeId,
    read: &InodeRead,
    recursive: bool,
    now_ms: u64,
) -> (r: Result<Command, FsFailure>)
    requires
        old(registry).wf(),
    ensures
        final(registry).wf(),
        final(registry).limits() == old(registry).limits(),
        final(registry)@ == old(registry)@.sweep(now_ms),
        ({
            let admission = delete_admission(
                old(registry)@,
                ctx@,
                routed.authority_view(),
                inode,
                *read,
                now_ms,
            );
            match r {
                Ok(command) => admission is Ok && deletes(
                    command,
                    *routed,
                    relative_components@,
                    inode,
                    admission->Ok_0,
                    recursive,
                ),
                Err(f) => admission == Err::<Option<LeaseEpoch>, FsFailureView>(f@),
            }
        }),
{
    let authority = routed.authority();
    if registry.has_active_write_under(inode, now_ms) {
        return Err(
            active_write_failure(
                ctx,
                "Delete target contains an active write lease: ",
                inode,
                &authority,
            ),
        );
    }
    let expected_file_lease_epoch = match read {
        Err(e) => return Err(fs_failure_from_metadata_error(ctx, e, &authority)),
        Ok(None) => {
            let text = inode.to_text();
            let error = MetadataError::NotFound(
                join("Delete target inode not found: ", text.as_str()),
            );
            return Err(fs_failure_from_metadata_error(ctx, &error, &authority));
        },
        Ok(Some(stored)) => match &stored.kind {
            InodeKind::File(file) => Some(file.lease_epoch),
            InodeKind::Dir => None,
        },
    };
    Ok(
        Command::Delete {
            mount_id: routed.mount_id,
            expected_mount_epoch: routed.mount_epoch,
            mount_root_inode_id: routed.mount_root_inode_id,
            relative_components,
            expected_inode_id: inode,
            expected_file_lease_epoch,
            recursive,
        },
    )
}

/// Accepts only the success of a delete.
pub fn decode_delete(reply: RaftReply) -> (r: Result<(), MetadataError>)
    ensures
        match r {
            Ok(()) => expected_reply("Delete"@, reply, ApplySuccess::DeleteApplied) is Ok,
            Err(e) => expected_reply("Delete"@, reply, ApplySuccess::DeleteApplied) == Err::<
                (),
                MetadataErrorView,
            >(e@),
        },
{
    require_reply("Delete", reply, ApplySuccess::DeleteApplied)
}

/// A delete never crosses a live writer: where it is admitted, no session or pending create
/// lives at or below its target.
pub proof fn admitted_deletes_cross_no_writer(
    v: RegistryView,
    ctx: RequestContextView,
    authority: AuthorityView,
    inode: InodeId,
    read: InodeRead,
    now_ms: u64,
)
    requires
        delete_admission(v, ctx, authority, inode, read, now_ms) is Ok,
    ensures
        !v.writes_under(inode, now_ms),
{
}

} // verus!
