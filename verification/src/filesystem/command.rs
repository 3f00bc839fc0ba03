//! Replicated commands, what applying them returns, and write routing.

use vstd::prelude::*;

use crate::error::{MetadataError, MetadataErrorCode, MetadataErrorView};
use crate::filesystem::context::{
    fs_failure_from_metadata_error, metadata_failure, Authority, AuthorityView, FsFailure,
    RequestContext,
};
use crate::fs::ContentGeneration;
use crate::ids::{BlockId, CallId, ClientId, GroupName, InodeId, MountId, WorkerId};
use crate::inode::Inode;
use crate::layout::FileLayout;
use crate::lease::{LeaseEpoch, WriteHandle};
use crate::location::CommittedBlock;
use crate::session::index::CreateFileOperationId;
use crate::text::{decimal, decimal_text, join};

verus! {

/// What a publication does to the visible contents that it was made for.
#[derive(Clone, Copy, Debug, PartialEq, Eq, Hash, Structural)]
pub enum PublishMode {
    ReplaceIfUnchanged,
    AppendIfUnchanged,
}

/// A change of the visible contents, with the state that it was made for.
#[derive(Debug)]
pub struct FilePublication {
    pub blocks: Vec<CommittedBlock>,
    pub target_size: u64,
    pub expected_generation: ContentGeneration,
    pub expected_file_size: u64,
    pub lease_epoch: LeaseEpoch,
    pub mode: PublishMode,
}

/// A command that the metadata group replicates.
#[derive(Debug)]
pub enum Command {
    CreateDirectory { root_inode_id: InodeId, components: Vec<String>, recursive: bool },
    CreateFile {
        operation_id: CreateFileOperationId,
        request_deadline_ms: u64,
        session_expires_at_ms: u64,
        normalized_path: String,
        mount_id: MountId,
        expected_mount_epoch: u64,
        mount_root_inode_id: InodeId,
        relative_components: Vec<String>,
        layout: FileLayout,
    },
    Rename {
        src_parent_inode_id: InodeId,
        src_name: String,
        expected_src_inode_id: InodeId,
        dst_parent_inode_id: InodeId,
        dst_name: String,
        expected_dst_inode_id: Option<InodeId>,
        expected_dst_lease_epoch: Option<LeaseEpoch>,
        flags: u32,
    },
    Delete {
        mount_id: MountId,
        expected_mount_epoch: u64,
        mount_root_inode_id: InodeId,
        relative_components: Vec<String>,
        expected_inode_id: InodeId,
        expected_file_lease_epoch: Option<LeaseEpoch>,
        recursive: bool,
    },
    AcquireWriteLease { inode_id: InodeId, expected_lease_epoch: LeaseEpoch },
    AllocateBlock { inode_id: InodeId, lease_epoch: LeaseEpoch },
    EndWriteLease { inode_id: InodeId, lease_epoch: LeaseEpoch },
    PublishFile { inode_id: InodeId, publication: FilePublication },
    CommitFile {
        inode_id: InodeId,
        client_id: ClientId,
        call_id: CallId,
        publication: FilePublication,
    },
    RegisterWorkerDescriptor {
        group_name: GroupName,
        worker_id: WorkerId,
        address: String,
        worker_net_protocol: i32,
    },
}

impl Command {
    /// The name of the operation that proposes the command.
    pub open spec fn name(&self) -> Seq<char> {
        match self {
            Command::CreateDirectory { .. } => "CreateDirectory"@,
            Command::CreateFile { .. } => "CreateFile"@,
            Command::Rename { .. } => "Rename"@,
            Command::Delete { .. } => "Delete"@,
            Command::AcquireWriteLease { .. } => "AcquireWriteLease"@,
            Command::AllocateBlock { .. } => "AllocateBlock"@,
            Command::EndWriteLease { .. } => "EndWriteLease"@,
            Command::PublishFile { .. } => "PublishFile"@,
            Command::CommitFile { .. } => "CommitFile"@,
            Command::RegisterWorkerDescriptor { .. } => "RegisterWorkerDescriptor"@,
        }
    }

    /// Returns the name of the operation that proposes the command.
    pub fn operation_name(&self) -> (r: &'static str)
        ensures
            r@ == self.name(),
    {
        match self {
            Command::CreateDirectory { .. } => "CreateDirectory",
            Command::CreateFile { .. } => "CreateFile",
            Command::Rename { .. } => "Rename",
            Command::Delete { .. } => "Delete",
            Command::AcquireWriteLease { .. } => "AcquireWriteLease",
            Command::AllocateBlock { .. } => "AllocateBlock",
            Command::EndWriteLease { .. } => "EndWriteLease",
            Command::PublishFile { .. } => "PublishFile",
            Command::CommitFile { .. } => "CommitFile",
            Command::RegisterWorkerDescriptor { .. } => "RegisterWorkerDescriptor",
        }
    }
}

/// Returns the command that ends the lease of a handle. Ordered behind another command of the
/// same epoch, it rules out that the other applies later.
pub fn fence_command(handle: WriteHandle) -> (r: Command)
    ensures
        r == (Command::EndWriteLease {
            inode_id: handle.inode_id,
            lease_epoch: handle.lease_epoch,
        }),
{
    Command::EndWriteLease { inode_id: handle.inode_id, lease_epoch: handle.lease_epoch }
}

/// What applying a command returned.
#[derive(Clone, Copy, Debug, PartialEq, Eq, Structural)]
pub enum ApplySuccess {
    RaftEntryApplied,
    DirectoryEnsured { inode_id: InodeId },
    FileCreated {
        inode_id: InodeId,
        layout: FileLayout,
        lease_epoch: LeaseEpoch,
        expires_at_ms: u64,
        generation: ContentGeneration,
    },
    RenameApplied,
    DeleteApplied,
    WriteLeaseAcquired { inode_id: InodeId, lease_epoch: LeaseEpoch },
    BlockAllocated(BlockId),
    WriteLeaseEnded { inode_id: InodeId, lease_epoch: LeaseEpoch },
    FilePublished { inode_id: InodeId, generation: ContentGeneration },
    FileCommitted {
        inode_id: InodeId,
        lease_epoch: LeaseEpoch,
        generation: ContentGeneration,
    },
    WorkerUpserted(WorkerId),
}

fn push_number(out: &mut String, n: u64)
    ensures
        final(out)@ == old(out)@ + decimal(n as nat),
{
    let text = decimal_text(n as u128);
    out.append(text.as_str());
}

impl ApplySuccess {
    /// What was returned, as diagnostics print it.
    pub open spec fn text(self) -> Seq<char> {
        match self {
            ApplySuccess::RaftEntryApplied => "RaftEntryApplied"@,
            ApplySuccess::RenameApplied => "RenameApplied"@,
            ApplySuccess::DeleteApplied => "DeleteApplied"@,
            ApplySuccess::BlockAllocated(id) => "BlockAllocated(BlockId(inode_id="@ + decimal(
                id.inode_id.0 as nat,
            ) + ", index="@ + decimal(id.index.0 as nat) + "))"@,
            ApplySuccess::WorkerUpserted(id) => "WorkerUpserted(WorkerId("@ + decimal(
                id.0 as nat,
            ) + "))"@,
            ApplySuccess::DirectoryEnsured { inode_id } =>
                "DirectoryEnsured { inode_id: InodeId("@ + decimal(inode_id.0 as nat) + ") }"@,
            ApplySuccess::FileCreated { inode_id, layout, lease_epoch, expires_at_ms, generation } =>
                "FileCreated { inode_id: InodeId("@ + decimal(inode_id.0 as nat)
                    + "), layout: FileLayout { block_size: "@ + decimal(layout.block_size as nat)
                    + ", block_format_id: BlockFormatId("@
                    + decimal(layout.block_format_id.0 as nat) + ") }, lease_epoch: LeaseEpoch("@
                    + decimal(lease_epoch.0 as nat) + "), expires_at_ms: "@
                    + decimal(expires_at_ms as nat) + ", generation: ContentGeneration("@
                    + decimal(generation.0 as nat) + ") }"@,
            ApplySuccess::WriteLeaseAcquired { inode_id, lease_epoch } =>
                "WriteLeaseAcquired { inode_id: InodeId("@ + decimal(inode_id.0 as nat)
                    + "), lease_epoch: LeaseEpoch("@ + decimal(lease_epoch.0 as nat) + ") }"@,
            ApplySuccess::WriteLeaseEnded { inode_id, lease_epoch } =>
                "WriteLeaseEnded { inode_id: InodeId("@ + decimal(inode_id.0 as nat)
                    + "), lease_epoch: LeaseEpoch("@ + decimal(lease_epoch.0 as nat) + ") }"@,
            ApplySuccess::FilePublished { inode_id, generation } =>
                "FilePublished { inode_id: InodeId("@ + decimal(inode_id.0 as nat)
                    + "), generation: ContentGeneration("@ + decimal(generation.0 as nat)
                    + ") }"@,
            ApplySuccess::FileCommitted { inode_id, lease_epoch, generation } =>
                "FileCommitted { inode_id: InodeId("@ + decimal(inode_id.0 as nat)
                    + "), lease_epoch: LeaseEpoch("@ + decimal(lease_epoch.0 as nat)
                    + "), generation: ContentGeneration("@ + decimal(generation.0 as nat)
                    + ") }"@,
        }
    }

    /// Returns what was returned, as diagnostics print it.
    pub fn describe(self) -> (r: String)
        ensures
            r@ == self.text(),
    {
        match self {
            ApplySuccess::RaftEntryApplied => "RaftEntryApplied".to_owned(),
            ApplySuccess::RenameApplied => "RenameApplied".to_owned(),
            ApplySuccess::DeleteApplied => "DeleteApplied".to_owned(),
            ApplySuccess::BlockAllocated(id) => {
                let mut out = "BlockAllocated(BlockId(inode_id=".to_owned();
                push_number(&mut out, id.inode_id.0);
                out.append(", index=");
                push_number(&mut out, id.index.0 as u64);
                out.append("))");
                out
            },
            ApplySuccess::WorkerUpserted(id) => {
                let mut out = "WorkerUpserted(WorkerId(".to_owned();
                push_number(&mut out, id.0);
                out.append("))");
                out
            },
            ApplySuccess::DirectoryEnsured { inode_id } => {
                let mut out = "DirectoryEnsured { inode_id: InodeId(".to_owned();
                push_number(&mut out, inode_id.0);
                out.append(") }");
                out
            },
            ApplySuccess::FileCreated { inode_id, layout, lease_epoch, expires_at_ms, generation } => {
                let mut out = "FileCreated { inode_id: InodeId(".to_owned();
                push_number(&mut out, inode_id.0);
                out.append("), layout: FileLayout { block_size: ");
                push_number(&mut out, layout.block_size as u64);
                out.append(", block_format_id: BlockFormatId(");
                push_number(&mut out, layout.block_format_id.0 as u64);
                out.append(") }, lease_epoch: LeaseEpoch(");
                push_number(&mut out, lease_epoch.0);
                out.append("), expires_at_ms: ");
                push_number(&mut out, expires_at_ms);
                out.append(", generation: ContentGeneration(");
                push_number(&mut out, generation.0);
                out.append(") }");
                out
            },
            ApplySuccess::WriteLeaseAcquired { inode_id, lease_epoch } => {
                let mut out = "WriteLeaseAcquired { inode_id: InodeId(".to_owned();
                push_number(&mut out, inode_id.0);
                out.append("), lease_epoch: LeaseEpoch(");
                push_number(&mut out, lease_epoch.0);
                out.append(") }");
                out
            },
            ApplySuccess::WriteLeaseEnded { inode_id, lease_epoch } => {
                let mut out = "WriteLeaseEnded { inode_id: InodeId(".to_owned();
                push_number(&mut out, inode_id.0);
                out.append("), lease_epoch: LeaseEpoch(");
                push_number(&mut out, lease_epoch.0);
                out.append(") }");
                out
            },
            ApplySuccess::FilePublished { inode_id, generation } => {
                let mut out = "FilePublished { inode_id: InodeId(".to_owned();
                push_number(&mut out, inode_id.0);
                out.append("), generation: ContentGeneration(");
                push_number(&mut out, generation.0);
                out.append(") }");
                out
            },
            ApplySuccess::FileCommitted { inode_id, lease_epoch, generation } => {
                let mut out = "FileCommitted { inode_id: InodeId(".to_owned();
                push_number(&mut out, inode_id.0);
                out.append("), lease_epoch: LeaseEpoch(");
                push_number(&mut out, lease_epoch.0);
                out.append("), generation: ContentGeneration(");
                push_number(&mut out, generation.0);
                out.append(") }");
                out
            },
        }
    }
}

/// The error for a success that belongs to another command.
pub open spec fn unexpected_success(operation: Seq<char>, success: ApplySuccess) -> MetadataErrorView {
    MetadataErrorView {
        code: MetadataErrorCode::Internal,
        text: operation + " Raft command returned unexpected success: "@ + success.text(),
    }
}

/// Fails closed where applying a command returned the success of another command.
pub fn unexpected_raft_apply_success(operation_name: &str, success: ApplySuccess) -> (r:
    MetadataError)
    ensures
        r@ == unexpected_success(operation_name@, success),
        r is Internal,
{
    let mut out = join(operation_name, " Raft command returned unexpected success: ");
    let text = success.describe();
    out.append(text.as_str());
    MetadataError::Internal(out)
}

/// What a proposal returned: a success of some command, or an error.
pub type RaftReply = Result<ApplySuccess, MetadataError>;

/// The success of a proposal whose success is exactly `wanted`.
pub open spec fn expected_reply(
    operation: Seq<char>,
    reply: RaftReply,
    wanted: ApplySuccess,
) -> Result<(), MetadataErrorView> {
    match reply {
        Err(e) => Err(e@),
        Ok(success) => if success == wanted {
            Ok(())
        } else {
            Err(unexpected_success(operation, success))
        },
    }
}

/// Accepts only the success `wanted`.
pub fn require_reply(operation_name: &str, reply: RaftReply, wanted: ApplySuccess) -> (r: Result<
    (),
    MetadataError,
>)
    ensures
        match r {
            Ok(()) => expected_reply(operation_name@, reply, wanted) == Ok::<
                (),
                MetadataErrorView,
            >(()),
            Err(e) => expected_reply(operation_name@, reply, wanted) == Err::<
                (),
                MetadataErrorView,
            >(e@),
        },
{
    match reply {
        Err(e) => Err(e),
        Ok(success) => if success == wanted {
            Ok(())
        } else {
            Err(unexpected_raft_apply_success(operation_name, success))
        },
    }
}

/// The block that an allocation for `inode_id` gave.
pub open spec fn block_allocation(reply: RaftReply, inode_id: InodeId) -> Result<
    BlockId,
    MetadataErrorView,
> {
    match reply {
        Err(e) => Err(e@),
        Ok(success) => if success is BlockAllocated && success->BlockAllocated_0.inode_id
            == inode_id {
            Ok(success->BlockAllocated_0)
        } else {
            Err(unexpected_success("AllocateBlock"@, success))
        },
    }
}

/// Accepts only a block of the inode that it was allocated for.
pub fn decode_block_allocation(reply: RaftReply, inode_id: InodeId) -> (r: Result<
    BlockId,
    MetadataError,
>)
    ensures
        match r {
            Ok(b) => block_allocation(reply, inode_id) == Ok::<BlockId, MetadataErrorView>(b),
            Err(e) => block_allocation(reply, inode_id) == Err::<BlockId, MetadataErrorView>(e@),
        },
{
    match reply {
        Err(e) => Err(e),
        Ok(success) => match success {
            ApplySuccess::BlockAllocated(block_id) => if block_id.inode_id == inode_id {
                Ok(block_id)
            } else {
                Err(unexpected_raft_apply_success("AllocateBlock", success))
            },
            _ => Err(unexpected_raft_apply_success("AllocateBlock", success)),
        },
    }
}

/// The name of the command that publishes or commits.
pub open spec fn publication_operation(closes: bool) -> Seq<char> {
    if closes {
        "CommitFile"@
    } else {
        "PublishFile"@
    }
}

/// The generation that a publication gave. A commit must have ended the lease: its epoch is
/// the one behind `lease_epoch`.
pub open spec fn publication_reply(
    reply: RaftReply,
    inode_id: InodeId,
    lease_epoch: LeaseEpoch,
    closes: bool,
) -> Result<ContentGeneration, MetadataErrorView> {
    match reply {
        Err(e) => Err(e@),
        Ok(ApplySuccess::FileCommitted { inode_id: returned, lease_epoch: ended, generation }) if
            closes && returned == inode_id && Some(ended) == lease_epoch.next() => Ok(generation),
        Ok(ApplySuccess::FilePublished { inode_id: returned, generation }) if !closes && returned
            == inode_id => Ok(generation),
        Ok(success) => Err(unexpected_success(publication_operation(closes), success)),
    }
}

fn is_next_epoch(ended: LeaseEpoch, lease_epoch: LeaseEpoch) -> (r: bool)
    ensures
        r == (Some(ended) == lease_epoch.next()),
{
    match lease_epoch.checked_next() {
        Some(next) => next == ended,
        None => false,
    }
}

/// Accepts only the generation of this very publication.
pub fn decode_publication(
    reply: RaftReply,
    inode_id: InodeId,
    lease_epoch: LeaseEpoch,
    closes: bool,
) -> (r: Result<ContentGeneration, MetadataError>)
    ensures
        ({
            let decoded = publication_reply(reply, inode_id, lease_epoch, closes);
            match r {
                Ok(g) => decoded == Ok::<ContentGeneration, MetadataErrorView>(g),
                Err(e) => decoded == Err::<ContentGeneration, MetadataErrorView>(e@),
            }
        }),
{
    let success = match reply {
        Err(e) => return Err(e),
        Ok(success) => success,
    };
    match success {
        ApplySuccess::FileCommitted { inode_id: returned, lease_epoch: ended, generation } => {
            if closes && returned == inode_id && is_next_epoch(ended, lease_epoch) {
                return Ok(generation);
            }
        },
        ApplySuccess::FilePublished { inode_id: returned, generation } => {
            if !closes && returned == inode_id {
                return Ok(generation);
            }
        },
        _ => {},
    }
    let operation = if closes {
        "CommitFile"
    } else {
        "PublishFile"
    };
    Err(unexpected_raft_apply_success(operation, success))
}

/// Whether the ordered fence behind a failed publication proves that the publication can
/// no longer apply: the lease of the inode has ended at or behind its next epoch.
pub open spec fn fence_rules_out(
    fence: RaftReply,
    inode_id: InodeId,
    lease_epoch: LeaseEpoch,
) -> bool {
    match fence {
        Ok(ApplySuccess::WriteLeaseEnded { inode_id: returned, lease_epoch: ended }) => returned
            == inode_id && (lease_epoch.next() is None || ended.0 >= (lease_epoch.next()->0).0),
        _ => false,
    }
}

/// Returns whether the ordered fence behind a failed publication proves that the
/// publication can no longer apply.
pub fn is_fenced(fence: RaftReply, inode_id: InodeId, lease_epoch: LeaseEpoch) -> (r: bool)
    ensures
        r == fence_rules_out(fence, inode_id, lease_epoch),
{
    match fence {
        Ok(ApplySuccess::WriteLeaseEnded { inode_id: returned, lease_epoch: ended }) => {
            let reached = match lease_epoch.checked_next() {
                Some(next) => ended.0 >= next.0,
                None => true,
            };
            returned == inode_id && reached
        },
        _ => false,
    }
}

/// Where a write goes: the mount, its root, its owner group and its epoch.
#[derive(Debug)]
pub struct RoutedFsWriteCtx {
    pub mount_id: MountId,
    pub mount_root_inode_id: InodeId,
    pub group_name: GroupName,
    pub mount_epoch: u64,
}

impl RoutedFsWriteCtx {
    /// The authority of the route.
    pub open spec fn authority_view(&self) -> AuthorityView {
        AuthorityView {
            group_name: Some(self.group_name@),
            mount_epoch: Some(self.mount_epoch),
            route_epoch: None,
        }
    }

    /// Returns the authority of the route.
    pub fn authority(&self) -> (r: Authority)
        ensures
            r@ == self.authority_view(),
    {
        Authority {
            group_name: Some(self.group_name.clone()),
            mount_epoch: Some(self.mount_epoch),
            route_epoch: None,
        }
    }
}

/// An entry of the mount table.
#[derive(Debug)]
pub struct MountEntry {
    pub root_inode_id: InodeId,
    pub namespace_owner_group_name: GroupName,
    pub mount_epoch: u64,
}

/// What reading an inode returned.
pub type InodeRead = Result<Option<Inode>, MetadataError>;

/// The error for a parent that does not exist.
pub open spec fn parent_not_found(parent: InodeId) -> MetadataErrorView {
    MetadataErrorView {
        code: MetadataErrorCode::NotFound,
        text: "Parent inode not found: "@ + decimal(parent.0 as nat),
    }
}

/// The error for parents of two mounts.
pub open spec fn cross_mount_error() -> MetadataErrorView {
    MetadataErrorView {
        code: MetadataErrorCode::CrossMountRename,
        text: "cross-mount operation is not allowed"@,
    }
}

/// The mount that holds the parents from the one at `from` on, all of which must be on
/// `mount`: the first parent that is missing or elsewhere decides the error.
pub open spec fn parents_mount(
    parents: Seq<InodeId>,
    reads: Seq<InodeRead>,
    mount: MountId,
    from: int,
) -> Result<MountId, MetadataErrorView>
    decreases parents.len() - from,
{
    if from >= parents.len() {
        Ok(mount)
    } else {
        match reads[from] {
            Err(e) => Err(e@),
            Ok(None) => Err(parent_not_found(parents[from])),
            Ok(Some(inode)) => if inode.mount_id != mount {
                Err(cross_mount_error())
            } else {
                parents_mount(parents, reads, mount, from + 1)
            },
        }
    }
}

/// The parents are on one mount if and only if each of them exists there.
pub proof fn lemma_parents_mount(
    parents: Seq<InodeId>,
    reads: Seq<InodeRead>,
    mount: MountId,
    from: int,
)
    requires
        0 <= from <= parents.len(),
        parents.len() == reads.len(),
    ensures
        match parents_mount(parents, reads, mount, from) {
            Ok(m) => m == mount && forall|i: int|
                from <= i < reads.len() ==> {
                    let read = #[trigger] reads[i];
                    read is Ok && read->Ok_0 is Some && (read->Ok_0->0).mount_id == mount
                },
            Err(_) => exists|i: int|
                {
                    let read = #[trigger] reads[i];
                    &&& from <= i < reads.len()
                    &&& read is Err || read->Ok_0 is None || (read->Ok_0->0).mount_id != mount
                },
        },
    decreases parents.len() - from,
{
    if from < parents.len() {
        let read = reads[from];
        if read is Ok && read->Ok_0 is Some && (read->Ok_0->0).mount_id == mount {
            lemma_parents_mount(parents, reads, mount, from + 1);
        }
    }
}

/// The mount that a write below the given parents goes to.
pub open spec fn write_mount(parents: Seq<InodeId>, reads: Seq<InodeRead>) -> Result<
    MountId,
    MetadataErrorView,
> {
    if parents.len() == 0 {
        Err(
            MetadataErrorView {
                code: MetadataErrorCode::InvalidArgument,
                text: "No parent inode provided"@,
            },
        )
    } else {
        match reads[0] {
            Err(e) => Err(e@),
            Ok(None) => Err(parent_not_found(parents[0])),
            Ok(Some(inode)) => parents_mount(parents, reads, inode.mount_id, 1),
        }
    }
}

fn parent_not_found_error(parent: InodeId) -> (r: MetadataError)
    ensures
        r@ == parent_not_found(parent),
{
    let text = parent.to_text();
    MetadataError::NotFound(join("Parent inode not found: ", text.as_str()))
}

/// Returns the mount that a write below the given parents goes to. `reads` holds what
/// reading each parent returned.
pub fn route_write_mount(parents: &Vec<InodeId>, reads: &Vec<InodeRead>) -> (r: Result<
    MountId,
    MetadataError,
>)
    requires
        parents@.len() == reads@.len(),
    ensures
        match r {
            Ok(m) => write_mount(parents@, reads@) == Ok::<MountId, MetadataErrorView>(m),
            Err(e) => write_mount(parents@, reads@) == Err::<MountId, MetadataErrorView>(e@),
        },
{
    if parents.len() == 0 {
        return Err(MetadataError::InvalidArgument("No parent inode provided".to_owned()));
    }
    let mount = match &reads[0] {
        Err(e) => return Err(e.clone()),
        Ok(None) => return Err(parent_not_found_error(parents[0])),
        Ok(Some(inode)) => inode.mount_id,
    };
    let mut i: usize = 1;
    while i < parents.len()
        invariant
            parents@.len() == reads@.len(),
            1 <= i <= parents@.len(),
            write_mount(parents@, reads@) == parents_mount(
                parents@,
                reads@,
                mount,
                i as int,
            ),
        decreases parents.len() - i,
    {
        match &reads[i] {
            Err(e) => return Err(e.clone()),
            Ok(None) => return Err(parent_not_found_error(parents[i])),
            Ok(Some(inode)) => {
                if inode.mount_id != mount {
                    return Err(
                        MetadataError::CrossMountRename(
                            "cross-mount operation is not allowed".to_owned(),
                        ),
                    );
                }
            },
        }
        i += 1;
    }
    Ok(mount)
}

/// The error for a mount that does not exist.
pub open spec fn mount_not_found(mount: MountId) -> MetadataErrorView {
    MetadataErrorView {
        code: MetadataErrorCode::NotFound,
        text: "Mount not found: MountId("@ + decimal(mount.0 as nat) + ")"@,
    }
}

/// Returns the route of a write to a mount, from what looking the mount up returned.
pub fn route_write_ctx(mount: MountId, entry: Result<Option<MountEntry>, MetadataError>) -> (r:
    Result<RoutedFsWriteCtx, MetadataError>)
    ensures
        match entry {
            Err(e) => r is Err && (r->Err_0)@ == e@,
            Ok(None) => r is Err && (r->Err_0)@ == mount_not_found(mount),
            Ok(Some(m)) => r is Ok && {
                let route = r->Ok_0;
                &&& route.mount_id == mount
                &&& route.mount_root_inode_id == m.root_inode_id
                &&& route.group_name@ == m.namespace_owner_group_name@
                &&& route.mount_epoch == m.mount_epoch
            },
        },
{
    match entry {
        Err(e) => Err(e),
        Ok(None) => {
            let text = mount.to_text();
            let mut out = join("Mount not found: MountId(", text.as_str());
            out.append(")");
            Err(MetadataError::NotFound(out))
        },
        Ok(Some(m)) => Ok(
            RoutedFsWriteCtx {
                mount_id: mount,
                mount_root_inode_id: m.root_inode_id,
                group_name: m.namespace_owner_group_name,
                mount_epoch: m.mount_epoch,
            },
        ),
    }
}

/// Turns a route that was not found into the failure of a request, under the authority that
/// is known already.
pub fn route_ctx_for_write_with_error_hints(
    ctx: &RequestContext,
    routed: Result<RoutedFsWriteCtx, MetadataError>,
    known: &Authority,
) -> (r: Result<RoutedFsWriteCtx, FsFailure>)
    ensures
        match routed {
            Ok(route) => r == Ok::<RoutedFsWriteCtx, FsFailure>(route),
            Err(e) => r is Err && (r->Err_0)@ == metadata_failure(
                ctx@,
                e@,
                known@.without_route(),
            ),
        },
{
    match routed {
        Ok(route) => Ok(route),
        Err(e) => {
            let plain = known.without_route();
            Err(fs_failure_from_metadata_error(ctx, &e, &plain))
        },
    }
}

} // verus!
