//! Making written contents visible: sync and commit.

use vstd::prelude::*;

use crate::error::{MetadataError, MetadataErrorCode, MetadataErrorView};
use crate::filesystem::command::{
    decode_publication, fence_rules_out, is_fenced, publication_reply, Command, FilePublication,
    InodeRead, PublishMode, RaftReply, RoutedFsWriteCtx,
};
use crate::filesystem::committed::{
    committed_error, publication_ready_targets, publication_targets, publish_mode_for_session,
    publish_mode_of, published_blocks_fit_their_position, readiness_is_asked_for_every_block,
    validate_committed_blocks,
    CloseWriteIntent, FilePublicationView,
};
use crate::filesystem::context::{
    fs_failure_from_metadata_error, lookup_group_error, metadata_failure,
    require_worker_lookup_group, success_with_route_epoch, terminal_failure, Authority,
    AuthorityView, FsFailure, FsFailureView, FsSuccess, RequestContext, RequestContextView,
};
use crate::filesystem::namespace::route_view;
use crate::filesystem::readiness::{
    deadline_failure, ready_target_views, require_publish_deadline, require_publish_ready,
    unready, PublishReadyStatus, PublishReadyTarget, PublishReadyTargetView,
};
use crate::filesystem::write::{
    epoch_mismatch_message, epoch_mismatch_text, error_failure, expired_failure,
    invalid_failure, not_found_message, not_found_text, not_owned_message, not_owned_text,
    session_expired, session_invalid, with_inode,
};
use crate::fs::{ContentGeneration, WriteMode};
use crate::group_watermark::RaftLogId;
use crate::header::copy_optional_group;
use crate::ids::{InodeId, MountId};
use crate::inode::{file_error, not_a_file, Inode, InodeKind};
use crate::lease::{LeaseEpoch, WriteHandle};
use crate::location::CommittedBlock;
use crate::session::laws::tidied_keeps_counters;
use crate::session::model::{
    lemma_swept, lemma_without_entry, RegistryView, WritePublicationView,
    MAX_EXPIRED_SESSION_RETIREMENTS_PER_CALL,
};
use crate::session::registry::{SessionRegistry, WritePublication};
use crate::session::types::{
    BeginWritePublicationError, RegistryLimits, WriteSession, WriteSessionView,
};
use crate::text::{decimal, join};

verus! {

/// The operation that publishes: a sync leaves the session open, a commit ends it.
#[derive(Clone, Copy, Debug, PartialEq, Eq, Structural)]
pub enum PublishOperation {
    SyncWrite,
    CommitFile,
}

impl PublishOperation {
    /// The name of the operation.
    pub open spec fn text(self) -> Seq<char> {
        match self {
            PublishOperation::SyncWrite => "SyncWrite"@,
            PublishOperation::CommitFile => "CommitFile"@,
        }
    }

    /// Returns the name of the operation.
    pub fn name(self) -> (r: &'static str)
        ensures
            r@ == self.text(),
    {
        match self {
            PublishOperation::SyncWrite => "SyncWrite",
            PublishOperation::CommitFile => "CommitFile",
        }
    }
}

/// What a sync answers.
#[derive(Clone, Copy, Debug, PartialEq, Eq, Structural)]
pub struct SyncWriteOutput {
    pub synced_size: u64,
    pub generation: Option<ContentGeneration>,
}

/// What a commit answers.
#[derive(Clone, Copy, Debug, PartialEq, Eq, Structural)]
pub struct CloseWriteOutput {
    pub committed_size: u64,
}

// ---- sessions and publications ----

/// The wording for a publication that was not made for the active session.
pub open spec fn precondition_text(operation: PublishOperation) -> Seq<char> {
    operation.text() + " publish precondition does not match the active session"@
}

fn precondition_failure(ctx: &RequestContext, operation: PublishOperation) -> (r: FsFailure)
    ensures
        r@ == terminal_failure(
            ctx@,
            session_invalid(),
            precondition_text(operation),
            AuthorityView::unknown(),
        ),
{
    let unknown = Authority::unknown();
    invalid_failure(
        ctx,
        join(operation.name(), " publish precondition does not match the active session"),
        &unknown,
    )
}

/// The caller's active session, if the inode has one.
pub open spec fn active_session(
    v: RegistryView,
    ctx: RequestContextView,
    handle: WriteHandle,
    operation: PublishOperation,
) -> Result<Option<WriteSessionView>, FsFailureView> {
    match v.find_session(handle.inode_id) {
        None => Ok(None),
        Some(s) => if s.open_client_id != ctx.caller.client.client_id {
            Err(
                terminal_failure(
                    ctx,
                    session_invalid(),
                    not_owned_text(operation.text(), handle.inode_id),
                    AuthorityView::unknown(),
                ),
            )
        } else if s.lease_epoch != handle.lease_epoch {
            Err(
                terminal_failure(
                    ctx,
                    session_invalid(),
                    precondition_text(operation),
                    AuthorityView::unknown(),
                ),
            )
        } else {
            Ok(Some(s))
        },
    }
}

/// Returns the caller's active session, if the inode has one.
pub fn active_publish_session(
    registry: &mut SessionRegistry,
    ctx: &RequestContext,
    handle: WriteHandle,
    operation: PublishOperation,
    now_ms: u64,
) -> (r: Result<Option<WriteSession>, FsFailure>)
    requires
        old(registry).wf(),
    ensures
        final(registry).wf(),
        final(registry).limits() == old(registry).limits(),
        final(registry)@ == old(registry)@.tidied(handle.inode_id.0, now_ms),
        ({
            let active = active_session(final(registry)@, ctx@, handle, operation);
            match r {
                Ok(None) => active == Ok::<Option<WriteSessionView>, FsFailureView>(None),
                Ok(Some(s)) => active == Ok::<Option<WriteSessionView>, FsFailureView>(Some(s@)),
                Err(f) => active == Err::<Option<WriteSessionView>, FsFailureView>(f@),
            }
        }),
{
    match registry.get_session(handle.inode_id, now_ms) {
        None => Ok(None),
        Some(session) => {
            if session.open_client_id != ctx.caller.client.client_id {
                let unknown = Authority::unknown();
                return Err(
                    invalid_failure(
                        ctx,
                        not_owned_message(operation.name(), handle.inode_id),
                        &unknown,
                    ),
                );
            }
            if session.lease_epoch != handle.lease_epoch {
                return Err(precondition_failure(ctx, operation));
            }
            Ok(Some(session))
        },
    }
}

/// What refuses a publication that did not begin.
pub open spec fn publication_refusal(
    ctx: RequestContextView,
    inode: InodeId,
    operation: PublishOperation,
    error: BeginWritePublicationError,
) -> FsFailureView {
    match error {
        BeginWritePublicationError::Session(e) => terminal_failure(
            ctx,
            session_invalid(),
            operation.text() + " write session is no longer current: "@ + e.text(),
            AuthorityView::unknown(),
        ),
        BeginWritePublicationError::AllocateBlockPending => metadata_failure(
            ctx,
            MetadataErrorView {
                code: MetadataErrorCode::Again,
                text: operation.text() + " cannot freeze inode_id="@ + decimal(inode.0 as nat)
                    + " while AllocateBlock is pending"@,
            },
            AuthorityView::unknown(),
        ),
        BeginWritePublicationError::PublicationInProgress => metadata_failure(
            ctx,
            MetadataErrorView {
                code: MetadataErrorCode::Again,
                text: "another file publication is already in progress for inode_id="@ + decimal(
                    inode.0 as nat,
                ),
            },
            AuthorityView::unknown(),
        ),
        BeginWritePublicationError::PublicationIdExhausted => metadata_failure(
            ctx,
            MetadataErrorView {
                code: MetadataErrorCode::Internal,
                text: "write publication identity exhausted"@,
            },
            AuthorityView::unknown(),
        ),
    }
}

fn publication_refusal_failure(
    ctx: &RequestContext,
    inode: InodeId,
    operation: PublishOperation,
    error: BeginWritePublicationError,
) -> (r: FsFailure)
    ensures
        r@ == publication_refusal(ctx@, inode, operation, error),
{
    let unknown = Authority::unknown();
    match error {
        BeginWritePublicationError::Session(e) => {
            let text = e.message();
            let mut out = join(operation.name(), " write session is no longer current: ");
            out.append(text.as_str());
            invalid_failure(ctx, out, &unknown)
        },
        BeginWritePublicationError::AllocateBlockPending => {
            let text = inode.to_text();
            let mut out = join(operation.name(), " cannot freeze inode_id=");
            out.append(text.as_str());
            out.append(" while AllocateBlock is pending");
            fs_failure_from_metadata_error(ctx, &MetadataError::Again(out), &unknown)
        },
        BeginWritePublicationError::PublicationInProgress => {
            let error = MetadataError::Again(
                with_inode(
                    "another file publication is already in progress for inode_id=",
                    inode,
                ),
            );
            fs_failure_from_metadata_error(ctx, &error, &unknown)
        },
        BeginWritePublicationError::PublicationIdExhausted => {
            let error = MetadataError::Internal("write publication identity exhausted".to_owned());
            fs_failure_from_metadata_error(ctx, &error, &unknown)
        },
    }
}

/// What freezing the issued targets for a publication does and answers. A publication that
/// another client or another mode asks for is given up at once.
pub open spec fn publication_begun(
    v: RegistryView,
    ctx: RequestContextView,
    handle: WriteHandle,
    mode: PublishMode,
    operation: PublishOperation,
    now_ms: u64,
) -> (RegistryView, Result<WritePublicationView, FsFailureView>) {
    let begun = v.begin_publication(handle.inode_id, handle.lease_epoch, now_ms);
    match begun.1 {
        Err(e) => (begun.0, Err(publication_refusal(ctx, handle.inode_id, operation, e))),
        Ok(p) => if p.session.open_client_id != ctx.caller.client.client_id || publish_mode_of(
            p.session.mode,
        ) != mode {
            (
                p.released(begun.0),
                Err(
                    terminal_failure(
                        ctx,
                        session_invalid(),
                        precondition_text(operation),
                        AuthorityView::unknown(),
                    ),
                ),
            )
        } else {
            (begun.0, Ok(p))
        },
    }
}

/// Freezes the issued targets before a publication is validated.
pub fn begin_write_publication(
    registry: &mut SessionRegistry,
    ctx: &RequestContext,
    handle: WriteHandle,
    mode: PublishMode,
    operation: PublishOperation,
    now_ms: u64,
) -> (r: Result<WritePublication, FsFailure>)
    requires
        old(registry).wf(),
    ensures
        final(registry).wf(),
        final(registry).limits() == old(registry).limits(),
        ({
            let outcome = publication_begun(
                old(registry)@,
                ctx@,
                handle,
                mode,
                operation,
                now_ms,
            );
            &&& final(registry)@ == outcome.0
            &&& match r {
                Ok(p) => outcome.1 == Ok::<WritePublicationView, FsFailureView>(p@),
                Err(f) => outcome.1 == Err::<WritePublicationView, FsFailureView>(f@),
            }
        }),
{
    let publication = match registry.begin_publication(
        handle.inode_id,
        handle.lease_epoch,
        now_ms,
    ) {
        Ok(publication) => publication,
        Err(e) => return Err(publication_refusal_failure(ctx, handle.inode_id, operation, e)),
    };
    let session_mode = publish_mode_for_session(publication.session());
    if publication.session().open_client_id != ctx.caller.client.client_id || session_mode
        != mode {
        publication.release(registry);
        return Err(precondition_failure(ctx, operation));
    }
    Ok(publication)
}

// ---- replays ----

/// What comparing a publication with the visible file returned.
pub type VisibleMatch = Result<bool, MetadataError>;

/// The mount and generation of a file that already shows what a sync asks for.
#[derive(Clone, Copy, Debug, PartialEq, Eq, Structural)]
pub struct SyncedState {
    pub mount_id: MountId,
    pub generation: ContentGeneration,
}

/// Whether the visible file already shows what a sync asks for. `matches` says whether its
/// contents do; they must also have the next generation, or an unchanged one where nothing
/// was to change. Another generation is a conflict.
pub open spec fn synced_state(
    handle: WriteHandle,
    names_no_block: bool,
    expected_generation: ContentGeneration,
    read: InodeRead,
    matches: VisibleMatch,
) -> Result<Option<SyncedState>, MetadataErrorView> {
    match read {
        Err(e) => Err(e@),
        Ok(None) => Err(
            MetadataErrorView {
                code: MetadataErrorCode::NotFound,
                text: "inode "@ + decimal(handle.inode_id.0 as nat),
            },
        ),
        Ok(Some(inode)) => if inode.inode_id != handle.inode_id {
            Err(
                MetadataErrorView {
                    code: MetadataErrorCode::Internal,
                    text: "inode key mismatch"@,
                },
            )
        } else {
            match inode.kind {
                InodeKind::Dir => Err(not_a_file(inode.inode_id)),
                InodeKind::File(file) => if file_error(file, handle.inode_id) is Some {
                    Err(file_error(file, handle.inode_id)->0)
                } else if file.lease_epoch != handle.lease_epoch && handle.lease_epoch.next()
                    != Some(file.lease_epoch) {
                    Err(
                        MetadataErrorView {
                            code: MetadataErrorCode::LeaseFenced,
                            text: crate::error::lease_fenced_text(
                                file.lease_epoch,
                                handle.lease_epoch,
                            ),
                        },
                    )
                } else {
                    match matches {
                        Err(e) => Err(e@),
                        Ok(matches) => if matches && (expected_generation.next() == Some(
                            file.generation,
                        ) || (file.generation == expected_generation && names_no_block)) {
                            Ok(
                                Some(
                                    SyncedState {
                                        mount_id: inode.mount_id,
                                        generation: file.generation,
                                    },
                                ),
                            )
                        } else if file.generation != expected_generation {
                            Err(
                                MetadataErrorView {
                                    code: MetadataErrorCode::Again,
                                    text: "content generation changed"@,
                                },
                            )
                        } else {
                            Ok(None)
                        },
                    }
                },
            }
        },
    }
}

fn is_next_generation(generation: ContentGeneration, of: ContentGeneration) -> (r: bool)
    ensures
        r == (of.next() == Some(generation)),
{
    match of.checked_next() {
        Some(next) => next == generation,
        None => false,
    }
}

fn is_epoch_or_next(epoch: LeaseEpoch, of: LeaseEpoch) -> (r: bool)
    ensures
        r == (epoch == of || of.next() == Some(epoch)),
{
    if epoch == of {
        return true;
    }
    match of.checked_next() {
        Some(next) => next == epoch,
        None => false,
    }
}

/// Returns the state that a sync asks for, if the visible file already shows it. This never
/// proves that a commit ran.
pub fn resolve_synced_state(
    handle: WriteHandle,
    names_no_block: bool,
    expected_generation: ContentGeneration,
    read: InodeRead,
    matches: VisibleMatch,
) -> (r: Result<Option<SyncedState>, MetadataError>)
    ensures
        ({
            let synced = synced_state(
                handle,
                names_no_block,
                expected_generation,
                read,
                matches,
            );
            match r {
                Ok(s) => synced == Ok::<Option<SyncedState>, MetadataErrorView>(s),
                Err(e) => synced == Err::<Option<SyncedState>, MetadataErrorView>(e@),
            }
        }),
{
    let inode = match read {
        Err(e) => return Err(e),
        Ok(None) => return Err(MetadataError::NotFound(with_inode("inode ", handle.inode_id))),
        Ok(Some(inode)) => inode,
    };
    if inode.inode_id != handle.inode_id {
        return Err(MetadataError::Internal("inode key mismatch".to_owned()));
    }
    let file = match inode.file() {
        Ok(file) => file,
        Err(e) => return Err(e),
    };
    match file.validate(handle.inode_id) {
        Ok(()) => {},
        Err(e) => return Err(e),
    }
    if !is_epoch_or_next(file.lease_epoch, handle.lease_epoch) {
        return Err(
            MetadataError::LeaseFenced { expected: file.lease_epoch, got: handle.lease_epoch },
        );
    }
    let matches = match matches {
        Ok(matches) => matches,
        Err(e) => return Err(e),
    };
    if matches && (is_next_generation(file.generation, expected_generation) || (file.generation
        == expected_generation && names_no_block)) {
        return Ok(
            Some(SyncedState { mount_id: inode.mount_id, generation: file.generation }),
        );
    }
    if file.generation != expected_generation {
        return Err(MetadataError::Again("content generation changed".to_owned()));
    }
    Ok(None)
}

/// What looking for the receipt of a commit in the stored inode returned.
pub type ReceiptRead = Result<Option<ContentGeneration>, MetadataError>;

/// The mount of a commit that has already been made, from the stored inode and its
/// receipt.
pub open spec fn commit_receipt(inode: InodeId, read: InodeRead, receipt: ReceiptRead) -> Result<
    Option<MountId>,
    MetadataErrorView,
> {
    match read {
        Err(e) => Err(e@),
        Ok(None) => Err(
            MetadataErrorView {
                code: MetadataErrorCode::NotFound,
                text: "Inode not found: "@ + decimal(inode.0 as nat),
            },
        ),
        Ok(Some(stored)) => if stored.inode_id != inode {
            Err(
                MetadataErrorView {
                    code: MetadataErrorCode::Internal,
                    text: "CommitFile inode authority is corrupt"@,
                },
            )
        } else {
            match receipt {
                Err(e) => Err(e@),
                Ok(Some(_)) => Ok(Some(stored.mount_id)),
                Ok(None) => Ok(None),
            }
        },
    }
}

/// Returns the mount of a commit that has already been made. Both reads are taken together,
/// before any session is looked at: a completed commit has ended its session.
pub fn resolve_commit_receipt(inode: InodeId, read: InodeRead, receipt: ReceiptRead) -> (r: Result<
    Option<MountId>,
    MetadataError,
>)
    ensures
        match r {
            Ok(m) => commit_receipt(inode, read, receipt) == Ok::<
                Option<MountId>,
                MetadataErrorView,
            >(m),
            Err(e) => commit_receipt(inode, read, receipt) == Err::<
                Option<MountId>,
                MetadataErrorView,
            >(e@),
        },
{
    let stored = match read {
        Err(e) => return Err(e),
        Ok(None) => return Err(MetadataError::NotFound(with_inode("Inode not found: ", inode))),
        Ok(Some(stored)) => stored,
    };
    if stored.inode_id != inode {
        return Err(
            MetadataError::Internal("CommitFile inode authority is corrupt".to_owned()),
        );
    }
    match receipt {
        Err(e) => Err(e),
        Ok(Some(_)) => Ok(Some(stored.mount_id)),
        Ok(None) => Ok(None),
    }
}

// ---- beginning ----

/// What a sync or commit is to do next.
pub enum PublishStep {
    /// The visible file already shows what was asked for. A publication holds the session,
    /// where there is one, until the answer is given.
    Visible(SyncedState, Option<WritePublication>),
    /// The commit has already been made on this mount.
    Committed(MountId),
    /// The issued targets are frozen: validate them and publish.
    Publish(WritePublication),
}

/// The value of a `PublishStep`.
pub enum PublishStepView {
    Visible(SyncedState, Option<WritePublicationView>),
    Committed(MountId),
    Publish(WritePublicationView),
}

impl View for PublishStep {
    type V = PublishStepView;

    open spec fn view(&self) -> PublishStepView {
        match self {
            PublishStep::Visible(state, publication) => PublishStepView::Visible(
                *state,
                match publication {
                    Some(p) => Some(p@),
                    None => None,
                },
            ),
            PublishStep::Committed(mount) => PublishStepView::Committed(*mount),
            PublishStep::Publish(p) => PublishStepView::Publish(p@),
        }
    }
}

/// What freezing the session for a new publication does and answers. The session must
/// exist and still have the generation that the caller saw.
pub open spec fn new_publication(
    v: RegistryView,
    ctx: RequestContextView,
    handle: WriteHandle,
    expected_generation: ContentGeneration,
    mode: PublishMode,
    operation: PublishOperation,
    active: Option<WriteSessionView>,
    now_ms: u64,
) -> (RegistryView, Result<PublishStepView, FsFailureView>) {
    if active is None {
        (
            v,
            Err(
                terminal_failure(
                    ctx,
                    session_invalid(),
                    not_found_text(handle.inode_id),
                    AuthorityView::unknown(),
                ),
            ),
        )
    } else {
        let begun = publication_begun(v, ctx, handle, mode, operation, now_ms);
        match begun.1 {
            Err(f) => (begun.0, Err(f)),
            Ok(p) => if p.session.generation != expected_generation {
                (
                    p.released(begun.0),
                    Err(
                        terminal_failure(
                            ctx,
                            session_invalid(),
                            precondition_text(operation),
                            AuthorityView::unknown(),
                        ),
                    ),
                )
            } else {
                (begun.0, Ok(PublishStepView::Publish(p)))
            },
        }
    }
}

fn begin_new_publication(
    registry: &mut SessionRegistry,
    ctx: &RequestContext,
    handle: WriteHandle,
    expected_generation: ContentGeneration,
    mode: PublishMode,
    operation: PublishOperation,
    active: &Option<WriteSession>,
    now_ms: u64,
) -> (r: Result<PublishStep, FsFailure>)
    requires
        old(registry).wf(),
    ensures
        final(registry).wf(),
        final(registry).limits() == old(registry).limits(),
        ({
            let outcome = new_publication(
                old(registry)@,
                ctx@,
                handle,
                expected_generation,
                mode,
                operation,
                optional_session_view(*active),
                now_ms,
            );
            &&& final(registry)@ == outcome.0
            &&& match r {
                Ok(step) => outcome.1 == Ok::<PublishStepView, FsFailureView>(step@),
                Err(f) => outcome.1 == Err::<PublishStepView, FsFailureView>(f@),
            }
        }),
{
    if active.is_none() {
        let unknown = Authority::unknown();
        return Err(invalid_failure(ctx, not_found_message(handle.inode_id), &unknown));
    }
    let publication = match begin_write_publication(
        registry,
        ctx,
        handle,
        mode,
        operation,
        now_ms,
    ) {
        Ok(publication) => publication,
        Err(f) => return Err(f),
    };
    if publication.session().generation != expected_generation {
        publication.release(registry);
        return Err(precondition_failure(ctx, operation));
    }
    Ok(PublishStep::Publish(publication))
}

/// The value of an optional session.
pub open spec fn optional_session_view(session: Option<WriteSession>) -> Option<WriteSessionView> {
    match session {
        Some(s) => Some(s@),
        None => None,
    }
}

/// What beginning a sync does and answers.
pub open spec fn sync_begun(
    v: RegistryView,
    ctx: RequestContextView,
    handle: WriteHandle,
    names_no_block: bool,
    expected_generation: ContentGeneration,
    mode: PublishMode,
    read: InodeRead,
    matches: VisibleMatch,
    now_ms: u64,
) -> (RegistryView, Result<PublishStepView, FsFailureView>) {
    let operation = PublishOperation::SyncWrite;
    let t = v.tidied(handle.inode_id.0, now_ms);
    match active_session(t, ctx, handle, operation) {
        Err(f) => (t, Err(f)),
        Ok(active) => match synced_state(
            handle,
            names_no_block,
            expected_generation,
            read,
            matches,
        ) {
            Err(e) => (t, Err(metadata_failure(ctx, e, AuthorityView::unknown()))),
            Ok(None) => new_publication(
                t,
                ctx,
                handle,
                expected_generation,
                mode,
                operation,
                active,
                now_ms,
            ),
            Ok(Some(state)) => match active {
                None => (t, Ok(PublishStepView::Visible(state, None))),
                Some(s) => {
                    let begun = publication_begun(
                        t,
                        ctx,
                        handle,
                        publish_mode_of(s.mode),
                        operation,
                        now_ms,
                    );
                    match begun.1 {
                        Err(f) => (begun.0, Err(f)),
                        Ok(p) => if p.session.generation != expected_generation
                            && p.session.generation != state.generation {
                            (
                                p.released(begun.0),
                                Err(
                                    terminal_failure(
                                        ctx,
                                        session_invalid(),
                                        "SyncWrite content generation does not match the active session"@,
                                        AuthorityView::unknown(),
                                    ),
                                ),
                            )
                        } else {
                            (begun.0, Ok(PublishStepView::Visible(state, Some(p))))
                        },
                    }
                },
            },
        },
    }
}

/// Begins a sync: an effect that is already visible is answered, anything else freezes the
/// session for a new publication.
pub fn begin_sync(
    registry: &mut SessionRegistry,
    ctx: &RequestContext,
    handle: WriteHandle,
    intent: &CloseWriteIntent,
    expected_generation: ContentGeneration,
    mode: PublishMode,
    read: InodeRead,
    matches: VisibleMatch,
    now_ms: u64,
) -> (r: Result<PublishStep, FsFailure>)
    requires
        old(registry).wf(),
    ensures
        final(registry).wf(),
        final(registry).limits() == old(registry).limits(),
        ({
            let outcome = sync_begun(
                old(registry)@,
                ctx@,
                handle,
                intent.committed_blocks@.len() == 0,
                expected_generation,
                mode,
                read,
                matches,
                now_ms,
            );
            &&& final(registry)@ == outcome.0
            &&& match r {
                Ok(step) => outcome.1 == Ok::<PublishStepView, FsFailureView>(step@),
                Err(f) => outcome.1 == Err::<PublishStepView, FsFailureView>(f@),
            }
        }),
{
    let operation = PublishOperation::SyncWrite;
    let unknown = Authority::unknown();
    let active = match active_publish_session(registry, ctx, handle, operation, now_ms) {
        Ok(active) => active,
        Err(f) => return Err(f),
    };
    let state = match resolve_synced_state(
        handle,
        intent.committed_blocks.len() == 0,
        expected_generation,
        read,
        matches,
    ) {
        Err(e) => return Err(fs_failure_from_metadata_error(ctx, &e, &unknown)),
        Ok(None) => return begin_new_publication(
            registry,
            ctx,
            handle,
            expected_generation,
            mode,
            operation,
            &active,
            now_ms,
        ),
        Ok(Some(state)) => state,
    };
    let session_mode = match &active {
        None => return Ok(PublishStep::Visible(state, None)),
        Some(session) => publish_mode_for_session(session),
    };
    let publication = match begin_write_publication(
        registry,
        ctx,
        handle,
        session_mode,
        operation,
        now_ms,
    ) {
        Ok(publication) => publication,
        Err(f) => return Err(f),
    };
    if publication.session().generation != expected_generation && publication.session().generation
        != state.generation {
        publication.release(registry);
        return Err(
            invalid_failure(
                ctx,
                "SyncWrite content generation does not match the active session".to_owned(),
                &unknown,
            ),
        );
    }
    Ok(PublishStep::Visible(state, Some(publication)))
}

/// What beginning a commit does and answers.
pub open spec fn commit_begun(
    v: RegistryView,
    ctx: RequestContextView,
    handle: WriteHandle,
    expected_generation: ContentGeneration,
    mode: PublishMode,
    read: InodeRead,
    receipt: ReceiptRead,
    now_ms: u64,
) -> (RegistryView, Result<PublishStepView, FsFailureView>) {
    let operation = PublishOperation::CommitFile;
    match commit_receipt(handle.inode_id, read, receipt) {
        Err(e) => (v, Err(metadata_failure(ctx, e, AuthorityView::unknown()))),
        Ok(Some(mount)) => (v, Ok(PublishStepView::Committed(mount))),
        Ok(None) => {
            let t = v.tidied(handle.inode_id.0, now_ms);
            match active_session(t, ctx, handle, operation) {
                Err(f) => (t, Err(f)),
                Ok(active) => new_publication(
                    t,
                    ctx,
                    handle,
                    expected_generation,
                    mode,
                    operation,
                    active,
                    now_ms,
                ),
            }
        },
    }
}

/// Begins a commit: one that has already been made is answered, anything else freezes the
/// session for a new publication.
pub fn begin_commit(
    registry: &mut SessionRegistry,
    ctx: &RequestContext,
    handle: WriteHandle,
    expected_generation: ContentGeneration,
    mode: PublishMode,
    read: InodeRead,
    receipt: ReceiptRead,
    now_ms: u64,
) -> (r: Result<PublishStep, FsFailure>)
    requires
        old(registry).wf(),
    ensures
        final(registry).wf(),
        final(registry).limits() == old(registry).limits(),
        ({
            let outcome = commit_begun(
                old(registry)@,
                ctx@,
                handle,
                expected_generation,
                mode,
                read,
                receipt,
                now_ms,
            );
            &&& final(registry)@ == outcome.0
            &&& match r {
                Ok(step) => outcome.1 == Ok::<PublishStepView, FsFailureView>(step@),
                Err(f) => outcome.1 == Err::<PublishStepView, FsFailureView>(f@),
            }
        }),
{
    let operation = PublishOperation::CommitFile;
    match resolve_commit_receipt(handle.inode_id, read, receipt) {
        Err(e) => {
            let unknown = Authority::unknown();
            return Err(fs_failure_from_metadata_error(ctx, &e, &unknown));
        },
        Ok(Some(mount)) => return Ok(PublishStep::Committed(mount)),
        Ok(None) => {},
    }
    let active = match active_publish_session(registry, ctx, handle, operation, now_ms) {
        Ok(active) => active,
        Err(f) => return Err(f),
    };
    begin_new_publication(
        registry,
        ctx,
        handle,
        expected_generation,
        mode,
        operation,
        &active,
        now_ms,
    )
}

// ---- answers without a proposal ----

/// What answering a visible sync does and answers.
pub open spec fn visible_sync_finished(
    v: RegistryView,
    ctx: RequestContextView,
    authority: AuthorityView,
    state: SyncedState,
    publication: Option<WritePublicationView>,
    final_size: u64,
    now_ms: u64,
) -> (RegistryView, Result<SyncWriteOutput, FsFailureView>) {
    let output = SyncWriteOutput { synced_size: final_size, generation: Some(state.generation) };
    match publication {
        None => (v, Ok(output)),
        Some(p) => {
            let synced = p.synced(v, state.generation, final_size, now_ms);
            match synced.1 {
                Ok(()) => (synced.0, Ok(output)),
                Err(e) => (
                    synced.0,
                    Err(
                        metadata_failure(
                            ctx,
                            MetadataErrorView { code: MetadataErrorCode::Internal, text: e.text() },
                            authority.without_route(),
                        ),
                    ),
                ),
            }
        },
    }
}

/// The value of an optional publication.
pub open spec fn optional_publication_view(publication: Option<WritePublication>) -> Option<
    WritePublicationView,
> {
    match publication {
        Some(p) => Some(p@),
        None => None,
    }
}

/// Answers a sync whose effect is already visible, and brings the session up to it.
pub fn finish_visible_sync(
    registry: &mut SessionRegistry,
    ctx: &RequestContext,
    authority: &Authority,
    state: SyncedState,
    publication: Option<WritePublication>,
    final_size: u64,
    now_ms: u64,
) -> (r: Result<SyncWriteOutput, FsFailure>)
    requires
        old(registry).wf(),
    ensures
        final(registry).wf(),
        final(registry).limits() == old(registry).limits(),
        ({
            let outcome = visible_sync_finished(
                old(registry)@,
                ctx@,
                authority@,
                state,
                optional_publication_view(publication),
                final_size,
                now_ms,
            );
            &&& final(registry)@ == outcome.0
            &&& match r {
                Ok(o) => outcome.1 == Ok::<SyncWriteOutput, FsFailureView>(o),
                Err(f) => outcome.1 == Err::<SyncWriteOutput, FsFailureView>(f@),
            }
        }),
{
    match publication {
        None => {},
        Some(publication) => {
            match publication.complete_sync(registry, state.generation, final_size, now_ms) {
                Ok(()) => {},
                Err(e) => {
                    let error = MetadataError::Internal(e.message());
                    return Err(error_failure(ctx, &error, authority));
                },
            }
        },
    }
    Ok(SyncWriteOutput { synced_size: final_size, generation: Some(state.generation) })
}

/// Answers a commit that has already been made. Only the session with its epoch goes.
pub fn finish_committed(registry: &mut SessionRegistry, handle: WriteHandle, final_size: u64) -> (r:
    CloseWriteOutput)
    requires
        old(registry).wf(),
    ensures
        final(registry).wf(),
        final(registry).limits() == old(registry).limits(),
        final(registry)@ == old(registry)@.remove_session_if_epoch(
            handle.inode_id,
            handle.lease_epoch,
        ).0,
        r == (CloseWriteOutput { committed_size: final_size }),
{
    registry.remove_session_if_epoch(handle.inode_id, handle.lease_epoch);
    CloseWriteOutput { committed_size: final_size }
}

// ---- validation before workers are waited for ----

/// The wording for a block of another inode.
pub open spec fn foreign_block_text(block: CommittedBlock, inode: InodeId) -> Seq<char> {
    "SyncWrite committed block inode_id "@ + decimal(block.block_id.inode_id.0 as nat)
        + " does not match write handle inode_id "@ + decimal(inode.0 as nat)
}

/// The first block of another inode, among those from `from` on.
pub open spec fn foreign_block(blocks: Seq<CommittedBlock>, inode: InodeId, from: int) -> Option<
    CommittedBlock,
>
    decreases blocks.len() - from,
{
    if from < 0 || from >= blocks.len() {
        None
    } else if blocks[from].block_id.inode_id != inode {
        Some(blocks[from])
    } else {
        foreign_block(blocks, inode, from + 1)
    }
}

proof fn lemma_foreign_block(blocks: Seq<CommittedBlock>, inode: InodeId, from: int)
    requires
        0 <= from <= blocks.len(),
        forall|i: int|
            0 <= i < blocks.len() ==> (#[trigger] blocks[i]).block_id.inode_id == inode,
    ensures
        foreign_block(blocks, inode, from) is None,
    decreases blocks.len() - from,
{
    if from < blocks.len() {
        lemma_foreign_block(blocks, inode, from + 1);
    }
}

/// A publication that is valid for its session names no block of another inode.
pub proof fn lemma_own_blocks(intent: CloseWriteIntent, session: WriteSessionView)
    requires
        committed_error(intent, session) is None,
    ensures
        foreign_block(intent.committed_blocks@, session.inode_id, 0) is None,
{
    let blocks = intent.committed_blocks@;
    assert forall|i: int| 0 <= i < blocks.len() implies (#[trigger] blocks[i]).block_id.inode_id
        == session.inode_id by {
        published_blocks_fit_their_position(intent, session, i);
    }
    lemma_foreign_block(blocks, session.inode_id, 0);
}

fn find_foreign_block(blocks: &Vec<CommittedBlock>, inode: InodeId) -> (r: Option<CommittedBlock>)
    ensures
        r == foreign_block(blocks@, inode, 0),
{
    let mut i: usize = 0;
    while i < blocks.len()
        invariant
            i <= blocks@.len(),
            foreign_block(blocks@, inode, 0) == foreign_block(blocks@, inode, i as int),
        decreases blocks.len() - i,
    {
        if blocks[i].block_id.inode_id != inode {
            return Some(blocks[i]);
        }
        i += 1;
    }
    None
}

/// The failure of a publication that is not valid.
pub open spec fn invalid_publication(
    ctx: RequestContextView,
    message: Seq<char>,
    authority: AuthorityView,
) -> FsFailureView {
    metadata_failure(
        ctx,
        MetadataErrorView { code: MetadataErrorCode::InvalidArgument, text: message },
        authority.without_route(),
    )
}

/// Creates the failure of a publication that is not valid.
pub fn invalid_publication_failure(
    ctx: &RequestContext,
    message: String,
    authority: &Authority,
) -> (r: FsFailure)
    ensures
        r@ == invalid_publication(ctx@, message@, authority@),
{
    error_failure(ctx, &MetadataError::InvalidArgument(message), authority)
}

/// What validating a frozen publication does and answers: the targets that workers must
/// have ready. What is refused is given up.
pub open spec fn publication_validated(
    v: RegistryView,
    ctx: RequestContextView,
    authority: AuthorityView,
    operation: PublishOperation,
    handle: WriteHandle,
    intent: CloseWriteIntent,
    expected_generation: ContentGeneration,
    publication: WritePublicationView,
    read: InodeRead,
    now_ms: u64,
) -> (RegistryView, Result<Seq<PublishReadyTargetView>, FsFailureView>) {
    let session = publication.session;
    let foreign = foreign_block(intent.committed_blocks@, session.inode_id, 0);
    if operation == PublishOperation::SyncWrite && foreign is Some {
        (
            publication.released(v),
            Err(
                metadata_failure(
                    ctx,
                    MetadataErrorView {
                        code: MetadataErrorCode::InvalidArgument,
                        text: foreign_block_text(foreign->0, session.inode_id),
                    },
                    authority,
                ),
            ),
        )
    } else if handle.lease_epoch != session.lease_epoch {
        (
            publication.released(v),
            Err(
                terminal_failure(
                    ctx,
                    session_invalid(),
                    epoch_mismatch_text(handle.inode_id, session.lease_epoch, handle.lease_epoch),
                    authority,
                ),
            ),
        )
    } else {
        let checked = v.validate_session(session.inode_id, handle.lease_epoch, now_ms);
        if checked.1 is Err {
            (
                publication.released(checked.0),
                Err(
                    terminal_failure(
                        ctx,
                        session_expired(),
                        "lease validation rejected for inode_id="@ + decimal(
                            handle.inode_id.0 as nat,
                        ),
                        authority,
                    ),
                ),
            )
        } else if committed_error(intent, session) is Some {
            (
                publication.released(checked.0),
                Err(invalid_publication(ctx, committed_error(intent, session)->0, authority)),
            )
        } else if authority.group_name is None {
            (
                publication.released(checked.0),
                Err(metadata_failure(ctx, lookup_group_error(operation.text()), authority)),
            )
        } else {
            match publication_targets(
                session,
                intent.committed_blocks@,
                expected_generation,
                read,
            ) {
                Err(e) => (
                    publication.released(checked.0),
                    Err(invalid_publication(ctx, e.text, authority)),
                ),
                Ok(targets) => (checked.0, Ok(targets)),
            }
        }
    }
}

/// A publication that is valid: what it makes visible, and the targets that workers must
/// have ready for it.
pub struct ValidPublication {
    pub publication: WritePublication,
    pub payload: FilePublication,
    pub targets: Vec<PublishReadyTarget>,
}

fn check_publication(
    registry: &mut SessionRegistry,
    ctx: &RequestContext,
    authority: &Authority,
    operation: PublishOperation,
    handle: WriteHandle,
    intent: &CloseWriteIntent,
    expected_generation: ContentGeneration,
    publication: &WritePublication,
    read: InodeRead,
    now_ms: u64,
) -> (r: Result<Vec<PublishReadyTarget>, FsFailure>)
    requires
        old(registry).wf(),
    ensures
        final(registry).wf(),
        final(registry).limits() == old(registry).limits(),
        ({
            let outcome = publication_validated(
                old(registry)@,
                ctx@,
                authority@,
                operation,
                handle,
                *intent,
                expected_generation,
                publication@,
                read,
                now_ms,
            );
            match r {
                Ok(targets) => {
                    &&& outcome.1 == Ok::<Seq<PublishReadyTargetView>, FsFailureView>(
                        ready_target_views(targets@),
                    )
                    &&& final(registry)@ == outcome.0
                },
                Err(f) => {
                    &&& outcome.1 == Err::<Seq<PublishReadyTargetView>, FsFailureView>(f@)
                    &&& publication@.released(final(registry)@) == outcome.0
                },
            }
        }),
{
    let session = publication.session();
    if operation == PublishOperation::SyncWrite {
        match find_foreign_block(&intent.committed_blocks, session.inode_id) {
            Some(block) => {
                let found = block.block_id.inode_id.to_text();
                let wanted = session.inode_id.to_text();
                let mut out = join("SyncWrite committed block inode_id ", found.as_str());
                out.append(" does not match write handle inode_id ");
                out.append(wanted.as_str());
                let error = MetadataError::InvalidArgument(out);
                return Err(fs_failure_from_metadata_error(ctx, &error, authority));
            },
            None => {},
        }
    }
    if handle.lease_epoch != session.lease_epoch {
        return Err(
            invalid_failure(
                ctx,
                epoch_mismatch_message(handle.inode_id, session.lease_epoch, handle.lease_epoch),
                authority,
            ),
        );
    }
    if registry.validate_session(session.inode_id, handle.lease_epoch, now_ms).is_err() {
        return Err(
            expired_failure(
                ctx,
                with_inode("lease validation rejected for inode_id=", handle.inode_id),
                authority,
            ),
        );
    }
    match validate_committed_blocks(intent, session) {
        Ok(_) => {},
        Err(e) => return Err(invalid_publication_failure(ctx, e.message(), authority)),
    }
    match require_worker_lookup_group(ctx, authority, operation.name()) {
        Ok(_) => {},
        Err(f) => return Err(f),
    }
    match publication_ready_targets(
        session,
        &intent.committed_blocks,
        expected_generation,
        read,
    ) {
        Ok(targets) => Ok(targets),
        Err(e) => Err(invalid_publication_failure(ctx, e.message(), authority)),
    }
}

/// Validates a frozen publication under the authority that the caller's epochs were checked
/// against.
pub fn validate_publication(
    registry: &mut SessionRegistry,
    ctx: &RequestContext,
    authority: &Authority,
    operation: PublishOperation,
    handle: WriteHandle,
    intent: &CloseWriteIntent,
    expected_generation: ContentGeneration,
    mode: PublishMode,
    publication: WritePublication,
    read: InodeRead,
    now_ms: u64,
) -> (r: Result<ValidPublication, FsFailure>)
    requires
        old(registry).wf(),
    ensures
        final(registry).wf(),
        final(registry).limits() == old(registry).limits(),
        ({
            let outcome = publication_validated(
                old(registry)@,
                ctx@,
                authority@,
                operation,
                handle,
                *intent,
                expected_generation,
                publication@,
                read,
                now_ms,
            );
            &&& final(registry)@ == outcome.0
            &&& match r {
                Ok(valid) => {
                    &&& valid.publication == publication
                    &&& valid.payload@ == intent.publication_view(
                        handle,
                        expected_generation,
                        mode,
                    )
                    &&& outcome.1 == Ok::<Seq<PublishReadyTargetView>, FsFailureView>(
                        ready_target_views(valid.targets@),
                    )
                },
                Err(f) => outcome.1 == Err::<Seq<PublishReadyTargetView>, FsFailureView>(f@),
            }
        }),
{
    match check_publication(
        registry,
        ctx,
        authority,
        operation,
        handle,
        intent,
        expected_generation,
        &publication,
        read,
        now_ms,
    ) {
        Ok(targets) => Ok(
            ValidPublication {
                publication,
                payload: intent.publication(handle, expected_generation, mode),
                targets,
            },
        ),
        Err(f) => {
            publication.release(registry);
            Err(f)
        },
    }
}

// ---- validation after workers were waited for ----

/// Whether the mount still has the owner group and the epoch that the publication was
/// validated under.
pub open spec fn same_mount_authority(before: AuthorityView, current: AuthorityView) -> bool {
    &&& before.group_name is Some
    &&& current.group_name == before.group_name
    &&& current.mount_epoch == before.mount_epoch
}

fn same_epoch(a: Option<u64>, b: Option<u64>) -> (r: bool)
    ensures
        r == (a == b),
{
    match (a, b) {
        (Some(x), Some(y)) => x == y,
        (None, None) => true,
        _ => false,
    }
}

/// Checks that the mount kept its owner group and its epoch while workers were waited for.
pub fn check_mount_authority(
    ctx: &RequestContext,
    operation: PublishOperation,
    before: &Authority,
    current: &Authority,
) -> (r: Result<(), FsFailure>)
    ensures
        if same_mount_authority(before@, current@) {
            r is Ok
        } else {
            &&& r is Err
            &&& (r->Err_0)@ == metadata_failure(
                ctx@,
                MetadataErrorView {
                    code: MetadataErrorCode::StaleState,
                    text: operation.text() + " mount authority changed during Ready wait"@,
                },
                AuthorityView { route_epoch: before@.route_epoch, ..current@ },
            )
        },
{
    let same_group = match (&before.group_name, &current.group_name) {
        (Some(a), Some(b)) => a.same(b),
        _ => false,
    };
    if same_group && same_epoch(before.mount_epoch, current.mount_epoch) {
        return Ok(());
    }
    let told = Authority {
        group_name: copy_optional_group(&current.group_name),
        mount_epoch: current.mount_epoch,
        route_epoch: before.route_epoch,
    };
    let error = MetadataError::StaleState(
        join(operation.name(), " mount authority changed during Ready wait"),
    );
    Err(fs_failure_from_metadata_error(ctx, &error, &told))
}

/// What looking at the session again does and answers: the publication must still own it,
/// for the same client and mode, with the same inode, mount, base size and generation, and
/// its lease must not have expired.
pub open spec fn session_revalidated(
    v: RegistryView,
    ctx: RequestContextView,
    publication: WritePublicationView,
    mode: PublishMode,
    operation: PublishOperation,
    now_ms: u64,
) -> (RegistryView, Result<WriteSessionView, FsFailureView>) {
    let expected = publication.session;
    let unknown = AuthorityView::unknown();
    let again = v.revalidate_publication(
        expected.inode_id,
        expected.lease_epoch,
        publication.publication_id,
        now_ms,
    );
    match again.1 {
        Err(e) => (
            again.0,
            Err(
                terminal_failure(
                    ctx,
                    session_invalid(),
                    operation.text()
                        + " write publication changed while waiting for Ready block reports: "@
                        + e.text(),
                    unknown,
                ),
            ),
        ),
        Ok(current) => if current.open_client_id != ctx.caller.client.client_id
            || publish_mode_of(current.mode) != mode {
            (
                again.0,
                Err(
                    terminal_failure(
                        ctx,
                        session_invalid(),
                        precondition_text(operation),
                        unknown,
                    ),
                ),
            )
        } else if current.inode_id != expected.inode_id || current.mount_id != expected.mount_id
            || current.base_size != expected.base_size || current.generation
            != expected.generation {
            (
                again.0,
                Err(
                    terminal_failure(
                        ctx,
                        session_invalid(),
                        operation.text()
                            + " write session changed while waiting for Ready block reports"@,
                        unknown,
                    ),
                ),
            )
        } else {
            let checked = again.0.validate_session(
                current.inode_id,
                current.lease_epoch,
                now_ms,
            );
            if checked.1 is Err {
                (
                    checked.0,
                    Err(
                        terminal_failure(
                            ctx,
                            session_expired(),
                            operation.text()
                                + " lease expired while waiting for Ready block reports"@,
                            unknown,
                        ),
                    ),
                )
            } else {
                (checked.0, Ok(current))
            }
        },
    }
}

/// Looks at the session again after workers were waited for.
pub fn revalidate_publish_session(
    registry: &mut SessionRegistry,
    ctx: &RequestContext,
    publication: &WritePublication,
    mode: PublishMode,
    operation: PublishOperation,
    now_ms: u64,
) -> (r: Result<WriteSession, FsFailure>)
    requires
        old(registry).wf(),
    ensures
        final(registry).wf(),
        final(registry).limits() == old(registry).limits(),
        ({
            let outcome = session_revalidated(
                old(registry)@,
                ctx@,
                publication@,
                mode,
                operation,
                now_ms,
            );
            &&& final(registry)@ == outcome.0
            &&& match r {
                Ok(s) => outcome.1 == Ok::<WriteSessionView, FsFailureView>(s@),
                Err(f) => outcome.1 == Err::<WriteSessionView, FsFailureView>(f@),
            }
        }),
{
    let unknown = Authority::unknown();
    let current = match publication.revalidate(registry, now_ms) {
        Ok(current) => current,
        Err(e) => {
            let text = e.message();
            let mut out = join(
                operation.name(),
                " write publication changed while waiting for Ready block reports: ",
            );
            out.append(text.as_str());
            return Err(invalid_failure(ctx, out, &unknown));
        },
    };
    if current.open_client_id != ctx.caller.client.client_id || publish_mode_for_session(&current)
        != mode {
        return Err(precondition_failure(ctx, operation));
    }
    let expected = publication.session();
    if current.inode_id != expected.inode_id || current.mount_id != expected.mount_id
        || current.base_size != expected.base_size || current.generation != expected.generation {
        return Err(
            invalid_failure(
                ctx,
                join(
                    operation.name(),
                    " write session changed while waiting for Ready block reports",
                ),
                &unknown,
            ),
        );
    }
    if registry.validate_session(current.inode_id, current.lease_epoch, now_ms).is_err() {
        return Err(
            expired_failure(
                ctx,
                join(
                    operation.name(),
                    " lease expired while waiting for Ready block reports",
                ),
                &unknown,
            ),
        );
    }
    Ok(current)
}

// ---- proposal ----

/// Whether the command proposes exactly this publication.
pub open spec fn proposes(
    command: Command,
    operation: PublishOperation,
    ctx: RequestContextView,
    inode: InodeId,
    publication: FilePublicationView,
) -> bool {
    match (operation, command) {
        (PublishOperation::SyncWrite, Command::PublishFile { inode_id, publication: p }) => inode_id
            == inode && p@ == publication,
        (
            PublishOperation::CommitFile,
            Command::CommitFile { inode_id, client_id, call_id, publication: p },
        ) => inode_id == inode && client_id == ctx.caller.client.client_id && call_id
            == ctx.caller.client.call_id && p@ == publication,
        _ => false,
    }
}

/// The authority under which a deadline is told: that of the publication, with the mount
/// epoch of the route.
pub open spec fn deadline_authority(
    authority: AuthorityView,
    routed: RoutedFsWriteCtx,
) -> AuthorityView {
    AuthorityView { mount_epoch: Some(routed.mount_epoch), ..authority }
}

/// What the last checks before a proposal do, and why they refuse it, if they do. The order
/// is: session, workers, route, deadline. What is refused is given up.
pub open spec fn proposal_checked(
    v: RegistryView,
    ctx: RequestContextView,
    authority: AuthorityView,
    operation: PublishOperation,
    publication: WritePublicationView,
    mode: PublishMode,
    targets: nat,
    has_workers: bool,
    status: PublishReadyStatus,
    routed: Result<RoutedFsWriteCtx, FsFailureView>,
    now_ms: u64,
) -> (RegistryView, Option<FsFailureView>) {
    let again = session_revalidated(v, ctx, publication, mode, operation, now_ms);
    let refusal = if again.1 is Err {
        Some(again.1->Err_0)
    } else if unready(ctx, authority, targets, has_workers, status) is Some {
        unready(ctx, authority, targets, has_workers, status)
    } else {
        match routed {
            Err(f) => Some(f),
            Ok(routed) => if now_ms >= ctx.caller.deadline.0 {
                Some(deadline_failure(ctx, deadline_authority(authority, routed)))
            } else {
                None
            },
        }
    };
    (
        if refusal is Some {
            publication.released(again.0)
        } else {
            again.0
        },
        refusal,
    )
}

/// A publication that is ready to be proposed.
pub struct Proposal {
    pub publication: WritePublication,
    pub command: Command,
    pub routed: RoutedFsWriteCtx,
}

fn refuse_proposal(
    registry: &mut SessionRegistry,
    ctx: &RequestContext,
    authority: &Authority,
    operation: PublishOperation,
    publication: &WritePublication,
    mode: PublishMode,
    targets: &Vec<PublishReadyTarget>,
    has_workers: bool,
    status: PublishReadyStatus,
    routed: Result<RoutedFsWriteCtx, FsFailure>,
    now_ms: u64,
) -> (r: Result<RoutedFsWriteCtx, FsFailure>)
    requires
        old(registry).wf(),
    ensures
        final(registry).wf(),
        final(registry).limits() == old(registry).limits(),
        ({
            let outcome = proposal_checked(
                old(registry)@,
                ctx@,
                authority@,
                operation,
                publication@,
                mode,
                targets@.len(),
                has_workers,
                status,
                route_view(routed),
                now_ms,
            );
            match r {
                Ok(route) => outcome.1 is None && routed == Ok::<RoutedFsWriteCtx, FsFailure>(
                    route,
                ) && final(registry)@ == outcome.0,
                Err(f) => outcome.1 == Some(f@) && publication@.released(final(registry)@)
                    == outcome.0,
            }
        }),
{
    match revalidate_publish_session(registry, ctx, publication, mode, operation, now_ms) {
        Ok(_) => {},
        Err(f) => return Err(f),
    }
    match require_publish_ready(ctx, authority, targets, has_workers, status) {
        Ok(()) => {},
        Err(f) => return Err(f),
    }
    let routed = match routed {
        Ok(routed) => routed,
        Err(f) => return Err(f),
    };
    let told = Authority {
        group_name: copy_optional_group(&authority.group_name),
        mount_epoch: Some(routed.mount_epoch),
        route_epoch: authority.route_epoch,
    };
    match require_publish_deadline(ctx, &told, now_ms) {
        Ok(()) => Ok(routed),
        Err(f) => Err(f),
    }
}

/// Makes the last checks before a proposal and builds its command. `status` is what the
/// workers have reported now, and `routed` where the write goes now.
pub fn prepare_proposal(
    registry: &mut SessionRegistry,
    ctx: &RequestContext,
    authority: &Authority,
    operation: PublishOperation,
    handle: WriteHandle,
    valid: ValidPublication,
    has_workers: bool,
    status: PublishReadyStatus,
    routed: Result<RoutedFsWriteCtx, FsFailure>,
    now_ms: u64,
) -> (r: Result<Proposal, FsFailure>)
    requires
        old(registry).wf(),
    ensures
        final(registry).wf(),
        final(registry).limits() == old(registry).limits(),
        ({
            let outcome = proposal_checked(
                old(registry)@,
                ctx@,
                authority@,
                operation,
                valid.publication@,
                valid.payload.mode,
                valid.targets@.len(),
                has_workers,
                status,
                route_view(routed),
                now_ms,
            );
            &&& final(registry)@ == outcome.0
            &&& match r {
                Ok(proposal) => {
                    &&& outcome.1 is None
                    &&& proposal.publication == valid.publication
                    &&& routed == Ok::<RoutedFsWriteCtx, FsFailure>(proposal.routed)
                    &&& proposes(
                        proposal.command,
                        operation,
                        ctx@,
                        handle.inode_id,
                        valid.payload@,
                    )
                },
                Err(f) => outcome.1 == Some(f@),
            }
        }),
{
    let ValidPublication { publication, payload, targets } = valid;
    let routed = match refuse_proposal(
        registry,
        ctx,
        authority,
        operation,
        &publication,
        payload.mode,
        &targets,
        has_workers,
        status,
        routed,
        now_ms,
    ) {
        Ok(routed) => routed,
        Err(f) => {
            publication.release(registry);
            return Err(f);
        },
    };
    let command = match operation {
        PublishOperation::SyncWrite => Command::PublishFile {
            inode_id: handle.inode_id,
            publication: payload,
        },
        PublishOperation::CommitFile => Command::CommitFile {
            inode_id: handle.inode_id,
            client_id: ctx.caller.client.client_id,
            call_id: ctx.caller.client.call_id,
            publication: payload,
        },
    };
    Ok(Proposal { publication, command, routed })
}

/// What submitting a publication does and answers.
pub open spec fn publication_submitted(
    v: RegistryView,
    publication: WritePublicationView,
    now_ms: u64,
) -> (RegistryView, Result<WritePublicationView, MetadataErrorView>) {
    let marked = v.mark_submitted(publication, now_ms);
    match marked.1 {
        Ok(()) => (marked.0, Ok(WritePublicationView { submitted: true, ..publication })),
        Err(e) => (
            publication.released(marked.0),
            Err(MetadataErrorView { code: MetadataErrorCode::Again, text: e.text() }),
        ),
    }
}

/// Pins the session of a publication right before its command is proposed.
pub fn submit_publication(
    registry: &mut SessionRegistry,
    publication: WritePublication,
    now_ms: u64,
) -> (r: Result<WritePublication, MetadataError>)
    requires
        old(registry).wf(),
    ensures
        final(registry).wf(),
        final(registry).limits() == old(registry).limits(),
        ({
            let outcome = publication_submitted(old(registry)@, publication@, now_ms);
            &&& final(registry)@ == outcome.0
            &&& match r {
                Ok(p) => outcome.1 == Ok::<WritePublicationView, MetadataErrorView>(p@),
                Err(e) => outcome.1 == Err::<WritePublicationView, MetadataErrorView>(e@),
            }
        }),
{
    let mut publication = publication;
    match registry.mark_submitted(&mut publication, now_ms) {
        Ok(()) => Ok(publication),
        Err(e) => {
            publication.release(registry);
            Err(MetadataError::Again(e.message()))
        },
    }
}

/// How a proposal ended.
pub enum PublicationEnd {
    /// The command was applied, and the session brought up to it.
    Applied(ContentGeneration),
    /// The command was applied, but the session could not be brought up to it.
    Broken(MetadataError),
    /// The command failed. It may still apply: a lease end that is ordered behind it decides
    /// whether its session can go.
    Fence(WritePublication, MetadataError),
}

/// The value of a `PublicationEnd`.
pub enum PublicationEndView {
    Applied(ContentGeneration),
    Broken(MetadataErrorView),
    Fence(WritePublicationView, MetadataErrorView),
}

impl View for PublicationEnd {
    type V = PublicationEndView;

    open spec fn view(&self) -> PublicationEndView {
        match self {
            PublicationEnd::Applied(generation) => PublicationEndView::Applied(*generation),
            PublicationEnd::Broken(e) => PublicationEndView::Broken(e@),
            PublicationEnd::Fence(p, e) => PublicationEndView::Fence(p@, e@),
        }
    }
}

/// The registry after the session of a publication was retired.
pub open spec fn publication_retired(v: RegistryView, publication: WritePublicationView) -> RegistryView {
    v.complete_commit_publication(
        publication.session.inode_id,
        publication.session.lease_epoch,
        publication.publication_id,
    )
}

/// What the end of a proposal does and answers. A commit that was applied ends the session,
/// a sync brings it up to the new generation, and an error leaves it pinned.
pub open spec fn publication_finished(
    v: RegistryView,
    publication: WritePublicationView,
    operation: PublishOperation,
    handle: WriteHandle,
    file_size: u64,
    reply: RaftReply,
    now_ms: u64,
) -> (RegistryView, PublicationEndView) {
    let closes = operation == PublishOperation::CommitFile;
    match publication_reply(reply, handle.inode_id, handle.lease_epoch, closes) {
        Ok(generation) => if closes {
            (publication_retired(v, publication), PublicationEndView::Applied(generation))
        } else {
            let synced = publication.synced(v, generation, file_size, now_ms);
            (
                synced.0,
                match synced.1 {
                    Ok(()) => PublicationEndView::Applied(generation),
                    Err(e) => PublicationEndView::Broken(
                        MetadataErrorView { code: MetadataErrorCode::Internal, text: e.text() },
                    ),
                },
            )
        },
        Err(e) => (v, PublicationEndView::Fence(publication, e)),
    }
}

/// Ends a proposal. `reply` is what proposing the publication returned.
pub fn finish_publication(
    registry: &mut SessionRegistry,
    publication: WritePublication,
    operation: PublishOperation,
    handle: WriteHandle,
    file_size: u64,
    reply: RaftReply,
    now_ms: u64,
) -> (r: PublicationEnd)
    requires
        old(registry).wf(),
    ensures
        final(registry).wf(),
        final(registry).limits() == old(registry).limits(),
        (final(registry)@, r@) == publication_finished(
            old(registry)@,
            publication@,
            operation,
            handle,
            file_size,
            reply,
            now_ms,
        ),
{
    let closes = match operation {
        PublishOperation::SyncWrite => false,
        PublishOperation::CommitFile => true,
    };
    match decode_publication(reply, handle.inode_id, handle.lease_epoch, closes) {
        Ok(generation) => {
            if closes {
                publication.complete_commit(registry);
                return PublicationEnd::Applied(generation);
            }
            match publication.complete_sync(registry, generation, file_size, now_ms) {
                Ok(()) => PublicationEnd::Applied(generation),
                Err(e) => PublicationEnd::Broken(MetadataError::Internal(e.message())),
            }
        },
        Err(e) => PublicationEnd::Fence(publication, e),
    }
}

/// What the fence behind a failed publication does: the session goes only where the fence
/// proves that the publication can no longer apply.
pub open spec fn publication_settled(
    v: RegistryView,
    publication: WritePublicationView,
    handle: WriteHandle,
    fence: RaftReply,
) -> RegistryView {
    if fence_rules_out(fence, handle.inode_id, handle.lease_epoch) {
        publication_retired(v, publication)
    } else {
        publication.released(v)
    }
}

/// Settles a publication whose proposal failed. `fence` is what the lease end behind it
/// returned.
pub fn settle_publication(
    registry: &mut SessionRegistry,
    publication: WritePublication,
    handle: WriteHandle,
    fence: RaftReply,
)
    requires
        old(registry).wf(),
    ensures
        final(registry).wf(),
        final(registry).limits() == old(registry).limits(),
        final(registry)@ == publication_settled(
            old(registry)@,
            publication@,
            handle,
            fence,
        ),
{
    if is_fenced(fence, handle.inode_id, handle.lease_epoch) {
        publication.complete_commit(registry);
    } else {
        publication.release(registry);
    }
}

// ---- answers ----

/// The authority that a proposed publication is answered with: that of its route, with the
/// route epoch that was found in force.
pub open spec fn published_authority(
    routed: RoutedFsWriteCtx,
    route_epoch: Option<u64>,
) -> AuthorityView {
    AuthorityView { route_epoch, ..routed.authority_view() }
}

/// Answers a sync whose proposal ended with `published`.
pub fn answer_sync(
    ctx: &RequestContext,
    routed: &RoutedFsWriteCtx,
    route_epoch: Option<u64>,
    final_size: u64,
    published: Result<ContentGeneration, MetadataError>,
    leader_state: Option<RaftLogId>,
) -> (r: Result<FsSuccess<SyncWriteOutput>, FsFailure>)
    ensures
        match published {
            Ok(generation) => {
                &&& r is Ok
                &&& (r->Ok_0).payload == (SyncWriteOutput {
                    synced_size: final_size,
                    generation: Some(generation),
                })
                &&& (r->Ok_0).told_by(published_authority(*routed, route_epoch), leader_state)
            },
            Err(e) => {
                &&& r is Err
                &&& (r->Err_0)@ == metadata_failure(ctx@, e@, routed.authority_view())
            },
        },
{
    let mut authority = routed.authority();
    match published {
        Ok(generation) => {
            authority.route_epoch = route_epoch;
            let output = SyncWriteOutput {
                synced_size: final_size,
                generation: Some(generation),
            };
            Ok(success_with_route_epoch(output, &authority, leader_state))
        },
        Err(e) => Err(fs_failure_from_metadata_error(ctx, &e, &authority)),
    }
}

/// Answers a commit whose proposal ended with `published`.
pub fn answer_commit(
    ctx: &RequestContext,
    routed: &RoutedFsWriteCtx,
    route_epoch: Option<u64>,
    final_size: u64,
    published: Result<ContentGeneration, MetadataError>,
    leader_state: Option<RaftLogId>,
) -> (r: Result<FsSuccess<CloseWriteOutput>, FsFailure>)
    ensures
        match published {
            Ok(_) => {
                &&& r is Ok
                &&& (r->Ok_0).payload == (CloseWriteOutput { committed_size: final_size })
                &&& (r->Ok_0).told_by(published_authority(*routed, route_epoch), leader_state)
            },
            Err(e) => {
                &&& r is Err
                &&& (r->Err_0)@ == metadata_failure(ctx@, e@, routed.authority_view())
            },
        },
{
    let mut authority = routed.authority();
    match published {
        Ok(_) => {
            authority.route_epoch = route_epoch;
            let output = CloseWriteOutput { committed_size: final_size };
            Ok(success_with_route_epoch(output, &authority, leader_state))
        },
        Err(e) => Err(fs_failure_from_metadata_error(ctx, &e, &authority)),
    }
}

// ---- laws ----

/// A publication that was given up before it was submitted does not own its session.
pub proof fn a_released_publication_owns_nothing(
    v: RegistryView,
    limits: RegistryLimits,
    publication: WritePublicationView,
)
    requires
        v.wf(limits),
        !publication.submitted,
    ensures
        publication.released(v).publication_error(
            publication.session.inode_id,
            publication.session.lease_epoch,
            publication.publication_id,
        ) is Some,
{
    let key = publication.session.inode_id.0;
    assert(v.entries.contains_key(key) ==> v.entry_wf(key, limits));
}

/// A publication that is refused, by its contents or by a last check, lets its session go:
/// another publication can begin.
pub proof fn a_refused_publication_lets_its_session_go(
    v: RegistryView,
    limits: RegistryLimits,
    ctx: RequestContextView,
    authority: AuthorityView,
    operation: PublishOperation,
    handle: WriteHandle,
    intent: CloseWriteIntent,
    expected_generation: ContentGeneration,
    publication: WritePublicationView,
    read: InodeRead,
    mode: PublishMode,
    targets: nat,
    has_workers: bool,
    status: PublishReadyStatus,
    routed: Result<RoutedFsWriteCtx, FsFailureView>,
    now_ms: u64,
)
    requires
        v.wf(limits),
        !publication.submitted,
    ensures
        ({
            let session = publication.session;
            let validated = publication_validated(
                v,
                ctx,
                authority,
                operation,
                handle,
                intent,
                expected_generation,
                publication,
                read,
                now_ms,
            );
            let checked = proposal_checked(
                v,
                ctx,
                authority,
                operation,
                publication,
                mode,
                targets,
                has_workers,
                status,
                routed,
                now_ms,
            );
            &&& validated.1 is Err ==> validated.0.publication_error(
                session.inode_id,
                session.lease_epoch,
                publication.publication_id,
            ) is Some
            &&& checked.1 is Some ==> checked.0.publication_error(
                session.inode_id,
                session.lease_epoch,
                publication.publication_id,
            ) is Some
        }),
{
    let session = publication.session;
    a_released_publication_owns_nothing(v, limits, publication);
    validated_sessions_stay_well_formed(v, limits, session.inode_id, handle.lease_epoch, now_ms);
    a_released_publication_owns_nothing(
        v.validate_session(session.inode_id, handle.lease_epoch, now_ms).0,
        limits,
        publication,
    );
    tidied_keeps_counters(v, limits, session.inode_id.0, now_ms);
    let t = v.tidied(session.inode_id.0, now_ms);
    a_released_publication_owns_nothing(t, limits, publication);
    let current = t.session(session.inode_id);
    validated_sessions_stay_well_formed(t, limits, current.inode_id, current.lease_epoch, now_ms);
    a_released_publication_owns_nothing(
        t.validate_session(current.inode_id, current.lease_epoch, now_ms).0,
        limits,
        publication,
    );
}

proof fn validated_sessions_stay_well_formed(
    v: RegistryView,
    limits: RegistryLimits,
    inode: InodeId,
    epoch: LeaseEpoch,
    now_ms: u64,
)
    requires
        v.wf(limits),
    ensures
        v.validate_session(inode, epoch, now_ms).0.wf(limits),
{
    lemma_without_entry(v, limits, inode.0);
    lemma_swept(v, limits, now_ms, MAX_EXPIRED_SESSION_RETIREMENTS_PER_CALL as nat);
}

/// A publication that is validated fits the session that it froze: it was made for its epoch
/// and its contents, and every block that it names must be ready before it is proposed.
pub proof fn validated_publications_fit_their_session(
    v: RegistryView,
    ctx: RequestContextView,
    authority: AuthorityView,
    operation: PublishOperation,
    handle: WriteHandle,
    intent: CloseWriteIntent,
    expected_generation: ContentGeneration,
    publication: WritePublicationView,
    read: InodeRead,
    now_ms: u64,
)
    requires
        publication_validated(
            v,
            ctx,
            authority,
            operation,
            handle,
            intent,
            expected_generation,
            publication,
            read,
            now_ms,
        ).1 is Ok,
    ensures
        ({
            let session = publication.session;
            let blocks = intent.committed_blocks@;
            let targets = publication_validated(
                v,
                ctx,
                authority,
                operation,
                handle,
                intent,
                expected_generation,
                publication,
                read,
                now_ms,
            ).1->Ok_0;
            &&& handle.lease_epoch == session.lease_epoch
            &&& committed_error(intent, session) is None
            &&& read matches Ok(Some(stored))
            &&& (read->Ok_0->0).kind->File_0.generation == expected_generation
            &&& targets.len() == blocks.len()
            &&& forall|i: int|
                0 <= i < blocks.len() ==> {
                    &&& (#[trigger] targets[i]).target.block_id == blocks[i].block_id
                    &&& targets[i].effective_len == blocks[i].len
                    &&& targets[i].target.fencing_token.epoch == session.lease_epoch
                }
        }),
{
    readiness_is_asked_for_every_block(publication.session, intent.committed_blocks@);
}

/// A publication is proposed only while it owns a live session that is as it was frozen,
/// with every target ready, a route, and time left.
pub proof fn proposals_act_on_the_frozen_session(
    v: RegistryView,
    ctx: RequestContextView,
    authority: AuthorityView,
    operation: PublishOperation,
    publication: WritePublicationView,
    mode: PublishMode,
    targets: nat,
    has_workers: bool,
    status: PublishReadyStatus,
    routed: Result<RoutedFsWriteCtx, FsFailureView>,
    now_ms: u64,
)
    requires
        proposal_checked(
            v,
            ctx,
            authority,
            operation,
            publication,
            mode,
            targets,
            has_workers,
            status,
            routed,
            now_ms,
        ).1 is None,
    ensures
        ({
            let frozen = publication.session;
            let t = v.tidied(frozen.inode_id.0, now_ms);
            let current = t.session(frozen.inode_id);
            &&& t.publication_error(
                frozen.inode_id,
                frozen.lease_epoch,
                publication.publication_id,
            ) is None
            &&& current.open_client_id == ctx.caller.client.client_id
            &&& mode == PublishMode::AppendIfUnchanged <==> current.mode == WriteMode::Append
            &&& mode == PublishMode::ReplaceIfUnchanged <==> current.mode == WriteMode::Overwrite
            &&& current.generation == frozen.generation
            &&& current.base_size == frozen.base_size
            &&& current.mount_id == frozen.mount_id
            &&& targets > 0 ==> status == PublishReadyStatus::Ready
            &&& routed is Ok
            &&& now_ms < ctx.caller.deadline.0
        }),
{
}

/// After the deadline nothing is proposed.
pub proof fn nothing_is_proposed_after_the_deadline(
    v: RegistryView,
    ctx: RequestContextView,
    authority: AuthorityView,
    operation: PublishOperation,
    publication: WritePublicationView,
    mode: PublishMode,
    targets: nat,
    has_workers: bool,
    status: PublishReadyStatus,
    routed: Result<RoutedFsWriteCtx, FsFailureView>,
    now_ms: u64,
)
    requires
        now_ms >= ctx.caller.deadline.0,
    ensures
        proposal_checked(
            v,
            ctx,
            authority,
            operation,
            publication,
            mode,
            targets,
            has_workers,
            status,
            routed,
            now_ms,
        ).1 is Some,
{
}

/// A commit that has been made is answered whatever became of its session.
pub proof fn a_made_commit_is_answered(
    v: RegistryView,
    ctx: RequestContextView,
    handle: WriteHandle,
    expected_generation: ContentGeneration,
    mode: PublishMode,
    stored: Inode,
    generation: ContentGeneration,
    now_ms: u64,
)
    requires
        stored.inode_id == handle.inode_id,
    ensures
        commit_begun(
            v,
            ctx,
            handle,
            expected_generation,
            mode,
            Ok(Some(stored)),
            Ok(Some(generation)),
            now_ms,
        ) == (
            v,
            Ok::<PublishStepView, FsFailureView>(PublishStepView::Committed(stored.mount_id)),
        ),
{
}

/// A sync whose effect is visible is answered with the stored generation, also where its
/// session is gone.
pub proof fn a_visible_sync_is_answered(
    v: RegistryView,
    ctx: RequestContextView,
    authority: AuthorityView,
    handle: WriteHandle,
    names_no_block: bool,
    expected_generation: ContentGeneration,
    mode: PublishMode,
    read: InodeRead,
    matches: VisibleMatch,
    state: SyncedState,
    final_size: u64,
    now_ms: u64,
)
    requires
        synced_state(handle, names_no_block, expected_generation, read, matches) == Ok::<
            Option<SyncedState>,
            MetadataErrorView,
        >(Some(state)),
        v.tidied(handle.inode_id.0, now_ms).find_session(handle.inode_id) is None,
    ensures
        ({
            let begun = sync_begun(
                v,
                ctx,
                handle,
                names_no_block,
                expected_generation,
                mode,
                read,
                matches,
                now_ms,
            );
            &&& begun.1 == Ok::<PublishStepView, FsFailureView>(
                PublishStepView::Visible(state, None),
            )
            &&& visible_sync_finished(
                begun.0,
                ctx,
                authority,
                state,
                None,
                final_size,
                now_ms,
            ).1 == Ok::<SyncWriteOutput, FsFailureView>(
                SyncWriteOutput { synced_size: final_size, generation: Some(state.generation) },
            )
        }),
{
}

/// A submitted publication whose end is not known keeps its session: neither the failed
/// proposal nor a fence that proves nothing changes the registry.
pub proof fn an_unresolved_publication_keeps_its_session(
    v: RegistryView,
    publication: WritePublicationView,
    operation: PublishOperation,
    handle: WriteHandle,
    file_size: u64,
    error: MetadataError,
    fence: RaftReply,
    now_ms: u64,
)
    requires
        publication.submitted,
        !fence_rules_out(fence, handle.inode_id, handle.lease_epoch),
    ensures
        ({
            let finished = publication_finished(
                v,
                publication,
                operation,
                handle,
                file_size,
                Err(error),
                now_ms,
            );
            &&& finished == (v, PublicationEndView::Fence(publication, error@))
            &&& publication_settled(finished.0, publication, handle, fence) == v
        }),
{
}

/// A commit that was applied, or one that a fence rules out, ends the session that its
/// publication owns, and no other.
pub proof fn a_resolved_commit_ends_only_its_session(
    v: RegistryView,
    publication: WritePublicationView,
)
    ensures
        ({
            let inode = publication.session.inode_id;
            let after = publication_retired(v, publication);
            let owned = v.publication_error(
                inode,
                publication.session.lease_epoch,
                publication.publication_id,
            ) is None;
            &&& owned ==> after == v.without_entry(inode.0)
            &&& !owned ==> after == v
        }),
{
}

} // verus!
