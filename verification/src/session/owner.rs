//! What the owners of openings, reservations and publications do. An owner that is not
//! finished is released: only the matching state goes, never that of a replacement.

use vstd::prelude::*;

use crate::fs::ContentGeneration;
use crate::ids::{ClientId, InodeId};
use crate::inode::FileData;
use crate::layout::FileLayout;
use crate::lease::LeaseEpoch;
use crate::location::{LocatedBlock, LocatedBlockView};
use crate::session::model::{
    CreateOpening, RegistryView, WriteOpening, WritePublicationView, WriteTargetReservation,
};
use crate::session::registry::{optional_target_view, SessionRegistry, WritePublication};
use crate::session::types::{
    CompleteWriteTargetError, PublicationError, RegistryLimits, WriteOpeningError, WriteSession,
    WriteSessionView,
};

verus! {

impl WriteOpening {
    /// Returns the epoch that the matching command must acquire.
    pub fn proposed_lease_epoch(&self) -> (r: LeaseEpoch)
        ensures
            r == self.proposed_lease_epoch,
    {
        self.proposed_lease_epoch
    }

    /// The registry after the opening was activated or, where that failed, released.
    pub open spec fn activated(
        self,
        v: RegistryView,
        limits: RegistryLimits,
        returned: LeaseEpoch,
        now_ms: u64,
        file: FileData,
        tail: Option<LocatedBlockView>,
    ) -> (RegistryView, Result<WriteSessionView, WriteOpeningError>) {
        let outcome = v.activate_opening(
            limits,
            self.inode_id,
            self.opening_id,
            returned,
            now_ms,
            file,
            tail,
        );
        match outcome.1 {
            Ok(_) => outcome,
            Err(_) => (outcome.0.cancel_opening(self.inode_id, self.opening_id), outcome.1),
        }
    }

    /// Converts the matching, non-expired opening into an active session, or gives it up.
    pub fn activate(
        self,
        registry: &mut SessionRegistry,
        returned_lease_epoch: LeaseEpoch,
        file: &FileData,
        tail: Option<LocatedBlock>,
        now_ms: u64,
    ) -> (r: Result<WriteSession, WriteOpeningError>)
        requires
            old(registry).wf(),
        ensures
            final(registry).wf(),
            final(registry).limits() == old(registry).limits(),
            ({
                let outcome = self.activated(
                    old(registry)@,
                    old(registry).limits(),
                    returned_lease_epoch,
                    now_ms,
                    *file,
                    optional_target_view(tail),
                );
                &&& final(registry)@ == outcome.0
                &&& match r {
                    Ok(session) => outcome.1 == Ok::<WriteSessionView, WriteOpeningError>(
                        session@,
                    ),
                    Err(e) => outcome.1 == Err::<WriteSessionView, WriteOpeningError>(e),
                }
            }),
    {
        let result = registry.activate_opening(
            self.inode_id,
            self.opening_id,
            returned_lease_epoch,
            now_ms,
            file,
            tail,
        );
        if result.is_err() {
            registry.cancel_opening(self.inode_id, self.opening_id);
        }
        result
    }

    /// Gives the opening up.
    pub fn release(self, registry: &mut SessionRegistry)
        requires
            old(registry).wf(),
        ensures
            final(registry).wf(),
            final(registry).limits() == old(registry).limits(),
            final(registry)@ == old(registry)@.cancel_opening(self.inode_id, self.opening_id),
    {
        registry.cancel_opening(self.inode_id, self.opening_id)
    }
}

impl CreateOpening {
    /// Returns the session expiry that is replicated with the create.
    pub fn expires_at_ms(&self) -> (r: u64)
        ensures
            r == self.expires_at_ms,
    {
        self.expires_at_ms
    }

    /// The registry after the create was activated or, where that failed, released.
    pub open spec fn activated(
        self,
        v: RegistryView,
        inode_id: InodeId,
        lease_epoch: LeaseEpoch,
        expires_at_ms: u64,
        layout: FileLayout,
        generation: ContentGeneration,
        now_ms: u64,
    ) -> (RegistryView, Result<WriteSessionView, WriteOpeningError>) {
        let outcome = v.activate_create_opening(
            self.operation_id,
            self.opening_id,
            inode_id,
            lease_epoch,
            expires_at_ms,
            layout,
            generation,
            now_ms,
        );
        match outcome.1 {
            Ok(_) => outcome,
            Err(_) => (
                outcome.0.cancel_create_opening(self.operation_id, self.opening_id),
                outcome.1,
            ),
        }
    }

    /// Binds the durable result of the create to its session, or gives the create up.
    pub fn activate(
        self,
        registry: &mut SessionRegistry,
        inode_id: InodeId,
        lease_epoch: LeaseEpoch,
        expires_at_ms: u64,
        layout: FileLayout,
        generation: ContentGeneration,
        now_ms: u64,
    ) -> (r: Result<WriteSession, WriteOpeningError>)
        requires
            old(registry).wf(),
        ensures
            final(registry).wf(),
            final(registry).limits() == old(registry).limits(),
            ({
                let outcome = self.activated(
                    old(registry)@,
                    inode_id,
                    lease_epoch,
                    expires_at_ms,
                    layout,
                    generation,
                    now_ms,
                );
                &&& final(registry)@ == outcome.0
                &&& match r {
                    Ok(session) => outcome.1 == Ok::<WriteSessionView, WriteOpeningError>(
                        session@,
                    ),
                    Err(e) => outcome.1 == Err::<WriteSessionView, WriteOpeningError>(e),
                }
            }),
    {
        let result = registry.activate_create_opening(
            self.operation_id,
            self.opening_id,
            inode_id,
            lease_epoch,
            expires_at_ms,
            layout,
            generation,
            now_ms,
        );
        if result.is_err() {
            registry.cancel_create_opening(self.operation_id, self.opening_id);
        }
        result
    }

    /// Gives the create up.
    pub fn release(self, registry: &mut SessionRegistry)
        requires
            old(registry).wf(),
        ensures
            final(registry).wf(),
            final(registry).limits() == old(registry).limits(),
            final(registry)@ == old(registry)@.cancel_create_opening(
                self.operation_id,
                self.opening_id,
            ),
    {
        registry.cancel_create_opening(self.operation_id, self.opening_id)
    }
}

impl WriteTargetReservation {
    /// Returns the persisted layout that the block must use.
    pub fn layout(&self) -> (r: FileLayout)
        ensures
            r == self.layout,
    {
        self.layout
    }

    /// Returns the client that the fencing token names.
    pub fn open_client_id(&self) -> (r: ClientId)
        ensures
            r == self.open_client_id,
    {
        self.open_client_id
    }

    /// Returns the file offset that is reserved.
    pub fn file_offset(&self) -> (r: u64)
        ensures
            r == self.file_offset,
    {
        self.file_offset
    }

    /// Installs a validated target in place of the pending step.
    pub fn complete(self, registry: &mut SessionRegistry, target: LocatedBlock, now_ms: u64) -> (r:
        Result<LocatedBlock, CompleteWriteTargetError>)
        requires
            old(registry).wf(),
        ensures
            final(registry).wf(),
            final(registry).limits() == old(registry).limits(),
            ({
                let outcome = old(registry)@.complete_write_target(
                    self.inode_id,
                    self.lease_epoch,
                    self.pending,
                    target@,
                    now_ms,
                );
                &&& final(registry)@ == outcome.0
                &&& match r {
                    Ok(issued) => outcome.1 == Ok::<LocatedBlockView, CompleteWriteTargetError>(
                        issued@,
                    ),
                    Err(e) => outcome.1 == Err::<LocatedBlockView, CompleteWriteTargetError>(e),
                }
            }),
    {
        registry.complete_write_target(
            self.inode_id,
            self.lease_epoch,
            self.pending,
            target,
            now_ms,
        )
    }

    /// Gives the reservation up.
    pub fn release(self, registry: &mut SessionRegistry)
        requires
            old(registry).wf(),
        ensures
            final(registry).wf(),
            final(registry).limits() == old(registry).limits(),
            final(registry)@ == old(registry)@.cancel_write_target(
                self.inode_id,
                self.lease_epoch,
                self.pending,
            ),
    {
        registry.cancel_write_target(self.inode_id, self.lease_epoch, self.pending);
    }
}

impl WritePublicationView {
    /// The registry after the publication was given up. A submitted one keeps its
    /// protection until it is resolved.
    pub open spec fn released(self, v: RegistryView) -> RegistryView {
        if self.submitted {
            v
        } else {
            v.cancel_publication(
                self.session.inode_id,
                self.session.lease_epoch,
                self.publication_id,
            )
        }
    }

    /// The registry after the publication was completed as a sync or, where that failed,
    /// given up.
    pub open spec fn synced(
        self,
        v: RegistryView,
        generation: ContentGeneration,
        file_size: u64,
        now_ms: u64,
    ) -> (RegistryView, Result<(), PublicationError>) {
        let outcome = v.complete_sync_publication(
            self.session.inode_id,
            self.session.lease_epoch,
            self.publication_id,
            generation,
            file_size,
            now_ms,
        );
        match outcome.1 {
            Ok(()) => outcome,
            Err(_) => (self.released(outcome.0), outcome.1),
        }
    }
}

impl WritePublication {
    /// Returns the session as it was frozen.
    pub fn session(&self) -> (r: &WriteSession)
        ensures
            r@ == self@.session,
    {
        &self.session
    }

    /// Returns the session again after workers were waited for.
    pub fn revalidate(&self, registry: &mut SessionRegistry, now_ms: u64) -> (r: Result<
        WriteSession,
        PublicationError,
    >)
        requires
            old(registry).wf(),
        ensures
            final(registry).wf(),
            final(registry).limits() == old(registry).limits(),
            ({
                let outcome = old(registry)@.revalidate_publication(
                    self@.session.inode_id,
                    self@.session.lease_epoch,
                    self@.publication_id,
                    now_ms,
                );
                &&& final(registry)@ == outcome.0
                &&& match r {
                    Ok(session) => outcome.1 == Ok::<WriteSessionView, PublicationError>(session@),
                    Err(e) => outcome.1 == Err::<WriteSessionView, PublicationError>(e),
                }
            }),
    {
        registry.revalidate_publication(
            self.session.inode_id,
            self.session.lease_epoch,
            self.publication_id,
            now_ms,
        )
    }

    /// Installs the generation of a successful sync and releases the publication.
    pub fn complete_sync(
        self,
        registry: &mut SessionRegistry,
        generation: ContentGeneration,
        file_size: u64,
        now_ms: u64,
    ) -> (r: Result<(), PublicationError>)
        requires
            old(registry).wf(),
        ensures
            final(registry).wf(),
            final(registry).limits() == old(registry).limits(),
            (final(registry)@, r) == self@.synced(old(registry)@, generation, file_size, now_ms),
    {
        let result = registry.complete_sync_publication(
            self.session.inode_id,
            self.session.lease_epoch,
            self.publication_id,
            generation,
            file_size,
            now_ms,
        );
        if result.is_err() {
            self.release(registry);
        }
        result
    }

    /// Retires the session of this publication. One that is missing or replaced is retired
    /// already.
    pub fn complete_commit(self, registry: &mut SessionRegistry)
        requires
            old(registry).wf(),
        ensures
            final(registry).wf(),
            final(registry).limits() == old(registry).limits(),
            final(registry)@ == old(registry)@.complete_commit_publication(
                self@.session.inode_id,
                self@.session.lease_epoch,
                self@.publication_id,
            ),
    {
        registry.complete_commit_publication(
            self.session.inode_id,
            self.session.lease_epoch,
            self.publication_id,
        )
    }

    /// Gives the publication up, unless it has been submitted.
    pub fn release(self, registry: &mut SessionRegistry)
        requires
            old(registry).wf(),
        ensures
            final(registry).wf(),
            final(registry).limits() == old(registry).limits(),
            final(registry)@ == self@.released(old(registry)@),
    {
        if !self.submitted {
            registry.cancel_publication(
                self.session.inode_id,
                self.session.lease_epoch,
                self.publication_id,
            );
        }
    }
}

} // verus!
