//! The blocks that a publication names, and how they fit the file and its writer.

use vstd::prelude::*;

use std::collections::HashMap;

use crate::error::{MetadataError, MetadataErrorCode, MetadataErrorView};
use crate::filesystem::command::{FilePublication, InodeRead, PublishMode};
use crate::filesystem::readiness::{
    ready_target_views, PublishReadyTarget, PublishReadyTargetView,
};
use crate::fs::{ContentGeneration, WriteMode};
use crate::ids::{BlockId, InodeId};
use crate::inode::{
    block_count_result, block_len_of, blocks_cover_the_file, blocks_for, not_a_file, FileData,
    InodeKind,
};
use crate::lease::{LeaseEpoch, WriteHandle};
use crate::location::{located_views, CommittedBlock, LocatedBlock, LocatedBlockView};
use crate::session::types::{WriteSession, WriteSessionView};

verus! {

broadcast use vstd::std_specs::hash::group_hash_axioms;

/// The visible boundary that a caller asks for, frozen before its first attempt.
#[derive(Debug)]
pub struct CloseWriteIntent {
    pub committed_blocks: Vec<CommittedBlock>,
    pub final_size: u64,
    pub expected_file_size: u64,
}

/// The value of a `FilePublication`.
pub struct FilePublicationView {
    pub blocks: Seq<CommittedBlock>,
    pub target_size: u64,
    pub expected_generation: ContentGeneration,
    pub expected_file_size: u64,
    pub lease_epoch: LeaseEpoch,
    pub mode: PublishMode,
}

impl View for FilePublication {
    type V = FilePublicationView;

    open spec fn view(&self) -> FilePublicationView {
        FilePublicationView {
            blocks: self.blocks@,
            target_size: self.target_size,
            expected_generation: self.expected_generation,
            expected_file_size: self.expected_file_size,
            lease_epoch: self.lease_epoch,
            mode: self.mode,
        }
    }
}

/// Returns a copy of the committed blocks.
pub fn copy_committed(blocks: &Vec<CommittedBlock>) -> (r: Vec<CommittedBlock>)
    ensures
        r@ == blocks@,
{
    let mut out: Vec<CommittedBlock> = Vec::new();
    let mut i: usize = 0;
    while i < blocks.len()
        invariant
            i <= blocks@.len(),
            out@ == blocks@.take(i as int),
        decreases blocks.len() - i,
    {
        out.push(blocks[i]);
        i += 1;
        assert(out@ =~= blocks@.take(i as int));
    }
    assert(out@ =~= blocks@);
    out
}

impl CloseWriteIntent {
    /// The publication that this intent asks for.
    pub open spec fn publication_view(
        &self,
        handle: WriteHandle,
        generation: ContentGeneration,
        mode: PublishMode,
    ) -> FilePublicationView {
        FilePublicationView {
            blocks: self.committed_blocks@,
            target_size: self.final_size,
            expected_generation: generation,
            expected_file_size: self.expected_file_size,
            lease_epoch: handle.lease_epoch,
            mode,
        }
    }

    /// Returns the publication that this intent asks for. It keeps the caller's frozen
    /// preconditions for a durable replay.
    pub fn publication(
        &self,
        handle: WriteHandle,
        generation: ContentGeneration,
        mode: PublishMode,
    ) -> (r: FilePublication)
        ensures
            r@ == self.publication_view(handle, generation, mode),
    {
        FilePublication {
            blocks: copy_committed(&self.committed_blocks),
            target_size: self.final_size,
            expected_generation: generation,
            expected_file_size: self.expected_file_size,
            lease_epoch: handle.lease_epoch,
            mode,
        }
    }
}

/// Whether every block belongs to the inode.
pub open spec fn all_of_inode(blocks: Seq<CommittedBlock>, inode: InodeId) -> bool {
    forall|i: int| 0 <= i < blocks.len() ==> (#[trigger] blocks[i]).block_id.inode_id == inode
}

/// Checks that every committed block belongs to the inode of the request.
pub fn check_committed_inodes(blocks: &Vec<CommittedBlock>, inode: InodeId) -> (r: Result<
    (),
    MetadataError,
>)
    ensures
        r is Ok <==> forall|i: int|
            0 <= i < blocks@.len() ==> (#[trigger] blocks@[i]).block_id.inode_id == inode,
        r is Ok <==> all_of_inode(blocks@, inode),
        r is Err ==> (r->Err_0)@ == (MetadataErrorView {
            code: MetadataErrorCode::InvalidArgument,
            text: "committed block inode_id does not match request"@,
        }),
{
    let mut i: usize = 0;
    while i < blocks.len()
        invariant
            i <= blocks@.len(),
            forall|k: int| 0 <= k < i ==> (#[trigger] blocks@[k]).block_id.inode_id == inode,
        decreases blocks.len() - i,
    {
        if blocks[i].block_id.inode_id != inode {
            assert(blocks@[i as int].block_id.inode_id != inode);
            return Err(
                MetadataError::InvalidArgument(
                    "committed block inode_id does not match request".to_owned(),
                ),
            );
        }
        i += 1;
    }
    Ok(())
}

/// How many bytes the committed blocks hold together.
pub open spec fn total_len(blocks: Seq<CommittedBlock>) -> nat
    decreases blocks.len(),
{
    if blocks.len() == 0 {
        0
    } else {
        total_len(blocks.drop_last()) + blocks.last().len as nat
    }
}

/// Returns how many bytes the committed blocks hold together, at most the largest number.
pub fn committed_bytes(blocks: &Vec<CommittedBlock>) -> (r: u64)
    ensures
        r == if total_len(blocks@) > u64::MAX {
            u64::MAX as nat
        } else {
            total_len(blocks@)
        },
{
    let mut sum: u64 = 0;
    let mut i: usize = 0;
    while i < blocks.len()
        invariant
            i <= blocks@.len(),
            sum == if total_len(blocks@.take(i as int)) > u64::MAX {
                u64::MAX as nat
            } else {
                total_len(blocks@.take(i as int))
            },
        decreases blocks.len() - i,
    {
        assert(blocks@.take(i as int + 1).drop_last() =~= blocks@.take(i as int));
        sum = sum.saturating_add(blocks[i].len);
        i += 1;
    }
    assert(blocks@.take(i as int) =~= blocks@);
    sum
}

/// What a publication of a session in this mode does.
pub open spec fn publish_mode_of(mode: WriteMode) -> PublishMode {
    match mode {
        WriteMode::Overwrite => PublishMode::ReplaceIfUnchanged,
        WriteMode::Append => PublishMode::AppendIfUnchanged,
    }
}

/// Returns what a publication of a session does.
pub fn publish_mode_for_session(session: &WriteSession) -> (r: PublishMode)
    ensures
        r == publish_mode_of(session@.mode),
{
    match session.mode {
        WriteMode::Overwrite => PublishMode::ReplaceIfUnchanged,
        WriteMode::Append => PublishMode::AppendIfUnchanged,
    }
}

// ---- issued targets by block ----

/// The last target of a block among the first `upto`.
pub open spec fn last_target(targets: Seq<LocatedBlockView>, id: BlockId, upto: int) -> Option<int>
    decreases upto,
{
    if upto <= 0 || upto > targets.len() {
        None
    } else if targets[upto - 1].block_id == id {
        Some(upto - 1)
    } else {
        last_target(targets, id, upto - 1)
    }
}

/// The target that was issued last for a block.
pub open spec fn issued_target(targets: Seq<LocatedBlockView>, id: BlockId) -> Option<
    LocatedBlockView,
> {
    match last_target(targets, id, targets.len() as int) {
        Some(i) => Some(targets[i]),
        None => None,
    }
}

/// A number that names a block.
pub open spec fn block_number(id: BlockId) -> nat {
    (id.inode_id.0 * 0x1_0000_0000 + id.index.0) as nat
}

fn block_key(id: BlockId) -> (r: u128)
    ensures
        r == block_number(id),
{
    id.inode_id.0 as u128 * 0x1_0000_0000 + id.index.0 as u128
}

proof fn lemma_block_number(a: BlockId, b: BlockId)
    requires
        block_number(a) == block_number(b),
    ensures
        a == b,
{
}

proof fn lemma_last_target(targets: Seq<LocatedBlockView>, id: BlockId, upto: int)
    requires
        0 <= upto <= targets.len(),
    ensures
        match last_target(targets, id, upto) {
            Some(i) => 0 <= i < upto && targets[i].block_id == id && forall|k: int|
                i < k < upto ==> (#[trigger] targets[k]).block_id != id,
            None => forall|k: int| 0 <= k < upto ==> (#[trigger] targets[k]).block_id != id,
        },
    decreases upto,
{
    if upto > 0 {
        lemma_last_target(targets, id, upto - 1);
    }
}

fn index_targets(targets: &Vec<LocatedBlock>) -> (r: HashMap<u128, usize>)
    ensures
        forall|id: BlockId|
            match #[trigger] last_target(located_views(targets@), id, targets@.len() as int) {
                Some(i) => r@.contains_key(block_number(id) as u128) && r@[block_number(
                    id,
                ) as u128] == i,
                None => !r@.contains_key(block_number(id) as u128),
            },
{
    let ghost views = located_views(targets@);
    let mut out: HashMap<u128, usize> = HashMap::new();
    let mut i: usize = 0;
    while i < targets.len()
        invariant
            views == located_views(targets@),
            i <= targets@.len(),
            forall|id: BlockId|
                match #[trigger] last_target(views, id, i as int) {
                    Some(k) => out@.contains_key(block_number(id) as u128) && out@[block_number(
                        id,
                    ) as u128] == k,
                    None => !out@.contains_key(block_number(id) as u128),
                },
        decreases targets.len() - i,
    {
        let ghost before = out@;
        assert(views[i as int] == targets@[i as int]@);
        let key: u128 = block_key(targets[i].block_id);
        out.insert(key, i);
        proof {
            assert forall|id: BlockId|
                match #[trigger] last_target(views, id, i as int + 1) {
                    Some(k) => out@.contains_key(block_number(id) as u128) && out@[block_number(
                        id,
                    ) as u128] == k,
                    None => !out@.contains_key(block_number(id) as u128),
                } by {
                let earlier = last_target(views, id, i as int);
                let n = block_number(id);
                assert(n <= u128::MAX);
                if id != views[i as int].block_id && n == key {
                    lemma_block_number(id, views[i as int].block_id);
                }
            }
        }
        i += 1;
    }
    out
}

fn find_issued<'a>(
    targets: &'a Vec<LocatedBlock>,
    index: &HashMap<u128, usize>,
    id: BlockId,
) -> (r: Option<&'a LocatedBlock>)
    requires
        forall|id: BlockId|
            match #[trigger] last_target(located_views(targets@), id, targets@.len() as int) {
                Some(i) => index@.contains_key(block_number(id) as u128) && index@[block_number(
                    id,
                ) as u128] == i,
                None => !index@.contains_key(block_number(id) as u128),
            },
    ensures
        match r {
            Some(t) => issued_target(located_views(targets@), id) == Some(t@),
            None => issued_target(located_views(targets@), id) is None,
        },
{
    let ghost views = located_views(targets@);
    proof {
        lemma_last_target(views, id, targets@.len() as int);
        assert(last_target(views, id, targets@.len() as int) == last_target(
            views,
            id,
            views.len() as int,
        ));
    }
    let key: u128 = block_key(id);
    match index.get(&key) {
        Some(at) => {
            let at: usize = *at;
            assert(views[at as int] == targets@[at as int]@);
            Some(&targets[at])
        },
        None => None,
    }
}

// ---- shape of a publication ----

/// The position in the file of the first block that a publication names, or why there is
/// none: a replacement names all blocks, an append the tail and what follows, and an append
/// that changes nothing names none.
pub open spec fn first_changed(
    session: WriteSessionView,
    blocks: nat,
    final_size: u64,
    count: nat,
) -> Result<nat, Seq<char>> {
    if session.mode == WriteMode::Overwrite {
        Ok(0)
    } else if final_size == session.base_size && blocks == 0 {
        Ok(count)
    } else if session.base_size / session.layout.block_size as u64 > usize::MAX {
        Err("block ordinal overflows"@)
    } else {
        Ok((session.base_size / session.layout.block_size as u64) as nat)
    }
}

/// Whether the block at `i` of a publication is what the file needs at its position: issued
/// for exactly that offset, owned by the inode, and full up to the end of the file.
pub open spec fn fits_position(
    session: WriteSessionView,
    block: CommittedBlock,
    target: LocatedBlockView,
    final_size: u64,
    ordinal: nat,
) -> bool {
    let size = session.layout.block_size as nat;
    &&& block.block_id.inode_id == session.inode_id
    &&& target.file_offset == ordinal * size
    &&& block.len == block_len_of(final_size as nat, size, ordinal)
}

/// Why the blocks from `i` on do not fit, if they do not. The first one decides.
pub open spec fn sequence_error(
    session: WriteSessionView,
    blocks: Seq<CommittedBlock>,
    final_size: u64,
    start: nat,
    i: int,
) -> Option<Seq<char>>
    decreases blocks.len() - i,
{
    if i < 0 || i >= blocks.len() {
        None
    } else {
        match issued_target(session.issued_targets, blocks[i].block_id) {
            None => Some("block was not issued to this writer"@),
            Some(target) => if !fits_position(
                session,
                blocks[i],
                target,
                final_size,
                (start + i) as nat,
            ) {
                Some("invalid ordered publication block"@)
            } else {
                sequence_error(session, blocks, final_size, start, i + 1)
            },
        }
    }
}

/// Why a publication is not valid for its session, if it is not.
pub open spec fn committed_error(
    intent: CloseWriteIntent,
    session: WriteSessionView,
) -> Option<Seq<char>> {
    let blocks = intent.committed_blocks@;
    let counted = block_count_result(intent.final_size, session.layout.block_size);
    if intent.expected_file_size != session.base_size {
        Some("expected file size does not match session"@)
    } else if counted is Err {
        Some(counted->Err_0)
    } else {
        let count = counted->Ok_0;
        match first_changed(session, blocks.len(), intent.final_size, count) {
            Err(e) => Some(e),
            Ok(start) => if (session.mode == WriteMode::Append && intent.final_size
                < session.base_size) || start > count || blocks.len() != count - start {
                Some("publication does not cover the target length"@)
            } else {
                sequence_error(session, blocks, intent.final_size, start, 0)
            },
        }
    }
}

/// Checks the changed tail and the new blocks, in order, against the issued targets of the
/// session. Returns the blocks to publish.
pub fn validate_committed_blocks(intent: &CloseWriteIntent, session: &WriteSession) -> (r: Result<
    Vec<CommittedBlock>,
    MetadataError,
>)
    ensures
        match committed_error(*intent, session@) {
            None => r is Ok && (r->Ok_0)@ == intent.committed_blocks@,
            Some(text) => r is Err && (r->Err_0)@ == (MetadataErrorView {
                code: MetadataErrorCode::InvalidArgument,
                text,
            }),
        },
{
    if intent.expected_file_size != session.base_size {
        return Err(
            MetadataError::InvalidArgument(
                "expected file size does not match session".to_owned(),
            ),
        );
    }
    let count: usize = match FileData::block_count(intent.final_size, session.layout.block_size) {
        Ok(count) => count,
        Err(e) => {
            assert(e@ == (MetadataErrorView {
                code: MetadataErrorCode::InvalidArgument,
                text: e@.text,
            }));
            return Err(e);
        },
    };
    let capacity: u64 = session.layout.block_size as u64;
    let blocks: usize = intent.committed_blocks.len();
    let start: usize = match session.mode {
        WriteMode::Overwrite => 0,
        WriteMode::Append => if intent.final_size == session.base_size && blocks == 0 {
            count
        } else {
            let ordinal: u64 = session.base_size / capacity;
            if ordinal > usize::MAX as u64 {
                return Err(MetadataError::InvalidArgument("block ordinal overflows".to_owned()));
            }
            ordinal as usize
        },
    };
    let shrinks = match session.mode {
        WriteMode::Append => intent.final_size < session.base_size,
        WriteMode::Overwrite => false,
    };
    if shrinks || start > count || blocks != count - start {
        return Err(
            MetadataError::InvalidArgument(
                "publication does not cover the target length".to_owned(),
            ),
        );
    }
    let issued = index_targets(&session.issued_targets);
    let ghost v = session@;
    let ghost seq = intent.committed_blocks@;
    let mut i: usize = 0;
    while i < blocks
        invariant
            v == session@,
            seq == intent.committed_blocks@,
            blocks == seq.len(),
            i <= blocks,
            capacity == v.layout.block_size,
            capacity > 0,
            count == blocks_for(intent.final_size as nat, capacity as nat),
            start + blocks == count,
            forall|id: BlockId|
                match #[trigger] last_target(
                    located_views(session.issued_targets@),
                    id,
                    session.issued_targets@.len() as int,
                ) {
                    Some(k) => issued@.contains_key(block_number(id) as u128)
                        && issued@[block_number(id) as u128] == k,
                    None => !issued@.contains_key(block_number(id) as u128),
                },
            committed_error(*intent, v) == sequence_error(
                v,
                seq,
                intent.final_size,
                start as nat,
                i as int,
            ),
        decreases blocks - i,
    {
        let block = intent.committed_blocks[i];
        let target = match find_issued(&session.issued_targets, &issued, block.block_id) {
            Some(target) => target,
            None => return Err(
                MetadataError::InvalidArgument("block was not issued to this writer".to_owned()),
            ),
        };
        proof {
            blocks_cover_the_file(
                intent.final_size as nat,
                capacity as nat,
                (start + i) as nat,
            );
        }
        let offset: u64 = (start + i) as u64 * capacity;
        let rest: u64 = intent.final_size - offset;
        let len: u64 = if rest < capacity {
            rest
        } else {
            capacity
        };
        if block.block_id.inode_id != session.inode_id || target.file_offset != offset
            || block.len != len {
            return Err(
                MetadataError::InvalidArgument("invalid ordered publication block".to_owned()),
            );
        }
        i += 1;
    }
    Ok(copy_committed(&intent.committed_blocks))
}

proof fn lemma_sequence_fits(
    session: WriteSessionView,
    blocks: Seq<CommittedBlock>,
    final_size: u64,
    start: nat,
    from: int,
    i: int,
)
    requires
        0 <= from <= i < blocks.len(),
        sequence_error(session, blocks, final_size, start, from) is None,
    ensures
        issued_target(session.issued_targets, blocks[i].block_id) is Some,
        fits_position(
            session,
            blocks[i],
            issued_target(session.issued_targets, blocks[i].block_id)->0,
            final_size,
            (start + i) as nat,
        ),
    decreases i - from,
{
    if from < i {
        lemma_sequence_fits(session, blocks, final_size, start, from + 1, i);
    }
}

/// The position in the file of the first block of a valid publication.
pub open spec fn changed_from(intent: CloseWriteIntent, session: WriteSessionView) -> nat {
    first_changed(
        session,
        intent.committed_blocks@.len(),
        intent.final_size,
        blocks_for(intent.final_size as nat, session.layout.block_size as nat),
    )->Ok_0
}

/// Every block of a valid publication was issued to its writer, for the position that it
/// takes, and has the length that the file has there.
pub proof fn published_blocks_fit_their_position(
    intent: CloseWriteIntent,
    session: WriteSessionView,
    i: int,
)
    requires
        committed_error(intent, session) is None,
        0 <= i < intent.committed_blocks@.len(),
    ensures
        ({
            let block = intent.committed_blocks@[i];
            let ordinal = (changed_from(intent, session) + i) as nat;
            let size = session.layout.block_size as nat;
            let target = issued_target(session.issued_targets, block.block_id);
            &&& target is Some
            &&& (target->0).block_id == block.block_id
            &&& (target->0).file_offset == ordinal * size
            &&& block.block_id.inode_id == session.inode_id
            &&& 0 < block.len <= size
            &&& ordinal * size + block.len <= intent.final_size
            &&& i + 1 < intent.committed_blocks@.len() ==> block.len == size
            &&& i + 1 == intent.committed_blocks@.len() ==> ordinal * size + block.len
                == intent.final_size
        }),
{
    let blocks = intent.committed_blocks@;
    let start = changed_from(intent, session);
    let size = session.layout.block_size as nat;
    lemma_sequence_fits(session, blocks, intent.final_size, start, 0, i);
    lemma_last_target(
        session.issued_targets,
        blocks[i].block_id,
        session.issued_targets.len() as int,
    );
    blocks_cover_the_file(intent.final_size as nat, size, (start + i) as nat);
}

/// A valid publication names every block once.
pub proof fn published_blocks_are_distinct(intent: CloseWriteIntent, session: WriteSessionView)
    requires
        committed_error(intent, session) is None,
    ensures
        forall|i: int, j: int|
            0 <= i < j < intent.committed_blocks@.len() ==> (
            #[trigger] intent.committed_blocks@[i]).block_id != (
            #[trigger] intent.committed_blocks@[j]).block_id,
{
    let blocks = intent.committed_blocks@;
    let start = changed_from(intent, session);
    let size = session.layout.block_size as nat;
    assert forall|i: int, j: int| 0 <= i < j < blocks.len() implies (
    #[trigger] blocks[i]).block_id != (#[trigger] blocks[j]).block_id by {
        published_blocks_fit_their_position(intent, session, i);
        published_blocks_fit_their_position(intent, session, j);
        assert((start + i) * size < (start + j) * size) by (nonlinear_arith)
            requires
                i < j,
                size > 0,
        ;
    }
}

proof fn lemma_total_len(
    intent: CloseWriteIntent,
    session: WriteSessionView,
    k: int,
)
    requires
        committed_error(intent, session) is None,
        0 < k <= intent.committed_blocks@.len(),
    ensures
        ({
            let blocks = intent.committed_blocks@;
            let start = changed_from(intent, session);
            let size = session.layout.block_size as nat;
            start * size + total_len(blocks.take(k)) == (start + k - 1) * size + blocks[k - 1].len
        }),
    decreases k,
{
    let blocks = intent.committed_blocks@;
    let start = changed_from(intent, session);
    let size = session.layout.block_size as nat;
    assert(blocks.take(k).drop_last() =~= blocks.take(k - 1));
    assert(blocks.take(k).last() == blocks[k - 1]);
    if k == 1 {
        assert(blocks.take(0) =~= Seq::<CommittedBlock>::empty());
        assert(total_len(blocks.take(0)) == 0);
    } else {
        lemma_total_len(intent, session, k - 1);
        published_blocks_fit_their_position(intent, session, k - 2);
        assert((start + k - 2) * size + size == (start + k - 1) * size) by (nonlinear_arith);
    }
}

/// A valid publication covers the file from its first changed block to its end: no byte is
/// missing and none is counted twice.
pub proof fn publications_cover_the_changed_part(
    intent: CloseWriteIntent,
    session: WriteSessionView,
)
    requires
        committed_error(intent, session) is None,
        intent.committed_blocks@.len() > 0,
    ensures
        changed_from(intent, session) * session.layout.block_size + total_len(
            intent.committed_blocks@,
        ) == intent.final_size,
{
    let n = intent.committed_blocks@.len() as int;
    lemma_total_len(intent, session, n);
    published_blocks_fit_their_position(intent, session, n - 1);
    assert(intent.committed_blocks@.take(n) =~= intent.committed_blocks@);
}

/// An append never gives up visible bytes, and leaves every full visible block alone.
pub proof fn appends_keep_the_visible_prefix(intent: CloseWriteIntent, session: WriteSessionView)
    requires
        committed_error(intent, session) is None,
        session.mode == WriteMode::Append,
    ensures
        intent.final_size >= session.base_size,
        intent.committed_blocks@.len() == 0 ==> intent.final_size == session.base_size,
        intent.committed_blocks@.len() > 0 ==> changed_from(intent, session)
            == session.base_size as nat / session.layout.block_size as nat,
{
    let size = session.layout.block_size as nat;
    let len = intent.final_size as nat;
    let base = session.base_size as nat;
    if intent.committed_blocks@.len() == 0 && len != base {
        assert(blocks_for(len, size) == base / size);
        assert(len <= blocks_for(len, size) * size) by (nonlinear_arith)
            requires
                blocks_for(len, size) == if len % size == 0 {
                    len / size
                } else {
                    len / size + 1
                },
                size > 0,
        ;
        assert(base / size * size <= base) by (nonlinear_arith)
            requires
                size > 0,
        ;
        assert(false);
    }
}

/// The target that counts for a block is one that was issued for it, and no later one was.
/// Where none was issued, none counts.
pub proof fn the_last_target_of_a_block_counts(targets: Seq<LocatedBlockView>, id: BlockId)
    ensures
        match issued_target(targets, id) {
            Some(t) => exists|i: int|
                {
                    &&& 0 <= i < targets.len()
                    &&& #[trigger] targets[i] == t
                    &&& t.block_id == id
                    &&& forall|k: int|
                        i < k < targets.len() ==> (#[trigger] targets[k]).block_id != id
                },
            None => forall|k: int|
                0 <= k < targets.len() ==> (#[trigger] targets[k]).block_id != id,
        },
{
    lemma_last_target(targets, id, targets.len() as int);
}

proof fn lemma_sequence_accepted(
    session: WriteSessionView,
    blocks: Seq<CommittedBlock>,
    final_size: u64,
    start: nat,
    from: int,
)
    requires
        0 <= from <= blocks.len(),
        forall|i: int|
            from <= i < blocks.len() ==> {
                let target = issued_target(session.issued_targets, blocks[i].block_id);
                &&& target is Some
                &&& fits_position(
                    session,
                    #[trigger] blocks[i],
                    target->0,
                    final_size,
                    (start + i) as nat,
                )
            },
    ensures
        sequence_error(session, blocks, final_size, start, from) is None,
    decreases blocks.len() - from,
{
    if from < blocks.len() {
        assert(fits_position(
            session,
            blocks[from],
            issued_target(session.issued_targets, blocks[from].block_id)->0,
            final_size,
            (start + from) as nat,
        ));
        lemma_sequence_accepted(session, blocks, final_size, start, from + 1);
    }
}

/// A publication that fits is accepted. It was made for the size that the session saw, and its
/// blocks were issued for the positions from `start` on, where `start` is the beginning of the
/// file for a session that overwrites, and the block of the visible end for one that appends.
/// The blocks have the inode of the session, and each holds what the file has at its position,
/// up to the end of the file.
pub proof fn fitting_publications_are_accepted(
    intent: CloseWriteIntent,
    session: WriteSessionView,
    start: nat,
)
    requires
        session.layout.block_size > 0,
        intent.expected_file_size == session.base_size,
        blocks_for(intent.final_size as nat, session.layout.block_size as nat) <= usize::MAX,
        session.mode == WriteMode::Overwrite ==> start == 0,
        session.mode == WriteMode::Append ==> {
            &&& intent.committed_blocks@.len() > 0
            &&& intent.final_size >= session.base_size
            &&& start == session.base_size as nat / session.layout.block_size as nat
        },
        start + intent.committed_blocks@.len() == blocks_for(
            intent.final_size as nat,
            session.layout.block_size as nat,
        ),
        forall|i: int|
            0 <= i < intent.committed_blocks@.len() ==> {
                let block = #[trigger] intent.committed_blocks@[i];
                let target = issued_target(session.issued_targets, block.block_id);
                let offset = (start + i) * session.layout.block_size;
                &&& target is Some
                &&& (target->0).file_offset == offset
                &&& block.block_id.inode_id == session.inode_id
                &&& offset + session.layout.block_size <= intent.final_size ==> block.len
                    == session.layout.block_size
                &&& offset + session.layout.block_size > intent.final_size ==> block.len
                    == intent.final_size - offset
            },
    ensures
        committed_error(intent, session) is None,
{
    let blocks = intent.committed_blocks@;
    let size = session.layout.block_size as nat;
    let len = intent.final_size as nat;
    assert forall|i: int| 0 <= i < blocks.len() implies {
        let target = issued_target(session.issued_targets, blocks[i].block_id);
        &&& target is Some
        &&& fits_position(
            session,
            #[trigger] blocks[i],
            target->0,
            intent.final_size,
            (start + i) as nat,
        )
    } by {
        let ordinal = (start + i) as nat;
        blocks_cover_the_file(len, size, ordinal);
        assert(ordinal * size == (start + i) * session.layout.block_size);
    }
    lemma_sequence_accepted(session, blocks, intent.final_size, start, 0);
    if session.mode == WriteMode::Append {
        assert(session.base_size / session.layout.block_size as u64 == start);
        assert(start <= usize::MAX);
    }
}

// ---- targets that must be ready ----

/// The targets whose readiness is needed for the given blocks: all of them, each with its
/// published length. The first block that was not issued to this writer decides the error.
pub open spec fn ready_targets(session: WriteSessionView, blocks: Seq<CommittedBlock>) -> Result<
    Seq<PublishReadyTargetView>,
    MetadataErrorView,
>
    decreases blocks.len(),
{
    if blocks.len() == 0 {
        Ok(Seq::empty())
    } else {
        match ready_targets(session, blocks.drop_last()) {
            Err(e) => Err(e),
            Ok(earlier) => match issued_target(session.issued_targets, blocks.last().block_id) {
                None => Err(
                    MetadataErrorView {
                        code: MetadataErrorCode::InvalidArgument,
                        text: "block was not issued to this writer"@,
                    },
                ),
                Some(target) => if target.fencing_token.epoch != session.lease_epoch {
                    Err(
                        MetadataErrorView {
                            code: MetadataErrorCode::InvalidArgument,
                            text: "target writer epoch mismatch"@,
                        },
                    )
                } else {
                    Ok(
                        earlier.push(
                            PublishReadyTargetView { target, effective_len: blocks.last().len },
                        ),
                    )
                },
            },
        }
    }
}

proof fn lemma_ready_error(session: WriteSessionView, blocks: Seq<CommittedBlock>, k: int)
    requires
        0 <= k <= blocks.len(),
        ready_targets(session, blocks.take(k)) is Err,
    ensures
        ready_targets(session, blocks) == ready_targets(session, blocks.take(k)),
    decreases blocks.len() - k,
{
    if k == blocks.len() {
        assert(blocks.take(k) =~= blocks);
    } else {
        assert(blocks.take(k + 1).drop_last() =~= blocks.take(k));
        lemma_ready_error(session, blocks, k + 1);
    }
}

/// The targets whose readiness a publication needs, from what reading the inode returned.
pub open spec fn publication_targets(
    session: WriteSessionView,
    blocks: Seq<CommittedBlock>,
    expected_generation: ContentGeneration,
    read: InodeRead,
) -> Result<Seq<PublishReadyTargetView>, MetadataErrorView> {
    match read {
        Err(e) => Err(e@),
        Ok(None) => Err(
            MetadataErrorView { code: MetadataErrorCode::NotFound, text: "inode missing"@ },
        ),
        Ok(Some(inode)) => match inode.kind {
            InodeKind::Dir => Err(not_a_file(inode.inode_id)),
            InodeKind::File(file) => if file.generation != expected_generation {
                Err(
                    MetadataErrorView {
                        code: MetadataErrorCode::StaleState,
                        text: "content generation changed"@,
                    },
                )
            } else {
                ready_targets(session, blocks)
            },
        },
    }
}

/// Returns the targets whose readiness a publication needs: every changed block must have
/// been issued to this writer. Full blocks from before are not part of a publication.
pub fn publication_ready_targets(
    session: &WriteSession,
    blocks: &Vec<CommittedBlock>,
    expected_generation: ContentGeneration,
    read: InodeRead,
) -> (r: Result<Vec<PublishReadyTarget>, MetadataError>)
    ensures
        ({
            let wanted = publication_targets(session@, blocks@, expected_generation, read);
            match r {
                Ok(targets) => wanted == Ok::<Seq<PublishReadyTargetView>, MetadataErrorView>(
                    ready_target_views(targets@),
                ),
                Err(e) => wanted == Err::<Seq<PublishReadyTargetView>, MetadataErrorView>(e@),
            }
        }),
{
    match read {
        Err(e) => return Err(e),
        Ok(None) => return Err(MetadataError::NotFound("inode missing".to_owned())),
        Ok(Some(inode)) => match inode.file() {
            Err(e) => return Err(e),
            Ok(file) => {
                if file.generation != expected_generation {
                    return Err(
                        MetadataError::StaleState("content generation changed".to_owned()),
                    );
                }
            },
        },
    }
    let issued = index_targets(&session.issued_targets);
    let ghost v = session@;
    let mut out: Vec<PublishReadyTarget> = Vec::new();
    let mut i: usize = 0;
    assert(ready_target_views(out@) =~= Seq::empty());
    while i < blocks.len()
        invariant
            v == session@,
            i <= blocks@.len(),
            out@.len() == i,
            publication_targets(v, blocks@, expected_generation, read) == ready_targets(
                v,
                blocks@,
            ),
            ready_targets(v, blocks@.take(i as int)) == Ok::<
                Seq<PublishReadyTargetView>,
                MetadataErrorView,
            >(ready_target_views(out@)),
            forall|id: BlockId|
                match #[trigger] last_target(
                    located_views(session.issued_targets@),
                    id,
                    session.issued_targets@.len() as int,
                ) {
                    Some(k) => issued@.contains_key(block_number(id) as u128)
                        && issued@[block_number(id) as u128] == k,
                    None => !issued@.contains_key(block_number(id) as u128),
                },
        decreases blocks.len() - i,
    {
        let ghost next = blocks@.take(i as int + 1);
        assert(next.drop_last() =~= blocks@.take(i as int));
        assert(next.last() == blocks@[i as int]);
        let target = match find_issued(&session.issued_targets, &issued, blocks[i].block_id) {
            Some(target) => target,
            None => {
                proof {
                    lemma_ready_error(v, blocks@, i as int + 1);
                }
                return Err(
                    MetadataError::InvalidArgument(
                        "block was not issued to this writer".to_owned(),
                    ),
                );
            },
        };
        if target.fencing_token.epoch != session.lease_epoch {
            proof {
                lemma_ready_error(v, blocks@, i as int + 1);
            }
            return Err(
                MetadataError::InvalidArgument("target writer epoch mismatch".to_owned()),
            );
        }
        let ghost earlier = ready_target_views(out@);
        out.push(PublishReadyTarget { target: target.clone(), effective_len: blocks[i].len });
        assert(ready_target_views(out@) =~= earlier.push(out@[i as int]@));
        i += 1;
    }
    assert(blocks@.take(i as int) =~= blocks@);
    Ok(out)
}

proof fn lemma_ready_targets_exist(session: WriteSessionView, blocks: Seq<CommittedBlock>)
    requires
        forall|k: int|
            0 <= k < session.issued_targets.len() ==> (
            #[trigger] session.issued_targets[k]).fencing_token.epoch == session.lease_epoch,
        forall|i: int|
            0 <= i < blocks.len() ==> issued_target(
                session.issued_targets,
                (#[trigger] blocks[i]).block_id,
            ) is Some,
    ensures
        ready_targets(session, blocks) is Ok,
    decreases blocks.len(),
{
    if blocks.len() > 0 {
        let front = blocks.drop_last();
        assert forall|i: int| 0 <= i < front.len() implies issued_target(
            session.issued_targets,
            (#[trigger] front[i]).block_id,
        ) is Some by {
            assert(front[i] == blocks[i]);
        }
        lemma_ready_targets_exist(session, front);
        let last = blocks[blocks.len() - 1];
        assert(issued_target(session.issued_targets, last.block_id) is Some);
        lemma_last_target(
            session.issued_targets,
            last.block_id,
            session.issued_targets.len() as int,
        );
    }
}

/// Readiness can be asked for every block of a publication that is valid, where its targets were
/// issued under the epoch of the session.
pub proof fn valid_blocks_can_be_asked_for(intent: CloseWriteIntent, session: WriteSessionView)
    requires
        committed_error(intent, session) is None,
        forall|k: int|
            0 <= k < session.issued_targets.len() ==> (
            #[trigger] session.issued_targets[k]).fencing_token.epoch == session.lease_epoch,
    ensures
        ready_targets(session, intent.committed_blocks@) is Ok,
{
    let blocks = intent.committed_blocks@;
    assert forall|i: int| 0 <= i < blocks.len() implies issued_target(
        session.issued_targets,
        (#[trigger] blocks[i]).block_id,
    ) is Some by {
        published_blocks_fit_their_position(intent, session, i);
    }
    lemma_ready_targets_exist(session, blocks);
}

/// Readiness is asked for every changed block, with its published length, and only for
/// blocks that were issued under the epoch of the session.
pub proof fn readiness_is_asked_for_every_block(
    session: WriteSessionView,
    blocks: Seq<CommittedBlock>,
)
    requires
        ready_targets(session, blocks) is Ok,
    ensures
        ({
            let targets = ready_targets(session, blocks)->Ok_0;
            &&& targets.len() == blocks.len()
            &&& forall|i: int|
                0 <= i < blocks.len() ==> {
                    &&& (#[trigger] targets[i]).target.block_id == blocks[i].block_id
                    &&& targets[i].effective_len == blocks[i].len
                    &&& targets[i].target.fencing_token.epoch == session.lease_epoch
                }
        }),
    decreases blocks.len(),
{
    if blocks.len() > 0 {
        let front = blocks.drop_last();
        readiness_is_asked_for_every_block(session, front);
        let earlier = ready_targets(session, front)->Ok_0;
        let targets = ready_targets(session, blocks)->Ok_0;
        lemma_last_target(
            session.issued_targets,
            blocks.last().block_id,
            session.issued_targets.len() as int,
        );
        assert forall|i: int| 0 <= i < blocks.len() implies {
            &&& (#[trigger] targets[i]).target.block_id == blocks[i].block_id
            &&& targets[i].effective_len == blocks[i].len
            &&& targets[i].target.fencing_token.epoch == session.lease_epoch
        } by {
            if i < front.len() {
                assert(targets[i] == earlier[i]);
                assert(front[i] == blocks[i]);
            }
        }
    }
}

} // verus!
