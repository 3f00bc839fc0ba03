//! Block reports of workers.

use vstd::prelude::*;

use crate::error::{MetadataError, MetadataErrorCode, MetadataErrorView};
use crate::ids::BlockId;
use crate::proto::convert::{block_id_decode, parse_known_tier, tier_of_raw};
use crate::text::{decimal, decimal_text, join};
use crate::worker::message::{
    Batch, Block, BlockReportRequestProto, DeltaBlockReportEntryProto, ReportedBlockProto,
    ReportedBlockStateProto, TierFreeProto,
};
use crate::worker_info::{BlockReportBlockState, Tier, TierFree, MAX_REPORT_ENTRIES};

verus! {

/// A block that a worker reports as present.
#[derive(Clone, Copy, Debug, PartialEq, Eq, Structural)]
pub struct BlockReportBlock {
    /// Tier of a ready block.
    pub tier: Option<Tier>,
    pub block_id: BlockId,
    pub lease_epoch: u64,
    pub block_state: BlockReportBlockState,
    pub effective_len: u64,
}

/// A change that a worker reports.
#[derive(Clone, Copy, Debug, PartialEq, Eq, Structural)]
pub enum BlockReportChange {
    Upsert(BlockReportBlock),
    Remove(BlockId),
}

/// The error for a report that is not valid.
pub open spec fn invalid_report(text: Seq<char>) -> MetadataErrorView {
    MetadataErrorView { code: MetadataErrorCode::InvalidArgument, text }
}

/// The state that a reported state names.
pub open spec fn report_state(state: ReportedBlockStateProto) -> Option<BlockReportBlockState> {
    match state {
        ReportedBlockStateProto::ReportedBlockStateReady => Some(BlockReportBlockState::Ready),
        ReportedBlockStateProto::ReportedBlockStateCorrupt => Some(BlockReportBlockState::Corrupt),
        ReportedBlockStateProto::ReportedBlockStateDeleting => Some(
            BlockReportBlockState::Deleting,
        ),
        ReportedBlockStateProto::ReportedBlockStateUnspecified => None,
    }
}

/// Whether the identity of a reported block, if it has one, names a block.
pub open spec fn has_valid_id(block: ReportedBlockProto) -> bool {
    match block.block_id {
        None => true,
        Some(id) => block_id_decode(id) is Ok,
    }
}

/// The block that an entry reports. Only a ready block needs a writer epoch and a tier.
pub open spec fn report_block(block: ReportedBlockProto) -> Result<
    BlockReportBlock,
    MetadataErrorView,
> {
    if block.block_id is None {
        Err(invalid_report("block report entry missing block_id"@))
    } else {
        match report_state(block.state) {
            None => Err(invalid_report("block report entry state must be specified"@)),
            Some(block_state) => {
                let ready = block_state == BlockReportBlockState::Ready;
                if ready && block.lease_epoch == 0 {
                    Err(invalid_report("Ready block report entry lease_epoch must be non-zero"@))
                } else if ready && tier_of_raw(block.tier) is Err {
                    Err(invalid_report(tier_of_raw(block.tier)->Err_0))
                } else {
                    Ok(
                        BlockReportBlock {
                            tier: if ready {
                                Some(tier_of_raw(block.tier)->Ok_0)
                            } else {
                                None
                            },
                            block_id: block_id_decode(block.block_id->0)->Ok_0,
                            lease_epoch: block.lease_epoch,
                            block_state,
                            effective_len: block.effective_len,
                        },
                    )
                }
            },
        }
    }
}

/// Returns the block that an entry reports.
pub fn proto_to_report_block(block: ReportedBlockProto) -> (r: Result<
    BlockReportBlock,
    MetadataError,
>)
    requires
        has_valid_id(block),
    ensures
        match r {
            Ok(b) => report_block(block) == Ok::<BlockReportBlock, MetadataErrorView>(b),
            Err(e) => report_block(block) == Err::<BlockReportBlock, MetadataErrorView>(e@),
        },
{
    let id = match block.block_id {
        Some(id) => id,
        None => return Err(
            MetadataError::InvalidArgument("block report entry missing block_id".to_owned()),
        ),
    };
    let block_id = BlockId::try_from(id).unwrap();
    let block_state = match block.state {
        ReportedBlockStateProto::ReportedBlockStateReady => BlockReportBlockState::Ready,
        ReportedBlockStateProto::ReportedBlockStateCorrupt => BlockReportBlockState::Corrupt,
        ReportedBlockStateProto::ReportedBlockStateDeleting => BlockReportBlockState::Deleting,
        ReportedBlockStateProto::ReportedBlockStateUnspecified => return Err(
            MetadataError::InvalidArgument(
                "block report entry state must be specified".to_owned(),
            ),
        ),
    };
    let ready = block_state == BlockReportBlockState::Ready;
    if ready && block.lease_epoch == 0 {
        return Err(
            MetadataError::InvalidArgument(
                "Ready block report entry lease_epoch must be non-zero".to_owned(),
            ),
        );
    }
    let tier = if ready {
        match parse_known_tier(block.tier) {
            Ok(tier) => Some(tier),
            Err(e) => return Err(MetadataError::InvalidArgument(e)),
        }
    } else {
        None
    };
    Ok(
        BlockReportBlock {
            tier,
            block_id,
            lease_epoch: block.lease_epoch,
            block_state,
            effective_len: block.effective_len,
        },
    )
}

/// Whether the block of a change, where it is present, has a valid identity.
pub open spec fn has_valid_entry_id(entry: DeltaBlockReportEntryProto) -> bool {
    match entry.block {
        Some(Block::Present(block)) => has_valid_id(block),
        _ => true,
    }
}

/// The change that an entry reports.
pub open spec fn report_change(entry: DeltaBlockReportEntryProto) -> Result<
    BlockReportChange,
    MetadataErrorView,
> {
    match entry.block {
        Some(Block::Present(block)) => match report_block(block) {
            Ok(b) => Ok(BlockReportChange::Upsert(b)),
            Err(e) => Err(e),
        },
        Some(Block::Absent(id)) => match block_id_decode(id) {
            Ok(id) => Ok(BlockReportChange::Remove(id)),
            Err(e) => Err(invalid_report("invalid absent block_id: "@ + e)),
        },
        None => Err(invalid_report("delta block report entry block must be specified"@)),
    }
}

/// Returns the change that an entry reports.
pub fn proto_to_delta_entry(entry: DeltaBlockReportEntryProto) -> (r: Result<
    BlockReportChange,
    MetadataError,
>)
    requires
        has_valid_entry_id(entry),
    ensures
        match r {
            Ok(c) => report_change(entry) == Ok::<BlockReportChange, MetadataErrorView>(c),
            Err(e) => report_change(entry) == Err::<BlockReportChange, MetadataErrorView>(e@),
        },
{
    match entry.block {
        Some(Block::Present(block)) => match proto_to_report_block(block) {
            Ok(b) => Ok(BlockReportChange::Upsert(b)),
            Err(e) => Err(e),
        },
        Some(Block::Absent(id)) => match BlockId::try_from(id) {
            Ok(id) => Ok(BlockReportChange::Remove(id)),
            Err(e) => Err(
                MetadataError::InvalidArgument(join("invalid absent block_id: ", e.as_str())),
            ),
        },
        None => Err(
            MetadataError::InvalidArgument(
                "delta block report entry block must be specified".to_owned(),
            ),
        ),
    }
}

/// The error for a batch with too many entries.
pub open spec fn oversized_report(kind: Seq<char>, count: nat) -> MetadataErrorView {
    MetadataErrorView {
        code: MetadataErrorCode::ResourceExhausted,
        text: kind + " block report entry count "@ + decimal(count) + " exceeds maximum "@
            + decimal(MAX_REPORT_ENTRIES as nat),
    }
}

fn oversized_report_error(kind: &str, count: usize) -> (r: MetadataError)
    ensures
        r@ == oversized_report(kind@, count as nat),
{
    let count_text = decimal_text(count as u128);
    let max_text = decimal_text(MAX_REPORT_ENTRIES as u128);
    let mut out = join(kind, " block report entry count ");
    out.append(count_text.as_str());
    out.append(" exceeds maximum ");
    out.append(max_text.as_str());
    MetadataError::ResourceExhausted(out)
}

/// The first entry of a full batch that is not valid, among those from `from` on.
pub open spec fn first_bad_block(blocks: Seq<ReportedBlockProto>, from: int) -> Option<int>
    decreases blocks.len() - from,
{
    if from < 0 || from >= blocks.len() {
        None
    } else if report_block(blocks[from]) is Err {
        Some(from)
    } else {
        first_bad_block(blocks, from + 1)
    }
}

/// Whether every identity up to the first entry that is not valid names a block.
pub open spec fn reaches_valid_ids(blocks: Seq<ReportedBlockProto>) -> bool {
    forall|i: int|
        0 <= i < blocks.len() && (first_bad_block(blocks, 0) is None || i <= first_bad_block(
            blocks,
            0,
        )->0) ==> has_valid_id(#[trigger] blocks[i])
}

proof fn lemma_first_bad_block(blocks: Seq<ReportedBlockProto>, from: int)
    requires
        0 <= from <= blocks.len(),
    ensures
        match first_bad_block(blocks, from) {
            Some(i) => from <= i < blocks.len() && report_block(blocks[i]) is Err,
            None => true,
        },
    decreases blocks.len() - from,
{
    if from < blocks.len() && report_block(blocks[from]) is Ok {
        lemma_first_bad_block(blocks, from + 1);
    }
}

/// Returns whether every identity up to the first entry that is not valid names a block.
pub fn full_batch_reaches_valid_ids(blocks: &Vec<ReportedBlockProto>) -> (r: bool)
    ensures
        r == reaches_valid_ids(blocks@),
{
    let mut i: usize = 0;
    while i < blocks.len()
        invariant
            i <= blocks@.len(),
            first_bad_block(blocks@, 0) == first_bad_block(blocks@, i as int),
            forall|k: int| 0 <= k < i ==> has_valid_id(#[trigger] blocks@[k]),
        decreases blocks.len() - i,
    {
        proof {
            lemma_first_bad_block(blocks@, i as int);
        }
        let valid = match blocks[i].block_id {
            None => true,
            Some(id) => BlockId::try_from(id).is_ok(),
        };
        if !valid {
            assert(!has_valid_id(blocks@[i as int]));
            return false;
        }
        if proto_to_report_block(blocks[i]).is_err() {
            return true;
        }
        i += 1;
    }
    true
}

/// Why a full batch is not valid, if it is not.
pub open spec fn full_batch_error(blocks: Seq<ReportedBlockProto>) -> Option<MetadataErrorView> {
    if blocks.len() > MAX_REPORT_ENTRIES {
        Some(oversized_report("full"@, blocks.len()))
    } else {
        match first_bad_block(blocks, 0) {
            Some(i) => Some(report_block(blocks[i])->Err_0),
            None => None,
        }
    }
}

/// Whether the accepted blocks are those that a batch reports.
pub open spec fn tells_blocks(
    blocks: Seq<ReportedBlockProto>,
    accepted: Seq<BlockReportBlock>,
) -> bool {
    &&& accepted.len() == blocks.len()
    &&& forall|i: int|
        0 <= i < blocks.len() ==> report_block(blocks[i]) == Ok::<
            BlockReportBlock,
            MetadataErrorView,
        >(#[trigger] accepted[i])
}

/// Returns the blocks of a full batch. The first entry that is not valid refuses it.
pub fn decode_full_batch(blocks: &Vec<ReportedBlockProto>) -> (r: Result<
    Vec<BlockReportBlock>,
    MetadataError,
>)
    requires
        blocks@.len() <= MAX_REPORT_ENTRIES ==> reaches_valid_ids(blocks@),
    ensures
        match full_batch_error(blocks@) {
            Some(e) => r is Err && (r->Err_0)@ == e,
            None => r is Ok && tells_blocks(blocks@, (r->Ok_0)@),
        },
{
    if blocks.len() > MAX_REPORT_ENTRIES {
        return Err(oversized_report_error("full", blocks.len()));
    }
    let mut out: Vec<BlockReportBlock> = Vec::new();
    let mut i: usize = 0;
    while i < blocks.len()
        invariant
            blocks@.len() <= MAX_REPORT_ENTRIES,
            reaches_valid_ids(blocks@),
            i <= blocks@.len(),
            out@.len() == i,
            first_bad_block(blocks@, 0) == first_bad_block(blocks@, i as int),
            forall|k: int|
                0 <= k < i ==> report_block(blocks@[k]) == Ok::<
                    BlockReportBlock,
                    MetadataErrorView,
                >(#[trigger] out@[k]),
        decreases blocks.len() - i,
    {
        proof {
            lemma_first_bad_block(blocks@, i as int);
            assert(has_valid_id(blocks@[i as int]));
        }
        match proto_to_report_block(blocks[i]) {
            Ok(block) => out.push(block),
            Err(e) => return Err(e),
        }
        i += 1;
    }
    Ok(out)
}

/// The first entry of a delta batch that is not valid, among those from `from` on.
pub open spec fn first_bad_entry(entries: Seq<DeltaBlockReportEntryProto>, from: int) -> Option<int>
    decreases entries.len() - from,
{
    if from < 0 || from >= entries.len() {
        None
    } else if report_change(entries[from]) is Err {
        Some(from)
    } else {
        first_bad_entry(entries, from + 1)
    }
}

/// Whether every identity up to the first entry that is not valid names a block.
pub open spec fn reaches_valid_entry_ids(entries: Seq<DeltaBlockReportEntryProto>) -> bool {
    forall|i: int|
        0 <= i < entries.len() && (first_bad_entry(entries, 0) is None || i <= first_bad_entry(
            entries,
            0,
        )->0) ==> has_valid_entry_id(#[trigger] entries[i])
}

proof fn lemma_first_bad_entry(entries: Seq<DeltaBlockReportEntryProto>, from: int)
    requires
        0 <= from <= entries.len(),
    ensures
        match first_bad_entry(entries, from) {
            Some(i) => from <= i < entries.len() && report_change(entries[i]) is Err,
            None => true,
        },
    decreases entries.len() - from,
{
    if from < entries.len() && report_change(entries[from]) is Ok {
        lemma_first_bad_entry(entries, from + 1);
    }
}

/// Returns whether every identity up to the first entry that is not valid names a block.
pub fn delta_batch_reaches_valid_ids(entries: &Vec<DeltaBlockReportEntryProto>) -> (r: bool)
    ensures
        r == reaches_valid_entry_ids(entries@),
{
    let mut i: usize = 0;
    while i < entries.len()
        invariant
            i <= entries@.len(),
            first_bad_entry(entries@, 0) == first_bad_entry(entries@, i as int),
            forall|k: int| 0 <= k < i ==> has_valid_entry_id(#[trigger] entries@[k]),
        decreases entries.len() - i,
    {
        proof {
            lemma_first_bad_entry(entries@, i as int);
        }
        let valid = match entries[i].block {
            Some(Block::Present(block)) => match block.block_id {
                None => true,
                Some(id) => BlockId::try_from(id).is_ok(),
            },
            _ => true,
        };
        if !valid {
            assert(!has_valid_entry_id(entries@[i as int]));
            return false;
        }
        if proto_to_delta_entry(entries[i]).is_err() {
            return true;
        }
        i += 1;
    }
    true
}

/// Why a delta batch is not valid, if it is not.
pub open spec fn delta_batch_error(entries: Seq<DeltaBlockReportEntryProto>) -> Option<
    MetadataErrorView,
> {
    if entries.len() == 0 {
        Some(invalid_report("delta block report entries must be non-empty"@))
    } else if entries.len() > MAX_REPORT_ENTRIES {
        Some(oversized_report("delta"@, entries.len()))
    } else {
        match first_bad_entry(entries, 0) {
            Some(i) => Some(report_change(entries[i])->Err_0),
            None => None,
        }
    }
}

/// Whether the accepted changes are those that a batch reports.
pub open spec fn tells_changes(
    entries: Seq<DeltaBlockReportEntryProto>,
    accepted: Seq<BlockReportChange>,
) -> bool {
    &&& accepted.len() == entries.len()
    &&& forall|i: int|
        0 <= i < entries.len() ==> report_change(entries[i]) == Ok::<
            BlockReportChange,
            MetadataErrorView,
        >(#[trigger] accepted[i])
}

/// Returns the changes of a delta batch, which must not be empty. The first entry that is
/// not valid refuses it.
pub fn decode_delta_batch(entries: &Vec<DeltaBlockReportEntryProto>) -> (r: Result<
    Vec<BlockReportChange>,
    MetadataError,
>)
    requires
        entries@.len() <= MAX_REPORT_ENTRIES ==> reaches_valid_entry_ids(entries@),
    ensures
        match delta_batch_error(entries@) {
            Some(e) => r is Err && (r->Err_0)@ == e,
            None => r is Ok && tells_changes(entries@, (r->Ok_0)@),
        },
{
    if entries.len() == 0 {
        return Err(
            MetadataError::InvalidArgument(
                "delta block report entries must be non-empty".to_owned(),
            ),
        );
    }
    if entries.len() > MAX_REPORT_ENTRIES {
        return Err(oversized_report_error("delta", entries.len()));
    }
    let mut out: Vec<BlockReportChange> = Vec::new();
    let mut i: usize = 0;
    while i < entries.len()
        invariant
            0 < entries@.len() <= MAX_REPORT_ENTRIES,
            reaches_valid_entry_ids(entries@),
            i <= entries@.len(),
            out@.len() == i,
            first_bad_entry(entries@, 0) == first_bad_entry(entries@, i as int),
            forall|k: int|
                0 <= k < i ==> report_change(entries@[k]) == Ok::<
                    BlockReportChange,
                    MetadataErrorView,
                >(#[trigger] out@[k]),
        decreases entries.len() - i,
    {
        proof {
            lemma_first_bad_entry(entries@, i as int);
            assert(has_valid_entry_id(entries@[i as int]));
        }
        match proto_to_delta_entry(entries[i]) {
            Ok(change) => out.push(change),
            Err(e) => return Err(e),
        }
        i += 1;
    }
    Ok(out)
}

/// A ready block that is accepted has a writer epoch and a tier, and no other block has a
/// tier.
pub proof fn only_ready_blocks_have_a_tier(block: ReportedBlockProto)
    requires
        report_block(block) is Ok,
    ensures
        ({
            let accepted = report_block(block)->Ok_0;
            &&& accepted.block_state == BlockReportBlockState::Ready <==> accepted.tier is Some
            &&& accepted.block_state == BlockReportBlockState::Ready ==> accepted.lease_epoch != 0
        }),
{
}

/// Returns the kind of a report, for metrics.
pub fn block_report_kind(req: &BlockReportRequestProto) -> (r: &'static str)
    ensures
        r@ == match req.batch {
            Some(Batch::FullReport(_)) => "full"@,
            Some(Batch::DeltaReport(_)) => "delta"@,
            None => "unknown"@,
        },
{
    match &req.batch {
        Some(Batch::FullReport(_)) => "full",
        Some(Batch::DeltaReport(_)) => "delta",
        None => "unknown",
    }
}

/// The first entry whose tier is not known, among those from `from` on.
pub open spec fn first_unknown_tier(entries: Seq<TierFreeProto>, from: int) -> Option<int>
    decreases entries.len() - from,
{
    if from < 0 || from >= entries.len() {
        None
    } else if tier_of_raw(entries[from].tier) is Err {
        Some(from)
    } else {
        first_unknown_tier(entries, from + 1)
    }
}

/// The free space that a worker tells, or the wording of why it is not valid.
pub open spec fn tier_free_error(entries: Seq<TierFreeProto>) -> Option<Seq<char>> {
    match first_unknown_tier(entries, 0) {
        Some(i) => Some(
            "capacity.tier_free tier invalid: "@ + tier_of_raw(entries[i].tier)->Err_0,
        ),
        None => None,
    }
}

/// Whether the free space says what the entries tell.
pub open spec fn tells_free_space(entries: Seq<TierFreeProto>, free: Seq<TierFree>) -> bool {
    &&& free.len() == entries.len()
    &&& forall|i: int|
        0 <= i < entries.len() ==> (#[trigger] free[i]).free_bytes == entries[i].free_bytes
            && tier_of_raw(entries[i].tier) == Ok::<Tier, Seq<char>>(free[i].tier)
}

/// Returns the free space that a worker tells.
pub fn parse_tier_free(entries: &Vec<TierFreeProto>) -> (r: Result<Vec<TierFree>, String>)
    ensures
        match tier_free_error(entries@) {
            Some(e) => r is Err && (r->Err_0)@ == e,
            None => r is Ok && tells_free_space(entries@, (r->Ok_0)@),
        },
{
    let mut out: Vec<TierFree> = Vec::new();
    let mut i: usize = 0;
    while i < entries.len()
        invariant
            i <= entries@.len(),
            first_unknown_tier(entries@, 0) == first_unknown_tier(entries@, i as int),
            out@.len() == i,
            forall|k: int|
                0 <= k < i ==> (#[trigger] out@[k]).free_bytes == entries@[k].free_bytes
                    && tier_of_raw(entries@[k].tier) == Ok::<Tier, Seq<char>>(out@[k].tier),
        decreases entries.len() - i,
    {
        match parse_known_tier(entries[i].tier) {
            Ok(tier) => {
                out.push(TierFree { tier, free_bytes: entries[i].free_bytes });
            },
            Err(e) => return Err(join("capacity.tier_free tier invalid: ", e.as_str())),
        }
        i += 1;
    }
    Ok(out)
}

} // verus!
