//! Persisted inode state that the metadata service reads.

use vstd::prelude::*;

use crate::error::{MetadataError, MetadataErrorCode, MetadataErrorView};
use crate::fs::{ContentGeneration, FileType};
use crate::ids::{BlockId, InodeId, MountId};
use crate::layout::{layout_error, FileLayout};
use crate::lease::LeaseEpoch;
use crate::text::{decimal, join};

verus! {

/// Contents of a file inode.
#[derive(Debug)]
pub struct FileData {
    pub layout: FileLayout,
    /// Visible length in bytes.
    pub len: u64,
    /// Generation of the visible contents.
    pub generation: ContentGeneration,
    /// Blocks of the visible contents, in file order.
    pub blocks: Vec<BlockId>,
    /// Next allocation sequence of this inode.
    pub next_index: u64,
    /// Durable fencing epoch.
    pub lease_epoch: LeaseEpoch,
}

/// What an inode is.
#[derive(Debug)]
pub enum InodeKind {
    File(FileData),
    Dir,
}

/// A stored inode.
#[derive(Debug)]
pub struct Inode {
    pub inode_id: InodeId,
    pub mount_id: MountId,
    pub kind: InodeKind,
}

impl Inode {
    /// The type of the inode.
    pub open spec fn kind_type(self) -> FileType {
        match self.kind {
            InodeKind::File(_) => FileType::File,
            InodeKind::Dir => FileType::Dir,
        }
    }

    /// The visible length. A directory has none.
    pub open spec fn visible_len(self) -> u64 {
        match self.kind {
            InodeKind::File(file) => file.len,
            InodeKind::Dir => 0,
        }
    }

    /// Returns the type of the inode.
    pub fn file_type(&self) -> (r: FileType)
        ensures
            r == self.kind_type(),
    {
        match &self.kind {
            InodeKind::File(_) => FileType::File,
            InodeKind::Dir => FileType::Dir,
        }
    }

    /// Returns the visible length. A directory has none.
    pub fn len(&self) -> (r: u64)
        ensures
            r == self.visible_len(),
    {
        match &self.kind {
            InodeKind::File(file) => file.len,
            InodeKind::Dir => 0,
        }
    }
}

/// The error for an inode that is not a file.
pub open spec fn not_a_file(inode_id: InodeId) -> MetadataErrorView {
    MetadataErrorView {
        code: MetadataErrorCode::IsDir,
        text: "Inode is not a file: "@ + decimal(inode_id.0 as nat),
    }
}

/// Creates the error for an inode that is not a file.
pub fn not_a_file_error(inode_id: InodeId) -> (r: MetadataError)
    ensures
        r@ == not_a_file(inode_id),
{
    let text = inode_id.to_text();
    MetadataError::IsDir(join("Inode is not a file: ", text.as_str()))
}

impl Inode {
    /// Returns the file, or an error where the inode is none.
    pub fn file(&self) -> (r: Result<&FileData, MetadataError>)
        ensures
            match self.kind {
                InodeKind::File(file) => r is Ok && *(r->Ok_0) == file,
                InodeKind::Dir => r is Err && (r->Err_0)@ == not_a_file(self.inode_id),
            },
    {
        match &self.kind {
            InodeKind::File(file) => Ok(file),
            InodeKind::Dir => Err(not_a_file_error(self.inode_id)),
        }
    }
}

/// The first position of a block.
pub open spec fn block_ordinal(blocks: Seq<BlockId>, id: BlockId, from: int) -> Option<int>
    decreases blocks.len() - from,
{
    if from < 0 || from >= blocks.len() {
        None
    } else if blocks[from] == id {
        Some(from)
    } else {
        block_ordinal(blocks, id, from + 1)
    }
}

/// The position that is found is the first one of the block; none is found where the block
/// does not occur.
pub proof fn the_first_position_is_found(blocks: Seq<BlockId>, id: BlockId, from: int)
    requires
        0 <= from <= blocks.len(),
    ensures
        match block_ordinal(blocks, id, from) {
            Some(i) => {
                &&& from <= i < blocks.len()
                &&& blocks[i] == id
                &&& forall|k: int| from <= k < i ==> #[trigger] blocks[k] != id
            },
            None => forall|k: int| from <= k < blocks.len() ==> #[trigger] blocks[k] != id,
        },
    decreases blocks.len() - from,
{
    if from < blocks.len() && blocks[from] != id {
        the_first_position_is_found(blocks, id, from + 1);
    }
}

/// Returns the first position of a block.
pub fn find_block(blocks: &Vec<BlockId>, id: BlockId) -> (r: Option<usize>)
    ensures
        match r {
            Some(i) => i < blocks@.len() && block_ordinal(blocks@, id, 0) == Some(i as int),
            None => block_ordinal(blocks@, id, 0) is None,
        },
{
    let mut i: usize = 0;
    while i < blocks.len()
        invariant
            i <= blocks@.len(),
            block_ordinal(blocks@, id, 0) == block_ordinal(blocks@, id, i as int),
        decreases blocks.len() - i,
    {
        if blocks[i] == id {
            return Some(i);
        }
        i += 1;
    }
    None
}

/// How many blocks of `block_size` hold `len` bytes.
pub open spec fn blocks_for(len: nat, block_size: nat) -> nat
    recommends
        block_size > 0,
{
    if len % block_size == 0 {
        len / block_size
    } else {
        len / block_size + 1
    }
}

/// How many bytes of a file of `len` bytes the block at `ordinal` holds.
pub open spec fn block_len_of(len: nat, block_size: nat, ordinal: nat) -> nat {
    if len - ordinal * block_size < block_size {
        (len - ordinal * block_size) as nat
    } else {
        block_size
    }
}

/// The blocks of a file cover it exactly: each but the last is full, none is empty, and
/// together they hold every byte once.
pub proof fn blocks_cover_the_file(len: nat, block_size: nat, ordinal: nat)
    requires
        block_size > 0,
        ordinal < blocks_for(len, block_size),
    ensures
        ordinal * block_size < len,
        0 < block_len_of(len, block_size, ordinal) <= block_size,
        ordinal + 1 < blocks_for(len, block_size) ==> block_len_of(len, block_size, ordinal)
            == block_size,
        ordinal + 1 == blocks_for(len, block_size) ==> ordinal * block_size + block_len_of(
            len,
            block_size,
            ordinal,
        ) == len,
{
    let q = len / block_size;
    let r = len % block_size;
    assert(len == q * block_size + r) by (nonlinear_arith)
        requires
            q == len / block_size,
            r == len % block_size,
            block_size > 0,
    ;
    assert(r < block_size) by (nonlinear_arith)
        requires
            r == len % block_size,
            block_size > 0,
    ;
    if ordinal < q {
        assert(ordinal * block_size + block_size <= q * block_size) by (nonlinear_arith)
            requires
                ordinal + 1 <= q,
                block_size > 0,
        ;
        if ordinal + 1 == q {
            assert(ordinal * block_size + block_size == q * block_size) by (nonlinear_arith)
                requires
                    ordinal + 1 == q,
            ;
        }
    } else {
        assert(ordinal == q);
    }
}

/// Why a file is not consistent, if it is not.
pub open spec fn file_error(file: FileData, inode_id: InodeId) -> Option<MetadataErrorView> {
    if layout_error(file.layout) is Some {
        Some(
            MetadataErrorView {
                code: MetadataErrorCode::Internal,
                text: "file layout is invalid: "@ + (layout_error(file.layout)->0).text(),
            },
        )
    } else if file.blocks@.len() != blocks_for(file.len as nat, file.layout.block_size as nat) {
        Some(
            MetadataErrorView {
                code: MetadataErrorCode::Internal,
                text: "file block count does not match the file length"@,
            },
        )
    } else if exists|i: int|
        0 <= i < file.blocks@.len() && (#[trigger] file.blocks@[i]).inode_id != inode_id {
        Some(
            MetadataErrorView {
                code: MetadataErrorCode::Internal,
                text: "file block belongs to another inode"@,
            },
        )
    } else {
        None
    }
}

/// The number of blocks of a file, or why it has none.
pub open spec fn block_count_result(len: u64, block_size: u32) -> Result<nat, Seq<char>> {
    if block_size == 0 {
        Err("block_size must be non-zero"@)
    } else if blocks_for(len as nat, block_size as nat) > usize::MAX {
        Err("block count overflows"@)
    } else {
        Ok(blocks_for(len as nat, block_size as nat))
    }
}

impl FileData {
    /// Returns how many blocks of `block_size` hold `len` bytes.
    pub fn block_count(len: u64, block_size: u32) -> (r: Result<usize, MetadataError>)
        ensures
            match r {
                Ok(count) => block_count_result(len, block_size) == Ok::<nat, Seq<char>>(
                    count as nat,
                ),
                Err(e) => e@.code == MetadataErrorCode::InvalidArgument && block_count_result(
                    len,
                    block_size,
                ) == Err::<nat, Seq<char>>(e@.text),
            },
    {
        if block_size == 0 {
            return Err(MetadataError::InvalidArgument("block_size must be non-zero".to_owned()));
        }
        let size: u64 = block_size as u64;
        let whole: u64 = len / size;
        proof {
            assert(len as nat / size as nat <= len as nat) by (nonlinear_arith)
                requires
                    size > 0,
            ;
            assert(size == 1 ==> len as nat % size as nat == 0) by (nonlinear_arith);
            assert(size > 1 ==> len as nat / size as nat * 2 <= len as nat) by (nonlinear_arith)
                requires
                    size > 0,
            ;
        }
        let count: u64 = if len % size == 0 {
            whole
        } else {
            whole + 1
        };
        if count > usize::MAX as u64 {
            return Err(MetadataError::InvalidArgument("block count overflows".to_owned()));
        }
        Ok(count as usize)
    }

    /// Returns how many visible bytes the block at `ordinal` holds.
    pub fn block_len(&self, ordinal: usize) -> (r: u64)
        requires
            self.layout.block_size > 0,
            ordinal < blocks_for(self.len as nat, self.layout.block_size as nat),
        ensures
            r == block_len_of(
                self.len as nat,
                self.layout.block_size as nat,
                ordinal as nat,
            ),
            0 < r <= self.layout.block_size,
            ordinal * self.layout.block_size + r <= self.len,
    {
        proof {
            blocks_cover_the_file(
                self.len as nat,
                self.layout.block_size as nat,
                ordinal as nat,
            );
        }
        let size: u64 = self.layout.block_size as u64;
        assert(ordinal * size <= u64::MAX);
        let offset: u64 = ordinal as u64 * size;
        let rest: u64 = self.len - offset;
        if rest < size {
            rest
        } else {
            size
        }
    }

    /// Checks the layout, the number of blocks and their inode.
    pub fn validate(&self, inode_id: InodeId) -> (r: Result<(), MetadataError>)
        ensures
            match file_error(*self, inode_id) {
                None => r is Ok,
                Some(e) => r is Err && (r->Err_0)@ == e,
            },
    {
        match self.layout.validate() {
            Ok(()) => {},
            Err(e) => {
                let text = e.message();
                return Err(
                    MetadataError::Internal(join("file layout is invalid: ", text.as_str())),
                );
            },
        }
        let block_total: usize = self.blocks.len();
        let matches_len = match Self::block_count(self.len, self.layout.block_size) {
            Ok(count) => count == block_total,
            Err(_) => false,
        };
        if !matches_len {
            return Err(
                MetadataError::Internal(
                    "file block count does not match the file length".to_owned(),
                ),
            );
        }
        let mut i: usize = 0;
        while i < self.blocks.len()
            invariant
                i <= self.blocks@.len(),
                layout_error(self.layout) is None,
                self.blocks@.len() == blocks_for(
                    self.len as nat,
                    self.layout.block_size as nat,
                ),
                forall|k: int| 0 <= k < i ==> (#[trigger] self.blocks@[k]).inode_id == inode_id,
            decreases self.blocks.len() - i,
        {
            if self.blocks[i].inode_id != inode_id {
                assert(self.blocks@[i as int].inode_id != inode_id);
                return Err(
                    MetadataError::Internal("file block belongs to another inode".to_owned()),
                );
            }
            i += 1;
        }
        Ok(())
    }
}

} // verus!
