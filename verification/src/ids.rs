//! Identity types. Identities are plain values: they carry no layout, placement or
//! state.

use std::str::FromStr;

use uuid::Uuid;
use vstd::prelude::*;

use crate::outside_uuid::{
    format_uuid, hyphenated_text, parse_uuid, random_uuid, uuid_of_value, uuid_parse, uuid_value,
    value_of_uuid,
};
use crate::text::{
    chars_of, decimal, decimal_is_digits, decimal_round_trip, decimal_text, decimal_value,
    hex_digits, hex_text, is_longer_than, join, parse_decimal, trim, trimmed,
    trimmed_is_idempotent, trimmed_of_bare_text, utf8_len,
};

verus! {

/// Inode identity: the authoritative identity of a file system object.
#[derive(Clone, Copy, Debug, PartialEq, Eq, Hash, PartialOrd, Ord, Structural)]
pub struct InodeId(pub u64);

/// A monotonically allocated block sequence within one file inode: not a position in
/// the file, possibly with gaps, never reused.
#[derive(Clone, Copy, Debug, PartialEq, Eq, Hash, PartialOrd, Ord, Structural)]
pub struct BlockIndex(pub u32);

/// Stable logical worker identity.
#[derive(Clone, Copy, Debug, PartialEq, Eq, Hash, PartialOrd, Ord, Structural)]
pub struct WorkerId(pub u64);

/// Mount identity.
#[derive(Clone, Copy, Debug, PartialEq, Eq, Hash, PartialOrd, Ord, Structural)]
pub struct MountId(pub u64);

/// Data-plane block identity, ordered by inode and then by allocation sequence.
#[derive(Clone, Copy, Debug, PartialEq, Eq, Hash, PartialOrd, Ord, Structural)]
pub struct BlockId {
    /// The file inode that this block belongs to.
    pub inode_id: InodeId,
    /// Allocation sequence within the inode.
    pub index: BlockIndex,
}

/// Client runtime identity.
#[derive(Clone, Copy, Debug, PartialEq, Eq, Hash, PartialOrd, Ord, Structural)]
pub struct ClientId(pub u128);

/// Identity of one RPC call: the number of a UUID.
#[derive(Clone, Copy, Debug, PartialEq, Eq, Hash, Structural)]
pub struct CallId(pub u128);

/// The eight bytes of `v`, most significant first.
pub open spec fn be_bytes(v: u64) -> Seq<u8> {
    seq![
        (v >> 56u64) as u8,
        (v >> 48u64) as u8,
        (v >> 40u64) as u8,
        (v >> 32u64) as u8,
        (v >> 24u64) as u8,
        (v >> 16u64) as u8,
        (v >> 8u64) as u8,
        v as u8,
    ]
}

/// The number whose eight bytes, most significant first, are `b`.
pub open spec fn be_value(b: Seq<u8>) -> u64 {
    ((b[0] as u64) << 56u64) | ((b[1] as u64) << 48u64) | ((b[2] as u64) << 40u64) | ((
    b[3] as u64) << 32u64) | ((b[4] as u64) << 24u64) | ((b[5] as u64) << 16u64) | ((b[6] as u64)
        << 8u64) | (b[7] as u64)
}

/// Decoding the big-endian bytes of an inode identity gives the identity back.
pub proof fn be_bytes_round_trip(v: u64)
    ensures
        be_value(be_bytes(v)) == v,
{
    assert((((v >> 56u64) as u8) as u64) << 56u64 | (((v >> 48u64) as u8) as u64) << 48u64 | (((v
        >> 40u64) as u8) as u64) << 40u64 | (((v >> 32u64) as u8) as u64) << 32u64 | (((v
        >> 24u64) as u8) as u64) << 24u64 | (((v >> 16u64) as u8) as u64) << 16u64 | (((v
        >> 8u64) as u8) as u64) << 8u64 | ((v as u8) as u64) == v) by (bit_vector);
}

/// Big-endian keys keep the order of the identities: the first byte in which two keys
/// differ decides as the numbers do.
pub proof fn be_bytes_keep_order(v: u64, w: u64, i: int)
    requires
        0 <= i < 8,
        forall|k: int| 0 <= k < i ==> be_bytes(v)[k] == be_bytes(w)[k],
        be_bytes(v)[i] < be_bytes(w)[i],
    ensures
        v < w,
{
    let s = be_bytes(v);
    let t = be_bytes(w);
    assert(i > 0 ==> s[0] == t[0]);
    assert(i > 1 ==> s[1] == t[1]);
    assert(i > 2 ==> s[2] == t[2]);
    assert(i > 3 ==> s[3] == t[3]);
    assert(i > 4 ==> s[4] == t[4]);
    assert(i > 5 ==> s[5] == t[5]);
    assert(i > 6 ==> s[6] == t[6]);
    if i == 0 {
        assert(((v >> 56u64) as u8) < ((w >> 56u64) as u8) ==> v < w) by (bit_vector);
    } else if i == 1 {
        assert((v >> 56u64) as u8 == (w >> 56u64) as u8 && ((v >> 48u64) as u8) < ((w >> 48u64) as u8) ==> v < w) by (bit_vector);
    } else if i == 2 {
        assert((v >> 56u64) as u8 == (w >> 56u64) as u8 && (v >> 48u64) as u8 == (w
            >> 48u64) as u8 && ((v >> 40u64) as u8) < ((w >> 40u64) as u8) ==> v < w) by (bit_vector);
    } else if i == 3 {
        assert((v >> 56u64) as u8 == (w >> 56u64) as u8 && (v >> 48u64) as u8 == (w
            >> 48u64) as u8 && (v >> 40u64) as u8 == (w >> 40u64) as u8 && ((v >> 32u64) as u8) < ((w >> 32u64) as u8) ==> v < w) by (bit_vector);
    } else if i == 4 {
        assert((v >> 56u64) as u8 == (w >> 56u64) as u8 && (v >> 48u64) as u8 == (w
            >> 48u64) as u8 && (v >> 40u64) as u8 == (w >> 40u64) as u8 && (v >> 32u64) as u8 == (w
            >> 32u64) as u8 && ((v >> 24u64) as u8) < ((w >> 24u64) as u8) ==> v < w) by (bit_vector);
    } else if i == 5 {
        assert((v >> 56u64) as u8 == (w >> 56u64) as u8 && (v >> 48u64) as u8 == (w
            >> 48u64) as u8 && (v >> 40u64) as u8 == (w >> 40u64) as u8 && (v >> 32u64) as u8 == (w
            >> 32u64) as u8 && (v >> 24u64) as u8 == (w >> 24u64) as u8 && ((v >> 16u64) as u8) < ((w >> 16u64) as u8) ==> v < w) by (bit_vector);
    } else if i == 6 {
        assert((v >> 56u64) as u8 == (w >> 56u64) as u8 && (v >> 48u64) as u8 == (w
            >> 48u64) as u8 && (v >> 40u64) as u8 == (w >> 40u64) as u8 && (v >> 32u64) as u8 == (w
            >> 32u64) as u8 && (v >> 24u64) as u8 == (w >> 24u64) as u8 && (v >> 16u64) as u8 == (w
            >> 16u64) as u8 && ((v >> 8u64) as u8) < ((w >> 8u64) as u8) ==> v < w) by (bit_vector);
    } else {
        assert((v >> 56u64) as u8 == (w >> 56u64) as u8 && (v >> 48u64) as u8 == (w
            >> 48u64) as u8 && (v >> 40u64) as u8 == (w >> 40u64) as u8 && (v >> 32u64) as u8 == (w
            >> 32u64) as u8 && (v >> 24u64) as u8 == (w >> 24u64) as u8 && (v >> 16u64) as u8 == (w
            >> 16u64) as u8 && (v >> 8u64) as u8 == (w >> 8u64) as u8 && (v as u8) < (w as u8)
            ==> v < w) by (bit_vector);
    }
}

impl InodeId {
    /// Creates an identity from a raw value.
    pub fn new(v: u64) -> (r: Self)
        ensures
            r.0 == v,
    {
        Self(v)
    }

    /// Returns the inner value.
    pub fn as_raw(self) -> (r: u64)
        ensures
            r == self.0,
    {
        self.0
    }

    /// Encodes as eight big-endian bytes.
    pub fn to_be_bytes(self) -> (r: [u8; 8])
        ensures
            r@ == be_bytes(self.0),
    {
        let v: u64 = self.0;
        let r: [u8; 8] = [
            (v >> 56u64) as u8,
            (v >> 48u64) as u8,
            (v >> 40u64) as u8,
            (v >> 32u64) as u8,
            (v >> 24u64) as u8,
            (v >> 16u64) as u8,
            (v >> 8u64) as u8,
            v as u8,
        ];
        assert(r@ =~= be_bytes(v));
        r
    }

    /// Decodes from eight big-endian bytes.
    pub fn from_be_bytes(bytes: [u8; 8]) -> (r: Self)
        ensures
            r.0 == be_value(bytes@),
    {
        Self(
            ((bytes[0] as u64) << 56u64) | ((bytes[1] as u64) << 48u64) | ((bytes[2] as u64)
                << 40u64) | ((bytes[3] as u64) << 32u64) | ((bytes[4] as u64) << 24u64) | ((
            bytes[5] as u64) << 16u64) | ((bytes[6] as u64) << 8u64) | (bytes[7] as u64),
        )
    }

    /// Returns the decimal text of the identity.
    pub fn to_text(self) -> (r: String)
        ensures
            r@ == decimal(self.0 as nat),
    {
        decimal_text(self.0 as u128)
    }
}

impl BlockIndex {
    /// Creates an identity from a raw value.
    pub fn new(v: u32) -> (r: Self)
        ensures
            r.0 == v,
    {
        Self(v)
    }

    /// Returns the inner value.
    pub fn as_raw(self) -> (r: u32)
        ensures
            r == self.0,
    {
        self.0
    }
}

impl WorkerId {
    /// Creates an identity from a raw value.
    pub fn new(v: u64) -> (r: Self)
        ensures
            r.0 == v,
    {
        Self(v)
    }

    /// Returns the inner value.
    pub fn as_raw(self) -> (r: u64)
        ensures
            r == self.0,
    {
        self.0
    }

    /// Returns the decimal text of the identity.
    pub fn to_text(self) -> (r: String)
        ensures
            r@ == decimal(self.0 as nat),
    {
        decimal_text(self.0 as u128)
    }
}

impl MountId {
    /// Creates an identity from a raw value.
    pub fn new(v: u64) -> (r: Self)
        ensures
            r.0 == v,
    {
        Self(v)
    }

    /// Returns the inner value.
    pub fn as_raw(self) -> (r: u64)
        ensures
            r == self.0,
    {
        self.0
    }

    /// Returns the decimal text of the identity.
    pub fn to_text(self) -> (r: String)
        ensures
            r@ == decimal(self.0 as nat),
    {
        decimal_text(self.0 as u128)
    }
}

impl From<u64> for InodeId {
    fn from(v: u64) -> (r: Self) {
        Self(v)
    }
}

impl vstd::std_specs::convert::FromSpecImpl<u64> for InodeId {
    open spec fn obeys_from_spec() -> bool {
        true
    }

    open spec fn from_spec(v: u64) -> Self {
        InodeId(v)
    }
}

impl From<u32> for BlockIndex {
    fn from(v: u32) -> (r: Self) {
        Self(v)
    }
}

impl vstd::std_specs::convert::FromSpecImpl<u32> for BlockIndex {
    open spec fn obeys_from_spec() -> bool {
        true
    }

    open spec fn from_spec(v: u32) -> Self {
        BlockIndex(v)
    }
}

impl From<u64> for WorkerId {
    fn from(v: u64) -> (r: Self) {
        Self(v)
    }
}

impl vstd::std_specs::convert::FromSpecImpl<u64> for WorkerId {
    open spec fn obeys_from_spec() -> bool {
        true
    }

    open spec fn from_spec(v: u64) -> Self {
        WorkerId(v)
    }
}

impl From<u64> for MountId {
    fn from(v: u64) -> (r: Self) {
        Self(v)
    }
}

impl vstd::std_specs::convert::FromSpecImpl<u64> for MountId {
    open spec fn obeys_from_spec() -> bool {
        true
    }

    open spec fn from_spec(v: u64) -> Self {
        MountId(v)
    }
}

impl From<u128> for ClientId {
    fn from(v: u128) -> (r: Self) {
        Self(v)
    }
}

impl vstd::std_specs::convert::FromSpecImpl<u128> for ClientId {
    open spec fn obeys_from_spec() -> bool {
        true
    }

    open spec fn from_spec(v: u128) -> Self {
        ClientId(v)
    }
}

/// The stable text of a block identity: inode and allocation sequence, with a colon
/// between them.
pub open spec fn block_id_text(id: BlockId) -> Seq<char> {
    decimal(id.inode_id.0 as nat).push(':') + decimal(id.index.0 as nat)
}

/// Number of colons in `s`.
pub open spec fn colons(s: Seq<char>) -> nat
    decreases s.len(),
{
    if s.len() == 0 {
        0
    } else {
        colons(s.drop_last()) + if s.last() == ':' {
            1nat
        } else {
            0nat
        }
    }
}

/// What a text says as a block identity: the inode stands before its one colon, the
/// allocation sequence behind it.
pub open spec fn block_id_parse(s: Seq<char>) -> Result<BlockId, Seq<char>> {
    let at = s.index_of(':');
    if colons(s) != 1 {
        Err("Invalid BlockId format: expected 'inode_id:block_index', got '"@ + s + "'"@)
    } else {
        match decimal_value(s.subrange(0, at), u64::MAX as nat) {
            Err(e) => Err("Failed to parse inode_id: "@ + e.text()),
            Ok(inode) => if inode == 0 {
                Err("inode_id must be non-zero"@)
            } else {
                match decimal_value(s.subrange(at + 1, s.len() as int), u32::MAX as nat) {
                    Err(e) => Err("Failed to parse block_index: "@ + e.text()),
                    Ok(index) => Ok(
                        BlockId { inode_id: InodeId(inode as u64), index: BlockIndex(index as u32) },
                    ),
                }
            },
        }
    }
}

proof fn lemma_colons_concat(s: Seq<char>, t: Seq<char>)
    ensures
        colons(s + t) == colons(s) + colons(t),
    decreases t.len(),
{
    if t.len() == 0 {
        assert(s + t =~= s);
    } else {
        assert((s + t).drop_last() =~= s + t.drop_last());
        assert((s + t).last() == t.last());
        lemma_colons_concat(s, t.drop_last());
    }
}

proof fn lemma_no_colons(s: Seq<char>)
    requires
        forall|i: int| 0 <= i < s.len() ==> #[trigger] s[i] != ':',
    ensures
        colons(s) == 0,
    decreases s.len(),
{
    if s.len() > 0 {
        assert(s.last() != ':');
        lemma_no_colons(s.drop_last());
    }
}

proof fn lemma_some_colon(s: Seq<char>, i: int)
    requires
        0 <= i < s.len(),
        s[i] == ':',
    ensures
        colons(s) >= 1,
    decreases s.len(),
{
    if i < s.len() - 1 {
        lemma_some_colon(s.drop_last(), i);
    }
}

proof fn lemma_two_colons(s: Seq<char>, i: int, j: int)
    requires
        0 <= i < j < s.len(),
        s[i] == ':',
        s[j] == ':',
    ensures
        colons(s) >= 2,
    decreases s.len(),
{
    if j < s.len() - 1 {
        lemma_two_colons(s.drop_last(), i, j);
    } else {
        lemma_some_colon(s.drop_last(), i);
    }
}

proof fn lemma_the_colon(s: Seq<char>, at: int)
    requires
        colons(s) == 1,
        0 <= at < s.len(),
        s[at] == ':',
    ensures
        s.index_of(':') == at,
{
    assert(s.contains(':'));
    let found = s.index_of(':');
    if found < at {
        lemma_two_colons(s, found, at);
    } else if at < found {
        lemma_two_colons(s, at, found);
    }
}

/// The text of a block identity with a non-zero inode reads back as that identity.
pub proof fn block_id_text_round_trip(id: BlockId)
    requires
        id.inode_id.0 != 0,
    ensures
        block_id_parse(block_id_text(id)) == Ok::<BlockId, Seq<char>>(id),
{
    let a = decimal(id.inode_id.0 as nat);
    let b = decimal(id.index.0 as nat);
    decimal_is_digits(id.inode_id.0 as nat);
    decimal_is_digits(id.index.0 as nat);
    assert forall|i: int| 0 <= i < a.len() implies #[trigger] a[i] != ':' by {
        assert(crate::text::is_digit(a[i]));
    }
    assert forall|i: int| 0 <= i < b.len() implies #[trigger] b[i] != ':' by {
        assert(crate::text::is_digit(b[i]));
    }
    lemma_no_colons(a);
    lemma_no_colons(b);
    let s = block_id_text(id);
    assert(a.push(':').drop_last() =~= a);
    assert(colons(a.push(':')) == 1);
    lemma_colons_concat(a.push(':'), b);
    lemma_the_colon(s, a.len() as int);
    assert(s.subrange(0, a.len() as int) =~= a);
    assert(s.subrange(a.len() as int + 1, s.len() as int) =~= b);
    decimal_round_trip(id.inode_id.0 as nat, u64::MAX as nat);
    decimal_round_trip(id.index.0 as nat, u32::MAX as nat);
}

impl BlockId {
    /// Creates a block identity from an inode and an allocation sequence.
    pub fn new(inode_id: InodeId, index: BlockIndex) -> (r: Self)
        ensures
            r == (BlockId { inode_id, index }),
    {
        Self { inode_id, index }
    }

    /// Creates a block identity from raw values.
    pub fn from_u64_u32(inode_id: u64, index: u32) -> (r: Self)
        ensures
            r == (BlockId { inode_id: InodeId(inode_id), index: BlockIndex(index) }),
    {
        Self { inode_id: InodeId(inode_id), index: BlockIndex(index) }
    }

    /// Returns the stable text `inode:index`.
    pub fn to_text(self) -> (r: String)
        ensures
            r@ == block_id_text(self),
    {
        proof {
            reveal_strlit(":");
        }
        let mut out = decimal_text(self.inode_id.0 as u128);
        out.append(":");
        let index = decimal_text(self.index.0 as u128);
        out.append(index.as_str());
        assert(out@ =~= block_id_text(self));
        out
    }

    /// Reads the text `inode:index`. The inode must not be zero.
    pub fn parse(s: &str) -> (r: Result<Self, String>)
        ensures
            match r {
                Ok(id) => block_id_parse(s@) == Ok::<BlockId, Seq<char>>(id),
                Err(e) => block_id_parse(s@) == Err::<BlockId, Seq<char>>(e@),
            },
    {
        let chars = chars_of(s);
        let n: usize = chars.len();
        let mut found: usize = 0;
        let mut at: usize = 0;
        let mut i: usize = 0;
        while i < n
            invariant
                chars@ == s@,
                n == chars@.len(),
                i <= n,
                found == 0 ==> colons(s@.take(i as int)) == 0,
                found == 1 ==> colons(s@.take(i as int)) == 1 && at < i && s@[at as int] == ':',
                found >= 2 ==> colons(s@.take(i as int)) >= 2,
                found <= 2,
            decreases n - i,
        {
            assert(s@.take(i as int + 1).drop_last() =~= s@.take(i as int));
            if chars[i] == ':' {
                if found == 0 {
                    at = i;
                }
                if found < 2 {
                    found += 1;
                }
            }
            i += 1;
        }
        assert(s@.take(n as int) =~= s@);
        if found != 1 {
            let mut out = join("Invalid BlockId format: expected 'inode_id:block_index', got '", s);
            out.append("'");
            return Err(out);
        }
        proof {
            lemma_the_colon(s@, at as int);
        }
        let inode = match parse_decimal(s.substring_char(0, at), u64::MAX as u128) {
            Ok(v) => v,
            Err(e) => {
                let message = e.message();
                return Err(join("Failed to parse inode_id: ", message.as_str()));
            },
        };
        if inode == 0 {
            return Err("inode_id must be non-zero".to_owned());
        }
        let index = match parse_decimal(s.substring_char(at + 1, n), u32::MAX as u128) {
            Ok(v) => v,
            Err(e) => {
                let message = e.message();
                return Err(join("Failed to parse block_index: ", message.as_str()));
            },
        };
        proof {
            crate::text::decimal_value_is_bounded(s@.subrange(0, at as int), u64::MAX as nat);
            crate::text::decimal_value_is_bounded(
                s@.subrange(at as int + 1, n as int),
                u32::MAX as nat,
            );
        }
        Ok(BlockId { inode_id: InodeId(inode as u64), index: BlockIndex(index as u32) })
    }
}

impl FromStr for BlockId {
    type Err = String;

    /// Reads the text as `parse` does.
    fn from_str(s: &str) -> (r: Result<Self, String>)
        ensures
            match r {
                Ok(id) => block_id_parse(s@) == Ok::<BlockId, Seq<char>>(id),
                Err(e) => block_id_parse(s@) == Err::<BlockId, Seq<char>>(e@),
            },
    {
        BlockId::parse(s)
    }
}

impl ClientId {
    /// Creates an identity from a raw value.
    pub fn new(v: u128) -> (r: Self)
        ensures
            r.0 == v,
    {
        Self(v)
    }

    /// Generates a random non-zero identity.
    pub fn generate() -> (r: Self)
        ensures
            r.0 != 0,
            (r.0 >> 76u128) & 0xf == 4,
            (r.0 >> 62u128) & 0x3 == 2,
    {
        let value: u128 = random_uuid();
        assert((value >> 76u128) & 0xf == 4 ==> value != 0) by (bit_vector);
        Self(value)
    }

    /// Returns the inner value.
    pub fn as_raw(self) -> (r: u128)
        ensures
            r == self.0,
    {
        self.0
    }

    /// Returns whether this is the invalid all-zero identity.
    pub fn is_zero(self) -> (r: bool)
        ensures
            r == (self.0 == 0),
    {
        self.0 == 0
    }

    /// What a text says as a client identity: a non-zero decimal number.
    pub open spec fn parse_spec(value: Seq<char>) -> Result<ClientId, Seq<char>> {
        match decimal_value(value, u128::MAX as nat) {
            Err(e) => Err("invalid client_id: "@ + e.text()),
            Ok(raw) => if raw == 0 {
                Err("client_id must be non-zero"@)
            } else {
                Ok(ClientId(raw as u128))
            },
        }
    }

    /// Reads a non-zero identity from its decimal wire value.
    pub fn parse(value: &str) -> (r: Result<Self, String>)
        ensures
            match r {
                Ok(id) => Self::parse_spec(value@) == Ok::<ClientId, Seq<char>>(id),
                Err(e) => Self::parse_spec(value@) == Err::<ClientId, Seq<char>>(e@),
            },
    {
        match parse_decimal(value, u128::MAX) {
            Err(e) => {
                let message = e.message();
                Err(join("invalid client_id: ", message.as_str()))
            },
            Ok(raw) => if raw == 0 {
                Err("client_id must be non-zero".to_owned())
            } else {
                Ok(Self(raw))
            },
        }
    }

    /// Returns `0x` and the 32 hexadecimal digits of the identity.
    pub fn to_text(self) -> (r: String)
        ensures
            r@ == "0x"@ + hex_digits(self.0 as nat, 32),
    {
        let digits = hex_text(self.0, 32);
        join("0x", digits.as_str())
    }
}

/// The decimal text of a non-zero client identity reads back as that identity.
pub proof fn client_id_text_round_trip(id: ClientId)
    requires
        id.0 != 0,
    ensures
        ClientId::parse_spec(decimal(id.0 as nat)) == Ok::<ClientId, Seq<char>>(id),
{
    decimal_round_trip(id.0 as nat, u128::MAX as nat);
}

impl CallId {
    /// Generates a new random call identity, which is never the nil identity.
    pub fn new() -> (r: Self)
        ensures
            r.0 != 0,
            (r.0 >> 76u128) & 0xf == 4,
            (r.0 >> 62u128) & 0x3 == 2,
    {
        let value: u128 = random_uuid();
        assert((value >> 76u128) & 0xf == 4 ==> value != 0) by (bit_vector);
        Self(value)
    }

    /// Creates a call identity from a UUID.
    pub fn from_uuid(uuid: Uuid) -> (r: Self)
        ensures
            r.0 == uuid_value(uuid),
    {
        Self(value_of_uuid(&uuid))
    }

    /// Returns the UUID of this call identity.
    pub fn as_uuid(&self) -> (r: Uuid)
        ensures
            uuid_value(r) == self.0,
    {
        uuid_of_value(self.0)
    }

    /// Returns whether this is the invalid nil identity.
    pub fn is_zero(&self) -> (r: bool)
        ensures
            r == (self.0 == 0),
    {
        self.0 == 0
    }

    /// What a parsed UUID, or the wording of the parse error, says as a call identity.
    pub open spec fn parsed_spec(parsed: Result<u128, Seq<char>>) -> Result<CallId, Seq<char>> {
        match parsed {
            Err(e) => Err("invalid call_id: "@ + e),
            Ok(value) => if value == 0 {
                Err("call_id must be non-zero"@)
            } else {
                Ok(CallId(value))
            },
        }
    }

    /// Turns a parsed UUID, or the wording of the parse error, into a call identity.
    pub fn from_parsed(parsed: Result<u128, String>) -> (r: Result<Self, String>)
        ensures
            ({
                let outcome = match parsed {
                    Ok(value) => Ok::<u128, Seq<char>>(value),
                    Err(e) => Err::<u128, Seq<char>>(e@),
                };
                match r {
                    Ok(id) => Self::parsed_spec(outcome) == Ok::<CallId, Seq<char>>(id),
                    Err(e) => Self::parsed_spec(outcome) == Err::<CallId, Seq<char>>(e@),
                }
            }),
    {
        match parsed {
            Err(e) => Err(join("invalid call_id: ", e.as_str())),
            Ok(value) => if value == 0 {
                Err("call_id must be non-zero".to_owned())
            } else {
                Ok(Self(value))
            },
        }
    }

    /// Reads a non-zero call identity from its UUID text.
    pub fn parse(value: &str) -> (r: Result<Self, String>)
        ensures
            match r {
                Ok(id) => Self::parsed_spec(uuid_parse(value@)) == Ok::<CallId, Seq<char>>(id),
                Err(e) => Self::parsed_spec(uuid_parse(value@)) == Err::<CallId, Seq<char>>(e@),
            },
    {
        Self::from_parsed(parse_uuid(value))
    }

    /// Returns the hyphenated text of the identity, which reads back as the identity.
    pub fn to_text(&self) -> (r: String)
        ensures
            r@ == hyphenated_text(self.0),
            uuid_parse(r@) == Ok::<u128, Seq<char>>(self.0),
    {
        format_uuid(self.0)
    }
}

impl FromStr for CallId {
    type Err = String;

    /// Reads the text as `parse` does.
    fn from_str(s: &str) -> (r: Result<Self, String>)
        ensures
            match r {
                Ok(id) => CallId::parsed_spec(uuid_parse(s@)) == Ok::<CallId, Seq<char>>(id),
                Err(e) => CallId::parsed_spec(uuid_parse(s@)) == Err::<CallId, Seq<char>>(e@),
            },
    {
        CallId::parse(s)
    }
}

impl Default for CallId {
    fn default() -> (r: Self)
        ensures
            r.0 != 0,
            (r.0 >> 76u128) & 0xf == 4,
            (r.0 >> 62u128) & 0x3 == 2,
    {
        CallId::new()
    }
}

/// Why a text is not a metadata group name.
#[derive(Clone, Copy, Debug, PartialEq, Eq, Structural)]
pub enum GroupNameError {
    Empty,
    TooLong,
    InvalidStart,
    InvalidCharacter,
}

impl GroupNameError {
    /// The wording of this error.
    pub open spec fn text(self) -> Seq<char> {
        match self {
            GroupNameError::Empty => "must not be empty"@,
            GroupNameError::TooLong => "must be at most 63 characters"@,
            GroupNameError::InvalidStart => "must start with lowercase ASCII letter or digit"@,
            GroupNameError::InvalidCharacter =>
                "must contain only lowercase ASCII letters, digits, '.', '_' or '-'"@,
        }
    }

    /// Returns the wording of this error.
    pub fn message(self) -> (r: String)
        ensures
            r@ == self.text(),
    {
        match self {
            GroupNameError::Empty => "must not be empty".to_owned(),
            GroupNameError::TooLong => "must be at most 63 characters".to_owned(),
            GroupNameError::InvalidStart =>
                "must start with lowercase ASCII letter or digit".to_owned(),
            GroupNameError::InvalidCharacter =>
                "must contain only lowercase ASCII letters, digits, '.', '_' or '-'".to_owned(),
        }
    }
}

/// Whether a group name may begin with `c`: a lower-case ASCII letter or a digit.
pub open spec fn is_group_start(c: char) -> bool {
    let n = c as u32;
    97 <= n <= 122 || 48 <= n <= 57
}

/// Whether `c` may stand behind the first character of a group name.
pub open spec fn is_group_char(c: char) -> bool {
    is_group_start(c) || c == '.' || c == '_' || c == '-'
}

/// Whether `s` is the text of a group name: 1 to 63 bytes, of the characters allowed.
pub open spec fn is_group_name(s: Seq<char>) -> bool {
    &&& s.len() > 0
    &&& utf8_len(s) <= 63
    &&& is_group_start(s[0])
    &&& forall|i: int| 1 <= i < s.len() ==> is_group_char(#[trigger] s[i])
}

/// The group name that `raw` writes, or the first reason why it writes none.
pub open spec fn group_name_parse(raw: Seq<char>) -> Result<Seq<char>, GroupNameError> {
    let value = trimmed(raw);
    if value.len() == 0 {
        Err(GroupNameError::Empty)
    } else if utf8_len(value) > 63 {
        Err(GroupNameError::TooLong)
    } else if !is_group_start(value[0]) {
        Err(GroupNameError::InvalidStart)
    } else if !is_group_name(value) {
        Err(GroupNameError::InvalidCharacter)
    } else {
        Ok(value)
    }
}

/// The optional group name of a wire field, in which an empty text means absence.
pub open spec fn group_name_parse_optional(raw: Seq<char>) -> Result<
    Option<Seq<char>>,
    GroupNameError,
> {
    if raw.len() == 0 {
        Ok(None)
    } else {
        match group_name_parse(raw) {
            Ok(name) => Ok(Some(name)),
            Err(e) => Err(e),
        }
    }
}

/// A text is the name of some group exactly when it is well formed, and parsing a well
/// formed name gives it back unchanged.
pub proof fn group_name_parse_is_idempotent(raw: Seq<char>)
    ensures
        is_group_name(raw) ==> group_name_parse(raw) == Ok::<Seq<char>, GroupNameError>(raw),
        group_name_parse(raw) is Ok ==> is_group_name(group_name_parse(raw)->Ok_0)
            && group_name_parse(group_name_parse(raw)->Ok_0) == group_name_parse(raw),
{
    if is_group_name(raw) {
        assert(is_group_char(raw.last()));
        trimmed_of_bare_text(raw);
    }
    trimmed_is_idempotent(raw);
}

/// Stable metadata group identity: a name that is well formed.
#[derive(Debug, PartialEq, Eq, Hash, PartialOrd, Ord)]
pub struct GroupName(String);

impl View for GroupName {
    type V = Seq<char>;

    closed spec fn view(&self) -> Seq<char> {
        self.0@
    }
}

impl GroupName {
    #[verifier::type_invariant]
    spec fn inv(&self) -> bool {
        is_group_name(self.0@)
    }

    /// Parses and validates a metadata group name. White space around it is dropped.
    pub fn parse(raw: &str) -> (r: Result<Self, GroupNameError>)
        ensures
            match r {
                Ok(name) => group_name_parse(raw@) == Ok::<Seq<char>, GroupNameError>(name@),
                Err(e) => group_name_parse(raw@) == Err::<Seq<char>, GroupNameError>(e),
            },
    {
        let value = trim(raw);
        let chars = chars_of(value);
        if chars.len() == 0 {
            return Err(GroupNameError::Empty);
        }
        if is_longer_than(value, 63) {
            return Err(GroupNameError::TooLong);
        }
        let first: u32 = chars[0] as u32;
        if !((97 <= first && first <= 122) || (48 <= first && first <= 57)) {
            return Err(GroupNameError::InvalidStart);
        }
        let mut i: usize = 1;
        while i < chars.len()
            invariant
                chars@ == value@,
                value@ == trimmed(raw@),
                1 <= i <= chars@.len(),
                utf8_len(value@) <= 63,
                is_group_start(value@[0]),
                forall|k: int| 1 <= k < i ==> is_group_char(#[trigger] value@[k]),
            decreases chars.len() - i,
        {
            let c = chars[i];
            let n: u32 = c as u32;
            if !((97 <= n && n <= 122) || (48 <= n && n <= 57) || c == '.' || c == '_' || c
                == '-') {
                assert(!is_group_char(value@[i as int]));
                return Err(GroupNameError::InvalidCharacter);
            }
            i += 1;
        }
        Ok(GroupName(value.to_owned()))
    }

    /// Parses an optional group name of a wire or configuration field.
    pub fn parse_optional(raw: &str) -> (r: Result<Option<Self>, GroupNameError>)
        ensures
            match r {
                Ok(Some(name)) => group_name_parse_optional(raw@) == Ok::<
                    Option<Seq<char>>,
                    GroupNameError,
                >(Some(name@)),
                Ok(None) => group_name_parse_optional(raw@) == Ok::<
                    Option<Seq<char>>,
                    GroupNameError,
                >(None),
                Err(e) => group_name_parse_optional(raw@) == Err::<
                    Option<Seq<char>>,
                    GroupNameError,
                >(e),
            },
    {
        if raw.is_empty() {
            Ok(None)
        } else {
            match Self::parse(raw) {
                Ok(name) => Ok(Some(name)),
                Err(e) => Err(e),
            }
        }
    }

    /// Returns the group name as text, which is well formed.
    pub fn as_str(&self) -> (r: &str)
        ensures
            r@ == self@,
            is_group_name(r@),
    {
        proof {
            use_type_invariant(self);
        }
        self.0.as_str()
    }

    /// Returns whether the two names are the same group.
    pub fn same(&self, other: &GroupName) -> (r: bool)
        ensures
            r == (self@ == other@),
    {
        self.0 == other.0
    }

    /// Returns the group name as an owned text, which is well formed.
    pub fn to_text(&self) -> (r: String)
        ensures
            r@ == self@,
            is_group_name(r@),
    {
        proof {
            use_type_invariant(self);
        }
        self.0.clone()
    }
}

impl FromStr for GroupName {
    type Err = GroupNameError;

    /// Reads the text as `parse` does.
    fn from_str(s: &str) -> (r: Result<Self, GroupNameError>)
        ensures
            match r {
                Ok(name) => group_name_parse(s@) == Ok::<Seq<char>, GroupNameError>(name@),
                Err(e) => group_name_parse(s@) == Err::<Seq<char>, GroupNameError>(e),
            },
    {
        GroupName::parse(s)
    }
}

impl Clone for GroupName {
    fn clone(&self) -> (r: Self)
        ensures
            r == *self,
    {
        proof {
            use_type_invariant(self);
        }
        GroupName(self.0.clone())
    }
}

} // verus!
