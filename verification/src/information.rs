//! Typed decoders for token information buffers.
//!
//! Every information kind shares one retrieval protocol; the kinds differ
//! only in the selector they request from the OS and in how the filled
//! buffer is decoded. Each kind is a marker type implementing
//! [`TokenInformation`], whose `decode_rel` pins the decoding exactly.

use vstd::bytes::lemma_auto_spec_u64_to_from_le_bytes;
use vstd::bytes::spec_u32_from_le_bytes;
use vstd::bytes::spec_u64_from_le_bytes;
use vstd::bytes::spec_u64_to_le_bytes;
use vstd::bytes::u32_from_le_bytes;
use vstd::bytes::u64_from_le_bytes;
use vstd::bytes::u64_to_le_bytes;
use vstd::prelude::*;
use vstd::slice::slice_subrange;
use vstd::slice::slice_to_vec;

use crate::security::lemma_decode_reads_prefix_only;
use crate::security::sid_raw_len;
use crate::security::spec_decode_sid;
use crate::security::spec_sid_well_formed;
use crate::security::GroupSidAttributes;
use crate::security::SecurityIdentifier;
use crate::security::SidAbs;
use crate::security::MAX_SID_BYTES;
use crate::AccessToken;

verus! {

/// OS selector of the elevation-state information kind.
pub const TOKEN_ELEVATION_TYPE_CLASS: u32 = 18;

/// OS selector of the linked-token information kind.
pub const TOKEN_LINKED_TOKEN_CLASS: u32 = 19;

/// OS selector of the group-membership information kind.
pub const TOKEN_GROUPS_CLASS: u32 = 2;

/// One information kind of the generic query protocol: the OS selector it
/// requests, and the exact relation between a filled buffer and the decoded
/// value.
pub trait TokenInformation {
    /// The typed value this kind decodes to.
    type Output;

    /// The OS-side selector the query protocol requests for this kind.
    spec fn spec_level() -> u32;

    /// Exactly when `r` is the decoding of `buf` for this kind. For every
    /// buffer the relation admits one result, so it pins the decoder.
    spec fn decode_rel(buf: Seq<u8>, r: Option<Self::Output>) -> bool;

    /// The selector value, for handing to the OS.
    fn level() -> (r: u32)
        ensures
            r == Self::spec_level(),
    ;

    /// Decodes a filled buffer. `None` means the buffer holds no meaningful
    /// value for this kind; decoding itself never fails and never panics.
    fn from_buf(buf: &[u8]) -> (r: Option<Self::Output>)
        ensures
            Self::decode_rel(buf@, r),
    ;
}

/// The UAC elevation classification of a token.
#[derive(Clone, Copy, PartialEq, Eq, Structural, Debug)]
pub enum TokenElevation {
    /// The OS reported a discriminant outside the documented three.
    Unknown,
    /// The token has no linked counterpart; UAC does not split it.
    Default,
    /// The token runs fully elevated.
    Full,
    /// The token is the limited half of a split token.
    Limited,
}

/// The documented mapping of the OS discriminant: 1 is default, 2 is full,
/// 3 is limited, and any other value degrades to unknown rather than
/// failing.
pub open spec fn spec_elevation_of(value: u32) -> TokenElevation {
    if value == 1 {
        TokenElevation::Default
    } else if value == 2 {
        TokenElevation::Full
    } else if value == 3 {
        TokenElevation::Limited
    } else {
        TokenElevation::Unknown
    }
}

impl TokenInformation for TokenElevation {
    type Output = TokenElevation;

    open spec fn spec_level() -> u32 {
        TOKEN_ELEVATION_TYPE_CLASS
    }

    open spec fn decode_rel(buf: Seq<u8>, r: Option<TokenElevation>) -> bool {
        if buf.len() == 4 {
            r == Some(spec_elevation_of(spec_u32_from_le_bytes(buf)))
        } else {
            r is None
        }
    }

    fn level() -> (r: u32) {
        TOKEN_ELEVATION_TYPE_CLASS
    }

    fn from_buf(buf: &[u8]) -> (r: Option<TokenElevation>) {
        if buf.len() != 4 {
            return None;
        }
        let value = u32_from_le_bytes(buf);
        if value == 1 {
            Some(TokenElevation::Default)
        } else if value == 2 {
            Some(TokenElevation::Full)
        } else if value == 3 {
            Some(TokenElevation::Limited)
        } else {
            Some(TokenElevation::Unknown)
        }
    }
}

/// Marker for the linked-token information kind: the buffer holds one
/// handle value, and a null handle means no linked token exists.
pub struct LinkedToken;

impl TokenInformation for LinkedToken {
    type Output = AccessToken;

    open spec fn spec_level() -> u32 {
        TOKEN_LINKED_TOKEN_CLASS
    }

    open spec fn decode_rel(buf: Seq<u8>, r: Option<AccessToken>) -> bool {
        if buf.len() == 8 {
            if spec_u64_from_le_bytes(buf) == 0 {
                r is None
            } else {
                r matches Some(t) && t@ == spec_u64_from_le_bytes(buf)
            }
        } else {
            r is None
        }
    }

    fn level() -> (r: u32) {
        TOKEN_LINKED_TOKEN_CLASS
    }

    fn from_buf(buf: &[u8]) -> (r: Option<AccessToken>) {
        if buf.len() != 8 {
            return None;
        }
        let handle = u64_from_le_bytes(buf);
        if handle == 0 {
            None
        } else {
            Some(AccessToken::from_raw_handle(handle))
        }
    }
}

/// The size in bytes of one group record in a groups buffer: the 8-byte
/// position of the identifier blob, the 4-byte attribute mask, and 4 bytes
/// of padding.
pub const GROUP_RECORD_BYTES: usize = 8 + 4 + 4;

/// The record count announced in the first four bytes of a groups buffer.
pub open spec fn spec_group_count(buf: Seq<u8>) -> u32 {
    spec_u32_from_le_bytes(buf.subrange(0, 4))
}

/// Whether the buffer holds its count field and the record array the count
/// announces.
pub open spec fn spec_groups_header_ok(buf: Seq<u8>) -> bool {
    buf.len() >= 4 && buf.len() >= 4 + GROUP_RECORD_BYTES * (spec_group_count(buf) as int)
}

/// The identifier position stored in record `i`: a byte offset into the
/// same buffer, where the identifier blob of this group starts.
pub open spec fn spec_group_record_offset(buf: Seq<u8>, i: int) -> u64 {
    spec_u64_from_le_bytes(buf.subrange(4 + GROUP_RECORD_BYTES * i, 12 + GROUP_RECORD_BYTES * i))
}

/// The attribute mask stored in record `i`.
pub open spec fn spec_group_record_attrs(buf: Seq<u8>, i: int) -> u32 {
    spec_u32_from_le_bytes(buf.subrange(12 + GROUP_RECORD_BYTES * i, 16 + GROUP_RECORD_BYTES * i))
}

/// The decoded entry of record `i`: the identifier blob at the record's
/// announced position, paired with the record's attribute mask. `None` when
/// the position lies outside the buffer or no well-formed identifier starts
/// there.
pub open spec fn spec_group_entry(buf: Seq<u8>, i: int) -> Option<(SidAbs, u32)> {
    let off = spec_group_record_offset(buf, i) as int;
    if off <= buf.len() {
        match spec_decode_sid(buf.skip(off)) {
            Some(s) => Some((s, spec_group_record_attrs(buf, i))),
            None => None,
        }
    } else {
        None
    }
}

/// Whether a groups buffer is well formed throughout: the header and every
/// announced record decodes.
pub open spec fn spec_groups_well_formed(buf: Seq<u8>) -> bool {
    spec_groups_header_ok(buf) && forall|i: int|
        0 <= i < spec_group_count(buf) as int ==> (#[trigger] spec_group_entry(buf, i)) is Some
}

/// Marker for the group-membership information kind: the buffer announces a
/// record count and that many fixed-size records, each pairing the position
/// of an identifier blob with an attribute mask.
pub struct Groups;

impl TokenInformation for Groups {
    type Output = Vec<(SecurityIdentifier, GroupSidAttributes)>;

    open spec fn spec_level() -> u32 {
        TOKEN_GROUPS_CLASS
    }

    open spec fn decode_rel(
        buf: Seq<u8>,
        r: Option<Vec<(SecurityIdentifier, GroupSidAttributes)>>,
    ) -> bool {
        if spec_groups_well_formed(buf) {
            r matches Some(v) && v@.len() == spec_group_count(buf) as int && forall|i: int|
                0 <= i < v@.len() ==> v@[i].0@ == (#[trigger] spec_group_entry(buf, i))->Some_0.0
                    && v@[i].1@ == spec_group_entry(buf, i)->Some_0.1
        } else {
            r is None
        }
    }

    fn level() -> (r: u32) {
        TOKEN_GROUPS_CLASS
    }

    fn from_buf(buf: &[u8]) -> (r: Option<Vec<(SecurityIdentifier, GroupSidAttributes)>>) {
        if buf.len() < 4 {
            return None;
        }
        let count = u32_from_le_bytes(slice_subrange(buf, 0, 4));
        let needed: u64 = 4 + (GROUP_RECORD_BYTES as u64) * (count as u64);
        if needed > buf.len() as u64 {
            return None;
        }
        let mut out: Vec<(SecurityIdentifier, GroupSidAttributes)> = Vec::new();
        let mut i: usize = 0;
        while i < count as usize
            invariant
                i <= count as usize,
                buf@.len() <= usize::MAX,
                buf@.len() >= 4 + GROUP_RECORD_BYTES * (count as int),
                count == spec_group_count(buf@),
                out@.len() == i,
                forall|j: int|
                    0 <= j < i ==> (#[trigger] spec_group_entry(buf@, j)) is Some && out@[j].0@
                        == spec_group_entry(buf@, j)->Some_0.0 && out@[j].1@ == spec_group_entry(
                        buf@,
                        j,
                    )->Some_0.1,
            decreases count as usize - i,
        {
            proof {
                assert(16 * (i as int) + 16 <= 16 * (count as int));
                assert(4 + 16 * (i as int) + 16 <= buf@.len());
            }
            let base: usize = 4 + GROUP_RECORD_BYTES * i;
            let off64 = u64_from_le_bytes(slice_subrange(buf, base, base + 8));
            if off64 > buf.len() as u64 {
                proof {
                    assert(spec_group_entry(buf@, i as int) is None);
                }
                return None;
            }
            let off = off64 as usize;
            let sid_slice = slice_subrange(buf, off, buf.len());
            proof {
                assert(sid_slice@ =~= buf@.skip(off64 as int));
            }
            let sid = match SecurityIdentifier::from_raw(sid_slice) {
                Some(s) => s,
                None => {
                    proof {
                        assert(spec_group_entry(buf@, i as int) is None);
                    }
                    return None;
                },
            };
            let attrs = u32_from_le_bytes(slice_subrange(buf, base + 8, base + 12));
            proof {
                assert(spec_group_entry(buf@, i as int) matches Some(e) && e.0 == sid@ && e.1
                    == attrs);
            }
            out.push((sid, GroupSidAttributes::from_bits(attrs)));
            i = i + 1;
        }
        Some(out)
    }
}


/// The record count announced in the first four bytes of an OS-native
/// group buffer.
pub open spec fn spec_native_count(raw: Seq<u8>) -> u32 {
    spec_u32_from_le_bytes(raw.subrange(0, 4))
}

/// Whether the native buffer holds its count word and the record array the
/// count announces. The array starts at byte 8: the count word is followed
/// by alignment padding.
pub open spec fn spec_native_header_ok(raw: Seq<u8>) -> bool {
    raw.len() >= 4 && raw.len() >= 8 + GROUP_RECORD_BYTES * (spec_native_count(raw) as int)
}

/// The identifier pointer stored in native record `i`: a machine address
/// inside the same buffer.
pub open spec fn spec_native_record_ptr(raw: Seq<u8>, i: int) -> u64 {
    spec_u64_from_le_bytes(
        raw.subrange(8 + GROUP_RECORD_BYTES * i, 16 + GROUP_RECORD_BYTES * i),
    )
}

/// The attribute mask stored in native record `i`.
pub open spec fn spec_native_record_attrs(raw: Seq<u8>, i: int) -> u32 {
    spec_u32_from_le_bytes(
        raw.subrange(16 + GROUP_RECORD_BYTES * i, 20 + GROUP_RECORD_BYTES * i),
    )
}

/// Where the identifier blob of native record `i` starts, as an offset from
/// the buffer's base address.
pub open spec fn spec_native_blob_off(raw: Seq<u8>, base: u64, i: int) -> int {
    spec_native_record_ptr(raw, i) - base
}

/// The extent of the identifier blob of native record `i`, as the blob's
/// own count byte announces it.
pub open spec fn spec_native_blob_len(raw: Seq<u8>, base: u64, i: int) -> int {
    8 + 4 * (raw[spec_native_blob_off(raw, base, i) + 1] as int)
}

/// The decoded entry of native record `i`: the identifier blob at the
/// pointed-to position, paired with the record's attribute mask. `None`
/// when the pointer lies outside the buffer that starts at `base`, or no
/// well-formed identifier starts there.
pub open spec fn spec_native_entry(raw: Seq<u8>, base: u64, i: int) -> Option<(SidAbs, u32)> {
    let off = spec_native_blob_off(raw, base, i);
    if 0 <= off <= raw.len() {
        match spec_decode_sid(raw.skip(off)) {
            Some(s) => Some((s, spec_native_record_attrs(raw, i))),
            None => None,
        }
    } else {
        None
    }
}

/// Whether a native group buffer is well formed throughout: the header and
/// every announced record decodes against the given base address.
pub open spec fn spec_native_well_formed(raw: Seq<u8>, base: u64) -> bool {
    spec_native_header_ok(raw) && forall|i: int|
        0 <= i < spec_native_count(raw) as int ==> (#[trigger] spec_native_entry(
            raw,
            base,
            i,
        )) is Some
}

/// A vector of `n` zero bytes.
fn zero_bytes(n: usize) -> (r: Vec<u8>)
    ensures
        r@ == Seq::new(n as nat, |i: int| 0u8),
{
    let mut r: Vec<u8> = Vec::new();
    let mut i: usize = 0;
    while i < n
        invariant
            i <= n,
            r@.len() == i,
            forall|j: int| 0 <= j < i ==> r@[j] == 0u8,
        decreases n - i,
    {
        r.push(0);
        i = i + 1;
    }
    proof {
        assert(r@ =~= Seq::new(n as nat, |i: int| 0u8));
    }
    r
}

/// Rewrites an OS-native group buffer, whose records point at identifier
/// blobs by machine address, into the plain layout the decoder reads:
/// count, packed records holding byte offsets, then one maximal-size blob
/// slot per record. `base` is the address at which the native buffer
/// starts. The result decodes to exactly the entries the native buffer
/// describes; `None` exactly when the native buffer is malformed, or its
/// rewritten form would not fit in memory.
pub fn rebase_native_groups(raw: &[u8], base: u64) -> (r: Option<Vec<u8>>)
    ensures
        match r {
            Some(out) => spec_native_well_formed(raw@, base) && spec_groups_well_formed(out@)
                && spec_group_count(out@) == spec_native_count(raw@) && forall|i: int|
                0 <= i < spec_native_count(raw@) as int ==> #[trigger] spec_group_entry(out@, i)
                    == spec_native_entry(raw@, base, i),
            None => !spec_native_well_formed(raw@, base) || 4 + (GROUP_RECORD_BYTES + MAX_SID_BYTES)
                * (spec_native_count(raw@) as int) > usize::MAX,
        },
{
    proof {
        assert(GROUP_RECORD_BYTES == 16 && MAX_SID_BYTES == 68);
    }
    if raw.len() < 4 {
        return None;
    }
    let count = u32_from_le_bytes(slice_subrange(raw, 0, 4));
    let native_need: u64 = 8 + 16 * (count as u64);
    if native_need > raw.len() as u64 {
        return None;
    }
    let total: u64 = 4 + 84 * (count as u64);
    if total > usize::MAX as u64 {
        proof {
            assert((GROUP_RECORD_BYTES + MAX_SID_BYTES) * (count as int) == GROUP_RECORD_BYTES * (
            count as int) + MAX_SID_BYTES * (count as int)) by (nonlinear_arith);
            assert(GROUP_RECORD_BYTES * (count as int) == 16 * (count as int));
            assert(MAX_SID_BYTES * (count as int) == 68 * (count as int));
        }
        return None;
    }
    proof {
        assert((GROUP_RECORD_BYTES + MAX_SID_BYTES) * (count as int) == GROUP_RECORD_BYTES * (
        count as int) + MAX_SID_BYTES * (count as int)) by (nonlinear_arith);
        assert(GROUP_RECORD_BYTES * (count as int) == 16 * (count as int));
        assert(MAX_SID_BYTES * (count as int) == 68 * (count as int));
    }
    let header: usize = 4 + 16 * (count as usize);
    let mut out: Vec<u8> = Vec::new();
    let mut count_bytes = slice_to_vec(slice_subrange(raw, 0, 4));
    out.append(&mut count_bytes);
    let mut j: usize = 0;
    while j < count as usize
        invariant
            j <= count as usize,
            raw@.len() <= usize::MAX,
            raw@.len() >= 8 + 16 * (count as int),
            4 + 84 * (count as int) <= usize::MAX,
            count == spec_native_count(raw@),
            header == 4 + 16 * (count as int),
            out@.len() == 4 + 16 * (j as int),
            out@.subrange(0, 4) == raw@.subrange(0, 4),
            forall|k: int| 0 <= k < j ==> (#[trigger] spec_native_entry(raw@, base, k)) is Some,
            forall|k: int|
                0 <= k < j ==> #[trigger] out@.subrange(4 + 16 * k, 12 + 16 * k)
                    == spec_u64_to_le_bytes((4 + 16 * (count as int) + 68 * k) as u64),
            forall|k: int|
                0 <= k < j ==> #[trigger] out@.subrange(12 + 16 * k, 16 + 16 * k) == raw@.subrange(
                    16 + 16 * k,
                    20 + 16 * k,
                ),
        decreases count as usize - j,
    {
        proof {
            assert(GROUP_RECORD_BYTES == 16 && MAX_SID_BYTES == 68);
        }
        let ptr = u64_from_le_bytes(slice_subrange(raw, 8 + 16 * j, 16 + 16 * j));
        proof {
            assert(raw@.subrange(8 + 16 * (j as int), 16 + 16 * (j as int)) == raw@.subrange(
                8 + GROUP_RECORD_BYTES * (j as int),
                16 + GROUP_RECORD_BYTES * (j as int),
            ));
            assert(ptr == spec_native_record_ptr(raw@, j as int));
        }
        if ptr < base {
            proof {
                assert(spec_native_entry(raw@, base, j as int) is None);
            }
            return None;
        }
        let diff: u64 = ptr - base;
        if diff > raw.len() as u64 {
            proof {
                assert(spec_native_entry(raw@, base, j as int) is None);
            }
            return None;
        }
        let off: usize = diff as usize;
        let blob = slice_subrange(raw, off, raw.len());
        proof {
            assert(blob@ =~= raw@.skip(diff as int));
        }
        if sid_raw_len(blob).is_none() {
            proof {
                assert(spec_native_entry(raw@, base, j as int) is None);
            }
            return None;
        }
        let dest: usize = header + 68 * j;
        let mut rec = u64_to_le_bytes(dest as u64);
        let mut attr_bytes = slice_to_vec(slice_subrange(raw, 16 + 16 * j, 20 + 16 * j));
        rec.append(&mut attr_bytes);
        let mut pad = zero_bytes(4);
        rec.append(&mut pad);
        proof {
            assert(rec@.len() == 16);
            assert(rec@.subrange(0, 8) =~= spec_u64_to_le_bytes(dest as u64)) by {
                lemma_auto_spec_u64_to_from_le_bytes();
            }
            assert(rec@.subrange(8, 12) =~= raw@.subrange(16 + 16 * (j as int), 20 + 16 * (
            j as int)));
        }
        let ghost rec_snap = rec@;
        let ghost out_before = out@;
        out.append(&mut rec);
        proof {
            assert(out@.subrange(0, 4) =~= out_before.subrange(0, 4));
            assert forall|k: int| 0 <= k < j + 1 implies #[trigger] out@.subrange(
                4 + 16 * k,
                12 + 16 * k,
            ) == spec_u64_to_le_bytes((4 + 16 * (count as int) + 68 * k) as u64) by {
                if k < j {
                    assert(out@.subrange(4 + 16 * k, 12 + 16 * k) =~= out_before.subrange(
                        4 + 16 * k,
                        12 + 16 * k,
                    ));
                } else {
                    assert(out@.subrange(4 + 16 * k, 12 + 16 * k) =~= out@.subrange(
                        out_before.len() as int,
                        out@.len() as int,
                    ).subrange(0, 8));
                    assert(out@.subrange(out_before.len() as int, out@.len() as int)
                        =~= rec_snap.subrange(0, 16));
                }
            }
            assert forall|k: int| 0 <= k < j + 1 implies #[trigger] out@.subrange(
                12 + 16 * k,
                16 + 16 * k,
            ) == raw@.subrange(16 + 16 * k, 20 + 16 * k) by {
                if k < j {
                    assert(out@.subrange(12 + 16 * k, 16 + 16 * k) =~= out_before.subrange(
                        12 + 16 * k,
                        16 + 16 * k,
                    ));
                } else {
                    assert(out@.subrange(12 + 16 * k, 16 + 16 * k) =~= raw@.subrange(
                        16 + 16 * k,
                        20 + 16 * k,
                    ));
                }
            }
        }
        j = j + 1;
    }
    let mut m: usize = 0;
    while m < count as usize
        invariant
            m <= count as usize,
            raw@.len() <= usize::MAX,
            raw@.len() >= 8 + 16 * (count as int),
            4 + 84 * (count as int) <= usize::MAX,
            count == spec_native_count(raw@),
            header == 4 + 16 * (count as int),
            out@.len() == header + 68 * (m as int),
            out@.subrange(0, 4) == raw@.subrange(0, 4),
            forall|k: int|
                0 <= k < count as int ==> (#[trigger] spec_native_entry(raw@, base, k)) is Some,
            forall|k: int|
                0 <= k < count as int ==> #[trigger] out@.subrange(4 + 16 * k, 12 + 16 * k)
                    == spec_u64_to_le_bytes((4 + 16 * (count as int) + 68 * k) as u64),
            forall|k: int|
                0 <= k < count as int ==> #[trigger] out@.subrange(12 + 16 * k, 16 + 16 * k)
                    == raw@.subrange(16 + 16 * k, 20 + 16 * k),
            forall|k: int|
                0 <= k < m ==> #[trigger] out@.subrange(
                    4 + 16 * (count as int) + 68 * k,
                    4 + 16 * (count as int) + 68 * k + spec_native_blob_len(raw@, base, k),
                ) == raw@.subrange(
                    spec_native_blob_off(raw@, base, k),
                    spec_native_blob_off(raw@, base, k) + spec_native_blob_len(raw@, base, k),
                ),
        decreases count as usize - m,
    {
        proof {
            assert(GROUP_RECORD_BYTES == 16 && MAX_SID_BYTES == 68);
            assert(spec_native_entry(raw@, base, m as int) is Some);
        }
        let ptr = u64_from_le_bytes(slice_subrange(raw, 8 + 16 * m, 16 + 16 * m));
        proof {
            assert(raw@.subrange(8 + 16 * (m as int), 16 + 16 * (m as int)) == raw@.subrange(
                8 + GROUP_RECORD_BYTES * (m as int),
                16 + GROUP_RECORD_BYTES * (m as int),
            ));
            assert(ptr == spec_native_record_ptr(raw@, m as int));
            assert(0 <= spec_native_blob_off(raw@, base, m as int) <= raw@.len());
        }
        let diff: u64 = ptr - base;
        let off: usize = diff as usize;
        let blob = slice_subrange(raw, off, raw.len());
        proof {
            assert(blob@ =~= raw@.skip(diff as int));
        }
        let blob_len = match sid_raw_len(blob) {
            Some(n) => n,
            None => {
                proof {
                    assert(false);
                }
                return None;
            },
        };
        proof {
            assert(blob@[1] == raw@[diff as int + 1]);
            assert(blob_len == spec_native_blob_len(raw@, base, m as int));
            assert(blob_len <= 68);
        }
        let mut slot = slice_to_vec(slice_subrange(raw, off, off + blob_len));
        let mut pad = zero_bytes(68 - blob_len);
        slot.append(&mut pad);
        proof {
            assert(slot@.len() == 68);
            assert(slot@.subrange(0, blob_len as int) =~= raw@.subrange(
                diff as int,
                diff as int + blob_len,
            ));
        }
        let ghost out_before = out@;
        out.append(&mut slot);
        proof {
            assert(out@.subrange(0, 4) =~= out_before.subrange(0, 4));
            assert forall|k: int| 0 <= k < count as int implies #[trigger] out@.subrange(
                4 + 16 * k,
                12 + 16 * k,
            ) == spec_u64_to_le_bytes((4 + 16 * (count as int) + 68 * k) as u64) by {
                assert(out@.subrange(4 + 16 * k, 12 + 16 * k) =~= out_before.subrange(
                    4 + 16 * k,
                    12 + 16 * k,
                ));
            }
            assert forall|k: int| 0 <= k < count as int implies #[trigger] out@.subrange(
                12 + 16 * k,
                16 + 16 * k,
            ) == raw@.subrange(16 + 16 * k, 20 + 16 * k) by {
                assert(out@.subrange(12 + 16 * k, 16 + 16 * k) =~= out_before.subrange(
                    12 + 16 * k,
                    16 + 16 * k,
                ));
            }
            assert forall|k: int| 0 <= k < m + 1 implies #[trigger] out@.subrange(
                4 + 16 * (count as int) + 68 * k,
                4 + 16 * (count as int) + 68 * k + spec_native_blob_len(raw@, base, k),
            ) == raw@.subrange(
                spec_native_blob_off(raw@, base, k),
                spec_native_blob_off(raw@, base, k) + spec_native_blob_len(raw@, base, k),
            ) by {
                assert(spec_native_entry(raw@, base, k) is Some);
                assert(0 <= spec_native_blob_off(raw@, base, k) <= raw@.len());
                assert(spec_sid_well_formed(raw@.skip(spec_native_blob_off(raw@, base, k))));
                assert(raw@.skip(spec_native_blob_off(raw@, base, k))[1] == raw@[
                    spec_native_blob_off(raw@, base, k) + 1]);
                assert(8 <= spec_native_blob_len(raw@, base, k) <= 68);
                if k < m {
                    assert(out@.subrange(
                        4 + 16 * (count as int) + 68 * k,
                        4 + 16 * (count as int) + 68 * k + spec_native_blob_len(raw@, base, k),
                    ) =~= out_before.subrange(
                        4 + 16 * (count as int) + 68 * k,
                        4 + 16 * (count as int) + 68 * k + spec_native_blob_len(raw@, base, k),
                    ));
                } else {
                    assert(out@.subrange(
                        4 + 16 * (count as int) + 68 * k,
                        4 + 16 * (count as int) + 68 * k + spec_native_blob_len(raw@, base, k),
                    ) =~= raw@.subrange(
                        spec_native_blob_off(raw@, base, k),
                        spec_native_blob_off(raw@, base, k) + spec_native_blob_len(raw@, base, k),
                    ));
                }
            }
        }
        m = m + 1;
    }
    proof {
        lemma_auto_spec_u64_to_from_le_bytes();
        assert(GROUP_RECORD_BYTES == 16 && MAX_SID_BYTES == 68);
        assert(spec_group_count(out@) == spec_native_count(raw@)) by {
            assert(out@.subrange(0, 4) == raw@.subrange(0, 4));
        }
        assert forall|i: int| 0 <= i < spec_native_count(raw@) as int implies #[trigger]
            spec_group_entry(out@, i) == spec_native_entry(raw@, base, i) && spec_group_entry(
            out@,
            i,
        ) is Some by {
            let dest = 4 + 16 * (count as int) + 68 * i;
            let off = spec_native_blob_off(raw@, base, i);
            let blen = spec_native_blob_len(raw@, base, i);
            assert(spec_native_entry(raw@, base, i) is Some);
            assert(0 <= off <= raw@.len());
            let b1 = raw@.skip(off);
            assert(spec_sid_well_formed(b1));
            assert(b1[1] == raw@[off + 1]);
            assert(blen == 8 + 4 * (b1[1] as int));
            assert(8 <= blen <= 68);
            assert(out@.subrange(4 + GROUP_RECORD_BYTES * i, 12 + GROUP_RECORD_BYTES * i)
                == out@.subrange(4 + 16 * i, 12 + 16 * i));
            assert(out@.subrange(4 + 16 * i, 12 + 16 * i) == spec_u64_to_le_bytes(dest as u64));
            assert(spec_group_record_offset(out@, i) == dest as u64);
            let b2 = out@.skip(dest);
            assert(b2.len() >= blen);
            assert(b1.subrange(0, blen) =~= raw@.subrange(off, off + blen));
            assert(b2.subrange(0, blen) =~= out@.subrange(dest, dest + blen));
            assert(b1.subrange(0, blen) == b2.subrange(0, blen));
            lemma_decode_reads_prefix_only(b1, b2);
            assert(spec_decode_sid(b2) == spec_decode_sid(b1));
            assert(out@.subrange(12 + GROUP_RECORD_BYTES * i, 16 + GROUP_RECORD_BYTES * i)
                == out@.subrange(12 + 16 * i, 16 + 16 * i));
            assert(spec_group_record_attrs(out@, i) == spec_native_record_attrs(raw@, i)) by {
                assert(out@.subrange(12 + 16 * i, 16 + 16 * i) == raw@.subrange(
                    16 + 16 * i,
                    20 + 16 * i,
                ));
                assert(raw@.subrange(16 + 16 * i, 20 + 16 * i) == raw@.subrange(
                    16 + GROUP_RECORD_BYTES * i,
                    20 + GROUP_RECORD_BYTES * i,
                ));
            }
            assert(spec_groups_header_ok(out@));
        }
        assert(spec_groups_well_formed(out@));
    }
    Some(out)
}

} // verus!
