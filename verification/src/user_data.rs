//! The 64-bit value that travels with every ring command and comes back with
//! its completion.
//!
//! Layout: bits 0-15 hold the slot tag, bits 16-23 the operation code,
//! bits 24-31 a sub-tag private to the backend, and bit 63 says that the
//! command is an I/O the backend issued rather than a fetch or commit.
use vstd::prelude::*;

verus! {

/// The value that packs the four parts.
pub open spec fn spec_build_user_data(tag: u16, op: u32, tgt_data: u32, is_target_io: bool) -> u64 {
    (tag as u64) | ((op as u64) << 16) | ((tgt_data as u64) << 24) | (if is_target_io {
        0x8000_0000_0000_0000u64
    } else {
        0u64
    })
}

/// Whether bit 63 is set.
pub open spec fn spec_is_target_io(user_data: u64) -> bool {
    (user_data & 0x8000_0000_0000_0000u64) != 0
}

/// The slot tag: bits 0-15.
pub open spec fn spec_user_data_to_tag(user_data: u64) -> u32 {
    (user_data & 0xffff) as u32
}

/// The operation code: bits 16-23.
pub open spec fn spec_user_data_to_op(user_data: u64) -> u32 {
    ((user_data >> 16) & 0xff) as u32
}

/// The backend's sub-tag: bits 24-31.
pub open spec fn spec_user_data_to_tgt_data(user_data: u64) -> u32 {
    ((user_data >> 24) & 0xff) as u32
}

/// Packs a slot tag, an operation code, a sub-tag and the backend-I/O mark.
/// The operation code and the sub-tag must fit in eight bits each.
pub fn build_user_data(tag: u16, op: u32, tgt_data: u32, is_target_io: bool) -> (user_data: u64)
    requires
        op < 256,
        tgt_data < 256,
    ensures
        user_data == spec_build_user_data(tag, op, tgt_data, is_target_io),
        spec_user_data_to_tag(user_data) == tag,
        spec_user_data_to_op(user_data) == op,
        spec_user_data_to_tgt_data(user_data) == tgt_data,
        spec_is_target_io(user_data) == is_target_io,
{
    proof {
        lemma_user_data_round_trip(tag, op, tgt_data, is_target_io);
    }
    let mark: u64 = if is_target_io {
        0x8000_0000_0000_0000u64
    } else {
        0u64
    };
    (tag as u64) | ((op as u64) << 16) | ((tgt_data as u64) << 24) | mark
}

/// Whether the value marks an I/O that the backend issued.
pub fn is_target_io(user_data: u64) -> (b: bool)
    ensures
        b == spec_is_target_io(user_data),
{
    (user_data & 0x8000_0000_0000_0000u64) != 0
}

/// The slot tag the value carries.
pub fn user_data_to_tag(user_data: u64) -> (tag: u32)
    ensures
        tag == spec_user_data_to_tag(user_data),
        tag <= 0xffff,
{
    assert((user_data & 0xffff) <= 0xffff) by (bit_vector);
    (user_data & 0xffff) as u32
}

/// The operation code the value carries.
pub fn user_data_to_op(user_data: u64) -> (op: u32)
    ensures
        op == spec_user_data_to_op(user_data),
        op <= 0xff,
{
    assert(((user_data >> 16) & 0xff) <= 0xff) by (bit_vector);
    ((user_data >> 16) & 0xff) as u32
}

/// The backend's sub-tag the value carries.
pub fn user_data_to_tgt_data(user_data: u64) -> (tgt_data: u32)
    ensures
        tgt_data == spec_user_data_to_tgt_data(user_data),
        tgt_data <= 0xff,
{
    assert(((user_data >> 24) & 0xff) <= 0xff) by (bit_vector);
    ((user_data >> 24) & 0xff) as u32
}

/// Packing four parts and taking the value apart again gives the four parts
/// back, for every tag, every operation code and sub-tag of eight bits, and
/// either mark.
pub proof fn lemma_user_data_round_trip(tag: u16, op: u32, tgt_data: u32, is_target_io: bool)
    requires
        op < 256,
        tgt_data < 256,
    ensures
        spec_user_data_to_tag(spec_build_user_data(tag, op, tgt_data, is_target_io)) == tag,
        spec_user_data_to_op(spec_build_user_data(tag, op, tgt_data, is_target_io)) == op,
        spec_user_data_to_tgt_data(spec_build_user_data(tag, op, tgt_data, is_target_io))
            == tgt_data,
        spec_is_target_io(spec_build_user_data(tag, op, tgt_data, is_target_io)) == is_target_io,
{
    let mark: u64 = if is_target_io {
        0x8000_0000_0000_0000u64
    } else {
        0u64
    };
    let ud: u64 = (tag as u64) | ((op as u64) << 16) | ((tgt_data as u64) << 24) | mark;
    assert(ud == spec_build_user_data(tag, op, tgt_data, is_target_io));
    assert(op < 256 && tgt_data < 256 && (mark == 0 || mark == 0x8000_0000_0000_0000u64) && ud == (
    tag as u64) | ((op as u64) << 16) | ((tgt_data as u64) << 24) | mark ==> (ud & 0xffff) as u32
        == tag as u32 && ((ud >> 16) & 0xff) as u32 == op && ((ud >> 24) & 0xff) as u32 == tgt_data
        && ((ud & 0x8000_0000_0000_0000u64) != 0) == (mark != 0)) by (bit_vector);
}

} // verus!
