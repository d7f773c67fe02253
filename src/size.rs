use vstd::prelude::*;

verus! {

/// Bytes taken by a registry record before its member list:
/// a version byte and the 32-byte owner or subject key.
pub const HEADER_LEN: u64 = 33;

/// Bytes of the little-endian member count.
pub const COUNT_LEN: u64 = 4;

/// Bytes of one member identifier.
pub const MEMBER_LEN: u64 = 32;

/// Bytes that the host puts in front of every record to tag its type.
pub const RECORD_TAG_LEN: u64 = 8;

/// Serialized size of a registry record holding `n` members, without the host's tag.
pub open spec fn record_size(n: int) -> int {
    HEADER_LEN + COUNT_LEN + MEMBER_LEN * n
}

/// Storage that the host must allocate for a registry record of `n` members.
pub open spec fn account_size(n: int) -> int {
    RECORD_TAG_LEN + record_size(n)
}

/// Members that a newly created registry has room for.
pub const INITIAL_CAPACITY: u32 = 4;

/// Storage that the host must allocate for a registry record of `did_count` members.
pub fn account_len(did_count: u32) -> (r: u64)
    ensures
        r == account_size(did_count as int),
{
    RECORD_TAG_LEN + HEADER_LEN + COUNT_LEN + MEMBER_LEN * (did_count as u64)
}

} // verus!
