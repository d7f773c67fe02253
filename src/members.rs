use crate::error::ErrorCode;
use crate::size::{account_size, COUNT_LEN, HEADER_LEN, MEMBER_LEN, RECORD_TAG_LEN};
use vstd::prelude::*;

verus! {

broadcast use vstd::array::group_array_axioms;

/// A member list is well formed when no identifier occurs twice.
pub open spec fn members_wf(members: Seq<[u8; 32]>) -> bool {
    members.no_duplicates()
}

/// Whether storage of `data_len` bytes can hold a record of `count` members.
pub open spec fn fits(count: int, data_len: int) -> bool {
    data_len >= account_size(count)
}

/// What adding `did` to `members`, in storage of `data_len` bytes, answers.
pub open spec fn add_verdict(members: Seq<[u8; 32]>, did: [u8; 32], data_len: int) -> Result<(), ErrorCode> {
    if members.contains(did) {
        Err(ErrorCode::DIDRegistered)
    } else if !fits(members.len() + 1 as int, data_len) {
        Err(ErrorCode::RegistryFull)
    } else {
        Ok(())
    }
}

/// What removing `did` from `members` answers.
pub open spec fn remove_verdict(members: Seq<[u8; 32]>, did: [u8; 32]) -> Result<(), ErrorCode> {
    if members.contains(did) {
        Ok(())
    } else {
        Err(ErrorCode::DIDNotRegistered)
    }
}

/// The members after a registration of `did` that answered `verdict`.
pub open spec fn grown(members: Seq<[u8; 32]>, verdict: Result<(), ErrorCode>, did: [u8; 32]) -> Seq<[u8; 32]> {
    if verdict is Ok {
        members.push(did)
    } else {
        members
    }
}

/// `members` with the first occurrence of `did` swapped with the last member and
/// the last place dropped; `members` itself when `did` is absent.
pub open spec fn swap_removed(members: Seq<[u8; 32]>, did: [u8; 32]) -> Seq<[u8; 32]> {
    match members.index_of_first(did) {
        Some(i) => members.update(i, members.last()).drop_last(),
        None => members,
    }
}

/// The members after a removal of `did` that answered `verdict`.
pub open spec fn shrunk(members: Seq<[u8; 32]>, verdict: Result<(), ErrorCode>, did: [u8; 32]) -> Seq<[u8; 32]> {
    if verdict is Ok {
        swap_removed(members, did)
    } else {
        members
    }
}

/// Byte-for-byte equality of two identifiers.
pub fn keys_equal(a: &[u8; 32], b: &[u8; 32]) -> (r: bool)
    ensures
        r == (*a == *b),
{
    let mut i: usize = 0;
    while i < 32
        invariant
            0 <= i <= 32,
            a@.len() == 32,
            b@.len() == 32,
            forall|j: int| 0 <= j < i ==> a@[j] == b@[j],
        decreases 32 - i,
    {
        if a[i] != b[i] {
            return false;
        }
        i = i + 1;
    }
    assert(*a =~= *b);
    true
}

/// Index of the first occurrence of `did` in `members`.
pub fn position_of(members: &Vec<[u8; 32]>, did: &[u8; 32]) -> (r: Option<usize>)
    ensures
        match r {
            Some(i) => members@.index_of_first(*did) == Some(i as int),
            None => members@.index_of_first(*did) is None,
        },
{
    proof {
        members@.index_of_first_ensures(*did);
    }
    let mut i: usize = 0;
    while i < members.len()
        invariant
            0 <= i <= members.len(),
            forall|j: int| 0 <= j < i ==> members@[j] != *did,
        decreases members.len() - i,
    {
        if keys_equal(&members[i], did) {
            proof {
                members@.index_of_first_ensures(*did);
            }
            return Some(i);
        }
        i = i + 1;
    }
    None
}

/// Whether `did` is among `members`.
pub fn contains_member(members: &Vec<[u8; 32]>, did: &[u8; 32]) -> (r: bool)
    ensures
        r == members@.contains(*did),
{
    proof {
        members@.index_of_first_ensures(*did);
    }
    position_of(members, did).is_some()
}

/// Whether storage of `data_len` bytes holds a record of `count + 1` members.
pub fn has_room_for_one_more(count: usize, data_len: usize) -> (r: bool)
    ensures
        r == fits(count + 1 as int, data_len as int),
{
    let needed: u128 = (RECORD_TAG_LEN + HEADER_LEN + COUNT_LEN) as u128 + (MEMBER_LEN as u128) * ((count as u128) + 1);
    (data_len as u128) >= needed
}

/// Appends `did`, refusing a duplicate and a member that the storage of `data_len`
/// bytes cannot hold.
pub fn add_member(members: &mut Vec<[u8; 32]>, did: [u8; 32], data_len: usize) -> (r: Result<(), ErrorCode>)
    ensures
        r == add_verdict(old(members)@, did, data_len as int),
        final(members)@ == grown(old(members)@, r, did),
{
    if contains_member(members, &did) {
        return Err(ErrorCode::DIDRegistered);
    }
    if !has_room_for_one_more(members.len(), data_len) {
        return Err(ErrorCode::RegistryFull);
    }
    members.push(did);
    Ok(())
}

/// Removes `did` by moving the last member into its place; the order of the
/// remaining members is not kept.
pub fn remove_member(members: &mut Vec<[u8; 32]>, did: &[u8; 32]) -> (r: Result<(), ErrorCode>)
    ensures
        r == remove_verdict(old(members)@, *did),
        final(members)@ == shrunk(old(members)@, r, *did),
{
    proof {
        members@.index_of_first_ensures(*did);
    }
    match position_of(members, did) {
        Some(i) => {
            members.swap_remove(i);
            Ok(())
        },
        None => Err(ErrorCode::DIDNotRegistered),
    }
}

/// Swap-removing `did` from a well-formed member list keeps exactly the other members,
/// each once.
pub proof fn lemma_swap_removed(members: Seq<[u8; 32]>, did: [u8; 32])
    requires
        members_wf(members),
    ensures
        members_wf(swap_removed(members, did)),
        swap_removed(members, did).to_set() == members.to_set().remove(did),
        members.contains(did) ==> swap_removed(members, did).len() + 1 == members.len(),
{
    members.index_of_first_ensures(did);
    let r = swap_removed(members, did);
    match members.index_of_first(did) {
        Some(i) => {
            let n = members.len();
            assert(r.len() == n - 1);
            assert forall|j: int| 0 <= j < n - 1 implies #[trigger] r[j] == (if j == i { members[n - 1] } else { members[j] }) by {}
            assert forall|a: int, b: int| 0 <= a < r.len() && 0 <= b < r.len() && a != b implies r[a] != r[b] by {
                if a == i {
                    assert(r[b] == members[b]);
                } else if b == i {
                    assert(r[a] == members[a]);
                } else {
                    assert(r[a] == members[a] && r[b] == members[b]);
                }
            }
            assert forall|x: [u8; 32]| r.contains(x) <==> (members.contains(x) && x != did) by {
                if r.contains(x) {
                    let j = choose|j: int| 0 <= j < r.len() && r[j] == x;
                    if j == i {
                        assert(members[n - 1] == x && i != n - 1);
                    } else {
                        assert(members[j] == x && j != i);
                    }
                }
                if members.contains(x) && x != did {
                    let k = choose|k: int| 0 <= k < n && members[k] == x;
                    assert(k != i);
                    if k < n - 1 {
                        assert(r[k] == x);
                    } else {
                        assert(r[i] == x);
                    }
                }
            }
            assert(r.to_set() =~= members.to_set().remove(did));
        },
        None => {
            assert(r.to_set() =~= members.to_set().remove(did));
        },
    }
}

/// Adding to a well-formed member list keeps it free of duplicates.
pub proof fn lemma_add_keeps_wf(members: Seq<[u8; 32]>, did: [u8; 32], data_len: int)
    requires
        members_wf(members),
    ensures
        members_wf(grown(members, add_verdict(members, did, data_len), did)),
{
    let r = grown(members, add_verdict(members, did, data_len), did);
    if add_verdict(members, did, data_len) is Ok {
        assert forall|a: int, b: int| 0 <= a < r.len() && 0 <= b < r.len() && a != b implies r[a] != r[b] by {
            if a == members.len() {
                assert(r[b] == members[b]);
            } else if b == members.len() {
                assert(r[a] == members[a]);
            }
        }
    }
}

/// Once an add of `did` has not failed for want of room, `did` is a member; once a
/// removal of `did` has run on a well-formed list, whatever it answered, `did` is not.
pub proof fn add_then_contains_remove_then_absent(members: Seq<[u8; 32]>, did: [u8; 32], data_len: int)
    requires
        members_wf(members),
        members.contains(did) || fits(members.len() + 1 as int, data_len),
    ensures
        grown(members, add_verdict(members, did, data_len), did).contains(did),
        !shrunk(members, remove_verdict(members, did), did).contains(did),
{
    let g = grown(members, add_verdict(members, did, data_len), did);
    if !members.contains(did) {
        assert(g[members.len() as int] == did);
    }
    lemma_swap_removed(members, did);
    assert(!members.to_set().remove(did).contains(did));
}

/// Adding an identifier a second time is refused as already registered and changes
/// nothing, whatever storage the second add sees.
pub proof fn add_twice_refused(members: Seq<[u8; 32]>, did: [u8; 32], data_len: int, later_data_len: int)
    requires
        members.contains(did) || fits(members.len() + 1 as int, data_len),
    ensures
        ({
            let once = grown(members, add_verdict(members, did, data_len), did);
            &&& add_verdict(once, did, later_data_len) == Err::<(), ErrorCode>(ErrorCode::DIDRegistered)
            &&& grown(once, add_verdict(once, did, later_data_len), did) == once
        }),
{
    let once = grown(members, add_verdict(members, did, data_len), did);
    if !members.contains(did) {
        assert(once[members.len() as int] == did);
    }
}

/// Removing an identifier that is not a member is refused as not registered and
/// changes nothing.
pub proof fn remove_absent_refused(members: Seq<[u8; 32]>, did: [u8; 32])
    requires
        !members.contains(did),
    ensures
        remove_verdict(members, did) == Err::<(), ErrorCode>(ErrorCode::DIDNotRegistered),
        shrunk(members, remove_verdict(members, did), did) == members,
{
}

/// An add that the storage cannot hold is refused as full and changes nothing; once
/// the storage is resized for at least one more member than there are, the same add
/// succeeds and appends the identifier.
pub proof fn full_until_resized(members: Seq<[u8; 32]>, did: [u8; 32], data_len: int, did_count: int)
    requires
        !members.contains(did),
        !fits(members.len() + 1 as int, data_len),
        did_count >= members.len() + 1,
    ensures
        add_verdict(members, did, data_len) == Err::<(), ErrorCode>(ErrorCode::RegistryFull),
        grown(members, add_verdict(members, did, data_len), did) == members,
        add_verdict(members, did, account_size(did_count)) is Ok,
        grown(members, add_verdict(members, did, account_size(did_count)), did) == members.push(did),
{
}

/// A removal keeps every other member and drops `did`: the members after it, taken as
/// a set, are the members before it without `did`, whichever order they are left in.
pub proof fn removal_keeps_other_members(members: Seq<[u8; 32]>, did: [u8; 32])
    requires
        members_wf(members),
    ensures
        shrunk(members, remove_verdict(members, did), did).to_set() == members.to_set().remove(did),
{
    lemma_swap_removed(members, did);
    if !members.contains(did) {
        assert(members.to_set().remove(did) =~= members.to_set());
    }
}

} // verus!
