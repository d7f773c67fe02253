use crate::error::ErrorCode;
use crate::members::{
    add_member, add_verdict, contains_member, grown, lemma_add_keeps_wf, lemma_swap_removed,
    members_wf, remove_member, remove_verdict, shrunk,
};
use crate::size::{record_size, COUNT_LEN, HEADER_LEN, MEMBER_LEN};
use vstd::prelude::*;

verus! {

/// The DIDs registered under one authority key: a Solana key, or an Ethereum address
/// whose registry the host finds by that address.
pub struct KeyRegistry {
    pub version: u8,
    /// The key that owns the registry; never changed after creation.
    pub authority: [u8; 32],
    pub dids: Vec<[u8; 32]>,
}

/// The DIDs that one DID controls.
pub struct ControllerRegistry {
    pub version: u8,
    /// The controlling DID; never changed after creation.
    pub did: [u8; 32],
    pub controlled_dids: Vec<[u8; 32]>,
}

impl KeyRegistry {
    /// No DID is registered twice.
    pub open spec fn wf(&self) -> bool {
        members_wf(self.dids@)
    }

    /// An empty registry owned by `authority`.
    pub fn new(authority: [u8; 32]) -> (r: KeyRegistry)
        ensures
            r.version == 0,
            r.authority == authority,
            r.dids@ == Seq::<[u8; 32]>::empty(),
            r.wf(),
    {
        KeyRegistry { version: 0, authority, dids: Vec::new() }
    }

    /// Serialized size of a key registry that holds `did_count` DIDs.
    pub fn calculate_size(did_count: u32) -> (r: u64)
        ensures
            r == record_size(did_count as int),
    {
        HEADER_LEN + COUNT_LEN + MEMBER_LEN * (did_count as u64)
    }

    /// Whether `did` is registered.
    pub fn contains(&self, did: &[u8; 32]) -> (r: bool)
        ensures
            r == self.dids@.contains(*did),
    {
        contains_member(&self.dids, did)
    }

    /// Registers `did`, in storage of `data_len` bytes.
    pub fn add(&mut self, did: [u8; 32], data_len: usize) -> (r: Result<(), ErrorCode>)
        ensures
            r == add_verdict(old(self).dids@, did, data_len as int),
            final(self).dids@ == grown(old(self).dids@, r, did),
            final(self).version == old(self).version,
            final(self).authority == old(self).authority,
            old(self).wf() ==> final(self).wf(),
    {
        proof {
            if self.wf() {
                lemma_add_keeps_wf(self.dids@, did, data_len as int);
            }
        }
        add_member(&mut self.dids, did, data_len)
    }

    /// Unregisters `did`; the last DID takes its place.
    pub fn remove(&mut self, did: &[u8; 32]) -> (r: Result<(), ErrorCode>)
        ensures
            r == remove_verdict(old(self).dids@, *did),
            final(self).dids@ == shrunk(old(self).dids@, r, *did),
            final(self).version == old(self).version,
            final(self).authority == old(self).authority,
            old(self).wf() ==> final(self).wf(),
    {
        proof {
            if self.wf() {
                lemma_swap_removed(self.dids@, *did);
            }
        }
        remove_member(&mut self.dids, did)
    }
}

impl ControllerRegistry {
    /// No DID is registered twice.
    pub open spec fn wf(&self) -> bool {
        members_wf(self.controlled_dids@)
    }

    /// An empty registry for the DID `did`.
    pub fn new(did: [u8; 32]) -> (r: ControllerRegistry)
        ensures
            r.version == 0,
            r.did == did,
            r.controlled_dids@ == Seq::<[u8; 32]>::empty(),
            r.wf(),
    {
        ControllerRegistry { version: 0, did, controlled_dids: Vec::new() }
    }

    /// Serialized size of a controller registry that holds `did_count` DIDs.
    pub fn calculate_size(did_count: u32) -> (r: u64)
        ensures
            r == record_size(did_count as int),
    {
        HEADER_LEN + COUNT_LEN + MEMBER_LEN * (did_count as u64)
    }

    /// Whether `did` is registered as controlled.
    pub fn contains(&self, did: &[u8; 32]) -> (r: bool)
        ensures
            r == self.controlled_dids@.contains(*did),
    {
        contains_member(&self.controlled_dids, did)
    }

    /// Registers `did` as controlled, in storage of `data_len` bytes.
    pub fn add(&mut self, did: [u8; 32], data_len: usize) -> (r: Result<(), ErrorCode>)
        ensures
            r == add_verdict(old(self).controlled_dids@, did, data_len as int),
            final(self).controlled_dids@ == grown(old(self).controlled_dids@, r, did),
            final(self).version == old(self).version,
            final(self).did == old(self).did,
            old(self).wf() ==> final(self).wf(),
    {
        proof {
            if self.wf() {
                lemma_add_keeps_wf(self.controlled_dids@, did, data_len as int);
            }
        }
        add_member(&mut self.controlled_dids, did, data_len)
    }

    /// Unregisters `did`; the last DID takes its place.
    pub fn remove(&mut self, did: &[u8; 32]) -> (r: Result<(), ErrorCode>)
        ensures
            r == remove_verdict(old(self).controlled_dids@, *did),
            final(self).controlled_dids@ == shrunk(old(self).controlled_dids@, r, *did),
            final(self).version == old(self).version,
            final(self).did == old(self).did,
            old(self).wf() ==> final(self).wf(),
    {
        proof {
            if self.wf() {
                lemma_swap_removed(self.controlled_dids@, *did);
            }
        }
        remove_member(&mut self.controlled_dids, did)
    }
}

} // verus!
