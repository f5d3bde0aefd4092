use vstd::prelude::*;
use vstd::utf8::encode_utf8;

verus! {

/// A 32-byte account identity, as the host ledger names accounts.
#[derive(Clone, Copy, Debug)]
pub struct Address {
    pub bytes: [u8; 32],
}

/// A signing account as an instruction sees it: its identity and balance.
#[derive(Clone, Copy, Debug)]
pub struct Wallet {
    pub key: Address,
    pub lamports: u64,
}

impl View for Address {
    type V = Seq<u8>;

    open spec fn view(&self) -> Seq<u8> {
        self.bytes@
    }
}

impl Address {
    pub fn new(bytes: [u8; 32]) -> (r: Address)
        ensures
            r@ == bytes@,
    {
        Address { bytes }
    }

    /// Byte-wise comparison of two identities.
    pub fn same_as(&self, other: &Address) -> (r: bool)
        ensures
            r == (self@ == other@),
    {
        let mut i: usize = 0;
        while i < 32
            invariant
                i <= 32,
                self@.len() == 32,
                other@.len() == 32,
                forall|j: int| 0 <= j < i ==> self@[j] == other@[j],
            decreases 32 - i,
        {
            if self.bytes[i] != other.bytes[i] {
                return false;
            }
            i = i + 1;
        }
        assert(self@ =~= other@);
        true
    }

    /// The identity's bytes as an owned vector.
    pub fn to_vec(&self) -> (r: Vec<u8>)
        ensures
            r@ == self@,
    {
        let mut v: Vec<u8> = Vec::new();
        let mut i: usize = 0;
        while i < 32
            invariant
                i <= 32,
                self@.len() == 32,
                v@ == self@.subrange(0, i as int),
            decreases 32 - i,
        {
            v.push(self.bytes[i]);
            i = i + 1;
            assert(v@ =~= self@.subrange(0, i as int));
        }
        assert(self@.subrange(0, 32) =~= self@);
        v
    }
}

/// What the host's program-address search yields for a list of seeds under a
/// program id: the address and its bump, or nothing when no bump is viable.
pub uninterp spec fn program_address_of(seeds: Seq<Seq<u8>>, program_id: Seq<u8>) -> Option<(Seq<u8>, u8)>;

pub open spec fn found_view(r: Option<(Address, u8)>) -> Option<(Seq<u8>, u8)> {
    match r {
        Some((a, b)) => Some((a@, b)),
        None => None,
    }
}

/// The length of `s` in UTF-8 bytes.
pub open spec fn byte_len(s: Seq<char>) -> nat {
    encode_utf8(s).len()
}

/// Whether a derivation found exactly the address `key`.
pub open spec fn found_at(found: Option<(Seq<u8>, u8)>, key: Seq<u8>) -> bool {
    found matches Some((a, _)) && a == key
}

/// The bump of a successful derivation.
pub open spec fn found_bump(found: Option<(Seq<u8>, u8)>) -> u8 {
    match found {
        Some((_, b)) => b,
        None => 0,
    }
}

/// Relies on `Pubkey::try_find_program_address`: the search is a function of the
/// seeds and the program id alone.
#[verifier::external_body]
fn try_find_program_address(seeds: &Vec<Vec<u8>>, program_id: &Address) -> (r: Option<(Address, u8)>)
    ensures
        found_view(r) == program_address_of(seeds.deep_view(), program_id@),
{
    let s: Vec<&[u8]> = seeds.iter().map(|v| v.as_slice()).collect();
    let p = anchor_lang::prelude::Pubkey::new_from_array(program_id.bytes);
    match anchor_lang::prelude::Pubkey::try_find_program_address(&s, &p) {
        Some((a, b)) => Some((Address { bytes: a.to_bytes() }, b)),
        None => None,
    }
}

/// Derives a program address from `seeds` under `program_id`.
pub fn find_program_address(seeds: &Vec<Vec<u8>>, program_id: &Address) -> (r: Option<(Address, u8)>)
    ensures
        found_view(r) == program_address_of(seeds.deep_view(), program_id@),
{
    try_find_program_address(seeds, program_id)
}

} // verus!
