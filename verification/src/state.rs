//! The record header, its fixed layout, and writes into record storage.

use crate::address::{program_address_search, search_program_address, seeds_view, zero_bytes, Address};
use crate::error::RegistryError;
use vstd::prelude::*;

verus! {

/// Number of bytes the header takes at the start of a record's storage.
pub const HEADER_LEN: usize = 96;

/// The three addresses that prefix every record.
#[derive(Clone, Copy, Debug, PartialEq, Eq)]
pub struct NameRecordHeader {
    pub parent_name: Address,
    pub owner: Address,
    pub class: Address,
}

/// Copies 32 bytes of `src`, starting at `start`, into an address.
pub fn read_address(src: &[u8], start: usize) -> (a: Address)
    requires
        start + 32 <= src@.len(),
    ensures
        a@ == src@.subrange(start as int, start + 32),
{
    let n: usize = src.len();
    let mut bytes = [0u8; 32];
    let mut i: usize = 0;
    while i < 32
        invariant
            i <= 32,
            start + 32 <= n,
            n == src@.len(),
            forall|j: int| 0 <= j < i ==> bytes@[j] == src@[start + j],
        decreases 32 - i,
    {
        bytes[i] = src[start + i];
        i += 1;
    }
    let a = Address { bytes };
    assert(a@ =~= src@.subrange(start as int, start + 32));
    a
}

/// Appends the 32 bytes of `a` to `out`.
pub fn push_address(out: &mut Vec<u8>, a: &Address)
    ensures
        final(out)@ == old(out)@ + a@,
{
    let ghost before = out@;
    let mut i: usize = 0;
    while i < 32
        invariant
            i <= 32,
            out@ == before + a@.subrange(0, i as int),
        decreases 32 - i,
    {
        out.push(a.bytes[i]);
        assert(out@ =~= before + a@.subrange(0, i + 1));
        i += 1;
    }
    assert(a@.subrange(0, 32) =~= a@);
}

impl NameRecordHeader {
    /// The 96 bytes of a header: parent name, owner, class.
    pub open spec fn encoding(&self) -> Seq<u8> {
        self.parent_name@ + self.owner@ + self.class@
    }

    /// Whether the record exists: its owner is not the zero address.
    pub open spec fn initialized(&self) -> bool {
        self.owner@ != zero_bytes()
    }

    /// The header as 96 bytes.
    pub fn pack(&self) -> (out: Vec<u8>)
        ensures
            out@ == self.encoding(),
            out@.len() == 96,
    {
        let mut out: Vec<u8> = Vec::new();
        push_address(&mut out, &self.parent_name);
        push_address(&mut out, &self.owner);
        push_address(&mut out, &self.class);
        assert(out@ =~= self.encoding());
        out
    }

    /// Writes the header over the first 96 bytes of `dst`.
    pub fn pack_into_slice(&self, dst: &mut Vec<u8>)
        requires
            old(dst)@.len() >= 96,
        ensures
            final(dst)@ == self.encoding() + old(dst)@.subrange(96, old(dst)@.len() as int),
    {
        let bytes = self.pack();
        let written = write_data(dst, bytes.as_slice(), 0);
        assert(written is Ok);
        assert(dst@ =~= self.encoding() + old(dst)@.subrange(96, old(dst)@.len() as int));
    }

    /// Reads the header that the first 96 bytes of `src` hold. What follows
    /// them, a record's data region, is not looked at.
    pub fn unpack_from_slice(src: &[u8]) -> (r: Result<NameRecordHeader, RegistryError>)
        ensures
            src@.len() < 96 ==> r == Err::<NameRecordHeader, RegistryError>(RegistryError::InvalidHeader),
            src@.len() >= 96 ==> r is Ok && r->Ok_0.encoding() == src@.subrange(0, 96),
    {
        if src.len() < 96 {
            return Err(RegistryError::InvalidHeader);
        }
        let parent_name = read_address(src, 0);
        let owner = read_address(src, 32);
        let class = read_address(src, 64);
        let h = NameRecordHeader { parent_name, owner, class };
        assert(h.encoding() =~= src@.subrange(0, 96));
        Ok(h)
    }

    /// Whether the record exists.
    pub fn is_initialized(&self) -> (r: bool)
        ensures
            r == self.initialized(),
    {
        !self.owner.is_zero()
    }
}

/// `s` with the bytes of `input` written over it from `offset` on.
pub open spec fn overwrite(s: Seq<u8>, input: Seq<u8>, offset: int) -> Seq<u8> {
    Seq::new(
        s.len(),
        |i: int| if offset <= i < offset + input.len() { input[i - offset] } else { s[i] },
    )
}

/// What a write of `input` at `offset` does to storage: the storage after
/// it, or `OutOfSpace` where the write would pass the end of the storage.
pub open spec fn write_outcome(account: Seq<u8>, input: Seq<u8>, offset: int) -> Result<Seq<u8>, RegistryError> {
    if offset + input.len() > account.len() {
        Err(RegistryError::OutOfSpace)
    } else {
        Ok(overwrite(account, input, offset))
    }
}

/// What the caller is told of an outcome: success, or the rejection.
pub open spec fn verdict(outcome: Result<Seq<u8>, RegistryError>) -> Result<(), RegistryError> {
    match outcome {
        Ok(_) => Ok(()),
        Err(e) => Err(e),
    }
}

/// The storage after an operation with the given outcome: the new storage
/// on success, the storage as it was on rejection.
pub open spec fn state_after(before: Seq<u8>, outcome: Result<Seq<u8>, RegistryError>) -> Seq<u8> {
    match outcome {
        Ok(after) => after,
        Err(_) => before,
    }
}

/// Copies `input` over the storage bytes that start at `offset`. A write
/// that would pass the end of the storage is rejected as `OutOfSpace`, and
/// then no byte is written.
pub fn write_data(account: &mut Vec<u8>, input: &[u8], offset: usize) -> (r: Result<(), RegistryError>)
    ensures
        r == verdict(write_outcome(old(account)@, input@, offset as int)),
        final(account)@ == state_after(old(account)@, write_outcome(old(account)@, input@, offset as int)),
{
    let ghost before = account@;
    let n: usize = account.len();
    if input.len() > n || offset > n - input.len() {
        return Err(RegistryError::OutOfSpace);
    }
    let mut i: usize = 0;
    while i < input.len()
        invariant
            i <= input@.len(),
            offset + input@.len() <= n,
            n == before.len(),
            account@.len() == before.len(),
            forall|j: int| 0 <= j < before.len() ==> account@[j] == (if offset <= j < offset + i {
                input@[j - offset]
            } else {
                before[j]
            }),
        decreases input@.len() - i,
    {
        account.set(offset + i, input[i]);
        i += 1;
    }
    assert(account@ =~= overwrite(before, input@, offset as int));
    Ok(())
}

/// A rejected write, tried again on the storage it left, is rejected again
/// for the same reason.
pub proof fn lemma_rejected_write_replays(account: Seq<u8>, input: Seq<u8>, offset: int)
    requires
        write_outcome(account, input, offset) is Err,
    ensures
        state_after(account, write_outcome(account, input, offset)) == account,
        write_outcome(state_after(account, write_outcome(account, input, offset)), input, offset) == write_outcome(
            account,
            input,
            offset,
        ),
{
}

/// The bytes of an optional address: its own, or 32 zeros where there is none.
pub open spec fn address_or_zero(a: Option<&Address>) -> Seq<u8> {
    match a {
        Some(x) => x@,
        None => zero_bytes(),
    }
}

/// The seed bytes of a record before the bump byte: the hashed name, then
/// the class or zeros, then the parent or zeros.
pub open spec fn seed_bytes(hashed_name: Seq<u8>, class: Option<&Address>, parent: Option<&Address>) -> Seq<u8> {
    hashed_name + address_or_zero(class) + address_or_zero(parent)
}

/// `s` cut into pieces of 32 bytes; the last piece holds what is left.
pub open spec fn chunks_of(s: Seq<u8>) -> Seq<Seq<u8>> {
    Seq::new(
        ((s.len() + 31) / 32) as nat,
        |i: int| s.subrange(32 * i, if 32 * i + 32 <= s.len() { 32 * i + 32 } else { s.len() as int }),
    )
}

/// The address of the record with the given name, class and parent, and the
/// seed bytes that prove it: the seed bytes with the winning bump byte
/// appended. `None` where the search finds no address.
pub open spec fn derived(
    program_id: Seq<u8>,
    hashed_name: Seq<u8>,
    class: Option<&Address>,
    parent: Option<&Address>,
) -> Option<(Seq<u8>, Seq<u8>)> {
    let seeds = seed_bytes(hashed_name, class, parent);
    match program_address_search(chunks_of(seeds), program_id) {
        Some((key, bump)) => Some((key, seeds.push(bump))),
        None => None,
    }
}

/// The bytes of `bytes` from `start` up to `end`.
pub fn copy_range(bytes: &[u8], start: usize, end: usize) -> (out: Vec<u8>)
    requires
        start <= end <= bytes@.len(),
    ensures
        out@ == bytes@.subrange(start as int, end as int),
{
    let mut out: Vec<u8> = Vec::new();
    let mut i: usize = start;
    while i < end
        invariant
            start <= i <= end <= bytes@.len(),
            out@ == bytes@.subrange(start as int, i as int),
        decreases end - i,
    {
        out.push(bytes[i]);
        assert(out@ =~= bytes@.subrange(start as int, i + 1));
        i += 1;
    }
    out
}

/// Cuts `bytes` into seeds of 32 bytes each, the last one shorter where the
/// length is no multiple of 32.
pub fn split_seeds(bytes: &Vec<u8>) -> (chunks: Vec<Vec<u8>>)
    ensures
        seeds_view(chunks) == chunks_of(bytes@),
{
    let n: usize = bytes.len();
    let mut chunks: Vec<Vec<u8>> = Vec::new();
    let mut start: usize = 0;
    while start < n
        invariant
            n == bytes@.len(),
            start <= n,
            start < n ==> start == 32 * chunks@.len(),
            start == n ==> chunks@.len() == (n + 31) / 32,
            chunks@.len() <= (n + 31) / 32,
            forall|k: int| 0 <= k < chunks@.len() ==> #[trigger] chunks@[k]@ == chunks_of(bytes@)[k],
        decreases n - start,
    {
        let end: usize = if n - start >= 32 { start + 32 } else { n };
        let piece = copy_range(bytes.as_slice(), start, end);
        chunks.push(piece);
        start = end;
    }
    assert(seeds_view(chunks) =~= chunks_of(bytes@));
    chunks
}

/// The seed bytes of a record, without the bump byte.
pub fn build_seed_bytes(hashed_name: &Vec<u8>, name_class_opt: Option<&Address>, parent_name_address_opt: Option<&Address>) -> (seeds: Vec<u8>)
    ensures
        seeds@ == seed_bytes(hashed_name@, name_class_opt, parent_name_address_opt),
{
    let mut seeds = copy_range(hashed_name.as_slice(), 0, hashed_name.len());
    assert(seeds@ =~= hashed_name@);
    let zero = Address::zero();
    match name_class_opt {
        Some(class) => push_address(&mut seeds, class),
        None => push_address(&mut seeds, &zero),
    }
    match parent_name_address_opt {
        Some(parent) => push_address(&mut seeds, parent),
        None => push_address(&mut seeds, &zero),
    }
    seeds
}

/// The outcome of a derivation, given the seed bytes and what the search on
/// them found: the address, with the seed bytes and the winning bump byte
/// after them.
pub fn seeds_and_key_from(seeds: Vec<u8>, found: Option<(Address, u8)>) -> (r: Option<(Address, Vec<u8>)>)
    ensures
        match found {
            Some((key, bump)) => r matches Some(pair) && pair.0 == key && pair.1@ == seeds@.push(bump),
            None => r is None,
        },
{
    match found {
        Some((name_account_key, bump)) => {
            let mut seeds_vec = seeds;
            seeds_vec.push(bump);
            Some((name_account_key, seeds_vec))
        },
        None => None,
    }
}

/// The address of the record with the given name, class and parent, with
/// the seed bytes that reproduce it. Callers make sure that the search
/// finds an address; `try_get_seeds_and_key` asks nothing of them.
pub fn get_seeds_and_key(
    program_id: &Address,
    hashed_name: Vec<u8>,
    name_class_opt: Option<&Address>,
    parent_name_address_opt: Option<&Address>,
) -> (r: (Address, Vec<u8>))
    requires
        derived(program_id@, hashed_name@, name_class_opt, parent_name_address_opt) is Some,
    ensures
        derived(program_id@, hashed_name@, name_class_opt, parent_name_address_opt) == Some((r.0@, r.1@)),
{
    let seeds_vec = build_seed_bytes(&hashed_name, name_class_opt, parent_name_address_opt);
    let seed_slices = split_seeds(&seeds_vec);
    let found = search_program_address(&seed_slices, program_id);
    seeds_and_key_from(seeds_vec, found).unwrap()
}

/// As `get_seeds_and_key`, and `None` where the search finds no address.
pub fn try_get_seeds_and_key(
    program_id: &Address,
    hashed_name: Vec<u8>,
    name_class_opt: Option<&Address>,
    parent_name_address_opt: Option<&Address>,
) -> (r: Option<(Address, Vec<u8>)>)
    ensures
        match r {
            Some(pair) => derived(program_id@, hashed_name@, name_class_opt, parent_name_address_opt) == Some(
                (pair.0@, pair.1@),
            ),
            None => derived(program_id@, hashed_name@, name_class_opt, parent_name_address_opt) is None,
        },
{
    let seeds_vec = build_seed_bytes(&hashed_name, name_class_opt, parent_name_address_opt);
    let seed_slices = split_seeds(&seeds_vec);
    let found = search_program_address(&seed_slices, program_id);
    seeds_and_key_from(seeds_vec, found)
}

/// Deriving twice from the same name, class and parent gives the same
/// address and the same seed bytes.
pub proof fn lemma_derivation_deterministic(
    program_id: Seq<u8>,
    hashed_name: Seq<u8>,
    class: Option<&Address>,
    parent: Option<&Address>,
    first: (Address, Vec<u8>),
    second: (Address, Vec<u8>),
)
    requires
        derived(program_id, hashed_name, class, parent) == Some((first.0@, first.1@)),
        derived(program_id, hashed_name, class, parent) == Some((second.0@, second.1@)),
    ensures
        first.0 == second.0,
        first.1@ == second.1@,
{
    crate::address::lemma_address_ext(first.0, second.0);
}

/// Two headers with the same 96 bytes are the same header, so reading back
/// what was packed gives the header that was packed.
pub proof fn lemma_header_round_trip(h: NameRecordHeader, decoded: NameRecordHeader)
    requires
        decoded.encoding() == h.encoding(),
    ensures
        decoded == h,
{
    let e = h.encoding();
    assert(h.parent_name@ =~= e.subrange(0, 32));
    assert(h.owner@ =~= e.subrange(32, 64));
    assert(h.class@ =~= e.subrange(64, 96));
    let d = decoded.encoding();
    assert(decoded.parent_name@ =~= d.subrange(0, 32));
    assert(decoded.owner@ =~= d.subrange(32, 64));
    assert(decoded.class@ =~= d.subrange(64, 96));
    crate::address::lemma_address_ext(decoded.parent_name, h.parent_name);
    crate::address::lemma_address_ext(decoded.owner, h.owner);
    crate::address::lemma_address_ext(decoded.class, h.class);
}

} // verus!
