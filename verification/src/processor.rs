//! The authorization rules: for each operation, who must have signed, and
//! what the operation does to the record's storage once they have.

use crate::address::{zero_bytes, Address};
use crate::error::RegistryError;
use crate::instruction::AccountMeta;
use crate::state::{derived, overwrite, state_after, try_get_seeds_and_key, verdict, write_data, NameRecordHeader};
use vstd::prelude::*;

verus! {

/// A record as the ledger holds it: its address and its storage bytes.
#[derive(Clone, Debug, PartialEq, Eq)]
pub struct RecordAccount {
    pub key: Address,
    pub data: Vec<u8>,
}

/// The parent context of a transfer: the parent record's address and the
/// account of the parent's owner, which only has to be present.
#[derive(Clone, Copy, Debug, PartialEq, Eq)]
pub struct ParentContext {
    pub parent: Address,
    pub parent_owner: Address,
}

/// A record that a `Create` made: its storage and its deposit.
#[derive(Clone, Debug, PartialEq, Eq)]
pub struct CreatedRecord {
    pub data: Vec<u8>,
    pub lamports: u64,
}

/// The parent-name field of a record's storage.
pub open spec fn parent_name_of(record: Seq<u8>) -> Seq<u8> {
    record.subrange(0, 32)
}

/// The owner field of a record's storage.
pub open spec fn owner_of(record: Seq<u8>) -> Seq<u8> {
    record.subrange(32, 64)
}

/// The class field of a record's storage.
pub open spec fn class_of(record: Seq<u8>) -> Seq<u8> {
    record.subrange(64, 96)
}

/// Whether the storage holds a record: a whole header with an owner that is
/// not the zero address.
pub open spec fn record_exists(record: Seq<u8>) -> bool {
    record.len() >= 96 && owner_of(record) != zero_bytes()
}

/// Whether `a` is the owner of the record and has signed.
pub open spec fn owner_signed(record: Seq<u8>, a: AccountMeta) -> bool {
    record_exists(record) && a.is_signer && a.pubkey@ == owner_of(record)
}

/// Whether the record has a class, and `a` is that class and has signed.
pub open spec fn class_signed(record: Seq<u8>, a: AccountMeta) -> bool {
    record_exists(record) && class_of(record) != zero_bytes() && a.is_signer && a.pubkey@ == class_of(record)
}

/// `n` zero bytes.
pub open spec fn zeros(n: nat) -> Seq<u8> {
    Seq::new(n, |i: int| 0u8)
}

/// Reads the header at the start of a record's storage.
pub fn load_header(record: &Vec<u8>) -> (r: Result<NameRecordHeader, RegistryError>)
    ensures
        record@.len() < 96 ==> r == Err::<NameRecordHeader, RegistryError>(RegistryError::InvalidHeader),
        record@.len() >= 96 ==> {
            &&& r is Ok
            &&& r->Ok_0.parent_name@ == parent_name_of(record@)
            &&& r->Ok_0.owner@ == owner_of(record@)
            &&& r->Ok_0.class@ == class_of(record@)
        },
{
    let r = NameRecordHeader::unpack_from_slice(record.as_slice());
    proof {
        if let Ok(h) = r {
            let e = h.encoding();
            assert(h.parent_name@ =~= e.subrange(0, 32));
            assert(h.owner@ =~= e.subrange(32, 64));
            assert(h.class@ =~= e.subrange(64, 96));
            assert(e.subrange(0, 32) =~= parent_name_of(record@));
            assert(e.subrange(32, 64) =~= owner_of(record@));
            assert(e.subrange(64, 96) =~= class_of(record@));
        }
    }
    r
}

/// Whether `a` has signed as the owner in `header`, of a record that exists.
fn signed_as_owner(header: &NameRecordHeader, a: &AccountMeta) -> (r: bool)
    ensures
        r == (header.owner@ != zero_bytes() && a.is_signer && a.pubkey@ == header.owner@),
{
    header.is_initialized() && a.is_signer && a.pubkey.same(&header.owner)
}

/// Whether `a` has signed as the class in `header`, of a record that exists.
fn signed_as_class(header: &NameRecordHeader, a: &AccountMeta) -> (r: bool)
    ensures
        r == (header.owner@ != zero_bytes() && header.class@ != zero_bytes() && a.is_signer && a.pubkey@
            == header.class@),
{
    header.is_initialized() && !header.class.is_zero() && a.is_signer && a.pubkey.same(&header.class)
}

/// Whether `a` has signed as the owner of the parent record `parent`.
fn signed_as_parent_owner(parent: &RecordAccount, a: &AccountMeta) -> (r: bool)
    ensures
        r == owner_signed(parent.data@, *a),
{
    match load_header(&parent.data) {
        Ok(header) => signed_as_owner(&header, a),
        Err(_) => false,
    }
}

/// Whether the authorization of an update holds: `signer` has signed and is
/// the record's owner, or its class, or the owner of the supplied parent
/// record, which is the record's parent.
pub open spec fn update_authorized(record: Seq<u8>, signer: AccountMeta, parent: Option<&RecordAccount>) -> bool {
    ||| owner_signed(record, signer)
    ||| class_signed(record, signer)
    ||| (record_exists(record) && parent is Some && parent->0.key@ == parent_name_of(record) && owner_signed(
        parent->0.data@,
        signer,
    ))
}

/// What an update does: the record's storage after it, or the reason for
/// which it is rejected. The owner is tried first, then the class, then the
/// parent's owner; a supplied parent that is not the record's parent is an
/// `AccountMismatch`. The write has to stay inside the data region, which
/// starts after the 96 bytes of the header.
pub open spec fn update_outcome(
    record: Seq<u8>,
    signer: AccountMeta,
    parent: Option<&RecordAccount>,
    offset: u32,
    data: Seq<u8>,
) -> Result<Seq<u8>, RegistryError> {
    if record.len() < 96 {
        Err(RegistryError::InvalidHeader)
    } else if !owner_signed(record, signer) && !class_signed(record, signer) && record_exists(record) && parent is Some
        && parent->0.key@ != parent_name_of(record) {
        Err(RegistryError::AccountMismatch)
    } else if !update_authorized(record, signer, parent) {
        Err(RegistryError::Unauthorized)
    } else if offset + data.len() > record.len() - 96 {
        Err(RegistryError::OutOfSpace)
    } else {
        Ok(overwrite(record, data, 96 + offset))
    }
}

/// Applies an update to the record's storage, or rejects it and leaves the
/// storage as it was.
pub fn process_update(
    record: &mut Vec<u8>,
    signer: &AccountMeta,
    parent: Option<&RecordAccount>,
    offset: u32,
    data: &Vec<u8>,
) -> (r: Result<(), RegistryError>)
    ensures
        r == verdict(update_outcome(old(record)@, *signer, parent, offset, data@)),
        final(record)@ == state_after(old(record)@, update_outcome(old(record)@, *signer, parent, offset, data@)),
{
    let header = match load_header(record) {
        Ok(h) => h,
        Err(e) => {
            return Err(e);
        },
    };
    if !signed_as_owner(&header, signer) && !signed_as_class(&header, signer) {
        if !header.is_initialized() {
            return Err(RegistryError::Unauthorized);
        }
        match parent {
            Some(p) => {
                if !p.key.same(&header.parent_name) {
                    return Err(RegistryError::AccountMismatch);
                }
                if !signed_as_parent_owner(p, signer) {
                    return Err(RegistryError::Unauthorized);
                }
            },
            None => {
                return Err(RegistryError::Unauthorized);
            },
        }
    }
    let room: usize = record.len() - 96;
    if data.len() > room || offset as u64 > (room - data.len()) as u64 {
        return Err(RegistryError::OutOfSpace);
    }
    let start: usize = 96 + offset as usize;
    write_data(record, data.as_slice(), start)
}

/// What a transfer does: the record's storage after it, or the reason for
/// which it is rejected. The owner has to sign; where the record has a
/// class, the class has to sign as well; a supplied parent has to be the
/// record's parent, and its owner only has to be present.
pub open spec fn transfer_outcome(
    record: Seq<u8>,
    owner: AccountMeta,
    class: Option<&AccountMeta>,
    parent: Option<&ParentContext>,
    new_owner: Seq<u8>,
) -> Result<Seq<u8>, RegistryError> {
    if record.len() < 96 {
        Err(RegistryError::InvalidHeader)
    } else if !transfer_authorized(record, owner, class) {
        Err(RegistryError::Unauthorized)
    } else if parent is Some && parent->0.parent@ != parent_name_of(record) {
        Err(RegistryError::AccountMismatch)
    } else {
        Ok(overwrite(record, new_owner, 32))
    }
}

/// Whether the authorization of a transfer holds: the owner has signed, and
/// so has the class where the record has one.
pub open spec fn transfer_authorized(record: Seq<u8>, owner: AccountMeta, class: Option<&AccountMeta>) -> bool {
    owner_signed(record, owner) && (class_of(record) != zero_bytes() ==> class is Some && class_signed(
        record,
        *class->0,
    ))
}

/// Hands the record to a new owner, or rejects the transfer and leaves the
/// storage as it was.
pub fn process_transfer(
    record: &mut Vec<u8>,
    owner: &AccountMeta,
    class: Option<&AccountMeta>,
    parent: Option<&ParentContext>,
    new_owner: &Address,
) -> (r: Result<(), RegistryError>)
    ensures
        r == verdict(transfer_outcome(old(record)@, *owner, class, parent, new_owner@)),
        final(record)@ == state_after(old(record)@, transfer_outcome(old(record)@, *owner, class, parent, new_owner@)),
{
    let header = match load_header(record) {
        Ok(h) => h,
        Err(e) => {
            return Err(e);
        },
    };
    if !signed_as_owner(&header, owner) {
        return Err(RegistryError::Unauthorized);
    }
    if !header.class.is_zero() {
        match class {
            Some(c) => {
                if !signed_as_class(&header, c) {
                    return Err(RegistryError::Unauthorized);
                }
            },
            None => {
                return Err(RegistryError::Unauthorized);
            },
        }
    }
    if let Some(p) = parent {
        if !p.parent.same(&header.parent_name) {
            return Err(RegistryError::AccountMismatch);
        }
    }
    let bytes = new_owner.bytes;
    write_data(record, bytes.as_slice(), 32)
}

/// What a delete does to the record's storage: every byte becomes zero. It
/// is rejected unless the owner has signed.
pub open spec fn delete_outcome(record: Seq<u8>, owner: AccountMeta) -> Result<Seq<u8>, RegistryError> {
    if record.len() < 96 {
        Err(RegistryError::InvalidHeader)
    } else if !owner_signed(record, owner) {
        Err(RegistryError::Unauthorized)
    } else {
        Ok(zeros(record.len()))
    }
}

/// Deletes the record: zeroes its storage and moves its deposit to the
/// refund target's balance. A rejected delete changes nothing, whatever the
/// balances are; where the delete goes through, the refund target's balance
/// has to have room for the deposit.
pub fn process_delete(record: &mut Vec<u8>, deposit: &mut u64, owner: &AccountMeta, refund_balance: &mut u64) -> (r:
    Result<(), RegistryError>)
    requires
        delete_outcome(old(record)@, *owner) is Ok ==> *old(deposit) + *old(refund_balance) <= u64::MAX,
    ensures
        r == verdict(delete_outcome(old(record)@, *owner)),
        final(record)@ == state_after(old(record)@, delete_outcome(old(record)@, *owner)),
        r is Ok ==> *final(deposit) == 0 && *final(refund_balance) == *old(refund_balance) + *old(deposit),
        r is Err ==> *final(deposit) == *old(deposit) && *final(refund_balance) == *old(refund_balance),
{
    let header = match load_header(record) {
        Ok(h) => h,
        Err(e) => {
            return Err(e);
        },
    };
    if !signed_as_owner(&header, owner) {
        return Err(RegistryError::Unauthorized);
    }
    let n: usize = record.len();
    let mut i: usize = 0;
    while i < n
        invariant
            i <= n,
            n == record@.len(),
            forall|j: int| 0 <= j < i ==> record@[j] == 0u8,
        decreases n - i,
    {
        record.set(i, 0u8);
        i += 1;
    }
    assert(record@ =~= zeros(old(record)@.len()));
    *refund_balance = *refund_balance + *deposit;
    *deposit = 0;
    Ok(())
}

/// The address of an optional account.
pub open spec fn key_of(a: Option<&AccountMeta>) -> Option<&Address> {
    match a {
        Some(m) => Some(&m.pubkey),
        None => None,
    }
}

/// The address of an optional record.
pub open spec fn record_key_of(a: Option<&RecordAccount>) -> Option<&Address> {
    match a {
        Some(r) => Some(&r.key),
        None => None,
    }
}

/// Whether the authorization of a create holds: the payer has signed; a
/// supplied class has signed; and where a parent record is supplied, its
/// owner is supplied too and has signed.
pub open spec fn create_authorized(
    payer: AccountMeta,
    class: Option<&AccountMeta>,
    parent: Option<&RecordAccount>,
    parent_owner: Option<&AccountMeta>,
) -> bool {
    &&& payer.is_signer
    &&& class is Some ==> class->0.is_signer
    &&& parent is Some ==> parent_owner is Some && owner_signed(parent->0.data@, *parent_owner->0)
}

/// The storage of a new record: the header, then `space` zero bytes.
pub open spec fn created_storage(
    owner: Address,
    class: Option<&AccountMeta>,
    parent: Option<&RecordAccount>,
    space: u32,
) -> Seq<u8> {
    crate::state::address_or_zero(record_key_of(parent)) + owner@ + crate::state::address_or_zero(key_of(class))
        + zeros(space as nat)
}

/// What a create gives, where `derived_address` is the address derived from
/// the name, class and parent (`None` where there is none): the new
/// record's storage, or the reason for which the create is rejected.
pub open spec fn create_outcome(
    derived_address: Option<Seq<u8>>,
    target: Address,
    owner: Address,
    space: u32,
    payer: AccountMeta,
    class: Option<&AccountMeta>,
    parent: Option<&RecordAccount>,
    parent_owner: Option<&AccountMeta>,
) -> Result<Seq<u8>, RegistryError> {
    if !create_authorized(payer, class, parent, parent_owner) {
        Err(RegistryError::Unauthorized)
    } else if derived_address != Some(target@) {
        Err(RegistryError::AddressMismatch)
    } else {
        Ok(created_storage(owner, class, parent, space))
    }
}

/// Creates the record at `target`, given the address that was derived from
/// its name, class and parent.
pub fn create_record(
    derived_address: Option<&Address>,
    target: &Address,
    owner: &Address,
    lamports: u64,
    space: u32,
    payer: &AccountMeta,
    class: Option<&AccountMeta>,
    parent: Option<&RecordAccount>,
    parent_owner: Option<&AccountMeta>,
) -> (r: Result<CreatedRecord, RegistryError>)
    requires
        96 + space <= usize::MAX,
    ensures
        match create_outcome(
            match derived_address {
                Some(a) => Some(a@),
                None => None,
            },
            *target,
            *owner,
            space,
            *payer,
            class,
            parent,
            parent_owner,
        ) {
            Ok(storage) => r is Ok && r->Ok_0.data@ == storage && r->Ok_0.lamports == lamports,
            Err(e) => r == Err::<CreatedRecord, RegistryError>(e),
        },
{
    if !payer.is_signer {
        return Err(RegistryError::Unauthorized);
    }
    if let Some(c) = class {
        if !c.is_signer {
            return Err(RegistryError::Unauthorized);
        }
    }
    if let Some(p) = parent {
        match parent_owner {
            Some(po) => {
                if !signed_as_parent_owner(p, po) {
                    return Err(RegistryError::Unauthorized);
                }
            },
            None => {
                return Err(RegistryError::Unauthorized);
            },
        }
    }
    match derived_address {
        Some(a) => {
            if !a.same(target) {
                return Err(RegistryError::AddressMismatch);
            }
        },
        None => {
            return Err(RegistryError::AddressMismatch);
        },
    }
    let zero = Address::zero();
    let header = NameRecordHeader {
        parent_name: match parent {
            Some(p) => p.key,
            None => zero,
        },
        owner: *owner,
        class: match class {
            Some(c) => c.pubkey,
            None => zero,
        },
    };
    let mut data = header.pack();
    let mut i: u32 = 0;
    while i < space
        invariant
            i <= space,
            data@ == header.encoding() + zeros(i as nat),
        decreases space - i,
    {
        data.push(0u8);
        assert(data@ =~= header.encoding() + zeros((i + 1) as nat));
        i += 1;
    }
    assert(data@ =~= created_storage(*owner, class, parent, space));
    Ok(CreatedRecord { data, lamports })
}

/// Creates the record at `target`: derives the address from the name, the
/// class and the parent, and creates the record where the authorization
/// holds and `target` is that address.
pub fn process_create(
    program_id: &Address,
    hashed_name: Vec<u8>,
    lamports: u64,
    space: u32,
    payer: &AccountMeta,
    target: &Address,
    owner: &Address,
    class: Option<&AccountMeta>,
    parent: Option<&RecordAccount>,
    parent_owner: Option<&AccountMeta>,
) -> (r: Result<CreatedRecord, RegistryError>)
    requires
        96 + space <= usize::MAX,
    ensures
        match create_outcome(
            match derived(program_id@, hashed_name@, key_of(class), record_key_of(parent)) {
                Some(pair) => Some(pair.0),
                None => None,
            },
            *target,
            *owner,
            space,
            *payer,
            class,
            parent,
            parent_owner,
        ) {
            Ok(storage) => r is Ok && r->Ok_0.data@ == storage && r->Ok_0.lamports == lamports,
            Err(e) => r == Err::<CreatedRecord, RegistryError>(e),
        },
{
    let class_key: Option<&Address> = match class {
        Some(c) => Some(&c.pubkey),
        None => None,
    };
    let parent_key: Option<&Address> = match parent {
        Some(p) => Some(&p.key),
        None => None,
    };
    match try_get_seeds_and_key(program_id, hashed_name, class_key, parent_key) {
        Some(pair) => create_record(Some(&pair.0), target, owner, lamports, space, payer, class, parent, parent_owner),
        None => create_record(None, target, owner, lamports, space, payer, class, parent, parent_owner),
    }
}

/// An update for which no authorization case holds never succeeds.
pub proof fn lemma_update_needs_authority(
    record: Seq<u8>,
    signer: AccountMeta,
    parent: Option<&RecordAccount>,
    offset: u32,
    data: Seq<u8>,
)
    requires
        !update_authorized(record, signer, parent),
    ensures
        update_outcome(record, signer, parent, offset, data) is Err,
        state_after(record, update_outcome(record, signer, parent, offset, data)) == record,
{
}

/// An update on a whole header for which no authorization case holds is
/// rejected as `Unauthorized`, whatever else the accounts hold, unless a
/// parent was supplied that is not the parent of an existing record.
pub proof fn lemma_update_unauthorized(
    record: Seq<u8>,
    signer: AccountMeta,
    parent: Option<&RecordAccount>,
    offset: u32,
    data: Seq<u8>,
)
    requires
        record.len() >= 96,
        !update_authorized(record, signer, parent),
        !(record_exists(record) && parent is Some && parent->0.key@ != parent_name_of(record)),
    ensures
        update_outcome(record, signer, parent, offset, data) == Err::<Seq<u8>, RegistryError>(
            RegistryError::Unauthorized,
        ),
{
}

/// A transfer on a whole header without the owner's signature, or without
/// the class's where the record has a class, is rejected as `Unauthorized`,
/// whatever else the accounts hold.
pub proof fn lemma_transfer_unauthorized(
    record: Seq<u8>,
    owner: AccountMeta,
    class: Option<&AccountMeta>,
    parent: Option<&ParentContext>,
    new_owner: Seq<u8>,
)
    requires
        record.len() >= 96,
        !transfer_authorized(record, owner, class),
    ensures
        transfer_outcome(record, owner, class, parent, new_owner) == Err::<Seq<u8>, RegistryError>(
            RegistryError::Unauthorized,
        ),
{
}

/// A delete on a whole header without the owner's signature is rejected as
/// `Unauthorized` and leaves the storage as it was.
pub proof fn lemma_delete_unauthorized(record: Seq<u8>, owner: AccountMeta)
    requires
        record.len() >= 96,
        !owner_signed(record, owner),
    ensures
        delete_outcome(record, owner) == Err::<Seq<u8>, RegistryError>(RegistryError::Unauthorized),
        state_after(record, delete_outcome(record, owner)) == record,
{
}

/// No update writes past the data region: one that would is rejected and
/// leaves the storage unchanged, and an authorized one is rejected as
/// `OutOfSpace`.
pub proof fn lemma_update_out_of_space(
    record: Seq<u8>,
    signer: AccountMeta,
    parent: Option<&RecordAccount>,
    offset: u32,
    data: Seq<u8>,
)
    requires
        offset + data.len() > record.len() - 96,
    ensures
        update_outcome(record, signer, parent, offset, data) is Err,
        state_after(record, update_outcome(record, signer, parent, offset, data)) == record,
        update_authorized(record, signer, parent) ==> update_outcome(record, signer, parent, offset, data) == Err::<
            Seq<u8>,
            RegistryError,
        >(RegistryError::OutOfSpace),
{
}

/// A successful update changes only the bytes it writes: the header and
/// the length of the storage stay as they were.
pub proof fn lemma_update_keeps_header(
    record: Seq<u8>,
    signer: AccountMeta,
    parent: Option<&RecordAccount>,
    offset: u32,
    data: Seq<u8>,
)
    requires
        update_outcome(record, signer, parent, offset, data) is Ok,
    ensures
        update_outcome(record, signer, parent, offset, data)->Ok_0.len() == record.len(),
        update_outcome(record, signer, parent, offset, data)->Ok_0.subrange(0, 96) == record.subrange(0, 96),
        update_outcome(record, signer, parent, offset, data)->Ok_0.subrange(96 + offset, 96 + offset + data.len())
            == data,
{
    let after = update_outcome(record, signer, parent, offset, data)->Ok_0;
    assert(after.subrange(0, 96) =~= record.subrange(0, 96));
    assert(after.subrange(96 + offset, 96 + offset + data.len()) =~= data);
}

/// A successful transfer sets the owner and nothing else: the parent name,
/// the class and the data stay as they were.
pub proof fn lemma_transfer_sets_owner(
    record: Seq<u8>,
    owner: AccountMeta,
    class: Option<&AccountMeta>,
    parent: Option<&ParentContext>,
    new_owner: Seq<u8>,
)
    requires
        new_owner.len() == 32,
        transfer_outcome(record, owner, class, parent, new_owner) is Ok,
    ensures
        ({
            let after = transfer_outcome(record, owner, class, parent, new_owner)->Ok_0;
            &&& after.len() == record.len()
            &&& owner_of(after) == new_owner
            &&& parent_name_of(after) == parent_name_of(record)
            &&& class_of(after) == class_of(record)
            &&& after.subrange(96, after.len() as int) == record.subrange(96, record.len() as int)
        }),
{
    let after = transfer_outcome(record, owner, class, parent, new_owner)->Ok_0;
    assert(owner_of(after) =~= new_owner);
    assert(parent_name_of(after) =~= parent_name_of(record));
    assert(class_of(after) =~= class_of(record));
    assert(after.subrange(96, after.len() as int) =~= record.subrange(96, record.len() as int));
}

/// After a delete the storage holds no record.
pub proof fn lemma_deleted_record_is_gone(record: Seq<u8>, owner: AccountMeta)
    requires
        delete_outcome(record, owner) is Ok,
    ensures
        !record_exists(delete_outcome(record, owner)->Ok_0),
{
    let after = delete_outcome(record, owner)->Ok_0;
    assert(owner_of(after) =~= zero_bytes());
}

/// A rejected update, tried again on the storage it left, is rejected
/// again for the same reason.
pub proof fn lemma_rejected_update_replays(
    record: Seq<u8>,
    signer: AccountMeta,
    parent: Option<&RecordAccount>,
    offset: u32,
    data: Seq<u8>,
)
    requires
        update_outcome(record, signer, parent, offset, data) is Err,
    ensures
        update_outcome(
            state_after(record, update_outcome(record, signer, parent, offset, data)),
            signer,
            parent,
            offset,
            data,
        ) == update_outcome(record, signer, parent, offset, data),
{
}

/// A rejected transfer, tried again on the storage it left, is rejected
/// again for the same reason.
pub proof fn lemma_rejected_transfer_replays(
    record: Seq<u8>,
    owner: AccountMeta,
    class: Option<&AccountMeta>,
    parent: Option<&ParentContext>,
    new_owner: Seq<u8>,
)
    requires
        transfer_outcome(record, owner, class, parent, new_owner) is Err,
    ensures
        transfer_outcome(
            state_after(record, transfer_outcome(record, owner, class, parent, new_owner)),
            owner,
            class,
            parent,
            new_owner,
        ) == transfer_outcome(record, owner, class, parent, new_owner),
{
}

/// A rejected delete, tried again on the storage it left, is rejected again
/// for the same reason.
pub proof fn lemma_rejected_delete_replays(record: Seq<u8>, owner: AccountMeta)
    requires
        delete_outcome(record, owner) is Err,
    ensures
        delete_outcome(state_after(record, delete_outcome(record, owner)), owner) == delete_outcome(record, owner),
{
}

} // verus!
