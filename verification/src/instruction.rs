//! The four operations of the registry, their wire encoding, and the
//! builders of complete requests.

use crate::address::{system_program_address, zero_bytes, Address};
use crate::error::RegistryError;
use crate::state::{copy_range, push_address, read_address};
use vstd::bytes::{
    lemma_auto_spec_u32_to_from_le_bytes, lemma_auto_spec_u64_to_from_le_bytes, spec_u32_from_le_bytes,
    spec_u32_to_le_bytes, spec_u64_from_le_bytes, spec_u64_to_le_bytes, u32_from_le_bytes, u32_to_le_bytes,
    u64_from_le_bytes, u64_to_le_bytes,
};
use vstd::prelude::*;
use vstd::slice::slice_subrange;

verus! {

/// An operation on a name record, with the fields that the account list
/// does not give.
#[derive(Clone, Debug, PartialEq, Eq)]
pub enum NameRegistryInstruction {
    /// Creates a record of `space` data bytes, funded with `lamports`.
    Create { hashed_name: Vec<u8>, lamports: u64, space: u32 },
    /// Writes `data` into the record's data region from `offset` on.
    Update { offset: u32, data: Vec<u8> },
    /// Hands the record to `new_owner`.
    Transfer { new_owner: Address },
    /// Deletes the record and refunds its deposit.
    Delete,
}

/// An operation as a mathematical value.
pub enum Operation {
    Create { hashed_name: Seq<u8>, lamports: u64, space: u32 },
    Update { offset: u32, data: Seq<u8> },
    Transfer { new_owner: Seq<u8> },
    Delete,
}

impl View for NameRegistryInstruction {
    type V = Operation;

    open spec fn view(&self) -> Operation {
        match self {
            NameRegistryInstruction::Create { hashed_name, lamports, space } => Operation::Create {
                hashed_name: hashed_name@,
                lamports: *lamports,
                space: *space,
            },
            NameRegistryInstruction::Update { offset, data } => Operation::Update { offset: *offset, data: data@ },
            NameRegistryInstruction::Transfer { new_owner } => Operation::Transfer { new_owner: new_owner@ },
            NameRegistryInstruction::Delete => Operation::Delete,
        }
    }
}

/// Whether an operation has a wire encoding: byte strings are at most
/// `u32::MAX` long, and an address has 32 bytes.
pub open spec fn encodable(op: Operation) -> bool {
    match op {
        Operation::Create { hashed_name, lamports, space } => hashed_name.len() <= u32::MAX,
        Operation::Update { offset, data } => data.len() <= u32::MAX,
        Operation::Transfer { new_owner } => new_owner.len() == 32,
        Operation::Delete => true,
    }
}

/// A byte string on the wire: its length as four little-endian bytes, then
/// its bytes.
pub open spec fn bytes_encoding(b: Seq<u8>) -> Seq<u8> {
    spec_u32_to_le_bytes(b.len() as u32) + b
}

/// The wire encoding of an operation: a tag byte, then the fields in
/// order, integers little-endian.
pub open spec fn encoding(op: Operation) -> Seq<u8> {
    match op {
        Operation::Create { hashed_name, lamports, space } => seq![0u8] + (bytes_encoding(hashed_name)
            + spec_u64_to_le_bytes(lamports) + spec_u32_to_le_bytes(space)),
        Operation::Update { offset, data } => seq![1u8] + (spec_u32_to_le_bytes(offset) + bytes_encoding(data)),
        Operation::Transfer { new_owner } => seq![2u8] + new_owner,
        Operation::Delete => seq![3u8],
    }
}

/// The `Create` operation that the payload `p` (the bytes after the tag)
/// encodes, if any.
pub open spec fn decoding_create(p: Seq<u8>) -> Option<Operation> {
    if p.len() < 4 {
        None
    } else {
        let n = spec_u32_from_le_bytes(p.subrange(0, 4)) as int;
        if p.len() != 4 + n + 12 {
            None
        } else {
            Some(
                Operation::Create {
                    hashed_name: p.subrange(4, 4 + n),
                    lamports: spec_u64_from_le_bytes(p.subrange(4 + n, 12 + n)),
                    space: spec_u32_from_le_bytes(p.subrange(12 + n, 16 + n)),
                },
            )
        }
    }
}

/// The `Update` operation that the payload `p` encodes, if any.
pub open spec fn decoding_update(p: Seq<u8>) -> Option<Operation> {
    if p.len() < 8 {
        None
    } else {
        let n = spec_u32_from_le_bytes(p.subrange(4, 8)) as int;
        if p.len() != 8 + n {
            None
        } else {
            Some(Operation::Update { offset: spec_u32_from_le_bytes(p.subrange(0, 4)), data: p.subrange(8, 8 + n) })
        }
    }
}

/// The operation that `b` encodes, if any. Nothing may follow the
/// operation, and tags other than 0, 1, 2 and 3 encode none.
pub open spec fn decoding(b: Seq<u8>) -> Option<Operation> {
    if b.len() == 0 {
        None
    } else {
        let p = b.subrange(1, b.len() as int);
        if b[0] == 0 {
            decoding_create(p)
        } else if b[0] == 1 {
            decoding_update(p)
        } else if b[0] == 2 {
            if p.len() == 32 {
                Some(Operation::Transfer { new_owner: p })
            } else {
                None
            }
        } else if b[0] == 3 {
            if p.len() == 0 {
                Some(Operation::Delete)
            } else {
                None
            }
        } else {
            None
        }
    }
}

/// Appends a byte string with its length prefix.
fn push_bytes(out: &mut Vec<u8>, b: &Vec<u8>)
    requires
        b@.len() <= u32::MAX,
    ensures
        final(out)@ == old(out)@ + bytes_encoding(b@),
{
    let n: u32 = b.len() as u32;
    let prefix = u32_to_le_bytes(n);
    out.extend_from_slice(prefix.as_slice());
    out.extend_from_slice(b.as_slice());
    assert(out@ =~= old(out)@ + bytes_encoding(b@));
}

impl NameRegistryInstruction {
    /// The wire bytes of the operation. Fails only where a byte string is
    /// too long for its length prefix.
    pub fn try_to_vec(&self) -> (r: Result<Vec<u8>, RegistryError>)
        ensures
            encodable(self@) ==> r is Ok && r->Ok_0@ == encoding(self@),
            !encodable(self@) ==> r == Err::<Vec<u8>, RegistryError>(RegistryError::InvalidInstruction),
    {
        let mut out: Vec<u8> = Vec::new();
        match self {
            NameRegistryInstruction::Create { hashed_name, lamports, space } => {
                if hashed_name.len() > 0xffff_ffff {
                    return Err(RegistryError::InvalidInstruction);
                }
                out.push(0u8);
                push_bytes(&mut out, hashed_name);
                let l = u64_to_le_bytes(*lamports);
                out.extend_from_slice(l.as_slice());
                let s = u32_to_le_bytes(*space);
                out.extend_from_slice(s.as_slice());
                assert(out@ =~= encoding(self@));
            },
            NameRegistryInstruction::Update { offset, data } => {
                if data.len() > 0xffff_ffff {
                    return Err(RegistryError::InvalidInstruction);
                }
                out.push(1u8);
                let o = u32_to_le_bytes(*offset);
                out.extend_from_slice(o.as_slice());
                push_bytes(&mut out, data);
                assert(out@ =~= encoding(self@));
            },
            NameRegistryInstruction::Transfer { new_owner } => {
                out.push(2u8);
                push_address(&mut out, new_owner);
                assert(out@ =~= encoding(self@));
            },
            NameRegistryInstruction::Delete => {
                out.push(3u8);
                assert(out@ =~= encoding(self@));
            },
        }
        Ok(out)
    }

    /// The operation that the wire bytes hold.
    pub fn try_from_slice(bytes: &[u8]) -> (r: Result<NameRegistryInstruction, RegistryError>)
        ensures
            match r {
                Ok(op) => decoding(bytes@) == Some(op@),
                Err(e) => e == RegistryError::InvalidInstruction && decoding(bytes@) is None,
            },
    {
        let len: usize = bytes.len();
        if len == 0 {
            return Err(RegistryError::InvalidInstruction);
        }
        let tag: u8 = bytes[0];
        let p = slice_subrange(bytes, 1, len);
        let plen: usize = len - 1;
        if tag == 0 {
            if plen < 16 {
                proof {
                    lemma_auto_spec_u32_to_from_le_bytes();
                }
                return Err(RegistryError::InvalidInstruction);
            }
            let n: u32 = u32_from_le_bytes(slice_subrange(p, 0, 4));
            if (plen - 16) as u64 != n as u64 {
                return Err(RegistryError::InvalidInstruction);
            }
            let name_end: usize = plen - 12;
            let hashed_name = copy_range(p, 4, name_end);
            let lamports: u64 = u64_from_le_bytes(slice_subrange(p, name_end, name_end + 8));
            let space: u32 = u32_from_le_bytes(slice_subrange(p, name_end + 8, plen));
            Ok(NameRegistryInstruction::Create { hashed_name, lamports, space })
        } else if tag == 1 {
            if plen < 8 {
                return Err(RegistryError::InvalidInstruction);
            }
            let offset: u32 = u32_from_le_bytes(slice_subrange(p, 0, 4));
            let n: u32 = u32_from_le_bytes(slice_subrange(p, 4, 8));
            if (plen - 8) as u64 != n as u64 {
                return Err(RegistryError::InvalidInstruction);
            }
            let data = copy_range(p, 8, plen);
            Ok(NameRegistryInstruction::Update { offset, data })
        } else if tag == 2 {
            if plen != 32 {
                return Err(RegistryError::InvalidInstruction);
            }
            let new_owner = read_address(p, 0);
            assert(p@.subrange(0, 32) =~= p@);
            Ok(NameRegistryInstruction::Transfer { new_owner })
        } else if tag == 3 {
            if plen != 0 {
                return Err(RegistryError::InvalidInstruction);
            }
            Ok(NameRegistryInstruction::Delete)
        } else {
            Err(RegistryError::InvalidInstruction)
        }
    }
}

/// Decoding the encoding of an operation gives the operation back.
pub proof fn lemma_decode_encode(op: Operation)
    requires
        encodable(op),
    ensures
        decoding(encoding(op)) == Some(op),
{
    lemma_auto_spec_u32_to_from_le_bytes();
    lemma_auto_spec_u64_to_from_le_bytes();
    let b = encoding(op);
    let p = b.subrange(1, b.len() as int);
    match op {
        Operation::Create { hashed_name, lamports, space } => {
            let n = hashed_name.len() as int;
            let body = bytes_encoding(hashed_name) + spec_u64_to_le_bytes(lamports) + spec_u32_to_le_bytes(space);
            assert(p =~= body);
            assert(p.subrange(0, 4) =~= spec_u32_to_le_bytes(hashed_name.len() as u32));
            assert(p.subrange(4, 4 + n) =~= hashed_name);
            assert(p.subrange(4 + n, 12 + n) =~= spec_u64_to_le_bytes(lamports));
            assert(p.subrange(12 + n, 16 + n) =~= spec_u32_to_le_bytes(space));
        },
        Operation::Update { offset, data } => {
            let n = data.len() as int;
            let body = spec_u32_to_le_bytes(offset) + bytes_encoding(data);
            assert(p =~= body);
            assert(p.subrange(0, 4) =~= spec_u32_to_le_bytes(offset));
            assert(p.subrange(4, 8) =~= spec_u32_to_le_bytes(data.len() as u32));
            assert(p.subrange(8, 8 + n) =~= data);
        },
        Operation::Transfer { new_owner } => {
            assert(p =~= new_owner);
        },
        Operation::Delete => {},
    }
}

/// Bytes that decode to an operation are the encoding of that operation:
/// no two byte strings decode to the same operation.
pub proof fn lemma_encode_decode(b: Seq<u8>, op: Operation)
    requires
        decoding(b) == Some(op),
    ensures
        encodable(op),
        encoding(op) == b,
{
    lemma_auto_spec_u32_to_from_le_bytes();
    lemma_auto_spec_u64_to_from_le_bytes();
    let p = b.subrange(1, b.len() as int);
    assert(b =~= seq![b[0]] + p);
    match op {
        Operation::Create { hashed_name, lamports, space } => {
            let n = spec_u32_from_le_bytes(p.subrange(0, 4)) as int;
            assert(p =~= p.subrange(0, 4) + p.subrange(4, 4 + n) + p.subrange(4 + n, 12 + n) + p.subrange(
                12 + n,
                16 + n,
            ));
            assert(encoding(op) =~= b);
        },
        Operation::Update { offset, data } => {
            let n = spec_u32_from_le_bytes(p.subrange(4, 8)) as int;
            assert(p =~= p.subrange(0, 4) + (p.subrange(4, 8) + p.subrange(8, 8 + n)));
            assert(encoding(op) =~= b);
        },
        Operation::Transfer { new_owner } => {},
        Operation::Delete => {
            assert(b =~= seq![3u8]);
        },
    }
}

/// An account named in a request, with whether it must sign and whether
/// the operation may write to it.
#[derive(Clone, Copy, Debug, PartialEq, Eq)]
pub struct AccountMeta {
    pub pubkey: Address,
    pub is_signer: bool,
    pub is_writable: bool,
}

/// The account reference with the given fields.
pub open spec fn meta(pubkey: Address, is_signer: bool, is_writable: bool) -> AccountMeta {
    AccountMeta { pubkey, is_signer, is_writable }
}

/// The reference that stands in an optional slot: the given account, read
/// only and signing as told, or the address `zero`, read only and not
/// signing, where there is none.
pub open spec fn optional_meta(zero: Address, key: Option<Address>, is_signer: bool) -> AccountMeta {
    match key {
        Some(k) => meta(k, is_signer, false),
        None => meta(zero, false, false),
    }
}

impl AccountMeta {
    /// A writable account.
    pub fn new(pubkey: Address, is_signer: bool) -> (m: AccountMeta)
        ensures
            m == meta(pubkey, is_signer, true),
    {
        AccountMeta { pubkey, is_signer, is_writable: true }
    }

    /// A read-only account.
    pub fn new_readonly(pubkey: Address, is_signer: bool) -> (m: AccountMeta)
        ensures
            m == meta(pubkey, is_signer, false),
    {
        AccountMeta { pubkey, is_signer, is_writable: false }
    }
}

/// A complete request: the program it addresses, the accounts in their
/// positions, and the wire bytes of the operation.
#[derive(Clone, Debug, PartialEq, Eq)]
pub struct Instruction {
    pub program_id: Address,
    pub accounts: Vec<AccountMeta>,
    pub data: Vec<u8>,
}

/// The reference for an optional slot of a `Create` request.
fn optional_slot(zero: Address, key: Option<Address>, is_signer: bool) -> (m: AccountMeta)
    ensures
        m == optional_meta(zero, key, is_signer),
{
    match key {
        Some(k) => AccountMeta::new_readonly(k, is_signer),
        None => AccountMeta::new_readonly(zero, false),
    }
}

/// The account list of a `Create` request: system program, payer, the
/// record, its owner, then the class, the parent record and the parent's
/// owner, each of the last three replaced by the zero address where absent.
/// The system program's address is the zero address, `zero`.
pub open spec fn create_accounts(
    zero: Address,
    name_account_key: Address,
    name_owner: Address,
    payer_key: Address,
    name_class_opt: Option<Address>,
    name_parent_opt: Option<Address>,
    name_parent_owner_opt: Option<Address>,
) -> Seq<AccountMeta> {
    seq![
        meta(zero, false, false),
        meta(payer_key, true, true),
        meta(name_account_key, false, true),
        meta(name_owner, false, false),
        optional_meta(zero, name_class_opt, true),
        optional_meta(zero, name_parent_opt, false),
        optional_meta(zero, name_parent_owner_opt, true),
    ]
}

/// Builds the request that carries the wire bytes `data` with the account
/// list of a `Create`. A parent record and its owner come together: with
/// one and not the other the request is refused as `AccountMismatch`.
pub fn create_request(
    name_service_program_id: Address,
    data: Vec<u8>,
    name_account_key: Address,
    name_owner: Address,
    payer_key: Address,
    name_class_opt: Option<Address>,
    name_parent_opt: Option<Address>,
    name_parent_owner_opt: Option<Address>,
) -> (r: Result<Instruction, RegistryError>)
    ensures
        (name_parent_opt is Some) != (name_parent_owner_opt is Some) ==> r == Err::<Instruction, RegistryError>(
            RegistryError::AccountMismatch,
        ),
        (name_parent_opt is Some) == (name_parent_owner_opt is Some) ==> {
            &&& r is Ok
            &&& r->Ok_0.program_id == name_service_program_id
            &&& r->Ok_0.data@ == data@
            &&& r->Ok_0.accounts@.len() == 7
            &&& r->Ok_0.accounts@[0].pubkey@ == zero_bytes()
            &&& r->Ok_0.accounts@ == create_accounts(
                r->Ok_0.accounts@[0].pubkey,
                name_account_key,
                name_owner,
                payer_key,
                name_class_opt,
                name_parent_opt,
                name_parent_owner_opt,
            )
        },
{
    if name_parent_opt.is_some() != name_parent_owner_opt.is_some() {
        return Err(RegistryError::AccountMismatch);
    }
    let system_program = system_program_address();
    let mut accounts: Vec<AccountMeta> = Vec::new();
    accounts.push(AccountMeta::new_readonly(system_program, false));
    accounts.push(AccountMeta::new(payer_key, true));
    accounts.push(AccountMeta::new(name_account_key, false));
    accounts.push(AccountMeta::new_readonly(name_owner, false));
    accounts.push(optional_slot(system_program, name_class_opt, true));
    accounts.push(optional_slot(system_program, name_parent_opt, false));
    accounts.push(optional_slot(system_program, name_parent_owner_opt, true));
    assert(accounts@ =~= create_accounts(
        system_program,
        name_account_key,
        name_owner,
        payer_key,
        name_class_opt,
        name_parent_opt,
        name_parent_owner_opt,
    ));
    Ok(Instruction { program_id: name_service_program_id, accounts, data })
}

/// Builds a `Create` request. A parent record and its owner come together:
/// with one and not the other the request is refused as `AccountMismatch`.
/// An operation too long for the wire is refused as `InvalidInstruction`.
pub fn create(
    name_service_program_id: Address,
    instruction_data: NameRegistryInstruction,
    name_account_key: Address,
    name_owner: Address,
    payer_key: Address,
    name_class_opt: Option<Address>,
    name_parent_opt: Option<Address>,
    name_parent_owner_opt: Option<Address>,
) -> (r: Result<Instruction, RegistryError>)
    requires
        instruction_data is Create,
    ensures
        !encodable(instruction_data@) ==> r == Err::<Instruction, RegistryError>(RegistryError::InvalidInstruction),
        encodable(instruction_data@) && (name_parent_opt is Some) != (name_parent_owner_opt is Some) ==> r == Err::<
            Instruction,
            RegistryError,
        >(RegistryError::AccountMismatch),
        encodable(instruction_data@) && (name_parent_opt is Some) == (name_parent_owner_opt is Some) ==> {
            &&& r is Ok
            &&& r->Ok_0.program_id == name_service_program_id
            &&& r->Ok_0.data@ == encoding(instruction_data@)
            &&& r->Ok_0.accounts@.len() == 7
            &&& r->Ok_0.accounts@[0].pubkey@ == zero_bytes()
            &&& r->Ok_0.accounts@ == create_accounts(
                r->Ok_0.accounts@[0].pubkey,
                name_account_key,
                name_owner,
                payer_key,
                name_class_opt,
                name_parent_opt,
                name_parent_owner_opt,
            )
        },
{
    let data = match instruction_data.try_to_vec() {
        Ok(d) => d,
        Err(e) => {
            return Err(e);
        },
    };
    create_request(
        name_service_program_id,
        data,
        name_account_key,
        name_owner,
        payer_key,
        name_class_opt,
        name_parent_opt,
        name_parent_owner_opt,
    )
}

/// The account list of an `Update` or `Transfer` request: the record,
/// writable; the signing authority, writable as told; then the parent
/// record, read only, where one is given.
pub open spec fn authority_accounts(
    name_account_key: Address,
    authority: Address,
    authority_writable: bool,
    name_parent_opt: Option<Address>,
) -> Seq<AccountMeta> {
    let head = seq![meta(name_account_key, false, true), meta(authority, true, authority_writable)];
    match name_parent_opt {
        Some(parent) => head.push(meta(parent, false, false)),
        None => head,
    }
}

/// Builds an `Update` request, signed by the owner, the class or the
/// parent's owner. Data too long for the wire is refused as
/// `InvalidInstruction`.
pub fn update(
    name_service_program_id: Address,
    offset: u32,
    data: Vec<u8>,
    name_account_key: Address,
    name_update_signer: Address,
    name_parent_opt: Option<Address>,
) -> (r: Result<Instruction, RegistryError>)
    ensures
        data@.len() > u32::MAX ==> r == Err::<Instruction, RegistryError>(RegistryError::InvalidInstruction),
        data@.len() <= u32::MAX ==> {
            &&& r is Ok
            &&& r->Ok_0.program_id == name_service_program_id
            &&& r->Ok_0.data@ == encoding(Operation::Update { offset, data: data@ })
            &&& r->Ok_0.accounts@ == authority_accounts(name_account_key, name_update_signer, true, name_parent_opt)
        },
{
    let instruction_data = NameRegistryInstruction::Update { offset, data };
    let data = match instruction_data.try_to_vec() {
        Ok(d) => d,
        Err(e) => {
            return Err(e);
        },
    };
    let mut accounts: Vec<AccountMeta> = Vec::new();
    accounts.push(AccountMeta::new(name_account_key, false));
    accounts.push(AccountMeta::new(name_update_signer, true));
    if let Some(name_parent_key) = name_parent_opt {
        accounts.push(AccountMeta::new_readonly(name_parent_key, false));
    }
    assert(accounts@ =~= authority_accounts(name_account_key, name_update_signer, true, name_parent_opt));
    Ok(Instruction { program_id: name_service_program_id, accounts, data })
}

/// Builds a `Transfer` request to the new owner `name_owner`, signed by the
/// current owner `name_owner_key`.
pub fn transfer(
    name_service_program_id: Address,
    name_owner: Address,
    name_account_key: Address,
    name_owner_key: Address,
    name_parent: Option<Address>,
) -> (r: Result<Instruction, RegistryError>)
    ensures
        r is Ok,
        r->Ok_0.program_id == name_service_program_id,
        r->Ok_0.data@ == encoding(Operation::Transfer { new_owner: name_owner@ }),
        r->Ok_0.accounts@ == authority_accounts(name_account_key, name_owner_key, false, name_parent),
{
    let instruction_data = NameRegistryInstruction::Transfer { new_owner: name_owner };
    let data = match instruction_data.try_to_vec() {
        Ok(d) => d,
        Err(e) => {
            return Err(e);
        },
    };
    let mut accounts: Vec<AccountMeta> = Vec::new();
    accounts.push(AccountMeta::new(name_account_key, false));
    accounts.push(AccountMeta::new_readonly(name_owner_key, true));
    if let Some(parent) = name_parent {
        accounts.push(AccountMeta::new_readonly(parent, false));
    }
    assert(accounts@ =~= authority_accounts(name_account_key, name_owner_key, false, name_parent));
    Ok(Instruction { program_id: name_service_program_id, accounts, data })
}

/// Builds a `Delete` request, signed by the owner. The deposit goes to
/// `refund_target`.
pub fn delete(
    name_service_program_id: Address,
    name_account_key: Address,
    name_owner_key: Address,
    refund_target: Address,
) -> (r: Result<Instruction, RegistryError>)
    ensures
        r is Ok,
        r->Ok_0.program_id == name_service_program_id,
        r->Ok_0.data@ == encoding(Operation::Delete),
        r->Ok_0.accounts@ == seq![
            meta(name_account_key, false, true),
            meta(name_owner_key, true, false),
            meta(refund_target, false, true),
        ],
{
    let instruction_data = NameRegistryInstruction::Delete;
    let data = match instruction_data.try_to_vec() {
        Ok(d) => d,
        Err(e) => {
            return Err(e);
        },
    };
    let mut accounts: Vec<AccountMeta> = Vec::new();
    accounts.push(AccountMeta::new(name_account_key, false));
    accounts.push(AccountMeta::new_readonly(name_owner_key, true));
    accounts.push(AccountMeta::new(refund_target, false));
    assert(accounts@ =~= seq![
        meta(name_account_key, false, true),
        meta(name_owner_key, true, false),
        meta(refund_target, false, true),
    ]);
    Ok(Instruction { program_id: name_service_program_id, accounts, data })
}

} // verus!
