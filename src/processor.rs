use vstd::prelude::*;
use crate::address::{
    create_program_address, derived_address, is_canonical_bump, metadata_seed, metadata_seed_bytes,
    same_address, try_find_program_address,
};
use crate::error::DataAccountError;
use crate::instruction::{CloseAccountArgs, InitializeDataAccountArgs, UpdateDataAccountArgs};
use crate::state::{
    parse_metadata, metadata_bytes, DataAccountMetadata, DataStatusOption, MetadataView,
    SerializationStatusOption, DATA_TYPE_CUSTOM, DATA_VERSION,
};

verus! {

/// An account as a request sees it: its address, the flags the request
/// carries for it, its balance and its bytes.
#[derive(Clone, Debug)]
pub struct LedgerAccount {
    pub key: [u8; 32],
    pub is_signer: bool,
    pub is_writable: bool,
    pub lamports: u64,
    pub data: Vec<u8>,
}

/// Serves the requests of the data-account program.
pub struct Processor {}

pub open spec fn zeros(n: nat) -> Seq<u8> {
    Seq::new(n, |i: int| 0u8)
}

/// `s` cut or padded with zero bytes to length `n`.
pub open spec fn resized(s: Seq<u8>, n: nat) -> Seq<u8> {
    if n <= s.len() {
        s.subrange(0, n as int)
    } else {
        s + zeros((n - s.len()) as nat)
    }
}

/// `s` with the bytes from `offset` on replaced by `d`.
pub open spec fn overwritten(s: Seq<u8>, offset: int, d: Seq<u8>) -> Seq<u8> {
    s.subrange(0, offset) + d + s.subrange(offset + d.len(), s.len() as int)
}

/// The length a data account has after a write that ends at `end_len`.
pub open spec fn target_length(is_dynamic: bool, old_len: nat, end_len: nat, realloc_down: bool) -> nat {
    if !is_dynamic {
        old_len
    } else if realloc_down {
        end_len
    } else if old_len >= end_len {
        old_len
    } else {
        end_len
    }
}

/// What the data account must be paid to reach `minimum` when it grows.
pub open spec fn growth_payment(minimum: u64, balance: u64) -> nat {
    if minimum > balance { (minimum - balance) as nat } else { 0 }
}

/// What the data account gives back above `minimum` when it shrinks.
pub open spec fn shrink_refund(minimum: u64, balance: u64) -> nat {
    if balance > minimum { (balance - minimum) as nat } else { 0 }
}

/// The first check that the stored metadata of a data account fails, if any:
/// it must be present, decode, be initialized, name `authority` as its owner,
/// and sit at the address derived from the data account with its bump seed.
pub open spec fn stored_metadata_error(
    program_id: Seq<u8>,
    authority: LedgerAccount,
    data: LedgerAccount,
    metadata: LedgerAccount,
) -> Option<DataAccountError> {
    let m = parse_metadata(metadata.data@);
    if metadata.data@.len() == 0 {
        Some(DataAccountError::NoAccountLength)
    } else if m is None {
        Some(DataAccountError::InvalidAccountData)
    } else if m.unwrap().status == DataStatusOption::UNINITIALIZED {
        Some(DataAccountError::NotInitialized)
    } else if m.unwrap().authority != authority.key@ {
        Some(DataAccountError::InvalidAuthority)
    } else if derived_address(metadata_seed(), data.key@, m.unwrap().bump_seed, program_id)
        != Some(metadata.key@) {
        Some(DataAccountError::InvalidPDA)
    } else {
        None
    }
}

/// The first check that an update fails before any balance moves, if any.
pub open spec fn update_error(
    program_id: Seq<u8>,
    authority: LedgerAccount,
    data: LedgerAccount,
    metadata: LedgerAccount,
    offset: u64,
    len: nat,
) -> Option<DataAccountError> {
    if !authority.is_signer || !data.is_signer {
        Some(DataAccountError::NotSigner)
    } else if !authority.is_writable || !data.is_writable || !metadata.is_writable {
        Some(DataAccountError::NotWriteable)
    } else if stored_metadata_error(program_id, authority, data, metadata) is Some {
        stored_metadata_error(program_id, authority, data, metadata)
    } else if !parse_metadata(metadata.data@).unwrap().is_dynamic && data.data@.len() < offset + len {
        Some(DataAccountError::InsufficientSpace)
    } else if offset + len > usize::MAX {
        Some(DataAccountError::Overflow)
    } else {
        None
    }
}

/// The check that moving balances for a resize fails, if any.
pub open spec fn funding_error(
    authority: LedgerAccount,
    data: LedgerAccount,
    new_len: nat,
    minimum: u64,
) -> Option<DataAccountError> {
    if new_len > data.data@.len() && authority.lamports < growth_payment(minimum, data.lamports) {
        Some(DataAccountError::InsufficientFunds)
    } else if new_len < data.data@.len() && authority.lamports + shrink_refund(minimum, data.lamports)
        > u64::MAX {
        Some(DataAccountError::Overflow)
    } else {
        None
    }
}

/// The metadata record that initialization writes.
pub open spec fn initial_metadata(args: InitializeDataAccountArgs, bump: u8) -> MetadataView {
    MetadataView {
        status: DataStatusOption::INITIALIZED,
        serialization_status: SerializationStatusOption::UNVERIFIED,
        authority: args.authority@,
        is_dynamic: args.is_dynamic,
        version: DATA_VERSION,
        data_type: DATA_TYPE_CUSTOM,
        bump_seed: bump,
    }
}

/// Whether `metadata_key` is the address derived from `data_key` with the
/// bump seed that the search for it settles on.
pub open spec fn is_metadata_address(program_id: Seq<u8>, data_key: Seq<u8>, metadata_key: Seq<u8>) -> bool {
    exists|b: u8|
        is_canonical_bump(metadata_seed(), data_key, b, program_id)
            && #[trigger] derived_address(metadata_seed(), data_key, b, program_id) == Some(metadata_key)
}

/// What initialization takes from the authority to allocate the data account.
pub open spec fn data_allocation_cost(args: InitializeDataAccountArgs, data_rent: u64) -> nat {
    if args.is_created { 0 } else { data_rent as nat }
}

/// The first check that initialization fails, if any.
pub open spec fn initialize_error(
    program_id: Seq<u8>,
    authority: LedgerAccount,
    data: LedgerAccount,
    metadata: LedgerAccount,
    args: InitializeDataAccountArgs,
    data_rent: u64,
    metadata_rent: u64,
) -> Option<DataAccountError> {
    if !authority.is_signer || !data.is_signer {
        Some(DataAccountError::NotSigner)
    } else if !authority.is_writable || !data.is_writable || !metadata.is_writable {
        Some(DataAccountError::NotWriteable)
    } else if !args.is_created && (data.lamports != 0 || data.data@.len() != 0) {
        Some(DataAccountError::AccountAlreadyInUse)
    } else if !args.is_created && args.space > usize::MAX {
        Some(DataAccountError::Overflow)
    } else if authority.lamports < data_allocation_cost(args, data_rent) {
        Some(DataAccountError::InsufficientFunds)
    } else if !is_metadata_address(program_id, data.key@, metadata.key@) {
        Some(DataAccountError::InvalidPDA)
    } else if metadata.lamports != 0 || metadata.data@.len() != 0 {
        Some(DataAccountError::AccountAlreadyInUse)
    } else if authority.lamports < data_allocation_cost(args, data_rent) + metadata_rent {
        Some(DataAccountError::InsufficientFunds)
    } else {
        None
    }
}

/// The first check that closing fails, if any.
pub open spec fn close_error(
    program_id: Seq<u8>,
    authority: LedgerAccount,
    data: LedgerAccount,
    metadata: LedgerAccount,
) -> Option<DataAccountError> {
    if !data.is_signer {
        Some(DataAccountError::NotSigner)
    } else if !authority.is_writable || !data.is_writable || !metadata.is_writable {
        Some(DataAccountError::NotWriteable)
    } else if data.data@.len() == 0 {
        Some(DataAccountError::NoAccountLength)
    } else if stored_metadata_error(program_id, authority, data, metadata) is Some {
        stored_metadata_error(program_id, authority, data, metadata)
    } else if authority.lamports + metadata.lamports + data.lamports > u64::MAX {
        Some(DataAccountError::Overflow)
    } else {
        None
    }
}

/// The record that a successful initialization writes decodes as
/// initialized, names the authority that the request gave, and carries the
/// bump seed from which the metadata address is derived.
pub proof fn lemma_initialized_record(
    program_id: Seq<u8>,
    data_key: Seq<u8>,
    metadata_key: Seq<u8>,
    args: InitializeDataAccountArgs,
    bump: u8,
)
    requires
        is_canonical_bump(metadata_seed(), data_key, bump, program_id),
        derived_address(metadata_seed(), data_key, bump, program_id) == Some(metadata_key),
    ensures
        ({
            let m = parse_metadata(metadata_bytes(initial_metadata(args, bump)));
            &&& m is Some
            &&& m.unwrap().status == DataStatusOption::INITIALIZED
            &&& m.unwrap().authority == args.authority@
            &&& derived_address(metadata_seed(), data_key, m.unwrap().bump_seed, program_id) == Some(metadata_key)
        }),
{
    crate::state::lemma_metadata_round_trip(initial_metadata(args, bump));
}

/// The record that a successful update writes still decodes, is not
/// uninitialized, and keeps the owner, the layout policy and the bump seed.
pub proof fn lemma_updated_record_keeps_owner(m: MetadataView, data_type: u8)
    requires
        m.authority.len() == 32,
    ensures
        ({
            let u = parse_metadata(metadata_bytes(MetadataView { status: DataStatusOption::UPDATED, data_type, ..m }));
            &&& u is Some
            &&& u.unwrap().status != DataStatusOption::UNINITIALIZED
            &&& u.unwrap().authority == m.authority
            &&& u.unwrap().is_dynamic == m.is_dynamic
            &&& u.unwrap().bump_seed == m.bump_seed
            &&& u.unwrap().data_type == data_type
        }),
{
    crate::state::lemma_metadata_round_trip(MetadataView { status: DataStatusOption::UPDATED, data_type, ..m });
}

/// An update whose signer is not the recorded authority fails with
/// `InvalidAuthority`, once the signer, writability, presence and
/// initialization checks that come before it have passed.
pub proof fn lemma_foreign_authority_rejected(
    program_id: Seq<u8>,
    authority: LedgerAccount,
    data: LedgerAccount,
    metadata: LedgerAccount,
    offset: u64,
    len: nat,
)
    requires
        authority.is_signer && data.is_signer,
        authority.is_writable && data.is_writable && metadata.is_writable,
        metadata.data@.len() != 0,
        parse_metadata(metadata.data@) is Some,
        parse_metadata(metadata.data@).unwrap().status != DataStatusOption::UNINITIALIZED,
        parse_metadata(metadata.data@).unwrap().authority != authority.key@,
    ensures
        update_error(program_id, authority, data, metadata, offset, len) == Some(DataAccountError::InvalidAuthority),
{
}

/// An update that would write past the end of a data account that is not
/// dynamic fails with `InsufficientSpace`, once the checks before it pass.
pub proof fn lemma_static_overflow_rejected(
    program_id: Seq<u8>,
    authority: LedgerAccount,
    data: LedgerAccount,
    metadata: LedgerAccount,
    offset: u64,
    len: nat,
)
    requires
        authority.is_signer && data.is_signer,
        authority.is_writable && data.is_writable && metadata.is_writable,
        stored_metadata_error(program_id, authority, data, metadata) is None,
        !parse_metadata(metadata.data@).unwrap().is_dynamic,
        offset + len > data.data@.len(),
    ensures
        update_error(program_id, authority, data, metadata, offset, len) == Some(DataAccountError::InsufficientSpace),
{
}

/// With `realloc_down`, a dynamic data account ends exactly where the write
/// ends, shorter than before or not; the refund when it shrinks is never more
/// than the balance above the new minimum, and nothing when there is none.
pub proof fn lemma_realloc_down_length(
    old_data: Seq<u8>,
    offset: u64,
    written: Seq<u8>,
    minimum: u64,
    balance: u64,
)
    ensures
        ({
            let end = (offset + written.len()) as nat;
            let n = target_length(true, old_data.len(), end, true);
            &&& n == end
            &&& overwritten(resized(old_data, n), offset as int, written).len() == end
            &&& overwritten(resized(old_data, n), offset as int, written).subrange(offset as int, end as int)
                == written
        }),
        balance >= minimum ==> shrink_refund(minimum, balance) == balance - minimum,
        balance < minimum ==> shrink_refund(minimum, balance) == 0,
{
    let end = (offset + written.len()) as nat;
    let r = resized(old_data, end);
    let w = overwritten(r, offset as int, written);
    assert(w.subrange(offset as int, end as int) =~= written);
}

/// Whether `a` differs from `b` in its balance and bytes at most.
pub open spec fn same_identity(a: LedgerAccount, b: LedgerAccount) -> bool {
    a.key == b.key && a.is_signer == b.is_signer && a.is_writable == b.is_writable
}

/// Overwrites every byte of `v` with zero.
fn zero_fill(v: &mut Vec<u8>)
    ensures
        final(v)@ == zeros(old(v)@.len()),
{
    let n = v.len();
    let mut i: usize = 0;
    while i < n
        invariant
            i <= n,
            v@.len() == n,
            n == old(v)@.len(),
            forall|j: int| 0 <= j < i ==> v@[j] == 0u8,
        decreases n - i,
    {
        v.set(i, 0u8);
        i = i + 1;
    }
    assert(v@ =~= zeros(n as nat));
}

/// Cuts `v` to `n` bytes, or pads it with zero bytes up to `n`.
fn resize_zeroed(v: &mut Vec<u8>, n: usize)
    ensures
        final(v)@ == resized(old(v)@, n as nat),
{
    if n <= v.len() {
        v.truncate(n);
    } else {
        let start = v.len();
        while v.len() < n
            invariant
                start == old(v)@.len(),
                start <= v@.len() <= n,
                v@ == old(v)@ + zeros((v@.len() - start) as nat),
            decreases n - v.len(),
        {
            v.push(0u8);
            assert(v@ =~= old(v)@ + zeros((v@.len() - start) as nat));
        }
    }
}

/// Copies `d` into `v` from `offset` on.
fn write_at(v: &mut Vec<u8>, offset: usize, d: &[u8])
    requires
        offset + d@.len() <= old(v)@.len(),
    ensures
        final(v)@ == overwritten(old(v)@, offset as int, d@),
{
    let n = v.len();
    let mut i: usize = 0;
    while i < d.len()
        invariant
            n == v@.len(),
            offset + d@.len() <= v@.len(),
            v@.len() == old(v)@.len(),
            i <= d@.len(),
            forall|j: int| 0 <= j < offset ==> v@[j] == old(v)@[j],
            forall|j: int| offset + d@.len() <= j < v@.len() ==> v@[j] == old(v)@[j],
            forall|j: int| offset <= j < offset + i ==> v@[j] == d@[j - offset],
            forall|j: int| offset + i <= j < offset + d@.len() ==> v@[j] == old(v)@[j],
        decreases d@.len() - i,
    {
        v.set(offset + i, d[i]);
        i = i + 1;
    }
    assert(v@ =~= overwritten(old(v)@, offset as int, d@));
}

/// Decodes the metadata of `data` and checks it against the request: it must be
/// present, initialized, owned by `authority` and stored at the derived address.
fn check_stored_metadata(
    program_id: &[u8; 32],
    authority: &LedgerAccount,
    data: &LedgerAccount,
    metadata: &LedgerAccount,
) -> (r: Result<DataAccountMetadata, DataAccountError>)
    ensures
        match r {
            Ok(m) => stored_metadata_error(program_id@, *authority, *data, *metadata) is None
                && parse_metadata(metadata.data@) == Some(m@),
            Err(e) => stored_metadata_error(program_id@, *authority, *data, *metadata) == Some(e),
        },
{
    if metadata.data.len() == 0 {
        return Err(DataAccountError::NoAccountLength);
    }
    let m = match DataAccountMetadata::decode(metadata.data.as_slice()) {
        Ok(m) => m,
        Err(e) => { return Err(e); },
    };
    if m.status == DataStatusOption::UNINITIALIZED {
        return Err(DataAccountError::NotInitialized);
    }
    if !same_address(&m.authority, &authority.key) {
        return Err(DataAccountError::InvalidAuthority);
    }
    let seed = metadata_seed_bytes();
    match create_program_address(seed.as_slice(), &data.key, m.bump_seed, program_id) {
        Some(pda) => {
            if !same_address(&pda, &metadata.key) {
                return Err(DataAccountError::InvalidPDA);
            }
        },
        None => { return Err(DataAccountError::InvalidPDA); },
    }
    Ok(m)
}

impl Processor {
    /// Runs every check of an update that precedes a balance movement, and
    /// returns the length that the data account will have after it.
    pub fn update_target_length(
        program_id: &[u8; 32],
        authority: &LedgerAccount,
        data: &LedgerAccount,
        metadata: &LedgerAccount,
        args: &UpdateDataAccountArgs,
    ) -> (r: Result<usize, DataAccountError>)
        ensures
            match r {
                Ok(n) => update_error(program_id@, *authority, *data, *metadata, args.offset, args.data@.len()) is None
                    && n == target_length(
                        parse_metadata(metadata.data@).unwrap().is_dynamic,
                        data.data@.len(),
                        (args.offset + args.data@.len()) as nat,
                        args.realloc_down,
                    ),
                Err(e) => update_error(program_id@, *authority, *data, *metadata, args.offset, args.data@.len())
                    == Some(e),
            },
    {
        if !authority.is_signer || !data.is_signer {
            return Err(DataAccountError::NotSigner);
        }
        if !authority.is_writable || !data.is_writable || !metadata.is_writable {
            return Err(DataAccountError::NotWriteable);
        }
        let m = match check_stored_metadata(program_id, authority, data, metadata) {
            Ok(m) => m,
            Err(e) => { return Err(e); },
        };
        let len = args.data.len();
        let old_len = data.data.len();
        // a unit that cannot grow rejects any write past its end, however far
        if !m.is_dynamic && (len > old_len || args.offset > (old_len - len) as u64) {
            return Err(DataAccountError::InsufficientSpace);
        }
        let room: usize = usize::MAX - len;
        if args.offset > room as u64 {
            return Err(DataAccountError::Overflow);
        }
        let end_len: usize = args.offset as usize + len;
        let new_len: usize = if !m.is_dynamic {
            old_len
        } else if args.realloc_down {
            end_len
        } else if old_len >= end_len {
            old_len
        } else {
            end_len
        };
        Ok(new_len)
    }

    /// Writes `args.data` into the data account at `args.offset`, records the
    /// new data type, and resizes a dynamic data account as the request asks.
    /// `new_minimum_balance` is the rent-exempt balance for the data account's
    /// length after the request; balances move only when that length changes.
    pub fn process_update(
        program_id: &[u8; 32],
        authority: &mut LedgerAccount,
        data: &mut LedgerAccount,
        metadata: &mut LedgerAccount,
        args: &UpdateDataAccountArgs,
        new_minimum_balance: u64,
    ) -> (r: Result<(), DataAccountError>)
        ensures
            ({
                let pre = update_error(program_id@, *old(authority), *old(data), *old(metadata), args.offset, args.data@.len());
                let m = parse_metadata(old(metadata).data@).unwrap();
                let old_len = old(data).data@.len();
                let end_len = (args.offset + args.data@.len()) as nat;
                let new_len = target_length(m.is_dynamic, old_len, end_len, args.realloc_down);
                let funding = funding_error(*old(authority), *old(data), new_len, new_minimum_balance);
                match r {
                    Err(e) => {
                        &&& pre == Some(e) || (pre is None && funding == Some(e))
                        &&& *final(authority) == *old(authority)
                        &&& *final(data) == *old(data)
                        &&& *final(metadata) == *old(metadata)
                    },
                    Ok(()) => {
                        &&& pre is None && funding is None
                        &&& same_identity(*final(authority), *old(authority))
                        &&& same_identity(*final(data), *old(data))
                        &&& same_identity(*final(metadata), *old(metadata))
                        &&& final(authority).data@ == old(authority).data@
                        &&& final(metadata).lamports == old(metadata).lamports
                        &&& final(metadata).data@ == metadata_bytes(MetadataView {
                            status: DataStatusOption::UPDATED,
                            data_type: args.data_type,
                            ..m
                        })
                        &&& final(data).data@ == overwritten(resized(old(data).data@, new_len), args.offset as int, args.data@)
                        &&& new_len > old_len ==> {
                            &&& final(authority).lamports == old(authority).lamports
                                - growth_payment(new_minimum_balance, old(data).lamports)
                            &&& final(data).lamports == old(data).lamports
                                + growth_payment(new_minimum_balance, old(data).lamports)
                        }
                        &&& new_len < old_len ==> {
                            &&& final(authority).lamports == old(authority).lamports
                                + shrink_refund(new_minimum_balance, old(data).lamports)
                            &&& final(data).lamports == old(data).lamports
                                - shrink_refund(new_minimum_balance, old(data).lamports)
                        }
                        &&& new_len == old_len ==> {
                            &&& final(authority).lamports == old(authority).lamports
                            &&& final(data).lamports == old(data).lamports
                        }
                    },
                }
            }),
    {
        let new_len = match Processor::update_target_length(program_id, authority, data, metadata, args) {
            Ok(n) => n,
            Err(e) => { return Err(e); },
        };
        let mut m = match DataAccountMetadata::decode(metadata.data.as_slice()) {
            Ok(m) => m,
            Err(e) => { return Err(e); },
        };
        let old_len = data.data.len();
        // settle balances first: nothing is written unless they can move
        if new_len > old_len {
            let payment: u64 = if new_minimum_balance > data.lamports {
                new_minimum_balance - data.lamports
            } else {
                0
            };
            if authority.lamports < payment {
                return Err(DataAccountError::InsufficientFunds);
            }
            authority.lamports = authority.lamports - payment;
            data.lamports = data.lamports + payment;
        } else if new_len < old_len {
            let refund: u64 = if data.lamports > new_minimum_balance {
                data.lamports - new_minimum_balance
            } else {
                0
            };
            if authority.lamports > u64::MAX - refund {
                return Err(DataAccountError::Overflow);
            }
            authority.lamports = authority.lamports + refund;
            data.lamports = data.lamports - refund;
        }
        m.set_data_type(args.data_type);
        metadata.data = m.encode();
        resize_zeroed(&mut data.data, new_len);
        write_at(&mut data.data, args.offset as usize, args.data.as_slice());
        Ok(())
    }

    /// Creates a data account's metadata record at the address derived from
    /// the data account, allocating the data account first unless
    /// `args.is_created`. The data account's bytes are zeroed. `data_rent` and
    /// `metadata_rent` are the rent-exempt balances for `args.space` bytes and
    /// for a metadata record; the authority pays them.
    pub fn process_initialize(
        program_id: &[u8; 32],
        authority: &mut LedgerAccount,
        data: &mut LedgerAccount,
        metadata: &mut LedgerAccount,
        args: &InitializeDataAccountArgs,
        data_rent: u64,
        metadata_rent: u64,
    ) -> (r: Result<(), DataAccountError>)
        ensures
            ({
                let err = initialize_error(program_id@, *old(authority), *old(data), *old(metadata), *args, data_rent, metadata_rent);
                let cost = data_allocation_cost(*args, data_rent);
                match r {
                    Err(e) => {
                        &&& err == Some(e)
                        &&& *final(authority) == *old(authority)
                        &&& *final(data) == *old(data)
                        &&& *final(metadata) == *old(metadata)
                    },
                    Ok(()) => {
                        &&& err is None
                        &&& same_identity(*final(authority), *old(authority))
                        &&& same_identity(*final(data), *old(data))
                        &&& same_identity(*final(metadata), *old(metadata))
                        &&& final(authority).data@ == old(authority).data@
                        &&& final(authority).lamports == old(authority).lamports - cost - metadata_rent
                        &&& final(data).lamports == old(data).lamports + cost
                        &&& final(data).data@ == zeros(
                            if args.is_created { old(data).data@.len() } else { args.space as nat },
                        )
                        &&& final(metadata).lamports == metadata_rent
                        &&& exists|b: u8|
                            is_canonical_bump(metadata_seed(), old(data).key@, b, program_id@)
                                && #[trigger] derived_address(metadata_seed(), old(data).key@, b, program_id@)
                                == Some(old(metadata).key@)
                                && final(metadata).data@ == metadata_bytes(initial_metadata(*args, b))
                    },
                }
            }),
    {
        if !authority.is_signer || !data.is_signer {
            return Err(DataAccountError::NotSigner);
        }
        if !authority.is_writable || !data.is_writable || !metadata.is_writable {
            return Err(DataAccountError::NotWriteable);
        }
        let mut cost: u64 = 0;
        if !args.is_created {
            if data.lamports != 0 || data.data.len() != 0 {
                return Err(DataAccountError::AccountAlreadyInUse);
            }
            if args.space > usize::MAX as u64 {
                return Err(DataAccountError::Overflow);
            }
            cost = data_rent;
        }
        if authority.lamports < cost {
            return Err(DataAccountError::InsufficientFunds);
        }
        let seed = metadata_seed_bytes();
        let bump = match try_find_program_address(seed.as_slice(), &data.key, program_id) {
            Some((pda, bump)) => {
                if !same_address(&pda, &metadata.key) {
                    proof {
                        assert forall|b: u8|
                            is_canonical_bump(metadata_seed(), data.key@, b, program_id@) implies
                            #[trigger] derived_address(metadata_seed(), data.key@, b, program_id@) != Some(metadata.key@) by {
                            if b < bump {
                                assert(derived_address(metadata_seed(), data.key@, bump, program_id@) is None);
                            }
                            if b > bump {
                                assert(derived_address(metadata_seed(), data.key@, b, program_id@) is None);
                            }
                        }
                    }
                    return Err(DataAccountError::InvalidPDA);
                }
                bump
            },
            None => {
                return Err(DataAccountError::InvalidPDA);
            },
        };
        if metadata.lamports != 0 || metadata.data.len() != 0 {
            return Err(DataAccountError::AccountAlreadyInUse);
        }
        if authority.lamports - cost < metadata_rent {
            return Err(DataAccountError::InsufficientFunds);
        }
        authority.lamports = authority.lamports - cost - metadata_rent;
        data.lamports = data.lamports + cost;
        if args.is_created {
            zero_fill(&mut data.data);
        } else {
            resize_zeroed(&mut data.data, args.space as usize);
            assert(data.data@ =~= zeros(args.space as nat));
        }
        let record = DataAccountMetadata::new(
            DataStatusOption::INITIALIZED,
            SerializationStatusOption::UNVERIFIED,
            args.authority,
            args.is_dynamic,
            DATA_VERSION,
            DATA_TYPE_CUSTOM,
            bump,
        );
        metadata.lamports = metadata_rent;
        metadata.data = record.encode();
        assert(derived_address(metadata_seed(), data.key@, bump, program_id@) == Some(metadata.key@));
        Ok(())
    }

    /// Closes a data account: the metadata account's and then the data
    /// account's whole balance go to the authority, and both accounts' bytes
    /// are zeroed.
    pub fn process_close(
        program_id: &[u8; 32],
        authority: &mut LedgerAccount,
        data: &mut LedgerAccount,
        metadata: &mut LedgerAccount,
        _args: &CloseAccountArgs,
    ) -> (r: Result<(), DataAccountError>)
        ensures
            ({
                let err = close_error(program_id@, *old(authority), *old(data), *old(metadata));
                match r {
                    Err(e) => {
                        &&& err == Some(e)
                        &&& *final(authority) == *old(authority)
                        &&& *final(data) == *old(data)
                        &&& *final(metadata) == *old(metadata)
                    },
                    Ok(()) => {
                        &&& err is None
                        &&& same_identity(*final(authority), *old(authority))
                        &&& same_identity(*final(data), *old(data))
                        &&& same_identity(*final(metadata), *old(metadata))
                        &&& final(authority).data@ == old(authority).data@
                        &&& final(authority).lamports == old(authority).lamports + old(metadata).lamports
                            + old(data).lamports
                        &&& final(metadata).lamports == 0
                        &&& final(data).lamports == 0
                        &&& final(metadata).data@ == zeros(old(metadata).data@.len())
                        &&& final(data).data@ == zeros(old(data).data@.len())
                    },
                }
            }),
    {
        if !data.is_signer {
            return Err(DataAccountError::NotSigner);
        }
        if !authority.is_writable || !data.is_writable || !metadata.is_writable {
            return Err(DataAccountError::NotWriteable);
        }
        if data.data.len() == 0 {
            return Err(DataAccountError::NoAccountLength);
        }
        match check_stored_metadata(program_id, authority, data, metadata) {
            Ok(_) => {},
            Err(e) => { return Err(e); },
        }
        let with_metadata = match authority.lamports.checked_add(metadata.lamports) {
            Some(v) => v,
            None => { return Err(DataAccountError::Overflow); },
        };
        let total = match with_metadata.checked_add(data.lamports) {
            Some(v) => v,
            None => { return Err(DataAccountError::Overflow); },
        };
        authority.lamports = total;
        metadata.lamports = 0;
        zero_fill(&mut metadata.data);
        data.lamports = 0;
        zero_fill(&mut data.data);
        Ok(())
    }
}

} // verus!
