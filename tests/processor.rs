use data_account::{
    find_metadata_address, CloseAccountArgs, DataAccountError, DataAccountMetadata,
    DataStatusOption, InitializeDataAccountArgs, LedgerAccount, Processor,
    SerializationStatusOption, UpdateDataAccountArgs, DATA_TYPE_CUSTOM, DATA_VERSION,
    METADATA_SIZE,
};

const PROGRAM: [u8; 32] = [7u8; 32];
const OWNER: [u8; 32] = [1u8; 32];
const DATA_KEY: [u8; 32] = [2u8; 32];
const DATA_RENT: u64 = 1_586_880;
const METADATA_RENT: u64 = 1_155_840;

fn account(key: [u8; 32], is_signer: bool, lamports: u64) -> LedgerAccount {
    LedgerAccount { key, is_signer, is_writable: true, lamports, data: Vec::new() }
}

fn metadata_key() -> ([u8; 32], u8) {
    find_metadata_address(&PROGRAM, &DATA_KEY).expect("a program address exists")
}

fn init_args(space: u64, is_dynamic: bool) -> InitializeDataAccountArgs {
    InitializeDataAccountArgs { is_created: false, space, authority: OWNER, is_dynamic }
}

fn update_args(offset: u64, data: Vec<u8>, realloc_down: bool) -> UpdateDataAccountArgs {
    UpdateDataAccountArgs { offset, data, data_type: 3, realloc_down }
}

/// Authority, data and metadata accounts after a successful initialization.
fn initialized(space: u64, is_dynamic: bool) -> (LedgerAccount, LedgerAccount, LedgerAccount) {
    let mut authority = account(OWNER, true, 10_000_000);
    let mut data = account(DATA_KEY, true, 0);
    let mut metadata = account(metadata_key().0, false, 0);
    Processor::process_initialize(
        &PROGRAM,
        &mut authority,
        &mut data,
        &mut metadata,
        &init_args(space, is_dynamic),
        DATA_RENT,
        METADATA_RENT,
    )
    .expect("initialize succeeds");
    (authority, data, metadata)
}

fn snapshot(a: &LedgerAccount) -> ([u8; 32], u64, Vec<u8>) {
    (a.key, a.lamports, a.data.clone())
}

fn update(
    authority: &mut LedgerAccount,
    data: &mut LedgerAccount,
    metadata: &mut LedgerAccount,
    args: &UpdateDataAccountArgs,
    minimum: u64,
) -> Result<(), DataAccountError> {
    Processor::process_update(&PROGRAM, authority, data, metadata, args, minimum)
}

#[test]
fn initialize_records_owner_status_and_bump() {
    let (authority, data, metadata) = initialized(100, false);
    assert_eq!(data.data, vec![0u8; 100]);
    assert_eq!(data.lamports, DATA_RENT);
    assert_eq!(metadata.lamports, METADATA_RENT);
    assert_eq!(authority.lamports, 10_000_000 - DATA_RENT - METADATA_RENT);
    assert_eq!(metadata.data.len(), METADATA_SIZE);
    let m = DataAccountMetadata::decode(&metadata.data).unwrap();
    assert_eq!(m.status, DataStatusOption::INITIALIZED);
    assert_eq!(m.serialization_status, SerializationStatusOption::UNVERIFIED);
    assert_eq!(m.authority, OWNER);
    assert!(!m.is_dynamic);
    assert_eq!(m.version, DATA_VERSION);
    assert_eq!(m.data_type, DATA_TYPE_CUSTOM);
    assert_eq!(m.bump_seed, metadata_key().1);
}

#[test]
fn initialize_existing_account_zeroes_it() {
    let mut authority = account(OWNER, true, 5_000_000);
    let mut data = account(DATA_KEY, true, 900);
    data.data = vec![9u8; 10];
    let mut metadata = account(metadata_key().0, false, 0);
    let mut args = init_args(100, true);
    args.is_created = true;
    Processor::process_initialize(&PROGRAM, &mut authority, &mut data, &mut metadata, &args, DATA_RENT, METADATA_RENT)
        .unwrap();
    assert_eq!(data.data, vec![0u8; 10]);
    assert_eq!(data.lamports, 900);
    assert_eq!(authority.lamports, 5_000_000 - METADATA_RENT);
}

#[test]
fn initialize_on_behalf_of_another_owner() {
    let mut authority = account([5u8; 32], true, 10_000_000);
    let mut data = account(DATA_KEY, true, 0);
    let mut metadata = account(metadata_key().0, false, 0);
    Processor::process_initialize(&PROGRAM, &mut authority, &mut data, &mut metadata, &init_args(8, false), 10, 20)
        .unwrap();
    let m = DataAccountMetadata::decode(&metadata.data).unwrap();
    assert_eq!(m.authority, OWNER);
}

#[test]
fn initialize_rejects_wrong_metadata_address() {
    let mut authority = account(OWNER, true, 10_000_000);
    let mut data = account(DATA_KEY, true, 0);
    let mut metadata = account([3u8; 32], false, 0);
    let r = Processor::process_initialize(&PROGRAM, &mut authority, &mut data, &mut metadata, &init_args(10, false), 1, 1);
    assert_eq!(r, Err(DataAccountError::InvalidPDA));
    assert!(data.data.is_empty());
    assert_eq!(authority.lamports, 10_000_000);
}

#[test]
fn initialize_requires_signers_and_writable() {
    let mut authority = account(OWNER, false, 10_000_000);
    let mut data = account(DATA_KEY, true, 0);
    let mut metadata = account(metadata_key().0, false, 0);
    let args = init_args(10, false);
    let r = Processor::process_initialize(&PROGRAM, &mut authority, &mut data, &mut metadata, &args, 1, 1);
    assert_eq!(r, Err(DataAccountError::NotSigner));
    authority.is_signer = true;
    metadata.is_writable = false;
    let r = Processor::process_initialize(&PROGRAM, &mut authority, &mut data, &mut metadata, &args, 1, 1);
    assert_eq!(r, Err(DataAccountError::NotWriteable));
}

#[test]
fn initialize_rejects_short_funds_and_used_accounts() {
    let mut authority = account(OWNER, true, 100);
    let mut data = account(DATA_KEY, true, 0);
    let mut metadata = account(metadata_key().0, false, 0);
    let args = init_args(10, false);
    let r = Processor::process_initialize(&PROGRAM, &mut authority, &mut data, &mut metadata, &args, 60, 50);
    assert_eq!(r, Err(DataAccountError::InsufficientFunds));
    assert_eq!(authority.lamports, 100);
    metadata.lamports = 1;
    let r = Processor::process_initialize(&PROGRAM, &mut authority, &mut data, &mut metadata, &args, 60, 40);
    assert_eq!(r, Err(DataAccountError::AccountAlreadyInUse));
    data.lamports = 1;
    let r = Processor::process_initialize(&PROGRAM, &mut authority, &mut data, &mut metadata, &args, 60, 40);
    assert_eq!(r, Err(DataAccountError::AccountAlreadyInUse));
}

#[test]
fn end_to_end_static_account() {
    let (mut authority, mut data, mut metadata) = initialized(100, false);
    assert_eq!(data.data.len(), 100);

    let args = update_args(0, vec![1, 2, 3], false);
    assert_eq!(Processor::update_target_length(&PROGRAM, &authority, &data, &metadata, &args), Ok(100));
    update(&mut authority, &mut data, &mut metadata, &args, DATA_RENT).unwrap();
    assert_eq!(&data.data[0..3], &[1, 2, 3]);
    assert_eq!(data.data.len(), 100);
    let m = DataAccountMetadata::decode(&metadata.data).unwrap();
    assert_eq!(m.status, DataStatusOption::UPDATED);
    assert_eq!(m.data_type, 3);

    let before = (snapshot(&authority), snapshot(&data), snapshot(&metadata));
    let args = update_args(98, vec![1, 2, 3], false);
    let r = update(&mut authority, &mut data, &mut metadata, &args, DATA_RENT);
    assert_eq!(r, Err(DataAccountError::InsufficientSpace));
    assert_eq!(before, (snapshot(&authority), snapshot(&data), snapshot(&metadata)));

    let total = authority.lamports + data.lamports + metadata.lamports;
    Processor::process_close(&PROGRAM, &mut authority, &mut data, &mut metadata, &CloseAccountArgs {}).unwrap();
    assert_eq!(data.data, vec![0u8; 100]);
    assert_eq!(metadata.data, vec![0u8; METADATA_SIZE]);
    assert_eq!(data.lamports, 0);
    assert_eq!(metadata.lamports, 0);
    assert_eq!(authority.lamports, total);
    let m = DataAccountMetadata::decode(&metadata.data).unwrap();
    assert_eq!(m.status, DataStatusOption::UNINITIALIZED);
}

#[test]
fn update_by_foreign_authority_changes_nothing() {
    let (mut authority, mut data, mut metadata) = initialized(16, true);
    authority.key = [9u8; 32];
    let before = (snapshot(&authority), snapshot(&data), snapshot(&metadata));
    let r = update(&mut authority, &mut data, &mut metadata, &update_args(0, vec![1], false), 0);
    assert_eq!(r, Err(DataAccountError::InvalidAuthority));
    assert_eq!(before, (snapshot(&authority), snapshot(&data), snapshot(&metadata)));
}

#[test]
fn update_dynamic_grows_and_pays() {
    let (mut authority, mut data, mut metadata) = initialized(4, true);
    let payer_before = authority.lamports;
    let args = update_args(2, vec![5, 6, 7, 8, 9], false);
    assert_eq!(Processor::update_target_length(&PROGRAM, &authority, &data, &metadata, &args), Ok(7));
    update(&mut authority, &mut data, &mut metadata, &args, DATA_RENT + 500).unwrap();
    assert_eq!(data.data, vec![0, 0, 5, 6, 7, 8, 9]);
    assert_eq!(data.lamports, DATA_RENT + 500);
    assert_eq!(authority.lamports, payer_before - 500);
}

#[test]
fn update_dynamic_without_realloc_down_keeps_length() {
    let (mut authority, mut data, mut metadata) = initialized(10, true);
    let args = update_args(1, vec![4, 4], false);
    update(&mut authority, &mut data, &mut metadata, &args, 0).unwrap();
    assert_eq!(data.data, vec![0, 4, 4, 0, 0, 0, 0, 0, 0, 0]);
    assert_eq!(data.lamports, DATA_RENT);
}

#[test]
fn update_realloc_down_shrinks_and_refunds() {
    let (mut authority, mut data, mut metadata) = initialized(100, true);
    let payer_before = authority.lamports;
    let args = update_args(1, vec![8, 9], true);
    assert_eq!(Processor::update_target_length(&PROGRAM, &authority, &data, &metadata, &args), Ok(3));
    update(&mut authority, &mut data, &mut metadata, &args, 1_000).unwrap();
    assert_eq!(data.data, vec![0, 8, 9]);
    assert_eq!(data.lamports, 1_000);
    assert_eq!(authority.lamports, payer_before + DATA_RENT - 1_000);
}

#[test]
fn update_realloc_down_refund_never_negative() {
    let (mut authority, mut data, mut metadata) = initialized(100, true);
    let payer_before = authority.lamports;
    update(&mut authority, &mut data, &mut metadata, &update_args(0, vec![1], true), DATA_RENT + 7).unwrap();
    assert_eq!(data.data, vec![1]);
    assert_eq!(data.lamports, DATA_RENT);
    assert_eq!(authority.lamports, payer_before);
}

#[test]
fn update_growth_needs_funds() {
    let (mut authority, mut data, mut metadata) = initialized(4, true);
    authority.lamports = 10;
    let before = (snapshot(&authority), snapshot(&data), snapshot(&metadata));
    let r = update(&mut authority, &mut data, &mut metadata, &update_args(0, vec![1; 8], false), DATA_RENT + 11);
    assert_eq!(r, Err(DataAccountError::InsufficientFunds));
    assert_eq!(before, (snapshot(&authority), snapshot(&data), snapshot(&metadata)));
}

#[test]
fn update_refund_overflow_is_rejected() {
    let (mut authority, mut data, mut metadata) = initialized(8, true);
    authority.lamports = u64::MAX;
    let r = update(&mut authority, &mut data, &mut metadata, &update_args(0, vec![1], true), 0);
    assert_eq!(r, Err(DataAccountError::Overflow));
    assert_eq!(data.data.len(), 8);
}

#[test]
fn update_static_far_offset_is_insufficient_space() {
    let (mut authority, mut data, mut metadata) = initialized(8, false);
    let before = (snapshot(&authority), snapshot(&data), snapshot(&metadata));
    let args = update_args(u64::MAX, vec![1, 2, 3], false);
    assert_eq!(
        Processor::update_target_length(&PROGRAM, &authority, &data, &metadata, &args),
        Err(DataAccountError::InsufficientSpace)
    );
    let r = update(&mut authority, &mut data, &mut metadata, &args, 0);
    assert_eq!(r, Err(DataAccountError::InsufficientSpace));
    assert_eq!(before, (snapshot(&authority), snapshot(&data), snapshot(&metadata)));
    let r = update(&mut authority, &mut data, &mut metadata, &update_args(0, vec![0u8; 9], false), 0);
    assert_eq!(r, Err(DataAccountError::InsufficientSpace));
}

#[test]
fn update_offset_overflow_is_rejected() {
    let (mut authority, mut data, mut metadata) = initialized(8, true);
    let r = update(&mut authority, &mut data, &mut metadata, &update_args(u64::MAX, vec![1], false), 0);
    assert_eq!(r, Err(DataAccountError::Overflow));
}

#[test]
fn update_checks_signers_writability_and_metadata() {
    let (mut authority, mut data, mut metadata) = initialized(8, false);
    let args = update_args(0, vec![1], false);
    data.is_signer = false;
    assert_eq!(update(&mut authority, &mut data, &mut metadata, &args, 0), Err(DataAccountError::NotSigner));
    data.is_signer = true;
    metadata.is_writable = false;
    assert_eq!(update(&mut authority, &mut data, &mut metadata, &args, 0), Err(DataAccountError::NotWriteable));
    metadata.is_writable = true;
    let saved = metadata.data.clone();
    metadata.data = Vec::new();
    assert_eq!(update(&mut authority, &mut data, &mut metadata, &args, 0), Err(DataAccountError::NoAccountLength));
    metadata.data = vec![7u8; 5];
    assert_eq!(update(&mut authority, &mut data, &mut metadata, &args, 0), Err(DataAccountError::InvalidAccountData));
    metadata.data = vec![0u8; METADATA_SIZE];
    assert_eq!(update(&mut authority, &mut data, &mut metadata, &args, 0), Err(DataAccountError::NotInitialized));
    metadata.data = saved;
    metadata.key = [4u8; 32];
    assert_eq!(update(&mut authority, &mut data, &mut metadata, &args, 0), Err(DataAccountError::InvalidPDA));
}

#[test]
fn close_requires_data_signer_only() {
    let (mut authority, mut data, mut metadata) = initialized(8, false);
    authority.is_signer = false;
    data.is_signer = false;
    let r = Processor::process_close(&PROGRAM, &mut authority, &mut data, &mut metadata, &CloseAccountArgs {});
    assert_eq!(r, Err(DataAccountError::NotSigner));
    data.is_signer = true;
    Processor::process_close(&PROGRAM, &mut authority, &mut data, &mut metadata, &CloseAccountArgs {}).unwrap();
    assert_eq!(data.lamports, 0);
}

#[test]
fn close_rejects_foreign_authority_and_overflow() {
    let (mut authority, mut data, mut metadata) = initialized(8, false);
    authority.key = [8u8; 32];
    let r = Processor::process_close(&PROGRAM, &mut authority, &mut data, &mut metadata, &CloseAccountArgs {});
    assert_eq!(r, Err(DataAccountError::InvalidAuthority));
    authority.key = OWNER;
    authority.lamports = u64::MAX - 1;
    let before = (snapshot(&authority), snapshot(&data), snapshot(&metadata));
    let r = Processor::process_close(&PROGRAM, &mut authority, &mut data, &mut metadata, &CloseAccountArgs {});
    assert_eq!(r, Err(DataAccountError::Overflow));
    assert_eq!(before, (snapshot(&authority), snapshot(&data), snapshot(&metadata)));
}

#[test]
fn close_rejects_empty_data_account() {
    let (mut authority, mut data, mut metadata) = initialized(8, false);
    data.data = Vec::new();
    let r = Processor::process_close(&PROGRAM, &mut authority, &mut data, &mut metadata, &CloseAccountArgs {});
    assert_eq!(r, Err(DataAccountError::NoAccountLength));
}

#[test]
fn close_of_closed_account_is_not_initialized() {
    let (mut authority, mut data, mut metadata) = initialized(8, false);
    Processor::process_close(&PROGRAM, &mut authority, &mut data, &mut metadata, &CloseAccountArgs {}).unwrap();
    let r = Processor::process_close(&PROGRAM, &mut authority, &mut data, &mut metadata, &CloseAccountArgs {});
    assert_eq!(r, Err(DataAccountError::NotInitialized));
}
