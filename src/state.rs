use vstd::prelude::*;
use crate::error::DataAccountError;

verus! {

/// Format version written into every new metadata record.
pub const DATA_VERSION: u8 = 0;

/// Size in bytes of an encoded metadata record.
pub const METADATA_SIZE: usize = 38;

/// Data type recorded for a freshly initialized data account.
pub const DATA_TYPE_CUSTOM: u8 = 0;

/// Lifecycle of a data account. The zero byte encodes `UNINITIALIZED`.
#[allow(non_camel_case_types)]
#[derive(PartialEq, Eq, Structural, Clone, Copy, Debug)]
pub enum DataStatusOption {
    UNINITIALIZED,
    INITIALIZED,
    UPDATED,
    FINALIZED,
}

/// Whether the payload has been checked against its declared type.
#[allow(non_camel_case_types)]
#[derive(PartialEq, Eq, Structural, Clone, Copy, Debug)]
pub enum SerializationStatusOption {
    UNVERIFIED,
    VERIFIED,
}

/// The metadata record that accompanies a data account.
#[derive(Clone, Copy, Debug)]
pub struct DataAccountMetadata {
    pub status: DataStatusOption,
    pub serialization_status: SerializationStatusOption,
    pub authority: [u8; 32],
    pub is_dynamic: bool,
    pub version: u8,
    pub data_type: u8,
    pub bump_seed: u8,
}

/// Mathematical view of a metadata record.
pub ghost struct MetadataView {
    pub status: DataStatusOption,
    pub serialization_status: SerializationStatusOption,
    pub authority: Seq<u8>,
    pub is_dynamic: bool,
    pub version: u8,
    pub data_type: u8,
    pub bump_seed: u8,
}

impl View for DataAccountMetadata {
    type V = MetadataView;

    open spec fn view(&self) -> MetadataView {
        MetadataView {
            status: self.status,
            serialization_status: self.serialization_status,
            authority: self.authority@,
            is_dynamic: self.is_dynamic,
            version: self.version,
            data_type: self.data_type,
            bump_seed: self.bump_seed,
        }
    }
}

pub open spec fn status_byte(s: DataStatusOption) -> u8 {
    match s {
        DataStatusOption::UNINITIALIZED => 0,
        DataStatusOption::INITIALIZED => 1,
        DataStatusOption::UPDATED => 2,
        DataStatusOption::FINALIZED => 3,
    }
}

pub open spec fn status_of_byte(b: u8) -> Option<DataStatusOption> {
    if b == 0 {
        Some(DataStatusOption::UNINITIALIZED)
    } else if b == 1 {
        Some(DataStatusOption::INITIALIZED)
    } else if b == 2 {
        Some(DataStatusOption::UPDATED)
    } else if b == 3 {
        Some(DataStatusOption::FINALIZED)
    } else {
        None
    }
}

pub open spec fn serialization_byte(s: SerializationStatusOption) -> u8 {
    match s {
        SerializationStatusOption::UNVERIFIED => 0,
        SerializationStatusOption::VERIFIED => 1,
    }
}

pub open spec fn serialization_of_byte(b: u8) -> Option<SerializationStatusOption> {
    if b == 0 {
        Some(SerializationStatusOption::UNVERIFIED)
    } else if b == 1 {
        Some(SerializationStatusOption::VERIFIED)
    } else {
        None
    }
}

pub open spec fn bool_byte(b: bool) -> u8 {
    if b { 1 } else { 0 }
}

pub open spec fn bool_of_byte(b: u8) -> Option<bool> {
    if b == 0 {
        Some(false)
    } else if b == 1 {
        Some(true)
    } else {
        None
    }
}

/// The binary layout of a metadata record: status, serialization status,
/// 32 authority bytes, dynamic flag, version, data type, bump seed.
pub open spec fn metadata_bytes(m: MetadataView) -> Seq<u8> {
    seq![status_byte(m.status), serialization_byte(m.serialization_status)]
        + m.authority
        + seq![bool_byte(m.is_dynamic), m.version, m.data_type, m.bump_seed]
}

/// The record that `b` encodes, if it is one.
pub open spec fn parse_metadata(b: Seq<u8>) -> Option<MetadataView> {
    if b.len() != METADATA_SIZE {
        None
    } else if status_of_byte(b[0]) is None || serialization_of_byte(b[1]) is None
        || bool_of_byte(b[34]) is None {
        None
    } else {
        Some(MetadataView {
            status: status_of_byte(b[0]).unwrap(),
            serialization_status: serialization_of_byte(b[1]).unwrap(),
            authority: b.subrange(2, 34),
            is_dynamic: bool_of_byte(b[34]).unwrap(),
            version: b[35],
            data_type: b[36],
            bump_seed: b[37],
        })
    }
}

/// Encoding a metadata record and decoding the bytes gives the record back.
pub proof fn lemma_metadata_round_trip(m: MetadataView)
    requires
        m.authority.len() == 32,
    ensures
        parse_metadata(metadata_bytes(m)) == Some(m),
{
    let b = metadata_bytes(m);
    assert(b.subrange(2, 34) =~= m.authority);
}

/// A buffer of zero bytes decodes to an uninitialized record.
pub proof fn lemma_zeroed_metadata_is_uninitialized()
    ensures
        parse_metadata(Seq::new(METADATA_SIZE as nat, |i: int| 0u8)) is Some,
        parse_metadata(Seq::new(METADATA_SIZE as nat, |i: int| 0u8)).unwrap().status
            == DataStatusOption::UNINITIALIZED,
{
}

fn status_to_byte(s: DataStatusOption) -> (r: u8)
    ensures
        r == status_byte(s),
{
    match s {
        DataStatusOption::UNINITIALIZED => 0,
        DataStatusOption::INITIALIZED => 1,
        DataStatusOption::UPDATED => 2,
        DataStatusOption::FINALIZED => 3,
    }
}

fn status_from_byte(b: u8) -> (r: Option<DataStatusOption>)
    ensures
        r == status_of_byte(b),
{
    if b == 0 {
        Some(DataStatusOption::UNINITIALIZED)
    } else if b == 1 {
        Some(DataStatusOption::INITIALIZED)
    } else if b == 2 {
        Some(DataStatusOption::UPDATED)
    } else if b == 3 {
        Some(DataStatusOption::FINALIZED)
    } else {
        None
    }
}

fn serialization_from_byte(b: u8) -> (r: Option<SerializationStatusOption>)
    ensures
        r == serialization_of_byte(b),
{
    if b == 0 {
        Some(SerializationStatusOption::UNVERIFIED)
    } else if b == 1 {
        Some(SerializationStatusOption::VERIFIED)
    } else {
        None
    }
}

pub(crate) fn bool_from_byte(b: u8) -> (r: Option<bool>)
    ensures
        r == bool_of_byte(b),
{
    if b == 0 {
        Some(false)
    } else if b == 1 {
        Some(true)
    } else {
        None
    }
}

impl DataAccountMetadata {
    /// Builds a record from its fields.
    pub fn new(
        status: DataStatusOption,
        serialization_status: SerializationStatusOption,
        authority: [u8; 32],
        is_dynamic: bool,
        version: u8,
        data_type: u8,
        bump_seed: u8,
    ) -> (r: Self)
        ensures
            r@ == (MetadataView {
                status,
                serialization_status,
                authority: authority@,
                is_dynamic,
                version,
                data_type,
                bump_seed,
            }),
    {
        DataAccountMetadata {
            status,
            serialization_status,
            authority,
            is_dynamic,
            version,
            data_type,
            bump_seed,
        }
    }

    /// Records a new data type; the account then counts as updated.
    pub fn set_data_type(&mut self, data_type: u8)
        ensures
            final(self)@ == (MetadataView {
                status: DataStatusOption::UPDATED,
                data_type,
                ..old(self)@
            }),
    {
        self.status = DataStatusOption::UPDATED;
        self.data_type = data_type;
    }

    /// Writes the record in its binary layout.
    pub fn encode(&self) -> (r: Vec<u8>)
        ensures
            r@ == metadata_bytes(self@),
    {
        let mut r: Vec<u8> = Vec::new();
        r.push(status_to_byte(self.status));
        r.push(match self.serialization_status {
            SerializationStatusOption::UNVERIFIED => 0u8,
            SerializationStatusOption::VERIFIED => 1u8,
        });
        let mut i: usize = 0;
        while i < 32
            invariant
                i <= 32,
                r@ == seq![status_byte(self.status), serialization_byte(self.serialization_status)]
                    + self.authority@.subrange(0, i as int),
            decreases 32 - i,
        {
            r.push(self.authority[i]);
            proof {
                assert(self.authority@.subrange(0, i + 1) =~= self.authority@.subrange(0, i as int).push(self.authority@[i as int]));
            }
            i = i + 1;
        }
        assert(self.authority@.subrange(0, 32) =~= self.authority@);
        r.push(if self.is_dynamic { 1u8 } else { 0u8 });
        r.push(self.version);
        r.push(self.data_type);
        r.push(self.bump_seed);
        assert(r@ =~= metadata_bytes(self@));
        r
    }

    /// Reads a record from its binary layout.
    pub fn decode(b: &[u8]) -> (r: Result<Self, DataAccountError>)
        ensures
            match r {
                Ok(m) => parse_metadata(b@) == Some(m@),
                Err(e) => parse_metadata(b@) is None && e == DataAccountError::InvalidAccountData,
            },
    {
        if b.len() != METADATA_SIZE {
            return Err(DataAccountError::InvalidAccountData);
        }
        let status = match status_from_byte(b[0]) {
            Some(s) => s,
            None => { return Err(DataAccountError::InvalidAccountData); },
        };
        let serialization_status = match serialization_from_byte(b[1]) {
            Some(s) => s,
            None => { return Err(DataAccountError::InvalidAccountData); },
        };
        let is_dynamic = match bool_from_byte(b[34]) {
            Some(d) => d,
            None => { return Err(DataAccountError::InvalidAccountData); },
        };
        let mut authority: [u8; 32] = [0u8; 32];
        let mut i: usize = 0;
        while i < 32
            invariant
                i <= 32,
                b@.len() == METADATA_SIZE,
                forall|j: int| 0 <= j < i ==> authority@[j] == b@[j + 2],
            decreases 32 - i,
        {
            authority.set(i, b[i + 2]);
            i = i + 1;
        }
        assert(authority@ =~= b@.subrange(2, 34));
        Ok(DataAccountMetadata {
            status,
            serialization_status,
            authority,
            is_dynamic,
            version: b[35],
            data_type: b[36],
            bump_seed: b[37],
        })
    }
}

/// A data account's payload together with its data type.
#[derive(Clone, Debug)]
pub struct DataAccountData {
    pub data_type: u8,
    pub data: Vec<u8>,
}

/// A data account's state with its payload held inline.
#[derive(Clone, Debug)]
pub struct DataAccountState {
    pub status: DataStatusOption,
    pub authority: [u8; 32],
    pub data_version: u8,
    pub account_data: DataAccountData,
}

impl DataAccountState {
    pub fn new(
        status: DataStatusOption,
        authority: [u8; 32],
        data_version: u8,
        account_data: DataAccountData,
    ) -> (r: Self)
        ensures
            r.status == status,
            r.authority == authority,
            r.data_version == data_version,
            r.account_data == account_data,
    {
        DataAccountState { status, authority, data_version, account_data }
    }

    /// The same state with new payload and data type; it counts as updated.
    pub fn new_with_account_data(copy: Self, account_data: DataAccountData) -> (r: Self)
        ensures
            r.status == DataStatusOption::UPDATED,
            r.authority == copy.authority,
            r.data_version == copy.data_version,
            r.account_data == account_data,
    {
        DataAccountState { status: DataStatusOption::UPDATED, account_data, ..copy }
    }

    /// The same state with a new data type; it counts as updated.
    pub fn new_with_data_type(copy: Self, data_type: u8) -> (r: Self)
        ensures
            r.status == DataStatusOption::UPDATED,
            r.authority == copy.authority,
            r.data_version == copy.data_version,
            r.account_data.data_type == data_type,
            r.account_data.data@ == copy.account_data.data@,
    {
        DataAccountState {
            status: DataStatusOption::UPDATED,
            account_data: DataAccountData { data_type, data: copy.account_data.data },
            authority: copy.authority,
            data_version: copy.data_version,
        }
    }

    /// The same state with a new payload; it counts as updated.
    pub fn new_with_data(copy: Self, data: Vec<u8>) -> (r: Self)
        ensures
            r.status == DataStatusOption::UPDATED,
            r.authority == copy.authority,
            r.data_version == copy.data_version,
            r.account_data.data_type == copy.account_data.data_type,
            r.account_data.data@ == data@,
    {
        DataAccountState {
            status: DataStatusOption::UPDATED,
            account_data: DataAccountData { data_type: copy.account_data.data_type, data },
            authority: copy.authority,
            data_version: copy.data_version,
        }
    }

    pub fn set_status(&mut self, status: DataStatusOption)
        ensures
            final(self).status == status,
            final(self).authority == old(self).authority,
            final(self).data_version == old(self).data_version,
            final(self).account_data == old(self).account_data,
    {
        self.status = status;
    }

    pub fn status(&self) -> (r: &DataStatusOption)
        ensures
            *r == self.status,
    {
        &self.status
    }

    pub fn authority(&self) -> (r: &[u8; 32])
        ensures
            *r == self.authority,
    {
        &self.authority
    }

    pub fn version(&self) -> (r: u8)
        ensures
            r == self.data_version,
    {
        self.data_version
    }

    pub fn data(&self) -> (r: &DataAccountData)
        ensures
            *r == self.account_data,
    {
        &self.account_data
    }

    pub fn data_mut(&mut self) -> (r: &mut DataAccountData)
        ensures
            *r == old(self).account_data,
            final(self).account_data == *final(r),
            final(self).status == old(self).status,
            final(self).authority == old(self).authority,
            final(self).data_version == old(self).data_version,
    {
        &mut self.account_data
    }
}

/// Arguments that set a data account's data type alone.
#[derive(Clone, Copy, Debug)]
pub struct UpdateDataAccountDataTypeArgs {
    pub data_type: u8,
}

/// Arguments that set a data account's payload alone.
#[derive(Clone, Debug)]
pub struct UpdateDataAccountDataArgs {
    pub data: Vec<u8>,
}

/// Arguments of a request that finalizes a data account.
#[derive(Clone, Copy, Debug)]
pub struct FinalizeAccountArgs {}

} // verus!
