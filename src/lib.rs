//! A data-account program: user-owned byte buffers on a ledger, each paired
//! with a fixed-size metadata record kept at a program-derived address.

pub mod address;
pub mod error;
pub mod instruction;
pub mod processor;
pub mod state;

pub use address::{find_metadata_address, metadata_seed_bytes, same_address};
pub use error::DataAccountError;
pub use instruction::{
    decode_instruction, encode_instruction, CloseAccountArgs, DataAccountInstruction,
    InitializeDataAccountArgs, UpdateDataAccountArgs,
};
pub use processor::{LedgerAccount, Processor};
pub use state::{
    DataAccountData, DataAccountMetadata, DataAccountState, DataStatusOption, FinalizeAccountArgs,
    SerializationStatusOption, UpdateDataAccountDataArgs, UpdateDataAccountDataTypeArgs,
    DATA_TYPE_CUSTOM, DATA_VERSION, METADATA_SIZE,
};
