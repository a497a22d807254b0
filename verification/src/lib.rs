//! Sampling engine for inspecting the live memory of another process:
//! address validation, rate-limited reads from the target, and decoding of
//! what was read into table rows.

pub mod address;
pub mod decoder;
pub mod sampler;
pub mod target;
pub mod xapp;

pub use address::{format_hex, validate_address, AddressError, ParsedAddress};
pub use decoder::{decode_row, decode_rows, ByteOrder, SampleBuffer, TableRow};
pub use sampler::{
    MemorySampler, PollState, SampleError, SampleOutcome, SampleRequest, TransferError,
    TransferOutcome,
};
pub use target::ProcessTarget;
pub use xapp::XApp;
