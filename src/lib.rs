//! Guest-side marshalling across a host boundary that only passes integers:
//! regions in guest memory, packed dual returns, the sections codec, the host
//! error tables, and the stage and finish steps around each host call.
pub mod addresses;
pub mod api;
pub mod errors;
pub mod halves;
pub mod memory;
pub mod querier;
pub mod sections;
pub mod storage;

pub use addresses::{Addr, CanonicalAddr};
pub use api::{
    ExternalApi, CANONICAL_ADDRESS_BUFFER_LENGTH, HUMAN_ADDRESS_BUFFER_LENGTH,
    MAX_HUMAN_ADDRESS_INPUT,
};
pub use errors::{
    ed25519_verify_outcome, recover_outcome, secp256k1_verify_outcome, signing_outcome, HostReply,
    RecoverPubkeyError, SigningError, StdError, VerificationError,
};
pub use halves::{from_high_half, from_low_half, pack_halves};
pub use memory::{copy_bytes, get_optional_region_address, Memory, Region, NO_REGION};
pub use querier::ExternalQuerier;
pub use sections::{decode_sections2, encode_sections};
pub use storage::{order_code, ExternalIterator, ExternalStorage, Order, Record, ScanCall};
