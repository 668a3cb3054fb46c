//! On-chain message registry with a relay to the settlement layer, and an
//! iterated-keccak benchmark contract.

pub mod compute;
pub mod messaging;
pub mod store;
pub mod word;

pub use compute::{ComputeCompleted, ComputeContract};
pub use messaging::{MessagingContract, MessagingEvent, RelayRequest};
pub use store::{MessageStore, MessagingError};
pub use word::{Address, Uint256};
