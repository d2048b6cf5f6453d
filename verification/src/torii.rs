//! Configuration of the endpoints of a peer, with its default values: `p2p`
//! and `telemetry`, and the limits that the endpoints enforce.

use crate::transaction::TransactionLimits;
use vstd::prelude::*;

verus! {

/// Default socket for p2p communication
pub const DEFAULT_TORII_P2P_ADDR: &'static str = "127.0.0.1:1337";

/// Default socket for reporting internal status and metrics
pub const DEFAULT_TORII_TELEMETRY_URL: &'static str = "127.0.0.1:8180";

/// Default socket for the client API
pub const DEFAULT_API_URL: &'static str = "127.0.0.1:8080";

/// Default maximum size of single transaction: 2 to the power of 15
pub const DEFAULT_TORII_MAX_TRANSACTION_SIZE: usize = 32768;

/// Default maximum instruction number: 2 to the power of 12
pub const DEFAULT_TORII_MAX_INSTRUCTION_NUMBER: u64 = 4096;

/// Default maximum wasm size: 2 to the power of 20, which is 1 MiB
pub const DEFAULT_TORII_MAX_WASM_SIZE: u64 = 1048576;

/// Default upper bound on `content-length` specified in the HTTP request
/// header: 4000 times 2 to the power of 12
pub const DEFAULT_TORII_MAX_CONTENT_LENGTH: usize = 16384000;

/// Structure storing the torii-specific elements of configuration.
#[derive(Debug, Clone, PartialEq, Eq)]
pub struct ToriiConfiguration {
    /// Torii URL for p2p communication for consensus and block synchronization purposes.
    pub p2p_addr: String,
    /// Torii URL for client API.
    pub api_url: String,
    /// Torii URL for reporting internal status and metrics for administration.
    pub telemetry_url: String,
    /// Maximum number of bytes in raw transaction. Used to prevent from DOS attacks.
    pub max_transaction_size: usize,
    /// Maximum number of bytes in raw message. Used to prevent from DOS attacks.
    pub max_content_len: usize,
    /// Limits to which transactions must adhere
    pub transaction_limits: TransactionLimits,
}

impl Default for ToriiConfiguration {
    fn default() -> (config: Self)
        ensures
            config.p2p_addr@ == DEFAULT_TORII_P2P_ADDR@,
            config.api_url@ == DEFAULT_API_URL@,
            config.telemetry_url@ == DEFAULT_TORII_TELEMETRY_URL@,
            config.max_transaction_size == DEFAULT_TORII_MAX_TRANSACTION_SIZE,
            config.max_content_len == DEFAULT_TORII_MAX_CONTENT_LENGTH,
            config.transaction_limits == (TransactionLimits {
                max_instruction_number: DEFAULT_TORII_MAX_INSTRUCTION_NUMBER,
                max_wasm_size_bytes: DEFAULT_TORII_MAX_WASM_SIZE,
            }),
    {
        Self {
            p2p_addr: DEFAULT_TORII_P2P_ADDR.to_owned(),
            api_url: DEFAULT_API_URL.to_owned(),
            telemetry_url: DEFAULT_TORII_TELEMETRY_URL.to_owned(),
            max_transaction_size: DEFAULT_TORII_MAX_TRANSACTION_SIZE,
            max_content_len: DEFAULT_TORII_MAX_CONTENT_LENGTH,
            transaction_limits: TransactionLimits {
                max_instruction_number: DEFAULT_TORII_MAX_INSTRUCTION_NUMBER,
                max_wasm_size_bytes: DEFAULT_TORII_MAX_WASM_SIZE,
            },
        }
    }
}

} // verus!
