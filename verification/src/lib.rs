//! The decision logic of the Zallet wallet: what each JSON-RPC method and command checks,
//! refuses, computes and does next. I/O, the database, the chain backend and the async
//! runtime live around this crate; it is handed plain values and hands plain values back.

pub mod check_witnesses;
pub mod error;
pub mod fund_source;
pub mod import_address;
pub mod import_viewing_key;
pub mod init_wallet_encryption;
pub mod keys;
pub mod keystore_error;
pub mod laws;
pub mod method_logger;
pub mod network;
pub mod pir;
pub mod send_from_account;
pub mod spend_policy;
pub mod spendable_balance;
pub mod start;
pub mod sync_error;
pub mod text;
pub mod transparent;
pub mod value;

