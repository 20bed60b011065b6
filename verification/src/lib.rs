//! A cycles-funding controller library: keeps a configured set of canisters
//! topped up with cycles by periodically sampling their balances, estimating
//! burn rates, and deciding from per-canister strategies how much to deposit.

pub mod errors;
pub mod fetch;
pub mod history;
pub mod ids;
pub mod lock;
pub mod manager;
pub mod num;
pub mod obtain;
pub mod options;
pub mod record;
pub mod utils;

pub use manager::FundManagerCore;
