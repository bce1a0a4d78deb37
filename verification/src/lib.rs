pub mod account;
pub mod claims;
pub mod codec;
pub mod constants;
pub mod crypto;
pub mod difficulty;
pub mod engine;
pub mod errors;
pub mod finality;
pub mod genesis;
pub mod p2p;
pub mod pow;
pub mod recovery;
pub mod schedule;
pub mod sig;
pub mod store;
pub mod strutil;
pub mod sums;
pub mod timelock;
pub mod transaction;
pub mod types;
pub mod validator;
pub mod validation;
pub mod vertex;

pub use constants::CHRONOS_PER_KX;
pub use constants::TOTAL_SUPPLY_CHRONOS;
