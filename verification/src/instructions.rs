//! The transactional orchestrators: deposit, withdraw, and pool creation.

pub mod deposit;
pub mod initialize;
pub mod withdraw;
