//! Privacy-preserving cross-chain bridge core: commitment engine,
//! confidential transforms, computation lifecycle coordinator, and
//! reserve accounting.

pub mod audit;
pub mod codec;
pub mod commitment;
pub mod coordinator;
pub mod reserve;
pub mod transforms;
