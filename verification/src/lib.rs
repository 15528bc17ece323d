pub mod curve;
pub mod error;
pub mod fees;
pub mod pool;
pub mod precise;
