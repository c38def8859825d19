pub mod protocol;
pub mod transport;
pub mod worker;
