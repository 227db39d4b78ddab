pub mod buffer;
pub mod handle;
pub mod identity;
pub mod prekeys;
pub mod result;
pub mod session;
pub mod sid;
