pub mod asc;
pub mod notify;
pub mod request;
pub mod thread;
