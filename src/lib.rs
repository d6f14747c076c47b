pub mod ffi;
pub mod poll;
pub mod reactor;
pub mod request;
