pub mod audit;
pub mod authority;
pub mod credential;
pub mod document;
pub mod envelope;
pub mod error;
pub mod forward;
pub mod gate;
pub mod gateway;
pub mod keys;
pub mod request;
pub mod text;
pub mod upload;
