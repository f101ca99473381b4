pub mod api;
pub mod json;
pub mod mapper;
pub mod models;
pub mod relay;
pub mod request;
