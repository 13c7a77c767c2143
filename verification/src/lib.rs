pub mod entity;
pub mod handler;
pub mod laws;
pub mod service;
