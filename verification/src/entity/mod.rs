pub mod accesstoken;
pub mod authorization;
pub mod identifier;
pub mod user;
