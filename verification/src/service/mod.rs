use vstd::prelude::*;

use crate::entity::user::User;

pub mod cache;
pub mod database;
pub mod oauth;
pub mod token;

verus! {

/// All that the server is configured with: the registered client, how tokens are signed,
/// and the users of the directory.
#[derive(Debug, PartialEq, Eq)]
pub struct Config {
    pub oauth: oauth::Config,
    pub jsonwebtoken: token::Config,
    pub users: Vec<User>,
}

} // verus!
