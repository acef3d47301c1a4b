//! Process configuration, built once at startup from plain values and handed
//! by reference into the components that need it. Reading and defaulting the
//! values from the environment is the embedding program's concern.

use vstd::prelude::*;

verus! {

/// How long an issued registration code stays valid, in minutes, when the
/// embedding program configures nothing else.
pub const DEFAULT_CODE_EXPIRE_MINUTES: i64 = 15;

/// Connection parameters of the persistence collaborator.
#[derive(Debug, Clone)]
pub struct MongoConfig {
    pub mongo_url: String,
    pub db_name: String,
}

impl MongoConfig {
    pub fn new(mongo_url: String, db_name: String) -> (c: Self)
        ensures
            c.mongo_url == mongo_url,
            c.db_name == db_name,
    {
        Self { mongo_url, db_name }
    }
}

/// Connection parameters and addresses of the email-sending collaborator.
#[derive(Debug, Clone)]
pub struct EmailConfig {
    pub host: String,
    pub port: u16,
    pub from: String,
    pub reply_to: String,
    pub username: String,
    pub password: String,
}

impl EmailConfig {
    pub fn new(
        host: String,
        port: u16,
        from: String,
        reply_to: String,
        username: String,
        password: String,
    ) -> (c: Self)
        ensures
            c.host == host,
            c.port == port,
            c.from == from,
            c.reply_to == reply_to,
            c.username == username,
            c.password == password,
    {
        Self { host, port, from, reply_to, username, password }
    }
}

} // verus!
