//! Process-wide configuration, built once at start-up and handed to the
//! components that need it.

use vstd::prelude::*;

verus! {

/// The settings the services run with.
#[derive(Debug)]
pub struct Config {
    db_name: String,
    jwt_secret: String,
    pub host: String,
}

impl Clone for Config {
    fn clone(&self) -> (res: Self)
        ensures
            res.spec_db_name() == self.spec_db_name(),
            res.spec_host() == self.spec_host(),
            res.spec_jwt_secret() == self.spec_jwt_secret(),
    {
        Config {
            db_name: self.db_name.clone(),
            jwt_secret: self.jwt_secret.clone(),
            host: self.host.clone(),
        }
    }
}

impl Config {
    /// A configuration from its three settings.
    pub fn new(db_name: String, host: String, jwt_secret: String) -> (config: Config)
        ensures
            config.spec_db_name() == db_name@,
            config.spec_host() == host@,
            config.spec_jwt_secret() == jwt_secret@,
    {
        Config { db_name, jwt_secret, host }
    }

    /// The name of the database that holds the user collection.
    pub closed spec fn spec_db_name(&self) -> Seq<char> {
        self.db_name@
    }

    /// The address the server binds to.
    pub closed spec fn spec_host(&self) -> Seq<char> {
        self.host@
    }

    /// The key that tokens are signed with.
    pub closed spec fn spec_jwt_secret(&self) -> Seq<char> {
        self.jwt_secret@
    }

    /// The name of the database that holds the user collection.
    pub fn db_name(&self) -> (name: &str)
        ensures
            name@ == self.spec_db_name(),
    {
        self.db_name.as_str()
    }

    /// The address the server binds to.
    pub fn host(&self) -> (host: &str)
        ensures
            host@ == self.spec_host(),
    {
        self.host.as_str()
    }

    /// The key that tokens are signed with.
    pub fn jwt_secret(&self) -> (secret: &str)
        ensures
            secret@ == self.spec_jwt_secret(),
    {
        self.jwt_secret.as_str()
    }
}

} // verus!
