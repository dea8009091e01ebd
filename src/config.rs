//! Settings of the bot, the document store and the HTTP facade, and the
//! objects built from them at startup.

use vstd::prelude::*;

verus! {

#[derive(Clone, Debug, PartialEq, Eq)]
pub struct BotConfig {
    pub bot_token: String,
}

#[derive(Clone, Debug, PartialEq, Eq)]
pub struct DbConfiguration {
    pub mongo_database_name: String,
    pub mongo_username: String,
    pub mongo_password: String,
    pub mongo_host: String,
    pub mongo_port: String,
}

#[derive(Clone, Copy, Debug, PartialEq, Eq, Structural)]
pub struct ApiConfiguration {
    pub http_port: u16,
}

#[derive(Clone, Debug, PartialEq, Eq)]
pub struct Config {
    pub bot_conf: BotConfig,
    pub db_configuration: DbConfiguration,
    pub api_configuration: ApiConfiguration,
}

#[derive(Clone, Debug, PartialEq, Eq)]
pub struct Application {
    pub config: Config,
}

impl Application {
    pub fn new(config: Config) -> (r: Application)
        ensures
            r.config == config,
    {
        Application { config }
    }
}

/// The HTTP facade, configured.
#[derive(Clone, Copy, Debug, PartialEq, Eq, Structural)]
pub struct ApiProvider {
    pub api_configuration: ApiConfiguration,
}

impl ApiProvider {
    pub fn new(api_cfg: &ApiConfiguration) -> (r: ApiProvider)
        ensures
            r.api_configuration == *api_cfg,
    {
        ApiProvider { api_configuration: *api_cfg }
    }
}

/// Where the repositories of the document store come from.
#[derive(Clone, Debug, PartialEq, Eq)]
pub struct RepositoryFactory {
    pub db_configuration: DbConfiguration,
}

impl DbConfiguration {
    /// A copy of these settings, equal to them.
    pub fn duplicate(&self) -> (r: DbConfiguration)
        ensures
            r == *self,
    {
        DbConfiguration {
            mongo_database_name: self.mongo_database_name.clone(),
            mongo_username: self.mongo_username.clone(),
            mongo_password: self.mongo_password.clone(),
            mongo_host: self.mongo_host.clone(),
            mongo_port: self.mongo_port.clone(),
        }
    }

    /// The connection string of the document store: with credentials only
    /// when both the user name and the password are set.
    pub fn connection_string(&self) -> (r: String)
        ensures
            r@ == connection_text(*self),
    {
        proof {
            reveal_strlit("mongodb://");
            reveal_strlit(":");
            reveal_strlit("@");
        }
        let mut s = String::from_str("mongodb://");
        if !self.mongo_username.as_str().is_empty() && !self.mongo_password.as_str().is_empty() {
            s.append(self.mongo_username.as_str());
            s.append(":");
            s.append(self.mongo_password.as_str());
            s.append("@");
        }
        s.append(self.mongo_host.as_str());
        s.append(":");
        s.append(self.mongo_port.as_str());
        assert(s@ =~= connection_text(*self));
        s
    }
}

pub open spec fn connection_text(c: DbConfiguration) -> Seq<char> {
    let scheme = seq!['m', 'o', 'n', 'g', 'o', 'd', 'b', ':', '/', '/'];
    let address = c.mongo_host@ + seq![':'] + c.mongo_port@;
    if c.mongo_username@.len() == 0 || c.mongo_password@.len() == 0 {
        scheme + address
    } else {
        scheme + c.mongo_username@ + seq![':'] + c.mongo_password@ + seq!['@'] + address
    }
}

impl RepositoryFactory {
    pub fn new(cfg: &DbConfiguration) -> (r: RepositoryFactory)
        ensures
            r.db_configuration == *cfg,
    {
        RepositoryFactory { db_configuration: cfg.duplicate() }
    }
}

} // verus!
