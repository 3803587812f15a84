//! The application's configuration records.

use vstd::hash_map::StringHashMap;
use vstd::prelude::*;

verus! {

/// The whole configuration.
pub struct AppConfig {
    pub amqp: AmqpConfig,
    pub http: HttpConfig,
    pub auth: AuthConfig,
    pub logger: LoggerConfig,
}

/// Where and how to consume the queue.
#[derive(Clone, Debug)]
pub struct AmqpConfig {
    pub scheme: String,
    pub host: String,
    pub port: u16,
    pub username: String,
    pub password: String,
    pub concurrent: u16,
    pub prefetch_count: u16,
    pub prefetch_size: u32,
    pub global: bool,
    pub queue_name: String,
}

/// How webhooks are sent: request timeout in seconds, number of attempts,
/// wait between attempts in milliseconds, and the user agent.
#[derive(Clone, Debug)]
pub struct HttpConfig {
    pub timeout: u64,
    pub retry_attempts: u8,
    pub retry_delay: u64,
    pub user_agent: String,
}

/// How to log in to clients: the path of the login endpoint, the
/// credentials of each client by its URL, and how long, in seconds, a token
/// without a stated lifetime stays usable.
pub struct AuthConfig {
    pub login_endpoint: String,
    pub credentials: StringHashMap<ClientCredentials>,
    pub token_cache_duration: u64,
}

/// The user name and password of one client.
#[derive(Clone, Debug)]
pub struct ClientCredentials {
    pub username: String,
    pub password: String,
}

/// Where error logs are written, and whether file names use local time.
#[derive(Clone, Debug)]
pub struct LoggerConfig {
    pub dir: String,
    pub file_name: String,
    pub max_backups: u32,
    pub max_size: u32,
    pub max_age: u32,
    pub compress: bool,
    pub local_time: bool,
}

impl AuthConfig {
    /// A configuration without credentials.
    pub fn new(login_endpoint: String, token_cache_duration: u64) -> (r: AuthConfig)
        ensures
            r.login_endpoint == login_endpoint,
            r.credentials@ == Map::<Seq<char>, ClientCredentials>::empty(),
            r.token_cache_duration == token_cache_duration,
    {
        AuthConfig { login_endpoint, credentials: StringHashMap::new(), token_cache_duration }
    }

    /// Records the credentials of the client at `client_url`, replacing any
    /// it had.
    pub fn add_credentials(&mut self, client_url: String, credentials: ClientCredentials)
        ensures
            final(self).login_endpoint == old(self).login_endpoint,
            final(self).token_cache_duration == old(self).token_cache_duration,
            final(self).credentials@ == old(self).credentials@.insert(client_url@, credentials),
    {
        self.credentials.insert(client_url, credentials);
    }
}

} // verus!
