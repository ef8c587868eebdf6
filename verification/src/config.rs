//! The configuration of the two ends of the pipeline.

use crate::text::{decimal, to_decimal};
use crate::views::option_view;
use vstd::prelude::*;

verus! {

/// An address: a URL and a port.
#[derive(Clone, Debug)]
pub struct UrlPort {
    pub url: String,
    pub port: u16,
}

pub struct UrlPortView {
    pub url: Seq<char>,
    pub port: u16,
}

impl View for UrlPort {
    type V = UrlPortView;

    open spec fn view(&self) -> UrlPortView {
        UrlPortView { url: self.url@, port: self.port }
    }
}

impl UrlPortView {
    /// The URL, a colon, and the port in decimal.
    pub open spec fn full_url(self) -> Seq<char> {
        self.url + ":"@ + decimal(self.port as nat)
    }
}

impl UrlPort {
    /// The URL, a colon, and the port in decimal.
    pub fn full_url(&self) -> (full: String)
        ensures
            full@ == self@.full_url(),
    {
        let mut full = self.url.clone();
        full.append(":");
        let port = to_decimal(self.port as u64);
        full.append(port.as_str());
        full
    }
}

/// The number of records to read from the stream, or to send to the index, at
/// once, where none is configured.
pub fn default_chunk_size() -> (size: u16)
    ensures
        size == 100,
{
    100
}

/// The time in milliseconds that a read may wait for new entries, where none
/// is configured.
pub fn default_blocktime_millis() -> (millis: usize)
    ensures
        millis == 1000,
{
    1000
}

/// The name of the consumer group and of the consumer, where none is
/// configured.
pub fn default_consumer() -> (name: String)
    ensures
        name@ == "log-ingestor"@,
{
    String::from_str("log-ingestor")
}

/// The name of the index, where none is configured.
pub fn default_index() -> (name: String)
    ensures
        name@ == "logstash-bec_test123"@,
{
    String::from_str("logstash-bec_test123")
}

/// The reader's configuration.
#[derive(Clone, Debug)]
pub struct RedisConfig {
    pub url: UrlPort,
    pub chunk_size: u16,
    pub blocktime_millis: usize,
    pub consumer_group: String,
    pub consumer_id: String,
}

pub struct RedisConfigView {
    pub url: UrlPortView,
    pub chunk_size: u16,
    pub blocktime_millis: usize,
    pub consumer_group: Seq<char>,
    pub consumer_id: Seq<char>,
}

impl View for RedisConfig {
    type V = RedisConfigView;

    open spec fn view(&self) -> RedisConfigView {
        RedisConfigView {
            url: self.url@,
            chunk_size: self.chunk_size,
            blocktime_millis: self.blocktime_millis,
            consumer_group: self.consumer_group@,
            consumer_id: self.consumer_id@,
        }
    }
}

impl RedisConfig {
    /// The configuration with each part that is not given set to its default.
    pub fn with_defaults(
        url: UrlPort,
        chunk_size: Option<u16>,
        blocktime_millis: Option<usize>,
        consumer_group: Option<String>,
        consumer_id: Option<String>,
    ) -> (config: RedisConfig)
        ensures
            config@.url == url@,
            config@.chunk_size == (match chunk_size {
                Some(size) => size,
                None => 100,
            }),
            config@.blocktime_millis == (match blocktime_millis {
                Some(millis) => millis,
                None => 1000,
            }),
            config@.consumer_group == (match consumer_group {
                Some(name) => name@,
                None => "log-ingestor"@,
            }),
            config@.consumer_id == (match consumer_id {
                Some(name) => name@,
                None => "log-ingestor"@,
            }),
    {
        RedisConfig {
            url,
            chunk_size: match chunk_size {
                Some(size) => size,
                None => default_chunk_size(),
            },
            blocktime_millis: match blocktime_millis {
                Some(millis) => millis,
                None => default_blocktime_millis(),
            },
            consumer_group: match consumer_group {
                Some(name) => name,
                None => default_consumer(),
            },
            consumer_id: match consumer_id {
                Some(name) => name,
                None => default_consumer(),
            },
        }
    }
}

/// What the indexer presents to the search engine.
#[derive(Clone, Debug, PartialEq, Eq)]
pub enum Credentials {
    /// An API key, already encoded.
    EncodedApiKey(String),
    /// A user name and a password.
    Basic(String, String),
}

pub enum CredentialsView {
    EncodedApiKey(Seq<char>),
    Basic(Seq<char>, Seq<char>),
}

impl View for Credentials {
    type V = CredentialsView;

    open spec fn view(&self) -> CredentialsView {
        match self {
            Credentials::EncodedApiKey(key) => CredentialsView::EncodedApiKey(key@),
            Credentials::Basic(username, password) => CredentialsView::Basic(
                username@,
                password@,
            ),
        }
    }
}

/// Why a configuration yields no credentials.
#[derive(Clone, Copy, Debug, PartialEq, Eq, Structural)]
pub enum CredentialsError {
    /// Neither an API key nor a user name with a password is configured.
    Missing,
    /// Both an API key and a user name with a password are configured.
    Conflicting,
}

impl CredentialsError {
    pub open spec fn message_text(self) -> Seq<char> {
        match self {
            CredentialsError::Missing => "No credentials in config!"@,
            CredentialsError::Conflicting => "More than one form of credentials in config!"@,
        }
    }

    /// The error in words.
    pub fn message(&self) -> (text: String)
        ensures
            text@ == self.message_text(),
    {
        match self {
            CredentialsError::Missing => String::from_str("No credentials in config!"),
            CredentialsError::Conflicting => String::from_str(
                "More than one form of credentials in config!",
            ),
        }
    }
}

/// The indexer's configuration.
#[derive(Clone, Debug)]
pub struct ElasticConfig {
    pub url: UrlPort,
    pub api_key: Option<String>,
    pub username: Option<String>,
    pub password: Option<String>,
    pub chunk_size: u16,
    pub index: String,
}

pub struct ElasticConfigView {
    pub url: UrlPortView,
    pub api_key: Option<Seq<char>>,
    pub username: Option<Seq<char>>,
    pub password: Option<Seq<char>>,
    pub chunk_size: u16,
    pub index: Seq<char>,
}

impl View for ElasticConfig {
    type V = ElasticConfigView;

    open spec fn view(&self) -> ElasticConfigView {
        ElasticConfigView {
            url: self.url@,
            api_key: option_view(self.api_key),
            username: option_view(self.username),
            password: option_view(self.password),
            chunk_size: self.chunk_size,
            index: self.index@,
        }
    }
}

/// The view of the outcome of resolving credentials.
pub open spec fn resolved_view(resolved: Result<Credentials, CredentialsError>) -> Result<
    CredentialsView,
    CredentialsError,
> {
    match resolved {
        Ok(credentials) => Ok(credentials@),
        Err(error) => Err(error),
    }
}

impl ElasticConfigView {
    /// Whether a user name and a password are both configured.
    pub open spec fn has_basic(self) -> bool {
        self.username is Some && self.password is Some
    }

    /// The one form of credentials that is configured: the API key, or the
    /// user name with the password. Both forms together, or neither, are an
    /// error.
    pub open spec fn credentials(self) -> Result<CredentialsView, CredentialsError> {
        if self.api_key is Some && self.has_basic() {
            Err(CredentialsError::Conflicting)
        } else if self.api_key is Some {
            Ok(CredentialsView::EncodedApiKey(self.api_key->0))
        } else if self.has_basic() {
            Ok(CredentialsView::Basic(self.username->0, self.password->0))
        } else {
            Err(CredentialsError::Missing)
        }
    }
}

impl ElasticConfig {
    /// The configuration with each part that is not given set to its default.
    pub fn with_defaults(
        url: UrlPort,
        api_key: Option<String>,
        username: Option<String>,
        password: Option<String>,
        chunk_size: Option<u16>,
        index: Option<String>,
    ) -> (config: ElasticConfig)
        ensures
            config@.url == url@,
            config@.api_key == option_view(api_key),
            config@.username == option_view(username),
            config@.password == option_view(password),
            config@.chunk_size == (match chunk_size {
                Some(size) => size,
                None => 100,
            }),
            config@.index == (match index {
                Some(name) => name@,
                None => "logstash-bec_test123"@,
            }),
    {
        ElasticConfig {
            url,
            api_key,
            username,
            password,
            chunk_size: match chunk_size {
                Some(size) => size,
                None => default_chunk_size(),
            },
            index: match index {
                Some(name) => name,
                None => default_index(),
            },
        }
    }

    /// The one form of credentials that is configured.
    pub fn credentials(&self) -> (resolved: Result<Credentials, CredentialsError>)
        ensures
            resolved_view(resolved) == self@.credentials(),
    {
        match (&self.api_key, &self.username, &self.password) {
            (Some(_), Some(_), Some(_)) => Err(CredentialsError::Conflicting),
            (Some(api_key), _, _) => Ok(Credentials::EncodedApiKey(api_key.clone())),
            (None, Some(username), Some(password)) => Ok(
                Credentials::Basic(username.clone(), password.clone()),
            ),
            _ => Err(CredentialsError::Missing),
        }
    }
}

/// The configuration of the whole pipeline.
#[derive(Clone, Debug)]
pub struct IngestorConfig {
    pub redis: RedisConfig,
    pub elastic: ElasticConfig,
}

pub struct IngestorConfigView {
    pub redis: RedisConfigView,
    pub elastic: ElasticConfigView,
}

impl View for IngestorConfig {
    type V = IngestorConfigView;

    open spec fn view(&self) -> IngestorConfigView {
        IngestorConfigView { redis: self.redis@, elastic: self.elastic@ }
    }
}

} // verus!
