//! The service's configuration: what the file spells, and what the service
//! runs on once the addresses of its own endpoints have been worked out.

use crate::pages::{link_text, make_link};
use crate::web::{
    cannot_be_a_base, clone_url, domain_of, fault_message, fault_text, parse_url, parsed,
    push_segment, url_as_str, url_domain, url_text, with_segment, MAX_ADDRESS_BYTES,
};
use url::ParseError;
use url::Url;
use vstd::prelude::*;
use vstd::utf8::encode_utf8;

verus! {

/// The provider's id of the account whose plays the service shows.
pub const ME: &'static str = "th59jhhlgloqhkwcj5foha869";

/// The configuration as the file spells it: every value still a text or a number.
#[derive(Debug, PartialEq, Eq)]
pub struct StringConfig {
    pub db_file: String,
    pub error_file: String,
    pub bot_pidfile: String,
    pub client_id: String,
    pub client_secret: String,
    pub base_url: String,
    pub authorize_endpoint: String,
    pub refresh_endpoint: String,
    pub get_new_endpoint: String,
    pub show_all_endpoint: String,
    pub uptime_endpoint: String,
    pub get_new_limit: u32,
    pub address: String,
}

pub struct StringConfigView {
    pub db_file: Seq<char>,
    pub error_file: Seq<char>,
    pub bot_pidfile: Seq<char>,
    pub client_id: Seq<char>,
    pub client_secret: Seq<char>,
    pub base_url: Seq<char>,
    pub authorize_endpoint: Seq<char>,
    pub refresh_endpoint: Seq<char>,
    pub get_new_endpoint: Seq<char>,
    pub show_all_endpoint: Seq<char>,
    pub uptime_endpoint: Seq<char>,
    pub get_new_limit: u32,
    pub address: Seq<char>,
}

impl View for StringConfig {
    type V = StringConfigView;

    open spec fn view(&self) -> StringConfigView {
        StringConfigView {
            db_file: self.db_file@,
            error_file: self.error_file@,
            bot_pidfile: self.bot_pidfile@,
            client_id: self.client_id@,
            client_secret: self.client_secret@,
            base_url: self.base_url@,
            authorize_endpoint: self.authorize_endpoint@,
            refresh_endpoint: self.refresh_endpoint@,
            get_new_endpoint: self.get_new_endpoint@,
            show_all_endpoint: self.show_all_endpoint@,
            uptime_endpoint: self.uptime_endpoint@,
            get_new_limit: self.get_new_limit,
            address: self.address@,
        }
    }
}

/// The configuration that the service runs on. The file paths and the listen
/// address stay texts; the program around the library opens and binds them.
#[derive(Debug, PartialEq, Eq)]
pub struct Config {
    pub db_file: String,
    pub error_file: String,
    pub bot_pidfile: String,
    pub client_id: String,
    pub client_secret: String,
    pub owner_id: String,
    pub authorize_url: Url,
    pub refresh_url: Url,
    pub get_new_url: Url,
    pub show_all_url: Url,
    pub uptime_url: Url,
    pub get_new_limit: u32,
    pub address: String,
}

/// A configuration with each address as its serialization.
pub struct ConfigView {
    pub db_file: Seq<char>,
    pub error_file: Seq<char>,
    pub bot_pidfile: Seq<char>,
    pub client_id: Seq<char>,
    pub client_secret: Seq<char>,
    pub owner_id: Seq<char>,
    pub authorize_url: Seq<char>,
    pub refresh_url: Seq<char>,
    pub get_new_url: Seq<char>,
    pub show_all_url: Seq<char>,
    pub uptime_url: Seq<char>,
    pub get_new_limit: u32,
    pub address: Seq<char>,
}

impl View for Config {
    type V = ConfigView;

    open spec fn view(&self) -> ConfigView {
        ConfigView {
            db_file: self.db_file@,
            error_file: self.error_file@,
            bot_pidfile: self.bot_pidfile@,
            client_id: self.client_id@,
            client_secret: self.client_secret@,
            owner_id: self.owner_id@,
            authorize_url: url_text(self.authorize_url),
            refresh_url: url_text(self.refresh_url),
            get_new_url: url_text(self.get_new_url),
            show_all_url: url_text(self.show_all_url),
            uptime_url: url_text(self.uptime_url),
            get_new_limit: self.get_new_limit,
            address: self.address@,
        }
    }
}

/// Why a configuration was refused.
#[derive(Debug, PartialEq, Eq)]
pub enum ConfigError {
    /// The base address does not parse; the parser's reason is inside.
    InvalidBaseUrl(ParseError),
    /// The host of the base address is not a domain name.
    NeedDomain,
    /// The base address or an endpoint name is longer than `MAX_ADDRESS_BYTES`.
    TooLong,
}

/// A refusal, with the parser's words in place of its error.
pub enum ConfigFault {
    InvalidBaseUrl(Seq<char>),
    NeedDomain,
    TooLong,
}

impl View for ConfigError {
    type V = ConfigFault;

    open spec fn view(&self) -> ConfigFault {
        match self {
            ConfigError::InvalidBaseUrl(fault) => ConfigFault::InvalidBaseUrl(fault_message(*fault)),
            ConfigError::NeedDomain => ConfigFault::NeedDomain,
            ConfigError::TooLong => ConfigFault::TooLong,
        }
    }
}

/// What a refusal says in words.
pub open spec fn fault_words(fault: ConfigFault) -> Seq<char> {
    match fault {
        ConfigFault::InvalidBaseUrl(words) => "invalid base URL: "@ + words,
        ConfigFault::NeedDomain => "need domain name"@,
        ConfigFault::TooLong => "base URL or endpoint name too long"@,
    }
}

impl ConfigError {
    /// Says in words why the configuration was refused.
    pub fn describe(&self) -> (words: String)
        ensures
            words@ == fault_words(self@),
    {
        match self {
            ConfigError::InvalidBaseUrl(fault) => {
                let mut words = String::from_str("invalid base URL: ");
                words.append(fault_text(fault).as_str());
                words
            },
            ConfigError::NeedDomain => String::from_str("need domain name"),
            ConfigError::TooLong => String::from_str("base URL or endpoint name too long"),
        }
    }
}

/// The number of bytes that a text takes.
pub open spec fn byte_len(text: Seq<char>) -> nat {
    encode_utf8(text).len()
}

/// The address of an endpoint: the base address itself where the endpoint has
/// no name, else the base address with the name as one more path segment.
pub open spec fn endpoint_text(base: Seq<char>, endpoint: Seq<char>) -> Seq<char> {
    if endpoint.len() == 0 {
        base
    } else {
        with_segment(base, endpoint)
    }
}

/// Whether the base address or one of the endpoint names is over the limit.
pub open spec fn over_limit(base: Seq<char>, config: StringConfigView) -> bool {
    ||| byte_len(base) > MAX_ADDRESS_BYTES
    ||| byte_len(config.authorize_endpoint) > MAX_ADDRESS_BYTES
    ||| byte_len(config.refresh_endpoint) > MAX_ADDRESS_BYTES
    ||| byte_len(config.get_new_endpoint) > MAX_ADDRESS_BYTES
    ||| byte_len(config.show_all_endpoint) > MAX_ADDRESS_BYTES
    ||| byte_len(config.uptime_endpoint) > MAX_ADDRESS_BYTES
}

/// What `Config::from` makes of a configuration file: the checks in the order
/// in which they are made, and the configuration where all of them pass.
pub open spec fn built_config(config: StringConfigView) -> Result<ConfigView, ConfigFault> {
    match parsed(config.base_url) {
        Err(words) => Err(ConfigFault::InvalidBaseUrl(words)),
        Ok(base) => if domain_of(base) is None {
            Err(ConfigFault::NeedDomain)
        } else if over_limit(base, config) {
            Err(ConfigFault::TooLong)
        } else {
            Ok(
                ConfigView {
                    db_file: config.db_file,
                    error_file: config.error_file,
                    bot_pidfile: config.bot_pidfile,
                    client_id: config.client_id,
                    client_secret: config.client_secret,
                    owner_id: ME@,
                    authorize_url: endpoint_text(base, config.authorize_endpoint),
                    refresh_url: endpoint_text(base, config.refresh_endpoint),
                    get_new_url: endpoint_text(base, config.get_new_endpoint),
                    show_all_url: endpoint_text(base, config.show_all_endpoint),
                    uptime_url: endpoint_text(base, config.uptime_endpoint),
                    get_new_limit: config.get_new_limit,
                    address: config.address,
                },
            )
        },
    }
}

/// The view of an outcome of `Config::from`.
pub open spec fn outcome_view(r: Result<Config, ConfigError>) -> Result<ConfigView, ConfigFault> {
    match r {
        Ok(config) => Ok(config@),
        Err(e) => Err(e@),
    }
}

/// Whether a text takes more bytes than an address or a segment may.
fn over_length(text: &str) -> (over: bool)
    ensures
        over == (byte_len(text@) > MAX_ADDRESS_BYTES),
{
    text.as_bytes().len() > MAX_ADDRESS_BYTES
}

/// The address of one endpoint under `base`.
fn endpoint_url(base: &Url, endpoint: &str) -> (address: Url)
    requires
        byte_len(url_text(*base)) <= MAX_ADDRESS_BYTES,
        byte_len(endpoint@) <= MAX_ADDRESS_BYTES,
        !cannot_be_a_base(url_text(*base)),
    ensures
        url_text(address) == endpoint_text(url_text(*base), endpoint@),
{
    let mut address = clone_url(base);
    if !endpoint.is_empty() {
        match push_segment(&mut address, endpoint) {
            Ok(()) => {},
            Err(()) => {
                // Only an address that cannot be a base refuses a segment.
                assert(false);
            },
        }
    }
    address
}

impl Config {
    /// Works out the configuration that the service runs on. The base address
    /// must parse and name its host by domain, and neither it nor an endpoint
    /// name may be over the limit; each endpoint with a name gets that name as
    /// a path segment after the base address, and one without a name is the
    /// base address itself. The owner is `ME`.
    pub fn from(config: StringConfig) -> (r: Result<Config, ConfigError>)
        ensures
            outcome_view(r) == built_config(config@),
    {
        let base = match parse_url(config.base_url.as_str()) {
            Ok(base) => base,
            Err(e) => {
                return Err(ConfigError::InvalidBaseUrl(e));
            },
        };
        if url_domain(&base).is_none() {
            return Err(ConfigError::NeedDomain);
        }
        if over_length(url_as_str(&base)) || over_length(config.authorize_endpoint.as_str())
            || over_length(config.refresh_endpoint.as_str()) || over_length(
            config.get_new_endpoint.as_str(),
        ) || over_length(config.show_all_endpoint.as_str()) || over_length(
            config.uptime_endpoint.as_str(),
        ) {
            return Err(ConfigError::TooLong);
        }
        let authorize_url = endpoint_url(&base, config.authorize_endpoint.as_str());
        let refresh_url = endpoint_url(&base, config.refresh_endpoint.as_str());
        let get_new_url = endpoint_url(&base, config.get_new_endpoint.as_str());
        let show_all_url = endpoint_url(&base, config.show_all_endpoint.as_str());
        let uptime_url = endpoint_url(&base, config.uptime_endpoint.as_str());
        Ok(
            Config {
                db_file: config.db_file,
                error_file: config.error_file,
                bot_pidfile: config.bot_pidfile,
                client_id: config.client_id,
                client_secret: config.client_secret,
                owner_id: String::from_str(ME),
                authorize_url,
                refresh_url,
                get_new_url,
                show_all_url,
                uptime_url,
                get_new_limit: config.get_new_limit,
                address: config.address,
            },
        )
    }

    /// A link to the authorization endpoint.
    pub fn authorize_link(&self, text: &str) -> (link: String)
        ensures
            link@ == link_text(self@.authorize_url, text@),
    {
        make_link(url_as_str(&self.authorize_url), text)
    }

    /// A link to the refresh endpoint.
    pub fn refresh_link(&self, text: &str) -> (link: String)
        ensures
            link@ == link_text(self@.refresh_url, text@),
    {
        make_link(url_as_str(&self.refresh_url), text)
    }

    /// A link to the listing of the most recent plays.
    pub fn get_new_link(&self, text: &str) -> (link: String)
        ensures
            link@ == link_text(self@.get_new_url, text@),
    {
        make_link(url_as_str(&self.get_new_url), text)
    }

    /// A link to the listing of all plays.
    pub fn show_all_link(&self, text: &str) -> (link: String)
        ensures
            link@ == link_text(self@.show_all_url, text@),
    {
        make_link(url_as_str(&self.show_all_url), text)
    }
}

} // verus!
