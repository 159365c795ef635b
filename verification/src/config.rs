//! Configuration of the service and of its listeners: the defaults, the
//! merge of a listener's own settings with the global ones, and validation.

use crate::text::{clone_option, clone_strings, is_unset, starts_with, unset};
use vstd::prelude::*;

verus! {

/// Why a configuration is rejected.
#[derive(Clone, Copy, Debug, PartialEq, Eq, Structural)]
pub enum ConfigError {
    /// The channel URL does not begin with the public preview prefix.
    ChannelUrl,
    /// No webhook URL is set, neither by the listener nor globally.
    WebhookUrlMissing,
    /// The webhook URL is not a valid URL.
    WebhookUrl,
    /// The proxy list URL is not a valid URL.
    ProxyListUrl,
    /// The poll interval is below three seconds.
    PollInterval,
    /// Channels are given to seed listeners, but no global webhook URL is set.
    WebhookRequired,
}

/// Whether `url::Url::parse` accepts the text as an absolute URL.
pub uninterp spec fn url_parses(text: Seq<char>) -> bool;

/// Calls `url::Url::parse` and reports whether it returned a URL; the
/// outcome depends on the text alone.
#[verifier::external_body]
fn parses_as_url(text: &str) -> (ok: bool)
    ensures
        ok == url_parses(text@),
{
    url::Url::parse(text).is_ok()
}

/// The prefix that every channel URL begins with.
pub open spec fn channel_prefix() -> Seq<char> {
    "https://t.me/s/"@
}

/// The smallest poll interval that is accepted, in seconds.
pub const MIN_POLL_INTERVAL: i64 = 3;

/// The poll interval used where none is configured, in seconds.
pub const DEFAULT_POLL_INTERVAL: i64 = 600;

/// The port the control plane listens on where none is configured.
pub fn default_port() -> (port: u16)
    ensures
        port == 4101,
{
    4101
}

/// The poll interval where none is configured.
pub fn default_interval() -> (interval: Option<i64>)
    ensures
        interval == Some(DEFAULT_POLL_INTERVAL),
{
    Some(DEFAULT_POLL_INTERVAL)
}

/// The path of the database file where none is configured.
pub fn default_db_path() -> (path: String)
    ensures
        path@ == "data/litehook.db"@,
{
    String::from_str("data/litehook.db")
}

/// Settings of the process.
#[derive(Debug)]
pub struct EnvConfig {
    pub port: u16,
    pub db_path: String,
    pub channels: Option<Vec<String>>,
}

/// Defaults that listeners inherit.
#[derive(Debug)]
pub struct GlobalListenerConfig {
    pub poll_interval: Option<i64>,
    pub webhook_url: Option<String>,
    pub proxy_list_url: Option<String>,
    pub webhook_secret: Option<String>,
}

/// Settings of one listener.
#[derive(Debug)]
pub struct ListenerConfig {
    pub id: String,
    pub poll_interval: Option<i64>,
    pub channel_url: String,
    pub proxy_list_url: Option<String>,
    pub webhook_url: Option<String>,
    pub webhook_secret: Option<String>,
}

/// The mathematical value of an [`EnvConfig`].
#[verifier::ext_equal]
pub struct EnvConfigView {
    pub port: u16,
    pub db_path: Seq<char>,
    pub channels: Option<Seq<Seq<char>>>,
}

/// The mathematical value of a [`GlobalListenerConfig`].
#[verifier::ext_equal]
pub struct GlobalListenerConfigView {
    pub poll_interval: Option<i64>,
    pub webhook_url: Option<Seq<char>>,
    pub proxy_list_url: Option<Seq<char>>,
    pub webhook_secret: Option<Seq<char>>,
}

/// The mathematical value of a [`ListenerConfig`].
#[verifier::ext_equal]
pub struct ListenerConfigView {
    pub id: Seq<char>,
    pub poll_interval: Option<i64>,
    pub channel_url: Seq<char>,
    pub proxy_list_url: Option<Seq<char>>,
    pub webhook_url: Option<Seq<char>>,
    pub webhook_secret: Option<Seq<char>>,
}

impl View for EnvConfig {
    type V = EnvConfigView;

    open spec fn view(&self) -> EnvConfigView {
        EnvConfigView {
            port: self.port,
            db_path: self.db_path@,
            channels: self.channels.deep_view(),
        }
    }
}

impl View for GlobalListenerConfig {
    type V = GlobalListenerConfigView;

    open spec fn view(&self) -> GlobalListenerConfigView {
        GlobalListenerConfigView {
            poll_interval: self.poll_interval,
            webhook_url: self.webhook_url.deep_view(),
            proxy_list_url: self.proxy_list_url.deep_view(),
            webhook_secret: self.webhook_secret.deep_view(),
        }
    }
}

impl View for ListenerConfig {
    type V = ListenerConfigView;

    open spec fn view(&self) -> ListenerConfigView {
        ListenerConfigView {
            id: self.id@,
            poll_interval: self.poll_interval,
            channel_url: self.channel_url@,
            proxy_list_url: self.proxy_list_url.deep_view(),
            webhook_url: self.webhook_url.deep_view(),
            webhook_secret: self.webhook_secret.deep_view(),
        }
    }
}

/// The value of a text field after a merge: the listener's own where it is
/// set, else the global one.
pub open spec fn inherit(own: Option<Seq<char>>, global: Option<Seq<char>>) -> Option<Seq<char>> {
    if unset(own) {
        global
    } else {
        own
    }
}

impl EnvConfigView {
    /// Seeding listeners from a non-empty channel list needs a global webhook URL.
    pub open spec fn outcome(self, global: GlobalListenerConfigView) -> Result<(), ConfigError> {
        if self.channels matches Some(list) && list.len() > 0 && global.webhook_url is None {
            Err(ConfigError::WebhookRequired)
        } else {
            Ok(())
        }
    }
}

impl GlobalListenerConfigView {
    /// The outcome of validation, given whether each URL that is set parses.
    pub open spec fn outcome(self, webhook_parses: bool, proxy_parses: bool) -> Result<
        (),
        ConfigError,
    > {
        if self.webhook_url is Some && !webhook_parses {
            Err(ConfigError::WebhookUrl)
        } else if self.proxy_list_url is Some && !proxy_parses {
            Err(ConfigError::ProxyListUrl)
        } else if self.interval() < MIN_POLL_INTERVAL {
            Err(ConfigError::PollInterval)
        } else {
            Ok(())
        }
    }

    /// The poll interval in force.
    pub open spec fn interval(self) -> i64 {
        match self.poll_interval {
            Some(seconds) => seconds,
            None => DEFAULT_POLL_INTERVAL,
        }
    }

    /// The outcome of validation.
    pub open spec fn validity(self) -> Result<(), ConfigError> {
        self.outcome(
            self.webhook_url matches Some(u) && url_parses(u),
            self.proxy_list_url matches Some(u) && url_parses(u),
        )
    }
}

impl ListenerConfigView {
    /// The effective configuration: each field that the listener leaves
    /// unset is taken from the global configuration.
    pub open spec fn merged(self, global: GlobalListenerConfigView) -> ListenerConfigView {
        ListenerConfigView {
            id: self.id,
            poll_interval: if self.poll_interval is None {
                global.poll_interval
            } else {
                self.poll_interval
            },
            channel_url: self.channel_url,
            proxy_list_url: inherit(self.proxy_list_url, global.proxy_list_url),
            webhook_url: inherit(self.webhook_url, global.webhook_url),
            webhook_secret: inherit(self.webhook_secret, global.webhook_secret),
        }
    }

    /// The poll interval in force.
    pub open spec fn interval(self) -> i64 {
        match self.poll_interval {
            Some(seconds) => seconds,
            None => DEFAULT_POLL_INTERVAL,
        }
    }

    /// The outcome of validation, given whether the webhook URL parses.
    pub open spec fn outcome(self, webhook_parses: bool) -> Result<(), ConfigError> {
        if !channel_prefix().is_prefix_of(self.channel_url) {
            Err(ConfigError::ChannelUrl)
        } else if self.webhook_url is None {
            Err(ConfigError::WebhookUrlMissing)
        } else if !webhook_parses {
            Err(ConfigError::WebhookUrl)
        } else if self.interval() < MIN_POLL_INTERVAL {
            Err(ConfigError::PollInterval)
        } else {
            Ok(())
        }
    }

    /// The outcome of validation.
    pub open spec fn validity(self) -> Result<(), ConfigError> {
        self.outcome(self.webhook_url matches Some(u) && url_parses(u))
    }
}

impl Clone for EnvConfig {
    fn clone(&self) -> (r: Self)
        ensures
            r@ == self@,
    {
        EnvConfig {
            port: self.port,
            db_path: self.db_path.clone(),
            channels: match &self.channels {
                Some(list) => Some(clone_strings(list)),
                None => None,
            },
        }
    }
}

impl Clone for GlobalListenerConfig {
    fn clone(&self) -> (r: Self)
        ensures
            r@ == self@,
    {
        GlobalListenerConfig {
            poll_interval: self.poll_interval,
            webhook_url: clone_option(&self.webhook_url),
            proxy_list_url: clone_option(&self.proxy_list_url),
            webhook_secret: clone_option(&self.webhook_secret),
        }
    }
}

impl Clone for ListenerConfig {
    fn clone(&self) -> (r: Self)
        ensures
            r@ == self@,
    {
        ListenerConfig {
            id: self.id.clone(),
            poll_interval: self.poll_interval,
            channel_url: self.channel_url.clone(),
            proxy_list_url: clone_option(&self.proxy_list_url),
            webhook_url: clone_option(&self.webhook_url),
            webhook_secret: clone_option(&self.webhook_secret),
        }
    }
}

impl Default for ListenerConfig {
    fn default() -> (r: Self)
        ensures
            r@ == (ListenerConfigView {
                id: Seq::empty(),
                poll_interval: None,
                channel_url: Seq::empty(),
                proxy_list_url: None,
                webhook_url: None,
                webhook_secret: None,
            }),
    {
        ListenerConfig {
            id: String::new(),
            poll_interval: None,
            channel_url: String::new(),
            proxy_list_url: None,
            webhook_url: None,
            webhook_secret: None,
        }
    }
}

impl EnvConfig {
    /// Rejects a non-empty channel list where no global webhook URL is set.
    pub fn validate(&self, global_cfg: &GlobalListenerConfig) -> (r: Result<(), ConfigError>)
        ensures
            r == self@.outcome(global_cfg@),
    {
        let seeded = match &self.channels {
            Some(list) => list.len() > 0,
            None => false,
        };
        if seeded && global_cfg.webhook_url.is_none() {
            Err(ConfigError::WebhookRequired)
        } else {
            Ok(())
        }
    }
}

impl GlobalListenerConfig {
    /// The poll interval in force.
    pub fn interval(&self) -> (seconds: i64)
        ensures
            seconds == self@.interval(),
    {
        match self.poll_interval {
            Some(seconds) => seconds,
            None => DEFAULT_POLL_INTERVAL,
        }
    }

    /// Validation, given whether each URL that is set parses.
    pub fn validate_with(&self, webhook_parses: bool, proxy_parses: bool) -> (r: Result<
        (),
        ConfigError,
    >)
        ensures
            r == self@.outcome(webhook_parses, proxy_parses),
    {
        if self.webhook_url.is_some() && !webhook_parses {
            Err(ConfigError::WebhookUrl)
        } else if self.proxy_list_url.is_some() && !proxy_parses {
            Err(ConfigError::ProxyListUrl)
        } else if self.interval() < MIN_POLL_INTERVAL {
            Err(ConfigError::PollInterval)
        } else {
            Ok(())
        }
    }

    /// Accepts the configuration iff each URL that is set is valid and the
    /// poll interval in force is at least three seconds.
    pub fn validate(&self) -> (r: Result<(), ConfigError>)
        ensures
            r == self@.validity(),
    {
        let webhook_parses = match &self.webhook_url {
            Some(u) => parses_as_url(u.as_str()),
            None => false,
        };
        let proxy_parses = match &self.proxy_list_url {
            Some(u) => parses_as_url(u.as_str()),
            None => false,
        };
        self.validate_with(webhook_parses, proxy_parses)
    }
}

impl ListenerConfig {
    /// The effective configuration: each field that is unset here is taken
    /// from `cfg`. A text field is unset where it is absent or empty, the
    /// poll interval where it is absent.
    pub fn merge_with(self, cfg: &GlobalListenerConfig) -> (r: Self)
        ensures
            r@ == self@.merged(cfg@),
    {
        let mut merged = self;
        if is_unset(&merged.proxy_list_url) {
            merged.proxy_list_url = clone_option(&cfg.proxy_list_url);
        }
        if is_unset(&merged.webhook_secret) {
            merged.webhook_secret = clone_option(&cfg.webhook_secret);
        }
        if merged.poll_interval.is_none() {
            merged.poll_interval = cfg.poll_interval;
        }
        if is_unset(&merged.webhook_url) {
            merged.webhook_url = clone_option(&cfg.webhook_url);
        }
        merged
    }

    /// The poll interval in force.
    pub fn interval(&self) -> (seconds: i64)
        ensures
            seconds == self@.interval(),
    {
        match self.poll_interval {
            Some(seconds) => seconds,
            None => DEFAULT_POLL_INTERVAL,
        }
    }

    /// Validation, given whether the webhook URL parses.
    pub fn validate_with(&self, webhook_parses: bool) -> (r: Result<(), ConfigError>)
        ensures
            r == self@.outcome(webhook_parses),
    {
        if !starts_with(self.channel_url.as_str(), "https://t.me/s/") {
            Err(ConfigError::ChannelUrl)
        } else if self.webhook_url.is_none() {
            Err(ConfigError::WebhookUrlMissing)
        } else if !webhook_parses {
            Err(ConfigError::WebhookUrl)
        } else if self.interval() < MIN_POLL_INTERVAL {
            Err(ConfigError::PollInterval)
        } else {
            Ok(())
        }
    }

    /// Accepts the configuration iff the channel URL begins with the public
    /// preview prefix, a valid webhook URL is set and the poll interval in
    /// force is at least three seconds.
    pub fn validate(&self) -> (r: Result<(), ConfigError>)
        ensures
            r == self@.validity(),
    {
        let webhook_parses = match &self.webhook_url {
            Some(u) => parses_as_url(u.as_str()),
            None => false,
        };
        self.validate_with(webhook_parses)
    }
}

} // verus!
