//! Settings of the watcher, resolved from optional raw values, and the
//! choice of HTTP verb.
use vstd::prelude::*;
use crate::text::{eq_ignore_ascii_case, str_eq_ignore_ascii_case};

verus! {

/// The HTTP verb a notification is sent with.
#[derive(Debug, Clone, Copy, PartialEq, Eq, Structural)]
pub enum HttpMethod {
    Get,
    Put,
    Patch,
    Delete,
    Post,
}

/// Why settings could not be resolved.
#[derive(Debug, Clone, Copy, PartialEq, Eq, Structural)]
pub enum ConfigError {
    /// No webhook URL was given.
    MissingWebhookUrl,
}

impl ConfigError {
    /// A sentence describing the error.
    pub fn message(&self) -> (r: String)
        ensures
            r@ == "WEBHOOK_URL environment variable is required"@,
    {
        String::from_str("WEBHOOK_URL environment variable is required")
    }
}

/// The resolved settings of the watcher.
#[derive(Debug, Clone)]
pub struct Config {
    /// Root directory that is watched recursively.
    pub watch_dir: String,
    /// Where notifications are sent.
    pub webhook_url: String,
    /// The verb as configured; see [`parse_method`] for how it is read.
    pub webhook_method: String,
    /// Whether the file's text goes into the notification.
    pub include_content: bool,
    /// Whether an XML answer replaces the file.
    pub overwrite_with_response: bool,
}

/// The verb that a configured method string selects: one of GET, PUT, PATCH
/// and DELETE when it names it in any ASCII case, POST for anything else.
pub open spec fn method_of(s: Seq<char>) -> HttpMethod {
    if eq_ignore_ascii_case(s, "GET"@) {
        HttpMethod::Get
    } else if eq_ignore_ascii_case(s, "PUT"@) {
        HttpMethod::Put
    } else if eq_ignore_ascii_case(s, "PATCH"@) {
        HttpMethod::Patch
    } else if eq_ignore_ascii_case(s, "DELETE"@) {
        HttpMethod::Delete
    } else {
        HttpMethod::Post
    }
}

/// A raw boolean setting is on only when it is the word `true` in any ASCII case;
/// an absent setting is off.
pub open spec fn flag_of(v: Option<Seq<char>>) -> bool {
    match v {
        Some(s) => eq_ignore_ascii_case(s, "true"@),
        None => false,
    }
}

/// A raw setting, or the default when it is absent.
pub open spec fn or_default(v: Option<Seq<char>>, d: Seq<char>) -> Seq<char> {
    match v {
        Some(s) => s,
        None => d,
    }
}

/// The view of an optional string as an optional sequence of characters.
pub open spec fn opt_view(v: Option<String>) -> Option<Seq<char>> {
    match v {
        Some(s) => Some(s@),
        None => None,
    }
}

/// Reads a configured method string. A string that names none of the
/// other verbs, a misspelt one included, selects POST.
pub fn parse_method(s: &str) -> (r: HttpMethod)
    ensures
        r == method_of(s@),
{
    if str_eq_ignore_ascii_case(s, "GET") {
        HttpMethod::Get
    } else if str_eq_ignore_ascii_case(s, "PUT") {
        HttpMethod::Put
    } else if str_eq_ignore_ascii_case(s, "PATCH") {
        HttpMethod::Patch
    } else if str_eq_ignore_ascii_case(s, "DELETE") {
        HttpMethod::Delete
    } else {
        HttpMethod::Post
    }
}

/// Reads a raw boolean setting.
pub fn parse_flag(v: &Option<String>) -> (r: bool)
    ensures
        r == flag_of(opt_view(*v)),
{
    match v {
        Some(s) => str_eq_ignore_ascii_case(s.as_str(), "true"),
        None => false,
    }
}

fn string_or(v: Option<String>, d: &str) -> (r: String)
    ensures
        r@ == or_default(opt_view(v), d@),
{
    match v {
        Some(s) => s,
        None => String::from_str(d),
    }
}

impl Config {
    /// Resolves the settings from raw values, each absent when unset.
    /// Only the webhook URL is required; the watch directory defaults to
    /// `/watch` and the method to `POST`.
    pub fn from_settings(
        watch_dir: Option<String>,
        webhook_url: Option<String>,
        webhook_method: Option<String>,
        include_content: Option<String>,
        overwrite_with_response: Option<String>,
    ) -> (r: Result<Config, ConfigError>)
        ensures
            r is Err <==> webhook_url is None,
            r is Err ==> r->Err_0 == ConfigError::MissingWebhookUrl,
            r is Ok ==> ({
                let c = r->Ok_0;
                &&& c.watch_dir@ == or_default(opt_view(watch_dir), "/watch"@)
                &&& c.webhook_url@ == webhook_url->Some_0@
                &&& c.webhook_method@ == or_default(opt_view(webhook_method), "POST"@)
                &&& c.include_content == flag_of(opt_view(include_content))
                &&& c.overwrite_with_response == flag_of(opt_view(overwrite_with_response))
            }),
    {
        let webhook_url = match webhook_url {
            Some(u) => u,
            None => {
                return Err(ConfigError::MissingWebhookUrl);
            },
        };
        let with_content = parse_flag(&include_content);
        let overwrite = parse_flag(&overwrite_with_response);
        Ok(Config {
            watch_dir: string_or(watch_dir, "/watch"),
            webhook_url,
            webhook_method: string_or(webhook_method, "POST"),
            include_content: with_content,
            overwrite_with_response: overwrite,
        })
    }

    /// The verb that notifications are sent with.
    pub fn method(&self) -> (r: HttpMethod)
        ensures
            r == method_of(self.webhook_method@),
    {
        parse_method(self.webhook_method.as_str())
    }

    /// Whether an answer may replace the file: this needs both the overwrite
    /// setting and the file's text in the notification.
    pub open spec fn overwrite_active(&self) -> bool {
        self.overwrite_with_response && self.include_content
    }

    /// Tells whether an answer may replace the file.
    pub fn overwrite_enabled(&self) -> (r: bool)
        ensures
            r == self.overwrite_active(),
    {
        self.overwrite_with_response && self.include_content
    }

    /// Tells whether overwriting was asked for but cannot happen, because the
    /// file's text is not sent; this deserves a warning at start.
    pub fn overwrite_is_inert(&self) -> (r: bool)
        ensures
            r == (self.overwrite_with_response && !self.include_content),
            r ==> !self.overwrite_active(),
    {
        self.overwrite_with_response && !self.include_content
    }
}

} // verus!
