//! The typed configuration tree: the root document, the logging settings,
//! and the closed set of provider-specific domain entries, together with
//! the declared default values and the derivation of a display name for a
//! domain entry.

use vstd::prelude::*;
use vstd::string::StringExecFns;

verus! {

/// Logging verbosity, as the configuration's `log.level` field selects it.
#[derive(Clone, Copy, PartialEq, Eq, Structural, Debug)]
pub enum LogLevel {
    Off,
    Error,
    Warn,
    Info,
    Debug,
    Trace,
}

/// Logging configuration.
#[derive(Clone, PartialEq, Debug)]
pub struct LogConfig {
    pub level: LogLevel,
}

/// Mathematical model of `LogConfig`.
pub struct SpecLogConfig {
    pub level: LogLevel,
}

/// A Cloudflare domain entry; every field is required.
#[derive(Clone, PartialEq, Debug)]
pub struct CloudflareConfig {
    pub email: String,
    pub key: String,
    pub token: String,
    pub zone: String,
    pub records: Vec<String>,
}

/// Mathematical model of `CloudflareConfig`.
pub struct SpecCloudflareConfig {
    pub email: Seq<char>,
    pub key: Seq<char>,
    pub token: Seq<char>,
    pub zone: Seq<char>,
    pub records: Seq<Seq<char>>,
}

/// A GoDaddy domain entry; `base_url` is defaulted when absent.
#[derive(Clone, PartialEq, Debug)]
pub struct GoDaddyConfig {
    pub base_url: String,
    pub key: String,
    pub secret: String,
    pub domain: String,
    pub records: Vec<String>,
}

/// Mathematical model of `GoDaddyConfig`.
pub struct SpecGoDaddyConfig {
    pub base_url: Seq<char>,
    pub key: Seq<char>,
    pub secret: Seq<char>,
    pub domain: Seq<char>,
    pub records: Seq<Seq<char>>,
}

/// A Namecheap domain entry; `base_url` is defaulted when absent.
#[derive(Clone, PartialEq, Debug)]
pub struct NamecheapConfig {
    pub base_url: String,
    pub domain: String,
    pub ddns_password: String,
    pub records: Vec<String>,
}

/// Mathematical model of `NamecheapConfig`.
pub struct SpecNamecheapConfig {
    pub base_url: Seq<char>,
    pub domain: Seq<char>,
    pub ddns_password: Seq<char>,
    pub records: Seq<Seq<char>>,
}

/// One domain entry: a tagged union over the closed provider set.
#[derive(Clone, PartialEq, Debug)]
pub enum DomainConfig {
    Cloudflare(CloudflareConfig),
    GoDaddy(GoDaddyConfig),
    Namecheap(NamecheapConfig),
}

/// Mathematical model of `DomainConfig`.
pub enum SpecDomainConfig {
    Cloudflare(SpecCloudflareConfig),
    GoDaddy(SpecGoDaddyConfig),
    Namecheap(SpecNamecheapConfig),
}

/// The root of the configuration tree.
#[derive(Clone, PartialEq, Debug)]
pub struct DnsConfig {
    pub ip_resolver: String,
    pub log: LogConfig,
    pub domains: Vec<DomainConfig>,
}

/// Mathematical model of `DnsConfig`.
pub struct SpecDnsConfig {
    pub ip_resolver: Seq<char>,
    pub log: SpecLogConfig,
    pub domains: Seq<SpecDomainConfig>,
}

impl DeepView for LogConfig {
    type V = SpecLogConfig;

    open spec fn deep_view(&self) -> SpecLogConfig {
        SpecLogConfig { level: self.level }
    }
}

impl DeepView for CloudflareConfig {
    type V = SpecCloudflareConfig;

    open spec fn deep_view(&self) -> SpecCloudflareConfig {
        SpecCloudflareConfig {
            email: self.email@,
            key: self.key@,
            token: self.token@,
            zone: self.zone@,
            records: self.records.deep_view(),
        }
    }
}

impl DeepView for GoDaddyConfig {
    type V = SpecGoDaddyConfig;

    open spec fn deep_view(&self) -> SpecGoDaddyConfig {
        SpecGoDaddyConfig {
            base_url: self.base_url@,
            key: self.key@,
            secret: self.secret@,
            domain: self.domain@,
            records: self.records.deep_view(),
        }
    }
}

impl DeepView for NamecheapConfig {
    type V = SpecNamecheapConfig;

    open spec fn deep_view(&self) -> SpecNamecheapConfig {
        SpecNamecheapConfig {
            base_url: self.base_url@,
            domain: self.domain@,
            ddns_password: self.ddns_password@,
            records: self.records.deep_view(),
        }
    }
}

impl DeepView for DomainConfig {
    type V = SpecDomainConfig;

    open spec fn deep_view(&self) -> SpecDomainConfig {
        match self {
            DomainConfig::Cloudflare(c) => SpecDomainConfig::Cloudflare(c.deep_view()),
            DomainConfig::GoDaddy(c) => SpecDomainConfig::GoDaddy(c.deep_view()),
            DomainConfig::Namecheap(c) => SpecDomainConfig::Namecheap(c.deep_view()),
        }
    }
}

impl DeepView for DnsConfig {
    type V = SpecDnsConfig;

    open spec fn deep_view(&self) -> SpecDnsConfig {
        SpecDnsConfig {
            ip_resolver: self.ip_resolver@,
            log: self.log.deep_view(),
            domains: self.domains.deep_view(),
        }
    }
}

/// The default IP-resolution strategy name.
pub open spec fn spec_default_resolver() -> Seq<char> {
    "opendns"@
}

/// The default IP-resolution strategy name, `"opendns"`.
pub fn default_resolver() -> (r: String)
    ensures
        r@ == spec_default_resolver(),
{
    "opendns".to_owned()
}

/// The default logging verbosity, `Info`.
pub fn default_log_level() -> (r: LogLevel)
    ensures
        r == LogLevel::Info,
{
    LogLevel::Info
}

/// The default GoDaddy API base URL.
pub open spec fn spec_godaddy_base_url() -> Seq<char> {
    "https://api.godaddy.com"@
}

/// The default GoDaddy API base URL.
pub fn godaddy_base_url() -> (r: String)
    ensures
        r@ == spec_godaddy_base_url(),
{
    "https://api.godaddy.com".to_owned()
}

/// The default Namecheap dynamic-DNS base URL.
pub open spec fn spec_namecheap_base_url() -> Seq<char> {
    "https://dynamicdns.park-your-domain.com"@
}

/// The default Namecheap dynamic-DNS base URL.
pub fn namecheap_base_url() -> (r: String)
    ensures
        r@ == spec_namecheap_base_url(),
{
    "https://dynamicdns.park-your-domain.com".to_owned()
}

/// The default logging configuration: level `Info`.
pub open spec fn spec_default_log_config() -> SpecLogConfig {
    SpecLogConfig { level: LogLevel::Info }
}

/// The fully defaulted configuration: `opendns`, level `Info`, no domains.
pub open spec fn spec_default_config() -> SpecDnsConfig {
    SpecDnsConfig {
        ip_resolver: spec_default_resolver(),
        log: spec_default_log_config(),
        domains: Seq::empty(),
    }
}

impl Default for LogConfig {
    /// The logging configuration with every field at its default.
    fn default() -> (r: LogConfig)
        ensures
            r.deep_view() == spec_default_log_config(),
    {
        LogConfig { level: default_log_level() }
    }
}

impl Default for DnsConfig {
    /// The configuration of the empty document: every field at its default.
    fn default() -> (r: DnsConfig)
        ensures
            r.deep_view() == spec_default_config(),
    {
        let r = DnsConfig {
            ip_resolver: default_resolver(),
            log: LogConfig { level: default_log_level() },
            domains: Vec::new(),
        };
        proof {
            assert(r.domains.deep_view() =~= Seq::<SpecDomainConfig>::empty());
        }
        r
    }
}

/// The provider tag and target zone of `d`, as `"<zone-or-domain> (<tag>)"`.
pub open spec fn spec_display_name(d: SpecDomainConfig) -> Seq<char> {
    match d {
        SpecDomainConfig::Cloudflare(c) => c.zone + " (cloudflare)"@,
        SpecDomainConfig::GoDaddy(c) => c.domain + " (godaddy)"@,
        SpecDomainConfig::Namecheap(c) => c.domain + " (namecheap)"@,
    }
}

impl DomainConfig {
    /// The name under which this entry is reported: its zone or domain,
    /// followed by the provider tag in parentheses.
    pub fn display_name(&self) -> (r: String)
        ensures
            r@ == spec_display_name(self.deep_view()),
    {
        match self {
            DomainConfig::Cloudflare(c) => c.zone.clone().concat(" (cloudflare)"),
            DomainConfig::GoDaddy(c) => c.domain.clone().concat(" (godaddy)"),
            DomainConfig::Namecheap(c) => c.domain.clone().concat(" (namecheap)"),
        }
    }

    /// The record list of this entry, whichever provider it belongs to.
    pub fn records(&self) -> (r: &Vec<String>)
        ensures
            r.deep_view() == spec_records(self.deep_view()),
    {
        match self {
            DomainConfig::Cloudflare(c) => &c.records,
            DomainConfig::GoDaddy(c) => &c.records,
            DomainConfig::Namecheap(c) => &c.records,
        }
    }
}

/// The record list of `d`, the shared concern of every provider variant.
pub open spec fn spec_records(d: SpecDomainConfig) -> Seq<Seq<char>> {
    match d {
        SpecDomainConfig::Cloudflare(c) => c.records,
        SpecDomainConfig::GoDaddy(c) => c.records,
        SpecDomainConfig::Namecheap(c) => c.records,
    }
}

} // verus!
