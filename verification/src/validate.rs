//! The schema validator: it walks a generic document tree and produces
//! the typed configuration tree, applying the declared default for every
//! absent optional field, rejecting any field name the schema does not
//! declare, and resolving each domain entry's provider variant by its
//! `type` discriminator.
//!
//! Every executable function here returns exactly what its `spec_`
//! counterpart defines, for every document.

use vstd::prelude::*;
use vstd::string::StringExecFns;

use crate::config::{
    default_log_level, default_resolver, godaddy_base_url, namecheap_base_url,
    spec_default_log_config, spec_default_resolver, spec_godaddy_base_url,
    spec_namecheap_base_url, CloudflareConfig, DnsConfig, DomainConfig, GoDaddyConfig, LogConfig,
    LogLevel, NamecheapConfig, SpecCloudflareConfig, SpecDnsConfig, SpecDomainConfig,
    SpecGoDaddyConfig, SpecLogConfig, SpecNamecheapConfig,
};
use crate::doc_tree::{
    first_unknown, lemma_nodes_view_index, lemma_nodes_view_len, lookup, nodes_view, pairs_view,
    spec_first_unknown, spec_lookup, SpecNode, SpecPair, TomlNode, TomlPair,
};
use crate::errors::{ParseError, SpecParseError};
use crate::toml_input::{read_toml, spec_read_toml};

verus! {

broadcast use vstd::std_specs::vec::group_vec_axioms, vstd::seq::group_seq_axioms;

/// The deep view of a `Result`, both sides viewed.
pub open spec fn result_view<T: DeepView, E: DeepView>(r: Result<T, E>) -> Result<T::V, E::V> {
    match r {
        Ok(t) => Ok(t.deep_view()),
        Err(e) => Err(e.deep_view()),
    }
}

/// The field names declared at the document root.
pub open spec fn spec_root_keys() -> Seq<Seq<char>> {
    seq!["ip_resolver"@, "log"@, "domains"@]
}

/// The field names declared under `log`.
pub open spec fn spec_log_keys() -> Seq<Seq<char>> {
    seq!["level"@]
}

/// The field names declared for a Cloudflare entry.
pub open spec fn spec_cloudflare_keys() -> Seq<Seq<char>> {
    seq!["type"@, "email"@, "key"@, "token"@, "zone"@, "records"@]
}

/// The field names declared for a GoDaddy entry.
pub open spec fn spec_godaddy_keys() -> Seq<Seq<char>> {
    seq!["type"@, "base_url"@, "key"@, "secret"@, "domain"@, "records"@]
}

/// The field names declared for a Namecheap entry.
pub open spec fn spec_namecheap_keys() -> Seq<Seq<char>> {
    seq!["type"@, "base_url"@, "domain"@, "ddns_password"@, "records"@]
}

/// A required text field: absent is a missing field, non-text a type error.
pub open spec fn spec_req_text(pairs: Seq<SpecPair>, name: Seq<char>) -> Result<
    Seq<char>,
    SpecParseError,
> {
    match spec_lookup(pairs, name) {
        None => Err(SpecParseError::MissingField(name)),
        Some(SpecNode::Text(s)) => Ok(s),
        Some(_) => Err(SpecParseError::InvalidType(name)),
    }
}

/// An optional text field: absent takes the declared default `dflt`.
pub open spec fn spec_opt_text(pairs: Seq<SpecPair>, name: Seq<char>, dflt: Seq<char>) -> Result<
    Seq<char>,
    SpecParseError,
> {
    match spec_lookup(pairs, name) {
        None => Ok(dflt),
        Some(SpecNode::Text(s)) => Ok(s),
        Some(_) => Err(SpecParseError::InvalidType(name)),
    }
}

/// The texts of `items`, if every item is text.
pub open spec fn spec_texts(items: Seq<SpecNode>) -> Option<Seq<Seq<char>>>
    decreases items.len(),
{
    if items.len() == 0 {
        Some(Seq::empty())
    } else {
        match items[0] {
            SpecNode::Text(s) => match spec_texts(items.skip(1)) {
                Some(rest) => Some(seq![s] + rest),
                None => None,
            },
            _ => None,
        }
    }
}

/// A required record list: an array whose items are all text.
pub open spec fn spec_req_records(pairs: Seq<SpecPair>, name: Seq<char>) -> Result<
    Seq<Seq<char>>,
    SpecParseError,
> {
    match spec_lookup(pairs, name) {
        None => Err(SpecParseError::MissingField(name)),
        Some(SpecNode::Array(items)) => match spec_texts(items) {
            Some(rs) => Ok(rs),
            None => Err(SpecParseError::InvalidType(name)),
        },
        Some(_) => Err(SpecParseError::InvalidType(name)),
    }
}

/// The logging level that the text `s` selects, compared without regard
/// to ASCII case; `None` for a value outside the closed set.
pub open spec fn spec_level_of(s: Seq<char>) -> Option<LogLevel> {
    if crate::text::chars_eq_ignore_ascii_case(s, "off"@) {
        Some(LogLevel::Off)
    } else if crate::text::chars_eq_ignore_ascii_case(s, "error"@) {
        Some(LogLevel::Error)
    } else if crate::text::chars_eq_ignore_ascii_case(s, "warn"@) {
        Some(LogLevel::Warn)
    } else if crate::text::chars_eq_ignore_ascii_case(s, "info"@) {
        Some(LogLevel::Info)
    } else if crate::text::chars_eq_ignore_ascii_case(s, "debug"@) {
        Some(LogLevel::Debug)
    } else if crate::text::chars_eq_ignore_ascii_case(s, "trace"@) {
        Some(LogLevel::Trace)
    } else {
        None
    }
}

/// Validation of the `log` table: no undeclared field, and a `level`
/// inside the closed set; an absent `level` defaults to `Info`.
pub open spec fn spec_validate_log(pairs: Seq<SpecPair>) -> Result<SpecLogConfig, SpecParseError> {
    match spec_first_unknown(pairs, spec_log_keys()) {
        Some(k) => Err(SpecParseError::UnknownField(k)),
        None => match spec_lookup(pairs, "level"@) {
            None => Ok(spec_default_log_config()),
            Some(SpecNode::Text(s)) => match spec_level_of(s) {
                Some(l) => Ok(SpecLogConfig { level: l }),
                None => Err(SpecParseError::UnknownVariant(s)),
            },
            Some(_) => Err(SpecParseError::InvalidType("level"@)),
        },
    }
}

/// Validation of a Cloudflare entry: every field required, none undeclared.
pub open spec fn spec_validate_cloudflare(pairs: Seq<SpecPair>) -> Result<
    SpecDomainConfig,
    SpecParseError,
> {
    match spec_first_unknown(pairs, spec_cloudflare_keys()) {
        Some(k) => Err(SpecParseError::UnknownField(k)),
        None => match spec_req_text(pairs, "email"@) {
            Err(e) => Err(e),
            Ok(email) => match spec_req_text(pairs, "key"@) {
                Err(e) => Err(e),
                Ok(key) => match spec_req_text(pairs, "token"@) {
                    Err(e) => Err(e),
                    Ok(token) => match spec_req_text(pairs, "zone"@) {
                        Err(e) => Err(e),
                        Ok(zone) => match spec_req_records(pairs, "records"@) {
                            Err(e) => Err(e),
                            Ok(records) => Ok(
                                SpecDomainConfig::Cloudflare(
                                    SpecCloudflareConfig {
                                        email: email,
                                        key: key,
                                        token: token,
                                        zone: zone,
                                        records: records,
                                    },
                                ),
                            ),
                        },
                    },
                },
            },
        },
    }
}

/// Validation of a GoDaddy entry: `base_url` defaulted when absent, the
/// rest required, none undeclared.
pub open spec fn spec_validate_godaddy(pairs: Seq<SpecPair>) -> Result<
    SpecDomainConfig,
    SpecParseError,
> {
    match spec_first_unknown(pairs, spec_godaddy_keys()) {
        Some(k) => Err(SpecParseError::UnknownField(k)),
        None => match spec_opt_text(pairs, "base_url"@, spec_godaddy_base_url()) {
            Err(e) => Err(e),
            Ok(base_url) => match spec_req_text(pairs, "key"@) {
                Err(e) => Err(e),
                Ok(key) => match spec_req_text(pairs, "secret"@) {
                    Err(e) => Err(e),
                    Ok(secret) => match spec_req_text(pairs, "domain"@) {
                        Err(e) => Err(e),
                        Ok(domain) => match spec_req_records(pairs, "records"@) {
                            Err(e) => Err(e),
                            Ok(records) => Ok(
                                SpecDomainConfig::GoDaddy(
                                    SpecGoDaddyConfig {
                                        base_url: base_url,
                                        key: key,
                                        secret: secret,
                                        domain: domain,
                                        records: records,
                                    },
                                ),
                            ),
                        },
                    },
                },
            },
        },
    }
}

/// Validation of a Namecheap entry: `base_url` defaulted when absent, the
/// rest required, none undeclared.
pub open spec fn spec_validate_namecheap(pairs: Seq<SpecPair>) -> Result<
    SpecDomainConfig,
    SpecParseError,
> {
    match spec_first_unknown(pairs, spec_namecheap_keys()) {
        Some(k) => Err(SpecParseError::UnknownField(k)),
        None => match spec_opt_text(pairs, "base_url"@, spec_namecheap_base_url()) {
            Err(e) => Err(e),
            Ok(base_url) => match spec_req_text(pairs, "domain"@) {
                Err(e) => Err(e),
                Ok(domain) => match spec_req_text(pairs, "ddns_password"@) {
                    Err(e) => Err(e),
                    Ok(ddns_password) => match spec_req_records(pairs, "records"@) {
                        Err(e) => Err(e),
                        Ok(records) => Ok(
                            SpecDomainConfig::Namecheap(
                                SpecNamecheapConfig {
                                    base_url: base_url,
                                    domain: domain,
                                    ddns_password: ddns_password,
                                    records: records,
                                },
                            ),
                        ),
                    },
                },
            },
        },
    }
}

/// Validation of one element of `domains`: it must be a table whose
/// `type` discriminator exactly matches one of the three lowercase tags;
/// the matching variant's field set then governs.
pub open spec fn spec_validate_entry(v: SpecNode) -> Result<SpecDomainConfig, SpecParseError> {
    match v {
        SpecNode::Table(pairs) => match spec_lookup(pairs, "type"@) {
            None => Err(SpecParseError::MissingField("type"@)),
            Some(SpecNode::Text(t)) => if t == "cloudflare"@ {
                spec_validate_cloudflare(pairs)
            } else if t == "godaddy"@ {
                spec_validate_godaddy(pairs)
            } else if t == "namecheap"@ {
                spec_validate_namecheap(pairs)
            } else {
                Err(SpecParseError::UnknownVariant(t))
            },
            Some(_) => Err(SpecParseError::InvalidType("type"@)),
        },
        _ => Err(SpecParseError::InvalidType("domains"@)),
    }
}

/// Validation of the `domains` array, in order: the first failing entry
/// fails the whole array; otherwise the entries come out in the order
/// the document declares them.
pub open spec fn spec_validate_entries(items: Seq<SpecNode>) -> Result<
    Seq<SpecDomainConfig>,
    SpecParseError,
>
    decreases items.len(),
{
    if items.len() == 0 {
        Ok(Seq::empty())
    } else {
        match spec_validate_entry(items[0]) {
            Err(e) => Err(e),
            Ok(d) => match spec_validate_entries(items.skip(1)) {
                Err(e) => Err(e),
                Ok(ds) => Ok(seq![d] + ds),
            },
        }
    }
}

/// The `log` field of the root: absent is the default configuration, a
/// non-table is a type error.
pub open spec fn spec_log_field(pairs: Seq<SpecPair>) -> Result<SpecLogConfig, SpecParseError> {
    match spec_lookup(pairs, "log"@) {
        None => Ok(spec_default_log_config()),
        Some(SpecNode::Table(lp)) => spec_validate_log(lp),
        Some(_) => Err(SpecParseError::InvalidType("log"@)),
    }
}

/// The `domains` field of the root: absent is the empty list, a
/// non-array is a type error.
pub open spec fn spec_domains_field(pairs: Seq<SpecPair>) -> Result<
    Seq<SpecDomainConfig>,
    SpecParseError,
> {
    match spec_lookup(pairs, "domains"@) {
        None => Ok(Seq::empty()),
        Some(SpecNode::Array(items)) => spec_validate_entries(items),
        Some(_) => Err(SpecParseError::InvalidType("domains"@)),
    }
}

/// Validation of a whole document: the root must be a table with no
/// undeclared field; each declared field is validated, and each absent
/// optional field takes its declared default.
pub open spec fn spec_validate_root(doc: SpecNode) -> Result<SpecDnsConfig, SpecParseError> {
    match doc {
        SpecNode::Table(pairs) => match spec_first_unknown(pairs, spec_root_keys()) {
            Some(k) => Err(SpecParseError::UnknownField(k)),
            None => match spec_opt_text(pairs, "ip_resolver"@, spec_default_resolver()) {
                Err(e) => Err(e),
                Ok(ip) => match spec_log_field(pairs) {
                    Err(e) => Err(e),
                    Ok(log) => match spec_domains_field(pairs) {
                        Err(e) => Err(e),
                        Ok(ds) => Ok(SpecDnsConfig { ip_resolver: ip, log: log, domains: ds }),
                    },
                },
            },
        },
        _ => Err(SpecParseError::InvalidType("document"@)),
    }
}

fn req_text(pairs: &Vec<TomlPair>, name: &'static str) -> (r: Result<String, ParseError>)
    ensures
        result_view(r) == spec_req_text(pairs_view(pairs@), name@),
{
    match lookup(pairs, name) {
        None => Err(ParseError::MissingField(name.to_owned())),
        Some(TomlNode::Text(s)) => Ok(s.clone()),
        Some(_) => Err(ParseError::InvalidType(name.to_owned())),
    }
}

fn opt_text(pairs: &Vec<TomlPair>, name: &'static str, dflt: String) -> (r: Result<
    String,
    ParseError,
>)
    ensures
        result_view(r) == spec_opt_text(pairs_view(pairs@), name@, dflt@),
{
    match lookup(pairs, name) {
        None => Ok(dflt),
        Some(TomlNode::Text(s)) => Ok(s.clone()),
        Some(_) => Err(ParseError::InvalidType(name.to_owned())),
    }
}

fn texts_of(items: &Vec<TomlNode>) -> (r: Option<Vec<String>>)
    ensures
        match r {
            Some(v) => spec_texts(nodes_view(items@)) == Some(v.deep_view()),
            None => spec_texts(nodes_view(items@)) is None,
        },
{
    let ghost nv = nodes_view(items@);
    proof {
        lemma_nodes_view_len(items@);
        assert(nv.skip(0) =~= nv);
    }
    let n: usize = items.len();
    let mut acc: Vec<String> = Vec::new();
    proof {
        assert(acc.deep_view() =~= Seq::<Seq<char>>::empty());
    }
    for i in 0..n
        invariant
            n == items.len(),
            nv == nodes_view(items@),
            nv.len() == n,
            acc.deep_view().len() == i,
            spec_texts(nv) == (match spec_texts(nv.skip(i as int)) {
                Some(rest) => Some(acc.deep_view() + rest),
                None => None::<Seq<Seq<char>>>,
            }),
    {
        proof {
            lemma_nodes_view_index(items@, i as int);
            assert(nv.skip(i as int)[0] == nv[i as int]);
            assert(nv.skip(i as int).skip(1) =~= nv.skip(i as int + 1));
        }
        match &items[i] {
            TomlNode::Text(s) => {
                let ghost old_acc = acc.deep_view();
                acc.push(s.clone());
                proof {
                    assert(acc.deep_view() =~= old_acc + seq![s@]);
                    match spec_texts(nv.skip(i as int + 1)) {
                        Some(rest) => {
                            assert(old_acc + (seq![s@] + rest) =~= (old_acc + seq![s@]) + rest);
                        },
                        None => {},
                    }
                }
            },
            _ => {
                return None;
            },
        }
    }
    proof {
        assert(nv.skip(n as int) =~= Seq::<SpecNode>::empty());
        assert(acc.deep_view() + Seq::<Seq<char>>::empty() =~= acc.deep_view());
    }
    Some(acc)
}

fn req_records(pairs: &Vec<TomlPair>, name: &'static str) -> (r: Result<Vec<String>, ParseError>)
    ensures
        result_view(r) == spec_req_records(pairs_view(pairs@), name@),
{
    match lookup(pairs, name) {
        None => Err(ParseError::MissingField(name.to_owned())),
        Some(TomlNode::Array(items)) => match texts_of(items) {
            Some(v) => Ok(v),
            None => Err(ParseError::InvalidType(name.to_owned())),
        },
        Some(_) => Err(ParseError::InvalidType(name.to_owned())),
    }
}

/// The logging level that `s` selects, compared without regard to ASCII
/// case.
pub fn level_of(s: &str) -> (r: Option<LogLevel>)
    ensures
        r == spec_level_of(s@),
{
    if crate::text::eq_ignore_ascii_case(s, "off") {
        Some(LogLevel::Off)
    } else if crate::text::eq_ignore_ascii_case(s, "error") {
        Some(LogLevel::Error)
    } else if crate::text::eq_ignore_ascii_case(s, "warn") {
        Some(LogLevel::Warn)
    } else if crate::text::eq_ignore_ascii_case(s, "info") {
        Some(LogLevel::Info)
    } else if crate::text::eq_ignore_ascii_case(s, "debug") {
        Some(LogLevel::Debug)
    } else if crate::text::eq_ignore_ascii_case(s, "trace") {
        Some(LogLevel::Trace)
    } else {
        None
    }
}

/// Validates the `log` table.
pub fn validate_log(pairs: &Vec<TomlPair>) -> (r: Result<LogConfig, ParseError>)
    ensures
        result_view(r) == spec_validate_log(pairs_view(pairs@)),
{
    let allowed: Vec<&'static str> = vec!["level"];
    proof {
        assert(allowed.deep_view() =~= spec_log_keys());
    }
    if let Some(k) = first_unknown(pairs, &allowed) {
        return Err(ParseError::UnknownField(k));
    }
    match lookup(pairs, "level") {
        None => Ok(LogConfig { level: default_log_level() }),
        Some(TomlNode::Text(s)) => match level_of(s.as_str()) {
            Some(l) => Ok(LogConfig { level: l }),
            None => Err(ParseError::UnknownVariant(s.clone())),
        },
        Some(_) => Err(ParseError::InvalidType("level".to_owned())),
    }
}

fn validate_cloudflare(pairs: &Vec<TomlPair>) -> (r: Result<DomainConfig, ParseError>)
    ensures
        result_view(r) == spec_validate_cloudflare(pairs_view(pairs@)),
{
    let allowed: Vec<&'static str> = vec!["type", "email", "key", "token", "zone", "records"];
    proof {
        assert(allowed.deep_view() =~= spec_cloudflare_keys());
    }
    if let Some(k) = first_unknown(pairs, &allowed) {
        return Err(ParseError::UnknownField(k));
    }
    let email = match req_text(pairs, "email") {
        Ok(s) => s,
        Err(e) => return Err(e),
    };
    let key = match req_text(pairs, "key") {
        Ok(s) => s,
        Err(e) => return Err(e),
    };
    let token = match req_text(pairs, "token") {
        Ok(s) => s,
        Err(e) => return Err(e),
    };
    let zone = match req_text(pairs, "zone") {
        Ok(s) => s,
        Err(e) => return Err(e),
    };
    let records = match req_records(pairs, "records") {
        Ok(v) => v,
        Err(e) => return Err(e),
    };
    Ok(
        DomainConfig::Cloudflare(
            CloudflareConfig {
                email: email,
                key: key,
                token: token,
                zone: zone,
                records: records,
            },
        ),
    )
}

fn validate_godaddy(pairs: &Vec<TomlPair>) -> (r: Result<DomainConfig, ParseError>)
    ensures
        result_view(r) == spec_validate_godaddy(pairs_view(pairs@)),
{
    let allowed: Vec<&'static str> = vec!["type", "base_url", "key", "secret", "domain", "records"];
    proof {
        assert(allowed.deep_view() =~= spec_godaddy_keys());
    }
    if let Some(k) = first_unknown(pairs, &allowed) {
        return Err(ParseError::UnknownField(k));
    }
    let base_url = match opt_text(pairs, "base_url", godaddy_base_url()) {
        Ok(s) => s,
        Err(e) => return Err(e),
    };
    let key = match req_text(pairs, "key") {
        Ok(s) => s,
        Err(e) => return Err(e),
    };
    let secret = match req_text(pairs, "secret") {
        Ok(s) => s,
        Err(e) => return Err(e),
    };
    let domain = match req_text(pairs, "domain") {
        Ok(s) => s,
        Err(e) => return Err(e),
    };
    let records = match req_records(pairs, "records") {
        Ok(v) => v,
        Err(e) => return Err(e),
    };
    Ok(
        DomainConfig::GoDaddy(
            GoDaddyConfig {
                base_url: base_url,
                key: key,
                secret: secret,
                domain: domain,
                records: records,
            },
        ),
    )
}

fn validate_namecheap(pairs: &Vec<TomlPair>) -> (r: Result<DomainConfig, ParseError>)
    ensures
        result_view(r) == spec_validate_namecheap(pairs_view(pairs@)),
{
    let allowed: Vec<&'static str> = vec!["type", "base_url", "domain", "ddns_password", "records"];
    proof {
        assert(allowed.deep_view() =~= spec_namecheap_keys());
    }
    if let Some(k) = first_unknown(pairs, &allowed) {
        return Err(ParseError::UnknownField(k));
    }
    let base_url = match opt_text(pairs, "base_url", namecheap_base_url()) {
        Ok(s) => s,
        Err(e) => return Err(e),
    };
    let domain = match req_text(pairs, "domain") {
        Ok(s) => s,
        Err(e) => return Err(e),
    };
    let ddns_password = match req_text(pairs, "ddns_password") {
        Ok(s) => s,
        Err(e) => return Err(e),
    };
    let records = match req_records(pairs, "records") {
        Ok(v) => v,
        Err(e) => return Err(e),
    };
    Ok(
        DomainConfig::Namecheap(
            NamecheapConfig {
                base_url: base_url,
                domain: domain,
                ddns_password: ddns_password,
                records: records,
            },
        ),
    )
}

/// Validates one element of the `domains` array: resolves the `type`
/// discriminator and validates against the selected variant's field set.
pub fn validate_domain_entry(v: &TomlNode) -> (r: Result<DomainConfig, ParseError>)
    ensures
        result_view(r) == spec_validate_entry(v.deep_view()),
{
    match v {
        TomlNode::Table(pairs) => match lookup(pairs, "type") {
            None => Err(ParseError::MissingField("type".to_owned())),
            Some(TomlNode::Text(t)) => {
                if crate::text::str_eq(t.as_str(), "cloudflare") {
                    validate_cloudflare(pairs)
                } else if crate::text::str_eq(t.as_str(), "godaddy") {
                    validate_godaddy(pairs)
                } else if crate::text::str_eq(t.as_str(), "namecheap") {
                    validate_namecheap(pairs)
                } else {
                    Err(ParseError::UnknownVariant(t.clone()))
                }
            },
            Some(_) => Err(ParseError::InvalidType("type".to_owned())),
        },
        _ => Err(ParseError::InvalidType("domains".to_owned())),
    }
}

fn validate_entries(items: &Vec<TomlNode>) -> (r: Result<Vec<DomainConfig>, ParseError>)
    ensures
        result_view(r) == spec_validate_entries(nodes_view(items@)),
{
    let ghost nv = nodes_view(items@);
    proof {
        lemma_nodes_view_len(items@);
        assert(nv.skip(0) =~= nv);
    }
    let n: usize = items.len();
    let mut acc: Vec<DomainConfig> = Vec::new();
    proof {
        assert(acc.deep_view() =~= Seq::<SpecDomainConfig>::empty());
    }
    for i in 0..n
        invariant
            n == items.len(),
            nv == nodes_view(items@),
            nv.len() == n,
            acc.deep_view().len() == i,
            spec_validate_entries(nv) == (match spec_validate_entries(nv.skip(i as int)) {
                Ok(rest) => Ok(acc.deep_view() + rest),
                Err(e) => Err::<Seq<SpecDomainConfig>, SpecParseError>(e),
            }),
    {
        proof {
            lemma_nodes_view_index(items@, i as int);
            assert(nv.skip(i as int)[0] == nv[i as int]);
            assert(nv.skip(i as int).skip(1) =~= nv.skip(i as int + 1));
        }
        match validate_domain_entry(&items[i]) {
            Ok(d) => {
                let ghost old_acc = acc.deep_view();
                acc.push(d);
                proof {
                    assert(acc.deep_view() =~= old_acc + seq![d.deep_view()]);
                    match spec_validate_entries(nv.skip(i as int + 1)) {
                        Ok(rest) => {
                            assert(old_acc + (seq![d.deep_view()] + rest) =~= (old_acc + seq![
                                d.deep_view(),
                            ]) + rest);
                        },
                        Err(_) => {},
                    }
                }
            },
            Err(e) => {
                return Err(e);
            },
        }
    }
    proof {
        assert(nv.skip(n as int) =~= Seq::<SpecNode>::empty());
        assert(acc.deep_view() + Seq::<SpecDomainConfig>::empty() =~= acc.deep_view());
    }
    Ok(acc)
}

fn log_field(pairs: &Vec<TomlPair>) -> (r: Result<LogConfig, ParseError>)
    ensures
        result_view(r) == spec_log_field(pairs_view(pairs@)),
{
    match lookup(pairs, "log") {
        None => Ok(LogConfig { level: default_log_level() }),
        Some(TomlNode::Table(lp)) => validate_log(lp),
        Some(_) => Err(ParseError::InvalidType("log".to_owned())),
    }
}

fn domains_field(pairs: &Vec<TomlPair>) -> (r: Result<Vec<DomainConfig>, ParseError>)
    ensures
        result_view(r) == spec_domains_field(pairs_view(pairs@)),
{
    match lookup(pairs, "domains") {
        None => {
            let v: Vec<DomainConfig> = Vec::new();
            proof {
                assert(v.deep_view() =~= Seq::<SpecDomainConfig>::empty());
            }
            Ok(v)
        },
        Some(TomlNode::Array(items)) => validate_entries(items),
        Some(_) => Err(ParseError::InvalidType("domains".to_owned())),
    }
}

/// Validates a whole document tree against the root schema.
pub fn validate_document(doc: &TomlNode) -> (r: Result<DnsConfig, ParseError>)
    ensures
        result_view(r) == spec_validate_root(doc.deep_view()),
{
    match doc {
        TomlNode::Table(pairs) => {
            let allowed: Vec<&'static str> = vec!["ip_resolver", "log", "domains"];
            proof {
                assert(allowed.deep_view() =~= spec_root_keys());
            }
            if let Some(k) = first_unknown(pairs, &allowed) {
                return Err(ParseError::UnknownField(k));
            }
            let ip_resolver = match opt_text(pairs, "ip_resolver", default_resolver()) {
                Ok(s) => s,
                Err(e) => return Err(e),
            };
            let log = match log_field(pairs) {
                Ok(l) => l,
                Err(e) => return Err(e),
            };
            let domains = match domains_field(pairs) {
                Ok(ds) => ds,
                Err(e) => return Err(e),
            };
            Ok(DnsConfig { ip_resolver: ip_resolver, log: log, domains: domains })
        },
        _ => Err(ParseError::InvalidType("document".to_owned())),
    }
}

/// The outcome of loading the document text `t`: text that is not
/// well-formed TOML is a syntax error carrying the reader's diagnostic;
/// a well-formed document is validated against the root schema.
pub open spec fn spec_parse_document(t: Seq<char>) -> Result<SpecDnsConfig, SpecParseError> {
    match spec_read_toml(t) {
        Ok(doc) => spec_validate_root(doc),
        Err(m) => Err(SpecParseError::Syntax(m)),
    }
}

/// Parses configuration text into the typed tree, or a classified
/// validation error.  The result is a function of the text alone.
pub fn parse_config_text(text: &str) -> (r: Result<DnsConfig, ParseError>)
    ensures
        result_view(r) == spec_parse_document(text@),
{
    match read_toml(text) {
        Ok(doc) => validate_document(&doc),
        Err(m) => Err(ParseError::Syntax(m)),
    }
}

/// The outcome of loading the text `t` as one domain entry.
pub open spec fn spec_parse_domain(t: Seq<char>) -> Result<SpecDomainConfig, SpecParseError> {
    match spec_read_toml(t) {
        Ok(doc) => spec_validate_entry(doc),
        Err(m) => Err(SpecParseError::Syntax(m)),
    }
}

/// Parses text holding a single domain entry table, resolving its
/// `type` discriminator, as an element of `domains` would be read.
pub fn parse_domain_entry_text(text: &str) -> (r: Result<DomainConfig, ParseError>)
    ensures
        result_view(r) == spec_parse_domain(text@),
{
    match read_toml(text) {
        Ok(doc) => validate_domain_entry(&doc),
        Err(m) => Err(ParseError::Syntax(m)),
    }
}

} // verus!
