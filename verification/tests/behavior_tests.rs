use dness_config::config::{
    default_log_level, default_resolver, godaddy_base_url, namecheap_base_url, CloudflareConfig,
    DnsConfig, DomainConfig, GoDaddyConfig, LogLevel, NamecheapConfig,
};
use dness_config::errors::{ConfigError, ParseError};
use dness_config::validate::{parse_config_text, parse_domain_entry_text};

#[test]
fn display_name_cloudflare() {
    let d = DomainConfig::Cloudflare(CloudflareConfig {
        email: String::from("a@b.com"),
        key: String::from("k"),
        token: String::from("t"),
        zone: String::from("example.com"),
        records: vec![],
    });
    assert_eq!(d.display_name(), "example.com (cloudflare)");
}

#[test]
fn display_name_godaddy_and_namecheap() {
    let g = DomainConfig::GoDaddy(GoDaddyConfig {
        base_url: godaddy_base_url(),
        key: String::from("k"),
        secret: String::from("s"),
        domain: String::from("example.org"),
        records: vec![],
    });
    assert_eq!(g.display_name(), "example.org (godaddy)");
    let n = DomainConfig::Namecheap(NamecheapConfig {
        base_url: namecheap_base_url(),
        domain: String::from("example.net"),
        ddns_password: String::from("p"),
        records: vec![],
    });
    assert_eq!(n.display_name(), "example.net (namecheap)");
}

#[test]
fn godaddy_base_url_supplied_overrides_default() {
    let toml_str = r#"
type = "godaddy"
base_url = "https://example.test"
domain = "example.com"
key = "k"
secret = "s"
records = []
"#;
    let config = parse_domain_entry_text(toml_str).unwrap();
    match config {
        DomainConfig::GoDaddy(g) => {
            assert_eq!(g.base_url, "https://example.test");
            assert!(g.records.is_empty());
        }
        _ => panic!("wrong variant"),
    }
}

#[test]
fn namecheap_base_url_supplied_overrides_default() {
    let toml_str = r#"
type = "namecheap"
base_url = "https://example.test"
domain = "example.com"
ddns_password = "p"
records = ["@"]
"#;
    let config = parse_domain_entry_text(toml_str).unwrap();
    match config {
        DomainConfig::Namecheap(n) => assert_eq!(n.base_url, "https://example.test"),
        _ => panic!("wrong variant"),
    }
}

#[test]
fn missing_required_field_is_named() {
    let toml_str = r#"
type = "cloudflare"
key = "k"
token = "t"
zone = "z"
records = []
"#;
    let err = parse_domain_entry_text(toml_str).unwrap_err();
    assert_eq!(err.message(), "missing field `email`");
}

#[test]
fn wrongly_typed_field_is_named() {
    let err = parse_config_text("ip_resolver = 42").unwrap_err();
    assert_eq!(err.message(), "invalid type for field `ip_resolver`");
}

#[test]
fn unknown_discriminator_is_rejected() {
    let toml_str = r#"
[[domains]]
type = "route53"
zone = "z"
"#;
    let err = parse_config_text(toml_str).unwrap_err();
    assert_eq!(err.message(), "unknown variant `route53`");
}

#[test]
fn capitalized_discriminator_is_rejected() {
    let err = parse_domain_entry_text(r#"type = "Cloudflare""#).unwrap_err();
    assert_eq!(err.message(), "unknown variant `Cloudflare`");
}

#[test]
fn missing_discriminator_is_rejected() {
    let err = parse_domain_entry_text(r#"zone = "z""#).unwrap_err();
    assert_eq!(err.message(), "missing field `type`");
    let err = parse_domain_entry_text("").unwrap_err();
    assert_eq!(err.message(), "missing field `type`");
}

#[test]
fn unknown_field_in_log_table() {
    let toml_str = r#"
[log]
levle = "info"
"#;
    let err = parse_config_text(toml_str).unwrap_err();
    assert_eq!(err.message(), "unknown field `levle`");
}

#[test]
fn unknown_field_in_domain_entry() {
    let toml_str = r#"
[[domains]]
type = "cloudflare"
email = "a@b.com"
key = "k"
token = "t"
zone = "z"
records = []
port = 53
"#;
    let err = parse_config_text(toml_str).unwrap_err();
    assert_eq!(err.message(), "unknown field `port`");
}

#[test]
fn log_level_is_case_insensitive() {
    let config = parse_config_text("log = { level = \"dEbUg\" }").unwrap();
    assert_eq!(config.log.level, LogLevel::Debug);
    let config = parse_config_text("log = { level = \"TRACE\" }").unwrap();
    assert_eq!(config.log.level, LogLevel::Trace);
    let config = parse_config_text("log = { level = \"off\" }").unwrap();
    assert_eq!(config.log.level, LogLevel::Off);
}

#[test]
fn log_level_outside_the_set_is_rejected() {
    let err = parse_config_text("log = { level = \"verbose\" }").unwrap_err();
    assert_eq!(err.message(), "unknown variant `verbose`");
}

#[test]
fn log_level_of_wrong_type_is_rejected() {
    let err = parse_config_text("log = { level = 3 }").unwrap_err();
    assert_eq!(err.message(), "invalid type for field `level`");
}

#[test]
fn sections_of_wrong_shape_are_rejected() {
    let err = parse_config_text("log = \"info\"").unwrap_err();
    assert_eq!(err.message(), "invalid type for field `log`");
    let err = parse_config_text("domains = 3").unwrap_err();
    assert_eq!(err.message(), "invalid type for field `domains`");
    let err = parse_config_text("domains = [1]").unwrap_err();
    assert_eq!(err.message(), "invalid type for field `domains`");
}

#[test]
fn records_of_wrong_type_are_rejected() {
    let toml_str = r#"
type = "namecheap"
domain = "d"
ddns_password = "p"
records = [1, 2]
"#;
    let err = parse_domain_entry_text(toml_str).unwrap_err();
    assert_eq!(err.message(), "invalid type for field `records`");
}

#[test]
fn malformed_text_is_a_syntax_error() {
    let err = parse_config_text("=").unwrap_err();
    assert!(matches!(err, ParseError::Syntax(_)));
    assert!(!err.message().is_empty());
}

#[test]
fn parsing_twice_yields_equal_trees() {
    let toml_str = r#"
ip_resolver = "ipify"

[[domains]]
type = "cloudflare"
email = "a@b.com"
key = "k"
token = "t"
zone = "z"
records = ["r1", "r2"]
"#;
    let first = parse_config_text(toml_str);
    let second = parse_config_text(toml_str);
    assert_eq!(first, second);
}

#[test]
fn defaults_are_the_declared_constants() {
    assert_eq!(default_resolver(), "opendns");
    assert_eq!(default_log_level(), LogLevel::Info);
    assert_eq!(godaddy_base_url(), "https://api.godaddy.com");
    assert_eq!(namecheap_base_url(), "https://dynamicdns.park-your-domain.com");
    let d = DnsConfig::default();
    assert_eq!(d.ip_resolver, "opendns");
    assert_eq!(d.log.level, LogLevel::Info);
    assert!(d.domains.is_empty());
}

#[test]
fn config_error_display_surface() {
    let e = ConfigError::file_not_found(String::from("no such file"));
    assert_eq!(e.display_string(), "config issue: file not found");
    assert_eq!(e.cause_string(), "no such file");
    let e = ConfigError::misread(String::from("stream did not contain valid UTF-8"));
    assert_eq!(e.display_string(), "config issue: unable to read file");
    let e = ConfigError::parse(ParseError::UnknownField(String::from("log_info")));
    assert_eq!(e.display_string(), "config issue: a parsing error");
    assert_eq!(e.cause_string(), "unknown field `log_info`");
}

#[test]
fn records_accessor_returns_the_entry_records() {
    let d = DomainConfig::Cloudflare(CloudflareConfig {
        email: String::from("a@b.com"),
        key: String::from("k"),
        token: String::from("t"),
        zone: String::from("z"),
        records: vec![String::from("r1"), String::from("r2")],
    });
    assert_eq!(d.records(), &vec![String::from("r1"), String::from("r2")]);
}

#[test]
fn empty_records_are_accepted() {
    let toml_str = r#"
[[domains]]
type = "cloudflare"
email = "a@b.com"
key = "k"
token = "t"
zone = "z"
records = []
"#;
    let config = parse_config_text(toml_str).unwrap();
    assert_eq!(config.domains.len(), 1);
    assert!(config.domains[0].records().is_empty());
}
