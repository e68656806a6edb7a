use dness_config::config::{
    CloudflareConfig, DnsConfig, DomainConfig, GoDaddyConfig, LogConfig, LogLevel, NamecheapConfig,
};
use dness_config::validate::{parse_config_text, parse_domain_entry_text};

#[test]
fn deserialize_config_empty() {
    let config: DnsConfig = parse_config_text("").unwrap();
    assert_eq!(
        config,
        DnsConfig {
            ip_resolver: String::from("opendns"),
            log: LogConfig {
                level: LogLevel::Info,
            },
            domains: vec![]
        }
    )
}

#[test]
fn deserialize_config_deny_unknown() {
    let err = parse_config_text(r#"log_info = "DEBUG""#).unwrap_err();
    let msg = err.message();
    assert!(msg.contains("unknown field `log_info`"));
}

#[test]
fn deserialize_config_simple() {
    let toml_str = r#"
[[domains]]
type = "cloudflare"
email = "a@b.com"
key = "deadbeef"
token = "deadbeef"
zone = "example.com"
records = ["n.example.com"]
"#;
    let config: DnsConfig = parse_config_text(toml_str).unwrap();
    assert_eq!(
        config,
        DnsConfig {
            ip_resolver: String::from("opendns"),
            log: LogConfig {
                level: LogLevel::Info,
            },
            domains: vec![DomainConfig::Cloudflare(CloudflareConfig {
                email: String::from("a@b.com"),
                key: String::from("deadbeef"),
                token: String::from("deadbeef"),
                zone: String::from("example.com"),
                records: vec![String::from("n.example.com")]
            })]
        }
    );
}

#[test]
fn deserialize_config_godaddy() {
    let toml_str = r#"
type = "godaddy"
domain = "example.com"
key = "abc123"
secret = "ef"
records = ["@"]
"#;
    let config: DomainConfig = parse_domain_entry_text(toml_str).unwrap();
    assert_eq!(
        config,
        DomainConfig::GoDaddy(GoDaddyConfig {
            base_url: String::from("https://api.godaddy.com"),
            domain: String::from("example.com"),
            key: String::from("abc123"),
            secret: String::from("ef"),
            records: vec![String::from("@")]
        })
    );
}

#[test]
fn deserialize_config_namecheap() {
    let toml_str = r#"
type = "namecheap"
domain = "test-dness-1.xyz"
ddns_password = "super_secret_password"
records = ["@", "*", "sub"]
"#;
    let config: DomainConfig = parse_domain_entry_text(toml_str).unwrap();
    assert_eq!(
        config,
        DomainConfig::Namecheap(NamecheapConfig {
            base_url: String::from("https://dynamicdns.park-your-domain.com"),
            domain: String::from("test-dness-1.xyz"),
            ddns_password: String::from("super_secret_password"),
            records: vec![String::from("@"), String::from("*"), String::from("sub")]
        })
    );
}

#[test]
fn deserialize_config_readme() {
    let toml_str = r#"
[log]
level = "DEBUG"

[[domains]]
type = "cloudflare"
email = "admin@example.com"
key = "deadbeef"
token = "deadbeef"
zone = "example.com"
records = ["n.example.com"]

[[domains]]
type = "cloudflare"
email = "admin@example.com"
key = "deadbeef"
token = "deadbeef"
zone = "example2.com"
records = ["n.example2.com", "n2.example2.com"]
"#;
    let config: DnsConfig = parse_config_text(toml_str).unwrap();
    assert_eq!(
        config,
        DnsConfig {
            ip_resolver: String::from("opendns"),
            log: LogConfig {
                level: LogLevel::Debug,
            },
            domains: vec![
                DomainConfig::Cloudflare(CloudflareConfig {
                    email: String::from("admin@example.com"),
                    key: String::from("deadbeef"),
                    token: String::from("deadbeef"),
                    zone: String::from("example.com"),
                    records: vec![String::from("n.example.com")]
                }),
                DomainConfig::Cloudflare(CloudflareConfig {
                    email: String::from("admin@example.com"),
                    key: String::from("deadbeef"),
                    token: String::from("deadbeef"),
                    zone: String::from("example2.com"),
                    records: vec![
                        String::from("n.example2.com"),
                        String::from("n2.example2.com")
                    ]
                })
            ]
        }
    );
}

#[test]
fn deserialize_ipify_config() {
    let toml_str = r#"
ip_resolver = "ipify"
"#;
    let config: DnsConfig = parse_config_text(toml_str).unwrap();
    assert_eq!(
        config,
        DnsConfig {
            ip_resolver: String::from("ipify"),
            log: LogConfig {
                level: LogLevel::Info,
            },
            domains: vec![]
        }
    );
}
