use cloudflareddns::cloudflare::{
    authorization, create_url, first_record_is_current, first_zone_id, record_body,
    record_listing_usable, record_plan, records_url, update_url, zone_listing_problem,
    zone_lookup_url, DnsRecord, RecordPlan, ZoneListingProblem,
};
use cloudflareddns::config::{Config, ConfigError, EnvState, Setting};
use cloudflareddns::external_ip::{address_from_body, endpoint_failure, ipv4_endpoint, ipv6_endpoint};
use cloudflareddns::settings::{RunMode, Settings, SettingsError};
use cloudflareddns::text::{parse_unsigned, split_text};

fn pairs(items: &[(&str, &str)]) -> Vec<(String, String)> {
    items.iter().map(|(k, v)| (k.to_string(), v.to_string())).collect()
}

fn strings(items: &[&str]) -> Vec<String> {
    items.iter().map(|s| s.to_string()).collect()
}

#[test]
fn split_keeps_empty_pieces() {
    assert_eq!(split_text("A;AAAA", ';'), strings(&["A", "AAAA"]));
    assert_eq!(split_text("", ';'), strings(&[""]));
    assert_eq!(split_text("a;", ';'), strings(&["a", ""]));
    assert_eq!(split_text(";;", ';'), strings(&["", "", ""]));
    assert_eq!(split_text("home", ';'), strings(&["home"]));
}

#[test]
fn split_then_join_gives_back_the_text() {
    for text in ["www;mail;", "", ";x;;y", "single"] {
        assert_eq!(split_text(text, ';').join(";"), text);
    }
}

#[test]
fn split_handles_multibyte_text() {
    assert_eq!(split_text("ü;ß", ';'), strings(&["ü", "ß"]));
}

#[test]
fn parse_unsigned_accepts_what_u64_accepts() {
    assert_eq!(parse_unsigned("300"), Some(300));
    assert_eq!(parse_unsigned("+5"), Some(5));
    assert_eq!(parse_unsigned("007"), Some(7));
    assert_eq!(parse_unsigned("18446744073709551615"), Some(u64::MAX));
}

#[test]
fn parse_unsigned_refuses_what_u64_refuses() {
    for text in ["", "+", "-1", " 5", "5 ", "12a", "18446744073709551616", "99999999999999999999"] {
        assert_eq!(parse_unsigned(text), None, "{text:?}");
        assert_eq!(parse_unsigned(text), text.parse::<u64>().ok());
    }
}

#[test]
fn env_reads_process_before_file() {
    let mut env = EnvState::new(
        pairs(&[("CLOUDFLAREDDNS_HOSTS", "www")]),
        Some(pairs(&[("CLOUDFLAREDDNS_HOSTS", "mail"), ("CLOUDFLAREDDNS_ZONES", "example.com")])),
    );
    assert_eq!(env.var("CLOUDFLAREDDNS_HOSTS"), Some("www".to_string()));
    assert_eq!(env.var("CLOUDFLAREDDNS_ZONES"), None);
    assert!(env.load_dotenv());
    assert_eq!(env.var("CLOUDFLAREDDNS_HOSTS"), Some("www".to_string()));
    assert_eq!(env.var("CLOUDFLAREDDNS_ZONES"), Some("example.com".to_string()));
}

#[test]
fn env_file_first_pair_counts() {
    let mut env = EnvState::new(vec![], Some(pairs(&[("K", "one"), ("K", "two")])));
    assert!(env.load_dotenv());
    assert_eq!(env.var("K"), Some("one".to_string()));
}

#[test]
fn env_without_file_cannot_load() {
    let mut env = EnvState::new(vec![], None);
    assert!(!env.load_dotenv());
    assert!(!env.loaded);
}

#[test]
fn config_new_has_not_merged() {
    assert!(!Config::new().merged);
}

#[test]
fn api_token_from_process_leaves_file_alone() {
    let mut env = EnvState::new(pairs(&[("CLOUDFLAREDDNS_APITOKEN", "secret")]), Some(vec![]));
    let mut conf = Config::new();
    assert_eq!(conf.read_error(&env, Setting::ApiToken), None);
    assert_eq!(conf.api_token(&mut env), "secret");
    assert!(!conf.merged);
    assert!(!env.loaded);
}

#[test]
fn api_token_falls_back_to_file() {
    let mut env = EnvState::new(vec![], Some(pairs(&[("CLOUDFLAREDDNS_APITOKEN", "from-file")])));
    let mut conf = Config::new();
    assert_eq!(conf.read_error(&env, Setting::ApiToken), None);
    assert_eq!(conf.api_token(&mut env), "from-file");
    assert!(conf.merged);
    assert!(env.loaded);
}

#[test]
fn api_token_missing_everywhere() {
    let env = EnvState::new(vec![], Some(vec![]));
    let conf = Config::new();
    assert_eq!(conf.read_error(&env, Setting::ApiToken), Some(ConfigError::NotSet(Setting::ApiToken)));
    let env = EnvState::new(vec![], None);
    assert_eq!(conf.read_error(&env, Setting::ApiToken), Some(ConfigError::DotenvUnavailable));
    let merged = Config { merged: true };
    assert_eq!(merged.read_error(&env, Setting::ApiToken), Some(ConfigError::DotenvUnavailable));
}

#[test]
fn record_types_does_not_reload_merged_file() {
    let env = EnvState::new(vec![], None);
    let conf = Config { merged: true };
    assert_eq!(conf.read_error(&env, Setting::RecordTypes), Some(ConfigError::NotSet(Setting::RecordTypes)));
    assert_eq!(Config::new().read_error(&env, Setting::RecordTypes), Some(ConfigError::DotenvUnavailable));
    let mut env = EnvState::new(pairs(&[("CLOUDFLAREDDNS_RECORDTYPES", "A")]), None);
    let mut conf = Config { merged: true };
    assert_eq!(conf.record_types(&mut env), "A");
    assert!(!env.loaded);
}

#[test]
fn record_types_merges_file_once() {
    let mut env = EnvState::new(vec![], Some(pairs(&[("CLOUDFLAREDDNS_RECORDTYPES", "A;AAAA")])));
    let mut conf = Config::new();
    assert_eq!(conf.read_error(&env, Setting::RecordTypes), None);
    assert_eq!(conf.record_types(&mut env), "A;AAAA");
    assert!(conf.merged && env.loaded);
}

#[test]
fn repeat_interval_defaults_to_zero() {
    let mut env = EnvState::new(vec![], Some(vec![]));
    let mut conf = Config::new();
    assert_eq!(conf.read_error(&env, Setting::RepeatInterval), None);
    assert_eq!(conf.repeat_interval(&mut env), 0);
    assert!(conf.merged);
    let mut env = EnvState::new(pairs(&[("CLOUDFLAREDDNS_REPEAT_INTERVAL", "soon")]), None);
    assert_eq!(Config::new().repeat_interval(&mut env), 0);
    let mut env = EnvState::new(pairs(&[("CLOUDFLAREDDNS_REPEAT_INTERVAL", "300")]), None);
    assert_eq!(Config::new().repeat_interval(&mut env), 300);
    let mut env = EnvState::new(vec![], Some(pairs(&[("CLOUDFLAREDDNS_REPEAT_INTERVAL", "60")])));
    assert_eq!(Config::new().repeat_interval(&mut env), 60);
    assert_eq!(RunMode::from_interval(0), RunMode::Once);
    let env = EnvState::new(vec![], None);
    assert_eq!(
        Config::new().read_error(&env, Setting::RepeatInterval),
        Some(ConfigError::DotenvUnavailable)
    );
    assert_eq!(Config { merged: true }.read_error(&env, Setting::RepeatInterval), None);
}

#[test]
fn hosts_and_zones_see_file_only_after_merge() {
    let file = pairs(&[("CLOUDFLAREDDNS_HOSTS", "www"), ("CLOUDFLAREDDNS_ZONES", "example.com")]);
    let mut env = EnvState::new(vec![], Some(file));
    let conf = Config::new();
    assert_eq!(conf.read_error(&env, Setting::Hosts), Some(ConfigError::NotSet(Setting::Hosts)));
    env.load_dotenv();
    assert_eq!(conf.read_error(&env, Setting::Hosts), None);
    assert_eq!(Config::hosts(&env), "www");
    assert_eq!(Config::zones(&env), "example.com");
    assert!(!conf.merged);
}

#[test]
fn config_error_messages() {
    assert_eq!(
        ConfigError::DotenvUnavailable.message(),
        "Unable to load environment variable from .env file"
    );
    assert_eq!(
        ConfigError::NotSet(Setting::ApiToken).message(),
        "CLOUDFLAREDDNS_APITOKEN environment variable not set"
    );
    assert_eq!(
        ConfigError::NotSet(Setting::Zones).message(),
        "CLOUDFLAREDDNS_ZONES environment variable not set"
    );
}

#[test]
fn settings_read_record_types() {
    let s = Settings::new("t".to_string(), "A;AAAA", "www;mail", "a.com;b.com", 0).unwrap();
    assert!(s.ipv4 && s.ipv6);
    assert_eq!(s.hosts, strings(&["www", "mail"]));
    assert_eq!(s.zones, strings(&["a.com", "b.com"]));
    assert_eq!(s.mode, RunMode::Once);
    let s = Settings::new("t".to_string(), "AAAA", "www", "a.com", 60).unwrap();
    assert!(!s.ipv4 && s.ipv6);
    assert_eq!(s.mode, RunMode::Every(60));
    let s = Settings::new("t".to_string(), "a;AA", "www", "a.com", 60).unwrap();
    assert!(!s.ipv4 && !s.ipv6);
}

#[test]
fn settings_refuse_unpaired_lists() {
    let r = Settings::new("t".to_string(), "A", "www;mail", "a.com", 0);
    assert!(matches!(r, Err(SettingsError::LengthMismatch)));
    assert_eq!(
        SettingsError::LengthMismatch.message(),
        "Error: hosts and zones have different lengths. These need to match"
    );
    assert_eq!(SettingsError::Empty.message(), "Error: hosts and zones must both not be empty.");
    let s = Settings::new("t".to_string(), "A", "", "", 0).unwrap();
    assert_eq!(s.hosts, strings(&[""]));
}

#[test]
fn settings_load_in_order() {
    let mut env = EnvState::new(
        pairs(&[
            ("CLOUDFLAREDDNS_APITOKEN", "tok"),
            ("CLOUDFLAREDDNS_RECORDTYPES", "A"),
            ("CLOUDFLAREDDNS_HOSTS", "www;mail"),
        ]),
        Some(pairs(&[("CLOUDFLAREDDNS_ZONES", "a.com;b.com"), ("CLOUDFLAREDDNS_REPEAT_INTERVAL", "30")])),
    );
    let mut conf = Config::new();
    assert_eq!(Settings::config_error(&conf, &env), None);
    let s = Settings::load(&mut conf, &mut env).unwrap();
    assert_eq!(s.api_token, "tok");
    assert!(s.ipv4 && !s.ipv6);
    assert_eq!(s.mode, RunMode::Every(30));
    assert_eq!(s.zones, strings(&["a.com", "b.com"]));
    assert!(conf.merged);
}

#[test]
fn settings_load_reports_first_missing() {
    let env = EnvState::new(pairs(&[("CLOUDFLAREDDNS_APITOKEN", "tok")]), Some(vec![]));
    assert_eq!(
        Settings::config_error(&Config::new(), &env),
        Some(ConfigError::NotSet(Setting::RecordTypes))
    );
    let env = EnvState::new(pairs(&[("CLOUDFLAREDDNS_APITOKEN", "tok")]), None);
    assert_eq!(Settings::config_error(&Config::new(), &env), Some(ConfigError::DotenvUnavailable));
    let env = EnvState::new(
        pairs(&[("CLOUDFLAREDDNS_APITOKEN", "tok"), ("CLOUDFLAREDDNS_RECORDTYPES", "A")]),
        Some(pairs(&[("CLOUDFLAREDDNS_HOSTS", "www")])),
    );
    assert_eq!(
        Settings::config_error(&Config::new(), &env),
        Some(ConfigError::NotSet(Setting::Zones))
    );
    let mut env = EnvState::new(
        pairs(&[
            ("CLOUDFLAREDDNS_APITOKEN", "tok"),
            ("CLOUDFLAREDDNS_RECORDTYPES", "A"),
            ("CLOUDFLAREDDNS_HOSTS", "www;mail"),
            ("CLOUDFLAREDDNS_ZONES", "a.com"),
        ]),
        Some(vec![]),
    );
    let mut conf = Config::new();
    assert_eq!(Settings::config_error(&conf, &env), None);
    let r = Settings::load(&mut conf, &mut env);
    assert!(matches!(r, Err(SettingsError::LengthMismatch)));
}

#[test]
fn zone_listing_first_id() {
    let ids = vec![Some("z1".to_string()), Some("z2".to_string())];
    assert_eq!(zone_listing_problem(&ids), None);
    assert_eq!(first_zone_id(&ids), "z1");
    assert_eq!(zone_listing_problem(&vec![]), Some(ZoneListingProblem::NoZones));
    assert_eq!(zone_listing_problem(&vec![None, Some("z2".to_string())]), Some(ZoneListingProblem::IdNotText));
}

#[test]
fn run_mode_repeats_until_shutdown() {
    assert!(!RunMode::Once.runs_again(false));
    assert!(RunMode::Every(5).runs_again(false));
    assert!(!RunMode::Every(5).runs_again(true));
}

#[test]
fn cloudflare_urls() {
    assert_eq!(
        zone_lookup_url("example.com"),
        "https://api.cloudflare.com/client/v4/zones?name=example.com"
    );
    assert_eq!(
        records_url("z1", "www.example.com", "A"),
        "https://api.cloudflare.com/client/v4/zones/z1/dns_records?name=www.example.com&type=A"
    );
    assert_eq!(create_url("z1"), "https://api.cloudflare.com/client/v4/zones/z1/dns_records");
    assert_eq!(update_url("z1", "r9"), "https://api.cloudflare.com/client/v4/zones/z1/dns_records/r9");
    assert_eq!(authorization("abc"), "Bearer abc");
}

#[test]
fn record_body_is_proxied_with_automatic_ttl() {
    let b = record_body("A", "www.example.com", "1.2.3.4");
    assert_eq!(b.record_type, "A");
    assert_eq!(b.name, "www.example.com");
    assert_eq!(b.content, "1.2.3.4");
    assert_eq!(b.ttl, 1);
    assert!(b.proxied);
}

fn record(id: Option<&str>, content: Option<&str>) -> DnsRecord {
    DnsRecord { id: id.map(|s| s.to_string()), content: content.map(|s| s.to_string()) }
}

#[test]
fn record_plan_keeps_current_record() {
    let records = vec![record(Some("r1"), Some("1.2.3.4"))];
    assert!(first_record_is_current(&records, "1.2.3.4"));
    assert!(matches!(record_plan(&records, "1.2.3.4"), RecordPlan::Keep));
}

#[test]
fn record_plan_creates_when_none() {
    let records: Vec<DnsRecord> = vec![];
    assert!(!first_record_is_current(&records, "1.2.3.4"));
    assert!(matches!(record_plan(&records, "1.2.3.4"), RecordPlan::Create));
}

#[test]
fn record_plan_updates_first_stale_record() {
    let records = vec![record(Some("r1"), Some("9.9.9.9")), record(Some("r2"), Some("1.2.3.4"))];
    match record_plan(&records, "1.2.3.4") {
        RecordPlan::Update(id) => assert_eq!(id, "r1"),
        _ => panic!("expected an update"),
    }
    let records = vec![record(Some("r1"), None)];
    assert!(matches!(record_plan(&records, "1.2.3.4"), RecordPlan::Update(_)));
}

#[test]
fn record_listing_needs_id_only_for_update() {
    assert!(!record_listing_usable(&vec![record(None, Some("9.9.9.9"))], "1.2.3.4"));
    assert!(record_listing_usable(&vec![record(None, Some("1.2.3.4"))], "1.2.3.4"));
    assert!(record_listing_usable(&vec![], "1.2.3.4"));
}

#[test]
fn endpoints_default_to_ipify() {
    let env = EnvState::new(vec![], None);
    assert_eq!(ipv4_endpoint(&env), "https://api.ipify.org");
    assert_eq!(ipv6_endpoint(&env), "https://api6.ipify.org");
    let env = EnvState::new(
        pairs(&[
            ("CLOUDFLAREDDNS_IPV4_API_ENDPOINT", "https://v4.example"),
            ("CLOUDFLAREDDNS_IPV6_API_ENDPOINT", "https://v6.example"),
        ]),
        None,
    );
    assert_eq!(ipv4_endpoint(&env), "https://v4.example");
    assert_eq!(ipv6_endpoint(&env), "https://v6.example");
}

#[test]
fn address_answer_must_be_an_address() {
    assert_eq!(address_from_body("1.2.3.4".to_string(), true), Ok("1.2.3.4".to_string()));
    assert_eq!(
        address_from_body("<html>".to_string(), false),
        Err("IP address <html> is invalid".to_string())
    );
    assert_eq!(
        endpoint_failure("HTTP status server error (500)"),
        "Retrieving the IP address API endpoint failed: HTTP status server error (500)"
    );
}
