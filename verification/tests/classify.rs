use sentinel::config::SecurityConfig;
use sentinel::parser::{
    classify, classify_groups, classify_request, config_path, parse_u16, LogStatus, Parser,
};

fn strings(items: &[&str]) -> Vec<String> {
    items.iter().map(|s| s.to_string()).collect()
}

fn line(address: &str, method: &str, path: &str, status: &str, agent: &str) -> String {
    format!("{} - - [10/Oct/2024:13:55:36 +0000] \"{} {} HTTP/1.1\" {} 512 \"-\" \"{}\"", address, method, path, status, agent)
}

fn rules() -> SecurityConfig {
    SecurityConfig {
        sensitive_files: strings(&["/.env", "/.git"]),
        cms_attacks: strings(&["/xmlrpc.php", "/wp-admin"]),
        instant_ban: strings(&["/wp-login.php", "/shell"]),
        bad_user_agents: strings(&["sqlmap", "nikto"]),
        ..SecurityConfig::default()
    }
}

#[test]
fn instant_ban_example() {
    let config = SecurityConfig {
        instant_ban: strings(&["/wp-login.php"]),
        ban_time_seconds: 3600,
        ..SecurityConfig::default()
    };
    let verdict = classify("1.2.3.4 - - \"GET /wp-login.php HTTP/1.1\" 200 - \"-\" \"curl/7.0\"", &config);
    assert_eq!(
        verdict,
        LogStatus::InstantBan("1.2.3.4".to_string(), "Instant Ban: /wp-login.php".to_string())
    );
}

#[test]
fn lines_without_record_shape_are_clean() {
    let config = rules();
    for text in [
        "",
        "garbage",
        "/wp-login.php",
        "1.2.3.4 /wp-login.php 404",
        "1.2.3.4 - - \"OPTIONS /wp-login.php HTTP/1.1\" 404 - \"-\" \"sqlmap\"",
        "1.2.3.4 - - \"GET /wp-login.php HTTP/1.1\" abc - \"-\" \"sqlmap\"",
        "1.2.3.4 - - \"GET /wp-login.php HTTP/1.1\" 404 - \"-\"",
    ] {
        assert_eq!(classify(text, &config), LogStatus::Clean);
    }
}

#[test]
fn instant_ban_wins_over_probe() {
    let config = SecurityConfig {
        sensitive_files: strings(&["/shell"]),
        instant_ban: strings(&["/shell"]),
        ..SecurityConfig::default()
    };
    let verdict = classify(&line("5.6.7.8", "GET", "/shell.php", "404", "Mozilla"), &config);
    assert_eq!(
        verdict,
        LogStatus::InstantBan("5.6.7.8".to_string(), "Instant Ban: /shell".to_string())
    );
}

#[test]
fn sensitive_file_at_200_is_clean() {
    let verdict = classify(&line("5.6.7.8", "GET", "/.env", "200", "Mozilla"), &rules());
    assert_eq!(verdict, LogStatus::Clean);
}

#[test]
fn sensitive_file_at_404_and_403_is_probe() {
    for status in ["404", "403"] {
        let verdict = classify(&line("5.6.7.8", "GET", "/.env", status, "Mozilla"), &rules());
        assert_eq!(
            verdict,
            LogStatus::Suspicious("5.6.7.8".to_string(), "Probe: /.env".to_string())
        );
    }
}

#[test]
fn sensitive_file_at_401_is_clean() {
    let verdict = classify(&line("5.6.7.8", "GET", "/.git/config", "401", "Mozilla"), &rules());
    assert_eq!(verdict, LogStatus::Clean);
}

#[test]
fn cms_attack_by_status() {
    for status in ["400", "401", "404"] {
        let verdict = classify(&line("9.9.9.9", "POST", "/xmlrpc.php", status, "Mozilla"), &rules());
        assert_eq!(
            verdict,
            LogStatus::Suspicious("9.9.9.9".to_string(), "CMS/Auth Attack: /xmlrpc.php".to_string())
        );
    }
    for status in ["200", "403", "500"] {
        let verdict = classify(&line("9.9.9.9", "POST", "/xmlrpc.php", status, "Mozilla"), &rules());
        assert_eq!(verdict, LogStatus::Clean);
    }
}

#[test]
fn probe_comes_before_cms_attack() {
    let config = SecurityConfig {
        sensitive_files: strings(&["/admin"]),
        cms_attacks: strings(&["/admin"]),
        ..SecurityConfig::default()
    };
    let verdict = classify(&line("9.9.9.9", "GET", "/admin", "404", "Mozilla"), &config);
    assert_eq!(verdict, LogStatus::Suspicious("9.9.9.9".to_string(), "Probe: /admin".to_string()));
}

#[test]
fn first_listed_pattern_is_named() {
    let config = SecurityConfig {
        instant_ban: strings(&["/nothing", "login", "/wp-login.php"]),
        ..SecurityConfig::default()
    };
    let verdict = classify(&line("1.1.1.1", "GET", "/wp-login.php", "200", "Mozilla"), &config);
    assert_eq!(
        verdict,
        LogStatus::InstantBan("1.1.1.1".to_string(), "Instant Ban: login".to_string())
    );
}

#[test]
fn path_is_matched_in_lower_case() {
    let verdict = classify(&line("1.1.1.1", "GET", "/WP-Login.PHP", "200", "Mozilla"), &rules());
    assert_eq!(
        verdict,
        LogStatus::InstantBan("1.1.1.1".to_string(), "Instant Ban: /wp-login.php".to_string())
    );
}

#[test]
fn injection_markers_at_any_status() {
    for path in ["/?q=1+UNION+SELECT+1", "/?x=eval(1)", "/?x=<script>alert(1)</script>"] {
        let verdict = classify(&line("2.2.2.2", "GET", path, "200", "Mozilla"), &rules());
        assert_eq!(
            verdict,
            LogStatus::Suspicious("2.2.2.2".to_string(), "Injection Attempt".to_string())
        );
    }
}

#[test]
fn bad_user_agent_is_suspicious() {
    let verdict = classify(&line("3.3.3.3", "GET", "/", "200", "sqlmap/1.7"), &rules());
    assert_eq!(
        verdict,
        LogStatus::Suspicious("3.3.3.3".to_string(), "Bad User Agent: sqlmap/1.7".to_string())
    );
}

#[test]
fn user_agent_is_not_lower_cased() {
    let verdict = classify(&line("3.3.3.3", "GET", "/", "200", "SQLMAP/1.7"), &rules());
    assert_eq!(verdict, LogStatus::Clean);
}

#[test]
fn oversized_status_counts_as_200() {
    let verdict = classify(&line("5.6.7.8", "GET", "/.env", "99999", "Mozilla"), &rules());
    assert_eq!(verdict, LogStatus::Clean);
}

#[test]
fn default_rules_find_nothing() {
    let parser = Parser::new();
    assert_eq!(parser.parse_line(&line("1.2.3.4", "GET", "/wp-login.php", "404", "sqlmap")), LogStatus::Clean);
    assert_eq!(parser.get_config(), &SecurityConfig::default());
}

#[test]
fn parser_follows_loaded_rules() {
    let mut parser = Parser::new();
    assert_eq!(parser.load_config(Ok(rules())), Ok(()));
    assert_eq!(
        parser.parse_line(&line("1.2.3.4", "GET", "/wp-login.php", "404", "sqlmap")),
        LogStatus::InstantBan("1.2.3.4".to_string(), "Instant Ban: /wp-login.php".to_string())
    );
}

#[test]
fn classify_request_takes_path_as_given() {
    let verdict = classify_request("7.7.7.7", "/.env", 403, "Mozilla", &rules());
    assert_eq!(verdict, LogStatus::Suspicious("7.7.7.7".to_string(), "Probe: /.env".to_string()));
    let verdict = classify_request("7.7.7.7", "/.ENV", 403, "Mozilla", &rules());
    assert_eq!(verdict, LogStatus::Clean);
}

#[test]
fn empty_pattern_matches_every_path() {
    let config = SecurityConfig { instant_ban: strings(&[""]), ..SecurityConfig::default() };
    let verdict = classify_request("7.7.7.7", "/", 200, "Mozilla", &config);
    assert_eq!(verdict, LogStatus::InstantBan("7.7.7.7".to_string(), "Instant Ban: ".to_string()));
}

#[test]
fn missing_groups_fall_back() {
    let groups: Vec<Option<String>> = vec![Some("x".to_string()), Some("8.8.8.8".to_string())];
    assert_eq!(classify_groups(&groups, &rules()), LogStatus::Clean);
    let groups: Vec<Option<String>> = vec![
        None,
        Some("8.8.8.8".to_string()),
        None,
        Some("/A/.ENV".to_string()),
        Some("404".to_string()),
        None,
    ];
    assert_eq!(
        classify_groups(&groups, &rules()),
        LogStatus::Suspicious("8.8.8.8".to_string(), "Probe: /.env".to_string())
    );
}

#[test]
fn config_path_from_environment_or_default() {
    assert_eq!(config_path(Some("/etc/sentinel.yaml".to_string())), "/etc/sentinel.yaml");
    assert_eq!(config_path(None), "sentinel_config.yaml");
}

fn groups_with_status(status: &str) -> Vec<Option<String>> {
    vec![
        None,
        Some("8.8.8.8".to_string()),
        Some("GET".to_string()),
        Some("/.env".to_string()),
        Some(status.to_string()),
        Some("Mozilla".to_string()),
    ]
}

#[test]
fn status_text_is_read_as_a_decimal_number() {
    let probe = LogStatus::Suspicious("8.8.8.8".to_string(), "Probe: /.env".to_string());
    for status in ["404", "403", "+404", "000404"] {
        assert_eq!(classify_groups(&groups_with_status(status), &rules()), probe);
    }
    for status in ["", "+", "-404", "404 ", " 404", "4o4", "65940", "0x194", "200", "\u{664}\u{660}\u{664}"] {
        assert_eq!(classify_groups(&groups_with_status(status), &rules()), LogStatus::Clean);
    }
}

#[test]
fn status_in_other_digits_counts_as_200() {
    let text = "5.6.7.8 - - \"GET /.env HTTP/1.1\" \u{664}\u{660}\u{664} - \"-\" \"Mozilla\"";
    assert_eq!(classify(text, &rules()), LogStatus::Clean);
    let injected = "5.6.7.8 - - \"GET /?a=<script> HTTP/1.1\" \u{664}\u{660}\u{664} - \"-\" \"Mozilla\"";
    assert_eq!(
        classify(injected, &rules()),
        LogStatus::Suspicious("5.6.7.8".to_string(), "Injection Attempt".to_string())
    );
}

#[test]
fn parse_u16_reads_decimal_digits() {
    assert_eq!(parse_u16("0"), Some(0));
    assert_eq!(parse_u16("404"), Some(404));
    assert_eq!(parse_u16("+404"), Some(404));
    assert_eq!(parse_u16("00000000000000000000200"), Some(200));
    assert_eq!(parse_u16("65535"), Some(65535));
    assert_eq!(parse_u16("65536"), None);
    assert_eq!(parse_u16("99999999999999999999999999"), None);
    assert_eq!(parse_u16("655360x"), None);
    assert_eq!(parse_u16(""), None);
    assert_eq!(parse_u16("+"), None);
    assert_eq!(parse_u16("++1"), None);
    assert_eq!(parse_u16("-1"), None);
    assert_eq!(parse_u16("1_0"), None);
    assert_eq!(parse_u16("12a"), None);
}

#[test]
fn parse_u16_agrees_with_the_standard_library() {
    for text in ["0", "7", "+7", "-7", "007", "65535", "65536", "70000", "", "+", " 1", "1 ", "\u{661}", "4\u{0301}"] {
        assert_eq!(parse_u16(text), text.parse::<u16>().ok());
    }
}
