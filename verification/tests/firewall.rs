use sentinel::firewall::{decimal, IpSetFirewall};

#[test]
fn set_is_named() {
    assert_eq!(IpSetFirewall::new().set_name(), "siest_sentinel");
}

#[test]
fn create_set_arguments() {
    assert_eq!(
        IpSetFirewall::new().create_set_args(),
        vec!["create", "siest_sentinel", "hash:ip", "timeout", "0", "-exist"]
    );
}

#[test]
fn rule_arguments() {
    let firewall = IpSetFirewall::new();
    assert_eq!(
        firewall.check_rule_args(),
        vec!["-C", "INPUT", "-m", "set", "--match-set", "siest_sentinel", "src", "-j", "DROP"]
    );
    assert_eq!(
        firewall.insert_rule_args(),
        vec!["-I", "INPUT", "1", "-m", "set", "--match-set", "siest_sentinel", "src", "-j", "DROP"]
    );
}

#[test]
fn rule_is_installed_unless_found() {
    assert!(IpSetFirewall::rule_missing(None));
    assert!(IpSetFirewall::rule_missing(Some(false)));
    assert!(!IpSetFirewall::rule_missing(Some(true)));
}

#[test]
fn ban_arguments() {
    assert_eq!(
        IpSetFirewall::new().ban_ip_args("1.2.3.4", 3600),
        vec!["add", "siest_sentinel", "1.2.3.4", "timeout", "3600", "-exist"]
    );
}

#[test]
fn ban_twice_gives_the_same_renewing_command() {
    let firewall = IpSetFirewall::new();
    let first = firewall.ban_ip_args("1.2.3.4", 60);
    let second = firewall.ban_ip_args("1.2.3.4", 60);
    assert_eq!(first, second);
    assert_eq!(first[5], "-exist");
}

#[test]
fn command_outcome_reports_error_output() {
    assert_eq!(IpSetFirewall::command_outcome(true, "Failed to ban IP", "ignored"), Ok(()));
    assert_eq!(
        IpSetFirewall::command_outcome(false, "Failed to ban IP", "no such set"),
        Err("Failed to ban IP: no such set".to_string())
    );
}

#[test]
fn decimal_spells_numbers() {
    assert_eq!(decimal(0), "0");
    assert_eq!(decimal(7), "7");
    assert_eq!(decimal(10), "10");
    assert_eq!(decimal(86400), "86400");
    assert_eq!(decimal(1234567890), "1234567890");
    assert_eq!(decimal(usize::MAX), usize::MAX.to_string());
}

#[test]
fn ban_arguments_for_the_default_ban_time() {
    assert_eq!(
        IpSetFirewall::new().ban_ip_args("203.0.113.9", 86400),
        vec!["add", "siest_sentinel", "203.0.113.9", "timeout", "86400", "-exist"]
    );
    assert_eq!(IpSetFirewall::new().ban_ip_args("203.0.113.9", 0)[4], "0");
}
