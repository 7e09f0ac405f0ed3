use rukinia::probe::FixedProbe;
use rukinia::probe::InterfaceAddress;
use rukinia::run_tasks::rukinia_execute_single_test;
use rukinia::rukinia_result::RukiniaError;
use rukinia::rukinia_result::RukiniaResultEntry;
use rukinia::rukinia_result::RukiniaResultType;
use rukinia::strutil::any_line_starts_with;
use rukinia::strutil::contains_lower;
use rukinia::strutil::join_spaces;
use rukinia::strutil::split_blank;
use rukinia::strutil::string_eq;
use rukinia::strutil::trim_blank;
use rukinia::strutil::trim_quotes;
use rukinia::operator::LogicalOperator;

#[test]
fn test_kconf_matches_trimmed_content() {
    let probe = FixedProbe {
        kernel_config: Ok("\nCONFIG_X=y\n".to_string()),
        ..FixedProbe::default()
    };
    let result = rukinia_execute_single_test("rukinia_kconf CONFIG_X=y", &probe).unwrap();
    assert_eq!(result.result_type, RukiniaResultType::TestSuccess);
    assert_eq!(result.label, "Checking kernel config CONFIG_X=y set to ");
    let result = rukinia_execute_single_test("rukinia_kconf CONFIG_Y=n", &probe).unwrap();
    assert_eq!(result.result_type, RukiniaResultType::TestFail);
}

#[test]
fn test_kmod_first_word_of_line() {
    let probe = FixedProbe {
        modules_file: Ok("snd 16384 0 - Live\next4 745472 1 - Live\n".to_string()),
        ..FixedProbe::default()
    };
    let result = rukinia_execute_single_test("rukinia_kmod ext4", &probe).unwrap();
    assert_eq!(result.result_type, RukiniaResultType::TestSuccess);
    assert_eq!(result.label, "Checking kernel module ext4 loaded");
    let result = rukinia_execute_single_test("rukinia_kmod 745472", &probe).unwrap();
    assert_eq!(result.result_type, RukiniaResultType::TestFail);
}

#[test]
fn test_kthread_ignores_userspace_processes() {
    let probe = FixedProbe {
        process_statuses: Ok(vec![
            "Name:\tbash\nVmSize:\t1234 kB\n".to_string(),
            "Name:\tkworker\nState:\tI (idle)\n".to_string(),
        ]),
        ..FixedProbe::default()
    };
    let result = rukinia_execute_single_test("rukinia_kthread kworker", &probe).unwrap();
    assert_eq!(result.result_type, RukiniaResultType::TestSuccess);
    assert_eq!(result.label, "Checking kernel thread kworker is running");
    let result = rukinia_execute_single_test("rukinia_kthread bash", &probe).unwrap();
    assert_eq!(result.result_type, RukiniaResultType::TestFail);
}

#[test]
fn test_network_is_up_trims_state() {
    let probe = FixedProbe {
        interface_state: Ok("up\n".to_string()),
        ..FixedProbe::default()
    };
    let result = rukinia_execute_single_test("rukinia_netif_is_up eth0", &probe).unwrap();
    assert_eq!(result.result_type, RukiniaResultType::TestSuccess);
    assert_eq!(result.label, "Checking if interface eth0 is up");
    let probe = FixedProbe {
        interface_state: Ok("down\n".to_string()),
        ..FixedProbe::default()
    };
    let result = rukinia_execute_single_test("rukinia_netif_is_up eth0", &probe).unwrap();
    assert_eq!(result.result_type, RukiniaResultType::TestFail);
}

#[test]
fn test_netif_has_ip_families_and_flags() {
    let probe = FixedProbe {
        addresses: Ok(vec![InterfaceAddress {
            name: "eth0".to_string(),
            flags: "IFF_UP | IFF_BROADCAST".to_string(),
            has_ipv4: true,
            has_ipv6: false,
        }]),
        ..FixedProbe::default()
    };
    let result = rukinia_execute_single_test("rukinia_netif_has_ip eth0", &probe).unwrap();
    assert_eq!(result.result_type, RukiniaResultType::TestSuccess);
    assert_eq!(result.label, "Checking interface eth0 has ipv-4 assigned ");
    let result = rukinia_execute_single_test("rukinia_netif_has_ip eth0 -6", &probe).unwrap();
    assert_eq!(result.result_type, RukiniaResultType::TestFail);
    let result = rukinia_execute_single_test("rukinia_netif_has_ip eth0 iff_up", &probe).unwrap();
    assert_eq!(result.result_type, RukiniaResultType::TestSuccess);
    assert_eq!(result.label, "Checking interface eth0 has ipv-4 assigned iff_up ");
    let result =
        rukinia_execute_single_test("rukinia_netif_has_ip eth0 iff_loopback", &probe).unwrap();
    assert_eq!(result.result_type, RukiniaResultType::TestFail);
}

#[test]
fn test_http_request_outcomes() {
    let probe = FixedProbe {
        http_success: Ok(true),
        ..FixedProbe::default()
    };
    let result =
        rukinia_execute_single_test("rukinia_http_request http://example.test", &probe).unwrap();
    assert_eq!(result.result_type, RukiniaResultType::TestSuccess);
    assert_eq!(
        result.label,
        "Checking http url http://example.test does return 200"
    );
    let probe = FixedProbe::default();
    let error =
        rukinia_execute_single_test("rukinia_http_request http://example.test", &probe)
            .unwrap_err();
    assert_eq!(
        error.label,
        "Command used : rukinia_http_request http://example.test | Detailed error : HTTP REQWEST failed | Error message : unavailable"
    );
}

#[test]
fn test_symlink_compares_canonical_targets() {
    let probe = FixedProbe {
        symlink_present: true,
        link_target: Ok("/target".to_string()),
        ..FixedProbe::default()
    };
    let result = rukinia_execute_single_test("rukinia_symlink /link /target", &probe).unwrap();
    assert_eq!(result.result_type, RukiniaResultType::TestSuccess);
    assert_eq!(result.label, "Checking link /link does point to /target");
    let result = rukinia_execute_single_test("rukinia_symlink /link /other", &probe).unwrap();
    assert_eq!(result.result_type, RukiniaResultType::TestFail);
    let plain = FixedProbe::default();
    let result = rukinia_execute_single_test("rukinia_symlink /link /target", &plain).unwrap();
    assert_eq!(result.result_type, RukiniaResultType::TestFail);
}

#[test]
fn test_symlink_missing_target_argument() {
    let probe = FixedProbe::default();
    let error = rukinia_execute_single_test("rukinia_symlink /link", &probe).unwrap_err();
    assert_eq!(
        error.label,
        "Command used : rukinia_symlink /link | Detailed error : Missing target path argument | Error message : No target path provided"
    );
}

#[test]
fn test_user_memberof_checks_every_argument() {
    let probe = FixedProbe {
        primary_group: Ok(Some(100)),
        group_list: Ok(vec![100, 4, 27]),
        group_gid: Some(100),
        ..FixedProbe::default()
    };
    let result =
        rukinia_execute_single_test("rukinia_user_memberof alice users", &probe).unwrap();
    assert_eq!(result.result_type, RukiniaResultType::TestSuccess);
    assert_eq!(result.label, "Checking user alice is member of users");
    let missing = FixedProbe {
        primary_group: Ok(Some(100)),
        group_list: Ok(vec![100]),
        group_gid: None,
        ..FixedProbe::default()
    };
    let result =
        rukinia_execute_single_test("rukinia_user_memberof alice users", &missing).unwrap();
    assert_eq!(result.result_type, RukiniaResultType::TestFail);
}

#[test]
fn test_user_memberof_unknown_user() {
    let probe = FixedProbe {
        primary_group: Ok(None),
        ..FixedProbe::default()
    };
    let error = rukinia_execute_single_test("rukinia_user_memberof ghost", &probe).unwrap_err();
    assert_eq!(
        error.label,
        "Command used : rukinia_user_memberof ghost | Detailed error : User not found | Error message : Failed to give user ghost"
    );
}

#[test]
fn test_group_file_error_is_reported() {
    let probe = FixedProbe::default();
    let error = rukinia_execute_single_test("rukinia_group adm", &probe).unwrap_err();
    assert_eq!(
        error.label,
        "Command used : rukinia_group adm | Detailed error : Failed to open /etc/group | Error message : unavailable"
    );
}

#[test]
fn test_user_quoted_argument_is_trimmed() {
    let probe = FixedProbe {
        passwd_file: Ok("root:x:0:0:root:/root:/bin/bash\n".to_string()),
        ..FixedProbe::default()
    };
    let result = rukinia_execute_single_test("rukinia_user \"root\"", &probe).unwrap();
    assert_eq!(result.result_type, RukiniaResultType::TestSuccess);
    assert_eq!(result.label, "Checking user root exists");
}

#[test]
fn test_sink_lines() {
    let entry = RukiniaResultEntry::new(RukiniaResultType::TestSuccess, "it works".to_string());
    assert_eq!(entry.text_line(), "it works, SUCCESS\n");
    assert_eq!(
        entry.junit_line(),
        "<testcase name=\"it works\" result=\"SUCCESS\" />\n"
    );
    let entry = RukiniaResultEntry::new(RukiniaResultType::TestFail, "it fails".to_string());
    assert_eq!(entry.text_line(), "it fails, FAIL\n");
    let error = RukiniaError::new(
        "cmd args".to_string(),
        "detail".to_string(),
        "message".to_string(),
    );
    assert_eq!(
        error.label,
        "Command used : cmd args | Detailed error : detail | Error message : message"
    );
    assert_eq!(
        error.text_line(),
        "Command used : cmd args | Detailed error : detail | Error message : message, SYSTEM ERROR\n"
    );
}

#[test]
fn test_string_utilities() {
    assert!(string_eq("abc", "abc"));
    assert!(!string_eq("abc", "abd"));
    assert_eq!(trim_quotes("\"quoted\""), "quoted");
    assert_eq!(trim_quotes("plain"), "plain");
    assert_eq!(trim_quotes("\"\""), "");
    assert_eq!(trim_blank("  padded \t"), "padded");
    assert!(any_line_starts_with("alpha:1\nbeta:2\n", "beta"));
    assert!(!any_line_starts_with("alpha:1\nbeta:2\n", "gamma"));
    assert!(contains_lower("IFF_UP | IFF_RUNNING", "iff_running"));
    assert!(!contains_lower("IFF_UP", "running"));
    assert_eq!(
        split_blank("Name:\tkworker extra"),
        vec!["Name:".to_string(), "kworker".to_string(), "extra".to_string()]
    );
    assert_eq!(
        join_spaces(&vec!["a".to_string(), "b".to_string()]),
        "a b"
    );
    assert_eq!(join_spaces(&Vec::new()), "");
}

#[test]
fn test_logical_operator_parse() {
    assert_eq!(LogicalOperator::from_str("and"), Ok(LogicalOperator::And));
    assert_eq!(LogicalOperator::from_str("or"), Ok(LogicalOperator::Or));
    assert!(LogicalOperator::from_str("xor").is_err());
    assert!(LogicalOperator::from_str("AND").is_err());
}
