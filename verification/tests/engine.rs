use rukinia::probe::FixedProbe;
use rukinia::run_tasks::find_outermost_parentheses;
use rukinia::run_tasks::line_is_blank;
use rukinia::run_tasks::rukinia_execute_single_test;
use rukinia::rukinia_result::RukiniaResultType;
use rukinia::strutil::convert_config_line_to_vector_string;

#[test]
fn test_not_true_line() {
    let probe = FixedProbe::default();
    let result = rukinia_execute_single_test("not true", &probe).unwrap();
    assert_eq!(result.result_type, RukiniaResultType::TestFail);
    assert_eq!(result.label, "not true");
}

#[test]
fn test_paren_line_reconstructs_label() {
    let probe = FixedProbe::default();
    let result = rukinia_execute_single_test("(true and false) or true", &probe).unwrap();
    assert_eq!(result.result_type, RukiniaResultType::TestSuccess);
    assert_eq!(result.label, "(true and false) or true");
}

#[test]
fn test_and_kind_and_label() {
    let probe = FixedProbe::default();
    let result = rukinia_execute_single_test("true and false", &probe).unwrap();
    assert_eq!(result.result_type, RukiniaResultType::TestFail);
    assert_eq!(result.label, "true and false");
    let result = rukinia_execute_single_test("true and true", &probe).unwrap();
    assert_eq!(result.result_type, RukiniaResultType::TestSuccess);
    assert_eq!(result.label, "true and true");
}

#[test]
fn test_or_kind_and_label() {
    let probe = FixedProbe::default();
    let result = rukinia_execute_single_test("false or true", &probe).unwrap();
    assert_eq!(result.result_type, RukiniaResultType::TestSuccess);
    assert_eq!(result.label, "false or true");
    let result = rukinia_execute_single_test("false or false", &probe).unwrap();
    assert_eq!(result.result_type, RukiniaResultType::TestFail);
    assert_eq!(result.label, "false or false");
}

#[test]
fn test_as_overrides_label() {
    let probe = FixedProbe::default();
    let result = rukinia_execute_single_test("as \"ok\" true", &probe).unwrap();
    assert_eq!(result.result_type, RukiniaResultType::TestSuccess);
    assert_eq!(result.label, "ok");
    let result = rukinia_execute_single_test("as \"ko\" false", &probe).unwrap();
    assert_eq!(result.result_type, RukiniaResultType::TestFail);
    assert_eq!(result.label, "ko");
}

#[test]
fn test_as_after_command_is_an_argument() {
    let probe = FixedProbe::default();
    let result = rukinia_execute_single_test("true as \"ok\"", &probe).unwrap();
    assert_eq!(result.result_type, RukiniaResultType::TestSuccess);
    assert_eq!(result.label, "true");
}

#[test]
fn test_as_after_resolved_parens_overrides() {
    let probe = FixedProbe::default();
    let result = rukinia_execute_single_test("(true) as done", &probe).unwrap();
    assert_eq!(result.result_type, RukiniaResultType::TestSuccess);
    assert_eq!(result.label, "done");
}

#[test]
fn test_missing_as_argument_is_error() {
    let probe = FixedProbe::default();
    let error = rukinia_execute_single_test("not as", &probe).unwrap_err();
    assert_eq!(
        error.label,
        "Command used : AS label error | Detailed error : Missing argument for AS | Error message : No argument found"
    );
}

#[test]
fn test_user_without_argument_is_error() {
    let probe = FixedProbe::default();
    let error = rukinia_execute_single_test("rukinia_user", &probe).unwrap_err();
    assert_eq!(
        error.label,
        "Command used : rukinia_user  | Detailed error : Missing username argument | Error message : No username provided"
    );
}

#[test]
fn test_first_outermost_parentheses() {
    assert_eq!(
        find_outermost_parentheses("(a and b) or (c and d)"),
        Some((0, 8))
    );
    assert_eq!(find_outermost_parentheses("x (a (b) c) y"), Some((2, 10)));
    assert_eq!(find_outermost_parentheses("(a and b"), None);
    assert_eq!(find_outermost_parentheses("no parens"), None);
}

#[test]
fn test_unbalanced_parens_evaluate_flat() {
    let probe = FixedProbe::default();
    let error = rukinia_execute_single_test("(true and false", &probe).unwrap_err();
    assert_eq!(
        error.label,
        "Command used : Invalid task | Detailed error : Failed to parse rukinia task | Error message : Invalid task: (true"
    );
}

#[test]
fn test_double_negation_behaves_as_single() {
    let probe = FixedProbe::default();
    let twice = rukinia_execute_single_test("not not true", &probe).unwrap();
    let once = rukinia_execute_single_test("not true", &probe).unwrap();
    assert_eq!(twice.result_type, once.result_type);
    assert_eq!(twice.label, once.label);
}

#[test]
fn test_nested_paren_label_splice() {
    let probe = FixedProbe::default();
    let result = rukinia_execute_single_test("(as inner true) and false", &probe).unwrap();
    assert_eq!(result.result_type, RukiniaResultType::TestFail);
    assert_eq!(result.label, "(inner) and false");
}

#[test]
fn test_unknown_task_is_error() {
    let probe = FixedProbe::default();
    let error = rukinia_execute_single_test("frobnicate", &probe).unwrap_err();
    assert_eq!(
        error.label,
        "Command used : Invalid task | Detailed error : Failed to parse rukinia task | Error message : Invalid task: frobnicate"
    );
}

#[test]
fn test_empty_line_reports_no_task() {
    let probe = FixedProbe::default();
    let error = rukinia_execute_single_test("", &probe).unwrap_err();
    assert_eq!(
        error.label,
        "Command used : No task found in the test | Detailed error : Failed to parse rukinia task | Error message : No task in test: "
    );
    assert!(line_is_blank("   \t  "));
    assert!(!line_is_blank(" true "));
}

#[test]
fn test_id_modifier_is_parsed_and_ignored() {
    let probe = FixedProbe::default();
    let result = rukinia_execute_single_test("id boot-tag true", &probe).unwrap();
    assert_eq!(result.result_type, RukiniaResultType::TestSuccess);
    assert_eq!(result.label, "true");
}

#[test]
fn test_missing_id_argument_is_error() {
    let probe = FixedProbe::default();
    let error = rukinia_execute_single_test("id", &probe).unwrap_err();
    assert_eq!(
        error.label,
        "Command used : ID label error | Detailed error : Missing argument for ID | Error message : No argument found"
    );
}

#[test]
fn test_kconf_without_argument_is_error() {
    let probe = FixedProbe::default();
    let error = rukinia_execute_single_test("rukinia_kconf", &probe).unwrap_err();
    assert_eq!(
        error.label,
        "Command used : rukinia_kconf  | Detailed error : Missing kernel config argument | Error message : No kernel config provided"
    );
}

#[test]
fn test_tokenizer_quoting() {
    let tokens = convert_config_line_to_vector_string("a \"b c\" d");
    assert_eq!(tokens, vec!["a".to_string(), "b c".to_string(), "d".to_string()]);
    let tokens = convert_config_line_to_vector_string("  spaced\tout  ");
    assert_eq!(tokens, vec!["spaced".to_string(), "out".to_string()]);
    let tokens = convert_config_line_to_vector_string("\"unclosed");
    assert_eq!(tokens, vec!["\"unclosed".to_string()]);
    let tokens = convert_config_line_to_vector_string("");
    assert!(tokens.is_empty());
    let tokens = convert_config_line_to_vector_string("\"\"");
    assert_eq!(tokens, vec!["".to_string()]);
}
