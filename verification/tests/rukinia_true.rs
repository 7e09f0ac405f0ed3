use rukinia::rukinia_result::RukiniaResultEntry;
use rukinia::rukinia_result::RukiniaResultType;
use rukinia::syntax::Syntax;
use rukinia::syntax::SyntaxForTrait;
use rukinia::tasks::rukinia_true::RukiniaTrue;
use rukinia::tasks::task::RukiniaProcess;

#[test]
fn test_rukinia_true() {
    let result = RukiniaTrue::new(Vec::new(), SyntaxForTrait::Arguments(Vec::new()));
    assert!(result.is_ok());
    let rukinia_cmd = result.unwrap();
    assert!(rukinia_cmd.get_result().result_type == RukiniaResultType::TestSuccess);
    assert!(rukinia_cmd.display_format() == "true");
}

#[test]
fn test_rukinia_not_true() {
    let result = RukiniaTrue::new(Vec::new(), SyntaxForTrait::Arguments(vec![Syntax::Not]));
    assert!(result.is_ok());
    let rukinia_cmd = result.unwrap();
    assert!(rukinia_cmd.get_result().result_type == RukiniaResultType::TestFail);
    assert!(rukinia_cmd.display_format() == "not true");
}

#[test]
fn test_rukinia_true_get_command() {
    assert_eq!(RukiniaTrue::get_rukinia_command(), "true");
}

#[test]
fn test_apply_syntax_inverts_once_and_keeps_label() {
    let result = RukiniaTrue::new(Vec::new(), SyntaxForTrait::Arguments(vec![Syntax::Not]));
    let mut task = result.unwrap();
    assert_eq!(task.get_result().result_type, RukiniaResultType::TestFail);
    assert_eq!(task.get_result().label, "not true");
    task.apply_syntax();
    assert_eq!(task.get_result().result_type, RukiniaResultType::TestSuccess);
    assert_eq!(task.get_result().label, "not true");
}

#[test]
fn test_apply_syntax_takes_as_label() {
    let result = RukiniaTrue::new(
        Vec::new(),
        SyntaxForTrait::Arguments(vec![Syntax::As("renamed".to_string())]),
    );
    let mut task = result.unwrap();
    task.set_result(RukiniaResultEntry::new(
        RukiniaResultType::TestSuccess,
        "scratch".to_string(),
    ));
    task.apply_syntax();
    assert_eq!(task.get_result().result_type, RukiniaResultType::TestSuccess);
    assert_eq!(task.get_result().label, "renamed");
}
