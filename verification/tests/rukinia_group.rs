use rukinia::probe::FixedProbe;
use rukinia::syntax::SyntaxForTrait;
use rukinia::tasks::rukinia_group::RukiniaGroup;
use rukinia::tasks::task::RukiniaProcess;

#[test]
fn rukinia_group_test_rukinia_cmd_without_args() {
    let probe = FixedProbe::default();
    let result = RukiniaGroup::new(Vec::new(), SyntaxForTrait::Arguments(Vec::new()), &probe);
    assert!(result.is_err());
}

#[test]
fn rukinia_group_test_rukinia_cmd_get_command() {
    assert_eq!(RukiniaGroup::get_rukinia_command(), "rukinia_group");
}
