use rukinia::probe::FixedProbe;
use rukinia::rukinia_result::RukiniaResultType;
use rukinia::syntax::Syntax;
use rukinia::syntax::SyntaxForTrait;
use rukinia::tasks::rukinia_user::RukiniaUser;
use rukinia::tasks::task::RukiniaProcess;

fn passwd_probe() -> FixedProbe {
    FixedProbe {
        passwd_file: Ok("root:x:0:0:root:/root:/bin/bash\ndaemon:x:1:1:daemon:/usr/sbin:/usr/sbin/nologin\n".to_string()),
        ..FixedProbe::default()
    }
}

#[test]
fn rukinia_user_test_rukinia_cmd_without_args() {
    let probe = passwd_probe();
    let result = RukiniaUser::new(Vec::new(), SyntaxForTrait::Arguments(Vec::new()), &probe);
    assert!(result.is_err());
}

#[test]
fn rukinia_user_test_rukinia_cmd_success() {
    let probe = passwd_probe();
    let result = RukiniaUser::new(
        vec!["root".to_string()],
        SyntaxForTrait::Arguments(Vec::new()),
        &probe,
    );
    assert!(result.is_ok());
    let rukinia_cmd = result.unwrap();
    assert!(rukinia_cmd.get_result().result_type == RukiniaResultType::TestSuccess);
    assert!(rukinia_cmd.display_format() == "Checking user root exists");
}

#[test]
fn rukinia_user_test_rukinia_cmd_not_success() {
    let probe = passwd_probe();
    let result = RukiniaUser::new(
        vec!["root".to_string()],
        SyntaxForTrait::Arguments(vec![Syntax::Not]),
        &probe,
    );
    assert!(result.is_ok());
    let rukinia_cmd = result.unwrap();
    assert!(rukinia_cmd.get_result().result_type == RukiniaResultType::TestFail);
    assert!(rukinia_cmd.display_format() == "Checking user root not exists");
}

#[test]
fn rukinia_user_test_rukinia_cmd_fail() {
    let probe = passwd_probe();
    let result = RukiniaUser::new(
        vec!["i_dont_exist".to_string()],
        SyntaxForTrait::Arguments(Vec::new()),
        &probe,
    );
    assert!(result.is_ok());
    let rukinia_cmd = result.unwrap();
    assert!(rukinia_cmd.get_result().result_type == RukiniaResultType::TestFail);
    assert!(rukinia_cmd.display_format() == "Checking user i_dont_exist exists");
}

#[test]
fn rukinia_user_test_rukinia_cmd_get_command() {
    assert_eq!(RukiniaUser::get_rukinia_command(), "rukinia_user");
}
