use xtask_core::doc::{handle_command, run_documentation_build, DocCmdArgs, DocCommand, Target};

fn s(x: &str) -> String {
    x.to_string()
}

#[test]
fn workspace_build_is_one_step_with_exclusions() {
    let steps = run_documentation_build(
        &Target::Workspace,
        &vec![s("alpha")],
        &vec![],
        &vec![s("alpha"), s("beta")],
        &vec![],
    );
    assert_eq!(steps.len(), 1);
    let step = &steps[0];
    assert_eq!(step.label, s("Build Workspace documentation"));
    assert!(!step.skipped);
    assert_eq!(
        step.args,
        vec![s("doc"), s("--workspace"), s("--color=always"), s("--exclude"), s("alpha")]
    );
    assert_eq!(step.error_msg, s("Workspace documentation build failed"));
}

#[test]
fn crates_build_has_one_step_per_member() {
    let steps = run_documentation_build(
        &Target::Crates,
        &vec![s("beta")],
        &vec![],
        &vec![s("alpha"), s("beta")],
        &vec![s("demo")],
    );
    assert_eq!(steps.len(), 2);
    assert_eq!(steps[0].label, s("Doc Build: alpha"));
    assert!(!steps[0].skipped);
    assert_eq!(steps[0].args, vec![s("doc"), s("-p"), s("alpha"), s("--color=always")]);
    assert_eq!(steps[0].error_msg, s("Format check execution failed for alpha"));
    assert_eq!(steps[1].label, s("Doc Build: beta"));
    assert!(steps[1].skipped);
    assert_eq!(steps[1].notice, s("Skip 'beta' because it has been excluded!"));
    assert!(steps[1].args.is_empty());
}

#[test]
fn only_list_restricts_member_builds() {
    let steps = run_documentation_build(
        &Target::Examples,
        &vec![],
        &vec![s("demo")],
        &vec![],
        &vec![s("demo"), s("other")],
    );
    assert!(!steps[0].skipped);
    assert!(steps[1].skipped);
}

#[test]
fn all_packages_runs_crates_then_examples() {
    let steps = run_documentation_build(
        &Target::AllPackages,
        &vec![],
        &vec![],
        &vec![s("alpha")],
        &vec![s("demo")],
    );
    assert_eq!(steps.len(), 2);
    assert_eq!(steps[0].label, s("Doc Build: alpha"));
    assert_eq!(steps[1].label, s("Doc Build: demo"));
}

#[test]
fn workspace_target_warns_when_only_is_given() {
    let args = DocCmdArgs {
        target: Target::Workspace,
        exclude: vec![],
        only: vec![s("alpha")],
        command: DocCommand::Build,
    };
    let plan = handle_command(&args, &vec![s("alpha")], &vec![]);
    assert!(plan.warn_only_ignored);
    assert_eq!(plan.steps.len(), 1);
}

#[test]
fn member_targets_do_not_warn_about_only() {
    let args = DocCmdArgs {
        target: Target::Crates,
        exclude: vec![],
        only: vec![s("alpha")],
        command: DocCommand::Build,
    };
    let plan = handle_command(&args, &vec![s("alpha"), s("beta")], &vec![]);
    assert!(!plan.warn_only_ignored);
    assert_eq!(plan.steps.len(), 2);
    assert!(!plan.steps[0].skipped);
    assert!(plan.steps[1].skipped);
}
