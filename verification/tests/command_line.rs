use apux::cli::{parse_args, plan, usage, Invocation, Plan, Request};

fn strings(list: &[&str]) -> Vec<String> {
    list.iter().map(|s| s.to_string()).collect()
}

fn accepted(list: &[&str]) -> Invocation {
    match parse_args(&strings(list)) {
        Ok(Request::Invoke(invocation)) => invocation,
        Ok(Request::Help) => panic!("help"),
        Err(error) => panic!("{}", error),
    }
}

fn refused(list: &[&str]) -> String {
    match parse_args(&strings(list)) {
        Err(error) => error,
        Ok(_) => panic!("accepted"),
    }
}

#[test]
fn reads_a_check() {
    let invocation = accepted(&["check", "--target", "cron", "--", "./scripts/nightly-sync.sh", "--", "-v"]);
    assert_eq!(invocation.action, "check");
    assert_eq!(invocation.target, "cron");
    assert_eq!(invocation.command, strings(&["./scripts/nightly-sync.sh", "--", "-v"]));
    assert_eq!(invocation.command_at, 4);
    assert_eq!(invocation.contract, "apux.yaml");
    assert_eq!(invocation.contract_at, None);
    assert_eq!(invocation.image, None);
    assert_eq!(invocation.workflow, None);
    assert_eq!(invocation.job, None);
}

#[test]
fn reads_the_documented_diff() {
    let args = ["diff", "local", "cron", "--", "./scripts/nightly-sync.sh"];
    let invocation = accepted(&args);
    assert_eq!(invocation.action, "diff");
    assert_eq!(invocation.target, "cron");
    assert_eq!(invocation.command, strings(&["./scripts/nightly-sync.sh"]));
    let other = accepted(&["diff", "--target", "cron", "--", "./scripts/nightly-sync.sh"]);
    assert_eq!(other.target, invocation.target);
    assert_eq!(other.command, invocation.command);
    assert_eq!(other.command_at, invocation.command_at);
    assert_eq!(refused(&["check", "local", "cron", "--", "x"]), "expected --target cron");
    assert_eq!(refused(&["diff", "local"]), "missing target after local");
}

#[test]
fn reads_run_and_init() {
    assert!(matches!(plan(&accepted(&["run", "--target", "cron", "--", "./x"])), Plan::RunLikeCron));
    assert!(matches!(plan(&accepted(&["run", "--target", "systemd", "--", "./x"])), Plan::RunLikeCron));
    assert!(matches!(plan(&accepted(&["init", "--target", "cron", "--", "./x"])), Plan::Init));
    assert!(matches!(plan(&accepted(&["check", "--target", "cron", "--", "./x"])), Plan::Check));
    assert!(matches!(plan(&accepted(&["diff", "--target", "cron", "--", "./x"])), Plan::Diff));
    assert!(matches!(plan(&accepted(&["verify", "--target", "cron"])), Plan::Verify));
    assert!(matches!(plan(&accepted(&["inspect", "github-actions", "--file", "x"])), Plan::Inspect));
}

#[test]
fn reads_an_image() {
    let invocation = accepted(&["run", "--target", "docker", "--image", "node:22", "--", "npm", "test"]);
    assert_eq!(invocation.image.as_deref(), Some("node:22"));
    assert_eq!(invocation.command, strings(&["npm", "test"]));
    assert_eq!(invocation.command_at, 6);
    assert!(matches!(plan(&invocation), Plan::RunInDocker(image) if image == "node:22"));
}

#[test]
fn refuses_what_cannot_run() {
    let invocation = accepted(&["run", "--target", "docker", "--", "npm"]);
    assert!(matches!(plan(&invocation), Plan::Refuse(message) if message == "Docker target requires --image <image>"));
    let invocation = accepted(&["init", "--target", "systemd", "--", "x"]);
    assert!(matches!(plan(&invocation), Plan::Refuse(message)
        if message == "`init` currently generates cron wrappers only; use check and verify for systemd today"));
}

#[test]
fn reads_a_verification() {
    let invocation = accepted(&["verify", "--target", "launchd"]);
    assert_eq!(invocation.contract, "apux.yaml");
    assert_eq!(invocation.contract_at, None);
    assert!(invocation.command.is_empty());
    assert_eq!(invocation.command_at, 3);
    let invocation = accepted(&["verify", "--target", "launchd", "--contract", "other.yaml", "more"]);
    assert_eq!(invocation.contract, "other.yaml");
    assert_eq!(invocation.contract_at, Some(4));
    assert_eq!(invocation.command_at, 6);
}

#[test]
fn reads_an_inspection() {
    let invocation = accepted(&["inspect", "github-actions", "--file", "ci.yml"]);
    assert_eq!(invocation.target, "github-actions");
    assert_eq!(invocation.workflow.as_deref(), Some("ci.yml"));
    assert_eq!(invocation.workflow_at, Some(3));
    assert_eq!(invocation.job, None);
    let invocation = accepted(&["inspect", "github-actions", "--file", "ci.yml", "--job", "test"]);
    assert_eq!(invocation.job.as_deref(), Some("test"));
}

#[test]
fn asks_for_help() {
    assert!(matches!(parse_args(&strings(&["--help"])), Ok(Request::Help)));
    assert!(matches!(parse_args(&strings(&["-h", "x"])), Ok(Request::Help)));
    assert!(usage().starts_with("apux — preflight unattended commands\n\nUSAGE:\n"));
    assert!(usage().ends_with("  apux verify --target cron"));
}

#[test]
fn says_what_is_wrong() {
    assert_eq!(refused(&[]), "missing command");
    assert_eq!(refused(&["chek"]), "unknown command: chek");
    assert_eq!(refused(&["inspect"]), "expected integration name after inspect");
    assert_eq!(
        refused(&["inspect", "gitlab"]),
        "unsupported integration: gitlab. Supported: github-actions."
    );
    assert_eq!(refused(&["inspect", "github-actions"]), "expected --file <workflow.yml>");
    assert_eq!(refused(&["inspect", "github-actions", "ci.yml"]), "expected --file <workflow.yml>");
    assert_eq!(refused(&["inspect", "github-actions", "--file"]), "missing workflow path after --file");
    assert_eq!(
        refused(&["inspect", "github-actions", "--file", "x", "--jobs"]),
        "inspect accepts only optional --job <job-id>"
    );
    assert_eq!(refused(&["inspect", "github-actions", "--file", "x", "--job"]), "missing job id after --job");
    assert_eq!(refused(&["check"]), "expected --target cron");
    assert_eq!(refused(&["check", "cron"]), "expected --target cron");
    assert_eq!(refused(&["check", "--target"]), "missing target after --target");
    assert_eq!(
        refused(&["check", "--target", "ci"]),
        "unsupported target: ci. Supported targets: cron, systemd, launchd, docker."
    );
    assert_eq!(refused(&["verify", "--target", "cron", "x"]), "verify accepts only optional --contract <path>");
    assert_eq!(refused(&["verify", "--target", "cron", "--contract"]), "missing path after --contract");
    assert_eq!(refused(&["check", "--target", "cron"]), "place the command after --");
    assert_eq!(refused(&["check", "--target", "cron", "x"]), "place the command after --");
    assert_eq!(refused(&["check", "--target", "docker", "--image"]), "missing image after --image");
    assert_eq!(refused(&["check", "--target", "docker", "--image", "x"]), "place the command after --");
    assert_eq!(refused(&["check", "--target", "cron", "--"]), "missing command after --");
}
