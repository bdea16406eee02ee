use apux::contract::{verify_contract, ExecutionContract, Places};
use apux::diff::{diff, diff_target, Locals};
use apux::finding::{any_error, Finding, Level};
use apux::init::starter_contract;
use apux::lookup::{
    absolute, docker_available, find_on_path, is_cron_path_executable, join_path, places_along, places_for_cron,
};
use apux::preflight::{findings, launchd_findings, lookups, systemd_findings, Host, Program};
use apux::script::{finds_word, names_startup_file, needs_terminal};
use apux::report::{check_report, cron_report, docker_report, launchd_report, systemd_report};

fn strings(list: &[&str]) -> Vec<String> {
    list.iter().map(|s| s.to_string()).collect()
}

fn nothing() -> Host {
    Host {
        path: None,
        files: Vec::new(),
        program: Program { exists: false, is_file: false, mode: None, content: None },
    }
}

fn script(mode: u32, content: &str) -> Host {
    Host {
        path: None,
        files: Vec::new(),
        program: Program { exists: true, is_file: true, mode: Some(mode), content: Some(content.to_string()) },
    }
}

fn codes(list: &[Finding]) -> Vec<&'static str> {
    list.iter().map(|finding| finding.code).collect()
}

#[test]
fn makes_findings() {
    let finding = Finding::error("E", "message".to_string(), "remedy".to_string());
    assert_eq!(finding.level, Level::Error);
    assert_eq!(finding.code, "E");
    assert_eq!(finding.message, "message");
    assert_eq!(finding.remedy.as_deref(), Some("remedy"));
    let finding = Finding::warning("W", "message".to_string(), "remedy".to_string());
    assert_eq!(finding.level, Level::Warning);
    assert_eq!(finding.remedy.as_deref(), Some("remedy"));
    let finding = Finding::info("I", "message".to_string());
    assert_eq!(finding.level, Level::Info);
    assert_eq!(finding.remedy, None);
    assert!(!any_error(&vec![]));
    assert!(any_error(&vec![finding, Finding::error("E", String::new(), String::new())]));
}

#[test]
fn joins_paths_as_the_standard_library_does() {
    for base in ["/usr/bin", "/", "", "a", "a/"] {
        for name in ["x", "/x", "", "a/b", "./x"] {
            assert_eq!(join_path(base, name), std::path::Path::new(base).join(name).display().to_string());
        }
    }
    for path in ["/x", "x", "", "./x"] {
        assert_eq!(absolute(path), std::path::Path::new(path).is_absolute());
    }
}

#[test]
fn finds_programs_along_a_path() {
    assert_eq!(places_along("/a::b/", "x"), strings(&["/a/x", "x", "b/x"]));
    assert_eq!(places_for_cron("ls"), strings(&["/usr/bin/ls", "/bin/ls"]));
    assert_eq!(places_for_cron("./ls"), strings(&["./ls"]));
    assert!(is_cron_path_executable("ls", &strings(&["/bin/ls"])));
    assert!(!is_cron_path_executable("ls", &strings(&["/sbin/ls"])));
    assert!(is_cron_path_executable("./ls", &strings(&["./ls"])));
    assert!(!is_cron_path_executable("./ls", &strings(&["/bin/ls"])));
    let files = strings(&["/b/x", "/c/x"]);
    assert_eq!(find_on_path(&Some("/a:/b:/c".to_string()), "x", &files).as_deref(), Some("/b/x"));
    assert_eq!(find_on_path(&Some("/a".to_string()), "x", &files), None);
    assert_eq!(find_on_path(&None, "x", &files), None);
    assert!(docker_available(&Some("/a".to_string()), &strings(&["/a/docker"])));
    assert!(!docker_available(&Some("/b".to_string()), &strings(&["/a/docker"])));
    assert!(!docker_available(&None, &strings(&["/a/docker"])));
}

#[test]
fn asks_about_these_places_only() {
    assert_eq!(
        lookups("x", &Some("/a:/b".to_string())),
        strings(&["/usr/bin/x", "/bin/x", "/a/x", "/b/x", "/a/docker", "/b/docker"])
    );
    assert_eq!(lookups("./x", &None), strings(&["./x"]));
    let command = strings(&["x"]);
    let mut here = nothing();
    here.path = Some("/a".to_string());
    here.files = strings(&["/a/x"]);
    let mut there = nothing();
    there.path = Some("/a".to_string());
    there.files = strings(&["/elsewhere/x", "/a/x", "/sbin/x"]);
    assert_eq!(codes(&findings(&command, &here)), codes(&findings(&command, &there)));
}

#[test]
fn checks_the_program_for_cron() {
    let list = findings(&strings(&["./sync.sh"]), &nothing());
    assert_eq!(codes(&list), ["APX006", "APX001"]);
    assert_eq!(list[0].message, "relative command path `./sync.sh` depends on cron's working directory");
    assert_eq!(list[1].message, "command path `./sync.sh` does not exist");
    assert_eq!(list[1].level, Level::Error);
    let list = findings(&strings(&["~/sync"]), &nothing());
    assert_eq!(codes(&list), ["APX006", "APX007", "APX001"]);
    let list = findings(&strings(&["tool"]), &nothing());
    assert_eq!(codes(&list), ["APX001"]);
    assert_eq!(list[0].message, "cannot find command `tool`");
    let mut host = nothing();
    host.path = Some("/opt/bin".to_string());
    host.files = strings(&["/opt/bin/tool"]);
    let list = findings(&strings(&["tool"]), &host);
    assert_eq!(codes(&list), ["APX008"]);
    assert_eq!(
        list[0].message,
        "`tool` resolves locally to `/opt/bin/tool` but is not in cron's PATH (/usr/bin:/bin)"
    );
    host.files.push("/bin/tool".to_string());
    assert!(findings(&strings(&["tool"]), &host).is_empty());
}

#[test]
fn checks_permissions() {
    let clean = "#!/bin/sh\nlogger done\n";
    assert_eq!(codes(&findings(&strings(&["/x"]), &script(0o100644, clean))), ["APX002"]);
    assert!(findings(&strings(&["/x"]), &script(0o100755, clean)).is_empty());
    assert!(findings(&strings(&["/x"]), &script(0o100001, clean)).is_empty());
    assert_eq!(codes(&systemd_findings(&strings(&["/x"]), &script(0o600, clean))), ["APX002", "APX032"]);
    assert_eq!(codes(&launchd_findings(&strings(&["/x"]), &script(0o600, clean))), ["APX042"]);
}

#[test]
fn checks_the_text_of_a_script() {
    let text = "source ~/.profile\n[[ -f x ]]\n./go $TOKEN ${HOME} ${0} $B\n";
    let list = findings(&strings(&["/x"]), &script(0o755, text));
    assert_eq!(codes(&list), ["APX003", "APX004", "APX005", "APX009", "APX010", "APX012", "APX011"]);
    assert_eq!(list[2].message, "script references environment variables cron will not inherit: B, TOKEN");
    assert!(list.iter().all(|finding| finding.remedy.is_some() == (finding.level != Level::Info)));
    assert!(!any_error(&list));
    let list = findings(&strings(&["/x"]), &script(0o755, "#!/usr/bin/env bash\n[[ x ]] > log\n"));
    assert!(list.is_empty());
    let list = findings(&strings(&["/x"]), &script(0o755, "source ~/.bashrc > log\n"));
    assert_eq!(codes(&list), ["APX003", "APX010", "APX012"]);
    let list = findings(&strings(&["/x"]), &script(0o755, ""));
    assert_eq!(codes(&list), ["APX003", "APX011"]);
}

#[test]
fn checks_for_startup_files() {
    let text = "#!/usr/bin/env bash\nsource /etc/profile\necho ok > /tmp/o\n";
    let list = findings(&strings(&["/srv/job"]), &script(0o755, text));
    assert_eq!(codes(&list), ["APX012"]);
    assert_eq!(list[0].level, Level::Warning);
    assert_eq!(
        list[0].message,
        "script names a shell startup file; cron's shell is neither a login shell nor interactive and reads none"
    );
    assert_eq!(
        list[0].remedy.as_deref(),
        Some("set what the script needs in a wrapper instead of a startup file")
    );
    for name in [
        ".bashrc", ".bash_profile", ".bash_login", ".bash_aliases", ".profile", ".zshrc", ".zshenv", ".zprofile",
        ".zlogin", ".kshrc", ".cshrc", ".tcshrc", "/etc/profile.d/java.sh", "/etc/bash.bashrc", "/etc/bashrc",
        "/etc/zshrc", "/etc/zsh/zshenv",
    ] {
        let text = format!("#!/bin/sh\n. \"$HOME\"/{name} > log\n");
        assert!(names_startup_file(&text), "{name}");
        assert_eq!(codes(&findings(&strings(&["/x"]), &script(0o755, &text))), ["APX012"]);
    }
    assert!(!names_startup_file("") && !names_startup_file("profile bashrc /etc/hosts"));
}

#[test]
fn checks_for_interactive_use() {
    let text = "#!/bin/sh\nread -p 'Go on? ' answer\nlogger done\n";
    let list = findings(&strings(&["/x"]), &script(0o755, text));
    assert_eq!(codes(&list), ["APX013"]);
    assert_eq!(list[0].level, Level::Warning);
    assert_eq!(
        list[0].message,
        "script assumes an interactive shell; under cron there is no terminal, no prompt and no alias"
    );
    assert_eq!(
        list[0].remedy.as_deref(),
        Some("take input from arguments, files or variables, and write functions in place of aliases")
    );
    for text in [
        "read -s key", "read -rp 'x' y", "read -sp 'x' y", "read -rsp 'x' y", "read -srp 'x' y", "read -r -p 'x' y",
        "stty -echo", "tty", "exec < /dev/tty", "[ -z \"$PS1\" ] && exit", "#!/bin/bash -i", "exec zsh -i",
        "alias ll='ls -l'", "shopt -s expand_aliases",
    ] {
        assert!(needs_terminal(text), "{text}");
    }
    for text in ["", "pretty", "git tty_name", "unalias_all", "thread -p", "read -r line", "PS12", "aliases"] {
        assert!(!needs_terminal(text), "{text}");
    }
}

#[test]
fn finds_words_that_stand_alone() {
    assert!(finds_word("a b", "b") && finds_word("b", "b") && finds_word("b a", "b") && finds_word("ab/b-", "b"));
    assert!(!finds_word("ab", "b") && !finds_word("b_", "b") && !finds_word("", "b") && !finds_word("b", "bb"));
    assert!(finds_word("", "") && !finds_word("a", "") && finds_word("- ", ""));
    assert!(finds_word("éb→", "b"));
}

#[test]
fn a_script_is_reported_in_full() {
    let text = "source ~/.zshrc\nread -p x $A\n./go\n";
    let list = findings(&strings(&["/x"]), &script(0o755, text));
    assert_eq!(
        codes(&list),
        ["APX003", "APX004", "APX005", "APX009", "APX010", "APX012", "APX013", "APX011"]
    );
    let gone = Host { program: Program { exists: false, is_file: false, ..script(0, text).program }, ..nothing() };
    assert!(codes(&findings(&strings(&["./x"]), &gone)).ends_with(&codes(&list)));
    assert!(!any_error(&list));
}

#[test]
fn checks_for_systemd() {
    let list = systemd_findings(&strings(&["job", "|", "cat"]), &nothing());
    assert_eq!(codes(&list), ["APX030", "APX031", "APX032"]);
    assert_eq!(list[0].message, "systemd ExecStart requires an absolute executable path; `job` is relative");
    let list = systemd_findings(&strings(&["/job", "a|b"]), &nothing());
    assert_eq!(codes(&list), ["APX001", "APX032"]);
    let list = systemd_findings(&strings(&["/job"]), &script(0o755, "../x $A ${0}"));
    assert_eq!(codes(&list), ["APX005", "APX009", "APX032"]);
    assert_eq!(
        list[0].message,
        "script references environment variables a systemd service will not inherit: 0, A"
    );
    assert!(!any_error(&list));
}

#[test]
fn checks_for_launchd() {
    for operator in ["|", "&&", "||", ";", ">", ">>"] {
        let list = launchd_findings(&strings(&["job", operator]), &nothing());
        assert_eq!(codes(&list), ["APX040", "APX041", "APX042"]);
        assert_eq!(
            list[0].message,
            "launchd ProgramArguments[0] should be an absolute executable path; `job` is relative"
        );
    }
    assert_eq!(codes(&launchd_findings(&strings(&["|"]), &nothing())), ["APX040", "APX042"]);
    let list = launchd_findings(&strings(&["/job"]), &script(0o755, "./x $A"));
    assert_eq!(list[0].message, "script references environment variables launchd will not inherit: A");
    assert_eq!(codes(&list), ["APX005", "APX009", "APX042"]);
    assert_eq!(codes(&launchd_findings(&strings(&["/job"]), &nothing())), ["APX001", "APX042"]);
}

#[test]
fn reports_for_cron() {
    let report = cron_report(&strings(&["./a b"]), &nothing());
    assert_eq!(
        report.text,
        "Apux preflight: cron\n  command: './a b'\n  shell:   /bin/sh\n  PATH:    /usr/bin:/bin\n\nWARN APX006: relative command path `./a b` depends on cron's working directory\n  fix: set an absolute command path or use Apux's generated wrapper\nERROR APX001: command path `./a b` does not exist\n  fix: check the path from the scheduler's machine\n"
    );
    assert!(report.failed);
    let report = cron_report(&strings(&["/x"]), &script(0o755, "#!/bin/sh\n"));
    assert_eq!(
        report.text,
        "Apux preflight: cron\n  command: /x\n  shell:   /bin/sh\n  PATH:    /usr/bin:/bin\n\nINFO APX011: no log redirection detected; cron may email output or discard it depending on configuration\n"
    );
    assert!(!report.failed);
    let report = cron_report(&strings(&["/x"]), &script(0o755, "#!/bin/sh\n>log\n"));
    assert!(report.text.ends_with("\n\n✓ No obvious cron-context risks found.\n"));
    assert!(!report.failed);
}

#[test]
fn reports_for_services() {
    let report = systemd_report(&strings(&["/x"]), &script(0o755, ""));
    assert_eq!(
        report.text,
        "Apux preflight: systemd\n  command: /x\n  shell:   none (ExecStart runs directly)\n  PATH:    /usr/local/sbin:/usr/local/bin:/usr/sbin:/usr/bin:/sbin:/bin\n\nINFO APX032: systemd sends standard output and error to the journal by default; inspect with journalctl -u <unit>\n"
    );
    assert!(!report.failed);
    let report = launchd_report(&strings(&["x"]), &nothing());
    assert!(report.text.starts_with(
        "Apux preflight: launchd\n  command: x\n  shell:   none (ProgramArguments runs directly)\n  PATH:    /usr/bin:/bin:/usr/sbin:/sbin\n\nERROR APX040: "
    ));
    assert!(report.failed);
}

#[test]
fn reports_for_docker() {
    let report = docker_report(&strings(&["./x"]), &None, &nothing());
    assert_eq!(
        report.text,
        "Apux preflight: docker\n  command: ./x\n  image:   <missing>\n  workdir: /workspace (current directory mounted)\n\nERROR APX050: Docker target requires --image <image>\nERROR APX051: docker is not on PATH\nWARN APX052: relative executable path depends on the image working directory\n  fix: set WORKDIR in the image or use an absolute path\nINFO APX053: `run` will mount the current directory read-write at /workspace; inspect the image and command before executing.\n"
    );
    assert!(report.failed);
    let mut host = nothing();
    host.path = Some("/bin".to_string());
    host.files = strings(&["/bin/docker"]);
    let report = docker_report(&strings(&["npm"]), &Some("node:22".to_string()), &host);
    assert_eq!(
        report.text,
        "Apux preflight: docker\n  command: npm\n  image:   node:22\n  workdir: /workspace (current directory mounted)\n\nINFO APX053: `run` will mount the current directory read-write at /workspace; inspect the image and command before executing.\n"
    );
    assert!(!report.failed);
    assert!(docker_report(&strings(&["npm"]), &Some(String::new()), &host).failed);
    assert!(!docker_report(&strings(&[]), &Some("x".to_string()), &host).failed);
}

#[test]
fn reports_for_any_target() {
    let command = strings(&["/x"]);
    for target in ["cron", "systemd", "launchd", "docker"] {
        let report = check_report(target, &None, &command, &nothing());
        assert!(report.text.starts_with(&format!("Apux preflight: {target}\n")));
        assert!(report.failed);
    }
}

fn contract() -> ExecutionContract {
    ExecutionContract {
        version: 1,
        target: "cron".to_string(),
        command: strings(&["/x"]),
        working_directory: "/tmp".to_string(),
        shell: None,
        path: None,
        required_env: vec![],
        log: Some("/log".to_string()),
        image: None,
    }
}

#[test]
fn verifies_a_contract() {
    let there = Places { directory_exists: true, shell_exists: true };
    let host = script(0o755, "#!/bin/sh\n>log\n");
    let report = verify_contract("apux.yaml", "cron", &Ok(contract()), &there, &host);
    assert_eq!(
        report.text,
        "Apux contract verification: cron\n  contract: apux.yaml\n\nApux preflight: cron\n  command: /x\n  shell:   /bin/sh\n  PATH:    /usr/bin:/bin\n\n✓ No obvious cron-context risks found.\n"
    );
    assert!(!report.failed);
}

#[test]
fn reports_all_that_is_wrong_with_a_contract() {
    let gone = Places { directory_exists: false, shell_exists: false };
    let host = script(0o755, "#!/bin/sh\n>log\n");
    let mut wrong = contract();
    wrong.version = 12;
    wrong.target = "systemd".to_string();
    wrong.shell = Some("/bin/zsh".to_string());
    wrong.required_env = strings(&["API_TOKEN", "B"]);
    wrong.log = None;
    let report = verify_contract("c.yaml", "cron", &Ok(wrong), &gone, &host);
    assert_eq!(
        report.text,
        "Apux contract verification: cron\n  contract: c.yaml\n\nERROR APX021: unsupported contract version 12\nERROR APX022: contract target `systemd` does not match `--target cron`\nERROR APX024: working directory `/tmp` does not exist\nERROR APX025: declared shell `/bin/zsh` does not exist\nApux preflight: cron\n  command: /x\n  shell:   /bin/sh\n  PATH:    /usr/bin:/bin\n\n✓ No obvious cron-context risks found.\nINFO APX026: required environment names are declared: API_TOKEN, B\n  ensure your scheduler injects these values; Apux never reads or stores their values.\nWARN APX027: contract has no declared log destination\n"
    );
    assert!(report.failed);
}

#[test]
fn each_fault_of_a_contract_fails_it() {
    let there = Places { directory_exists: true, shell_exists: false };
    let host = script(0o755, "#!/bin/sh\n>log\n");
    let failed = |contract: ExecutionContract, target: &str, places: &Places, host: &Host| {
        verify_contract("c", target, &Ok(contract), places, host).failed
    };
    assert!(!failed(contract(), "cron", &there, &host));
    assert!(failed(contract(), "launchd", &there, &host));
    assert!(failed(contract(), "cron", &Places { directory_exists: false, shell_exists: true }, &host));
    assert!(failed(contract(), "cron", &there, &nothing()));
    let mut other = contract();
    other.version = 0;
    assert!(failed(other, "cron", &there, &host));
    let mut other = contract();
    other.shell = Some("bash".to_string());
    assert!(!failed(other, "cron", &there, &host));
    let mut other = contract();
    other.log = None;
    assert!(!failed(other, "cron", &there, &host));
}

#[test]
fn stops_at_an_unreadable_or_empty_contract() {
    let there = Places { directory_exists: true, shell_exists: true };
    let report = verify_contract("c", "cron", &Err("cannot read c: gone".to_string()), &there, &nothing());
    assert_eq!(report.text, "ERROR APX020: cannot read c: gone\n");
    assert!(report.failed);
    let report = verify_contract("c", "ci", &Err("invalid c".to_string()), &there, &nothing());
    assert_eq!(report.text, "ERROR APX020: invalid c\n");
    assert!(report.failed);
    let mut empty = contract();
    empty.command = vec![];
    let report = verify_contract("c", "ci", &Ok(empty), &there, &nothing());
    assert_eq!(
        report.text,
        "Apux contract verification: ci\n  contract: c\n\nERROR APX022: contract target `cron` does not match `--target ci`\nERROR APX023: contract command is empty\n"
    );
    assert!(report.failed);
    let mut empty = contract();
    empty.command = vec![];
    let report = verify_contract("c", "cron", &Ok(empty), &there, &nothing());
    assert_eq!(
        report.text,
        "Apux contract verification: cron\n  contract: c\n\nERROR APX023: contract command is empty\n"
    );
    assert!(report.failed);
}

#[test]
fn verifies_a_contract_for_docker() {
    let there = Places { directory_exists: true, shell_exists: true };
    let mut other = contract();
    other.target = "docker".to_string();
    other.image = Some("node:22".to_string());
    let mut host = nothing();
    host.path = Some("/bin".to_string());
    host.files = strings(&["/bin/docker"]);
    let report = verify_contract("c", "docker", &Ok(other), &there, &host);
    assert!(!report.failed);
    assert!(report.text.contains("  image:   node:22\n"));
}

#[test]
fn starter_contracts_verify() {
    let command = strings(&["/x"]);
    let host = script(0o755, "#!/bin/sh\n>log\n");
    let there = Places { directory_exists: true, shell_exists: true };
    assert!(!verify_contract("c", "cron", &Ok(starter_contract("/srv", &command)), &there, &host).failed);
    let gone = Places { directory_exists: true, shell_exists: false };
    assert!(verify_contract("c", "cron", &Ok(starter_contract("/srv", &command)), &gone, &host).failed);
}

fn locals(path: &str) -> Locals {
    Locals {
        path: Some(path.to_string()),
        shell: Some("/bin/sh".to_string()),
        term: None,
        pwd: Some("/home/me".to_string()),
    }
}

#[test]
fn shows_differences_from_cron() {
    let content = Some("echo $TOKEN $HOME".to_string());
    assert_eq!(
        diff(&strings(&["./x"]), &locals("/opt/bin"), &content),
        "Apux context diff: local → cron\n  command: ./x\n\n~ PATH\n  local: <set>\n  cron:  /usr/bin:/bin\n~ PWD\n  local: <set>\n  cron:  scheduler-defined\n\n! variables referenced by the script but absent from cron by default: TOKEN\n"
    );
    let bare = Locals { path: None, shell: None, term: Some("xterm".to_string()), pwd: None };
    assert_eq!(
        diff(&strings(&["./x"]), &bare, &None),
        "Apux context diff: local → cron\n  command: ./x\n\n~ PATH\n  local: <absent>\n  cron:  /usr/bin:/bin\n~ SHELL\n  local: <absent>\n  cron:  /bin/sh\n~ TERM\n  local: <set>\n  cron:  <absent>\n~ PWD\n  local: <absent>\n  cron:  scheduler-defined\n"
    );
    let same = locals("/usr/bin:/bin");
    assert!(!diff(&strings(&["./x"]), &same, &Some("$HOME".to_string())).contains("PATH"));
}

#[test]
fn a_diff_hides_values() {
    let command = strings(&["./x"]);
    assert_eq!(
        diff(&command, &locals("/secret/one"), &None),
        diff(&command, &locals("/other/two"), &None)
    );
    assert!(!diff(&command, &locals("/secret/one"), &None).contains("secret"));
}

#[test]
fn shows_differences_from_other_targets() {
    let show = |target: &str, directory: Option<&str>, image: Option<&str>| {
        diff_target(
            target,
            &strings(&["./x"]),
            &locals("/opt/bin"),
            &None,
            &directory.map(str::to_string),
            &image.map(str::to_string),
        )
    };
    assert_eq!(show("cron", None, None), diff(&strings(&["./x"]), &locals("/opt/bin"), &None));
    assert_eq!(
        show("systemd", None, None),
        "Apux context diff: local → systemd\n  PATH: local value → /usr/local/sbin:/usr/local/bin:/usr/sbin:/usr/bin:/sbin:/bin\n  SHELL: local value → <absent>\n  TERM: local value → <absent>\n  working directory: local value → / unless WorkingDirectory= is declared\n"
    );
    assert_eq!(
        show("launchd", None, None),
        "Apux context diff: local → launchd\n  PATH: local value → /usr/bin:/bin:/usr/sbin:/sbin\n  SHELL: local value → <absent>\n  TERM: local value → <absent>\n  working directory: local value → / unless WorkingDirectory is declared\n  environment: terminal exports → only EnvironmentVariables declared in the plist\n"
    );
    assert_eq!(
        show("docker", Some("/srv"), Some("node:22")),
        "Apux context diff: local → docker\n  filesystem: host checkout → mounted at /workspace\n  working directory: /srv → /workspace\n  environment: terminal exports → image-defined unless passed with --env\n  executable versions: host → image `node:22`\n"
    );
    assert!(show("docker", None, None).contains("working directory: <unknown> → /workspace"));
    assert!(show("docker", None, None).ends_with("image `<missing>`\n"));
}
