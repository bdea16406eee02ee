use apux::init::{next_steps, starter_contract, wrapper_script};
use apux::run::{cron_environment, docker_arguments, exit_of_check, exit_of_command, Setting};
use apux::shell::{command_display, shell_quote};

fn strings(list: &[&str]) -> Vec<String> {
    list.iter().map(|s| s.to_string()).collect()
}

/// Reads words the way a POSIX shell does, for lines without special characters.
fn words(line: &str) -> Vec<String> {
    let mut words = Vec::new();
    let mut word: Option<String> = None;
    let mut chars = line.chars();
    while let Some(c) = chars.next() {
        match c {
            '\'' => {
                let w = word.get_or_insert_with(String::new);
                for c in chars.by_ref() {
                    if c == '\'' {
                        break;
                    }
                    w.push(c);
                }
            }
            '\\' => word.get_or_insert_with(String::new).push(chars.next().unwrap()),
            ' ' => words.extend(word.take()),
            c => word.get_or_insert_with(String::new).push(c),
        }
    }
    words.extend(word.take());
    words
}

#[test]
fn quotes_shell_arguments() {
    assert_eq!(shell_quote("a b"), "'a b'");
    assert_eq!(shell_quote("bin/run"), "bin/run");
}

#[test]
fn quotes_quotes_and_keeps_safe_words() {
    assert_eq!(shell_quote("it's"), "'it'\\''s'");
    assert_eq!(shell_quote("'"), "''\\'''");
    assert_eq!(shell_quote("A_z0./:-="), "A_z0./:-=");
    assert_eq!(shell_quote("$HOME"), "'$HOME'");
    assert_eq!(shell_quote("é"), "'é'");
    assert_eq!(shell_quote("~"), "'~'");
    assert_eq!(shell_quote(""), "");
}

#[test]
fn displayed_commands_read_back() {
    let command = strings(&["./run.sh", "a b", "it's", "''", "\\", "$x;|", "é\n"]);
    assert_eq!(words(&command_display(&command)), command);
    assert_eq!(command_display(&command), "./run.sh 'a b' 'it'\\''s' ''\\'''\\''' '\\' '$x;|' 'é\n'");
    for word in &command {
        assert_eq!(words(&shell_quote(word)), vec![word.clone()]);
    }
    assert_eq!(command_display(&strings(&[])), "");
    assert_eq!(command_display(&strings(&["a", "", "b"])), "a  b");
}

#[test]
fn writes_the_wrapper() {
    assert_eq!(
        wrapper_script("/srv/my app", &strings(&["./sync.sh", "it's"])),
        "#!/usr/bin/env bash\nset -euo pipefail\n\ncd '/srv/my app'\nexport PATH=\"/usr/bin:/bin\"\nexport HOME=\"${HOME:-/}\"\n\nexec ./sync.sh 'it'\\''s' >> '/srv/my app/.apux/cron.log' 2>&1\n"
    );
}

#[test]
fn wrapper_lines_read_back() {
    let command = strings(&["./a b.sh", "x'y"]);
    let script = wrapper_script("/", &command);
    let enter = script.lines().find(|line| line.starts_with("cd ")).unwrap();
    assert_eq!(words(enter), strings(&["cd", "/"]));
    let start = script.lines().find(|line| line.starts_with("exec ")).unwrap();
    assert_eq!(
        words(start),
        strings(&["exec", "./a b.sh", "x'y", ">>", "/.apux/cron.log", "2>&1"])
    );
}

#[test]
fn writes_the_starter_contract() {
    let command = strings(&["/bin/echo", "hello"]);
    let contract = starter_contract("/srv/app", &command);
    assert_eq!(contract.version, 1);
    assert_eq!(contract.target, "cron");
    assert_eq!(contract.command, command);
    assert_eq!(contract.working_directory, "/srv/app");
    assert_eq!(contract.shell.as_deref(), Some("/usr/bin/env bash"));
    assert_eq!(contract.path.as_deref(), Some("/usr/bin:/bin"));
    assert!(contract.required_env.is_empty());
    assert_eq!(contract.log.as_deref(), Some("/srv/app/.apux/cron.log"));
    assert_eq!(contract.image, None);
}

#[test]
fn advises_after_writing() {
    assert_eq!(
        next_steps("/srv/app"),
        "Created .apux/run.sh and apux.yaml.\n\nReview them, then add a schedule like:\n  0 2 * * * /srv/app/.apux/run.sh\n\n"
    );
}

#[test]
fn runs_with_cron_s_environment_only() {
    for has_home in [true, false] {
        let list = cron_environment(has_home);
        let names: Vec<&str> = list.iter().map(|variable| variable.name).collect();
        assert_eq!(names, ["PATH", "SHELL", "HOME"]);
        assert!(matches!(&list[0].setting, Setting::Text(value) if value == "/usr/bin:/bin"));
        assert!(matches!(&list[1].setting, Setting::Text(value) if value == "/bin/sh"));
        if has_home {
            assert!(matches!(&list[2].setting, Setting::Inherited));
        } else {
            assert!(matches!(&list[2].setting, Setting::Text(value) if value == "/"));
        }
    }
}

#[test]
fn starts_containers() {
    assert_eq!(
        docker_arguments("/srv/app", "node:22"),
        strings(&["run", "--rm", "--init", "--workdir", "/workspace", "--volume", "/srv/app:/workspace", "node:22"])
    );
}

#[test]
fn passes_exit_statuses_on() {
    for code in [0, 1, 2, 127, 255, 256, 257, -1, -256, i32::MAX, i32::MIN] {
        assert_eq!(exit_of_command(Some(code)), code as u8);
    }
    assert_eq!(exit_of_command(None), 1);
    assert_eq!(exit_of_check(true), 1);
    assert_eq!(exit_of_check(false), 0);
}
