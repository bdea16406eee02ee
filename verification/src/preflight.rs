//! The checks of a command against the context that a scheduler gives it.

use vstd::prelude::*;

use crate::finding;
use crate::finding::{note, Finding};
use crate::lookup;
use crate::names;
use crate::script;
use crate::text;

verus! {

/// What is known of the program file that a command names.
pub struct Program {
    /// Something stands at the path.
    pub exists: bool,
    /// A regular file stands at the path.
    pub is_file: bool,
    /// The permission bits, where the platform has them and they can be read.
    pub mode: Option<u32>,
    /// The text of the file, where it can be read and is text.
    pub content: Option<String>,
}

/// What is known of the machine.
pub struct Host {
    /// The search path of the terminal.
    pub path: Option<String>,
    /// Those of the places in [`places_asked`] that hold a regular file.
    pub files: Vec<String>,
    pub program: Program,
}

/// What a [`Host`] says.
pub struct HostView {
    pub path: Option<Seq<char>>,
    pub files: Seq<Seq<char>>,
    pub exists: bool,
    pub is_file: bool,
    pub mode: Option<u32>,
    pub content: Option<Seq<char>>,
}

impl View for Host {
    type V = HostView;

    open spec fn view(&self) -> HostView {
        HostView {
            path: lookup::optional(self.path),
            files: text::texts(self.files@),
            exists: self.program.exists,
            is_file: self.program.is_file,
            mode: self.program.mode,
            content: lookup::optional(self.program.content),
        }
    }
}

/// The places whose files decide a check of `program`.
pub open spec fn places_asked(program: Seq<char>, path: Option<Seq<char>>) -> Seq<Seq<char>> {
    match path {
        Some(path) => lookup::cron_places(program) + lookup::along(path, program) + lookup::along(path, "docker"@),
        None => lookup::cron_places(program),
    }
}

/// Lists the places whose files decide a check of `program`.
pub fn lookups(program: &str, path: &Option<String>) -> (places: Vec<String>)
    ensures
        text::texts(places@) == places_asked(program@, lookup::optional(*path)),
{
    let mut places = lookup::places_for_cron(program);
    match path {
        Some(path) => {
            let mut local = lookup::places_along(path.as_str(), program);
            let mut docker = lookup::places_along(path.as_str(), "docker");
            let ghost a = places@;
            let ghost b = local@;
            let ghost c = docker@;
            places.append(&mut local);
            places.append(&mut docker);
            proof {
                assert(text::texts(places@) =~= text::texts(a) + text::texts(b) + text::texts(c));
            }
        },
        None => {},
    }
    places
}

/// Permission bits that let nobody execute the file.
pub open spec fn lacks_execute(mode: Option<u32>) -> bool {
    match mode {
        Some(mode) => mode & 0o111 == 0,
        None => false,
    }
}

fn not_executable(mode: Option<u32>) -> (r: bool)
    ensures
        r == lacks_execute(mode),
{
    match mode {
        Some(mode) => mode & 0o111 == 0,
        None => false,
    }
}

/// The variables that any shell has, whoever starts it.
pub open spec fn standard_names() -> Seq<Seq<char>> {
    seq!["PATH"@, "HOME"@, "PWD"@, "SHELL"@, "USER"@]
}

/// The variables that cron's shell has: the standard ones and the shell's own
/// parameters.
pub open spec fn cron_names() -> Seq<Seq<char>> {
    standard_names() + seq!["?"@, "#"@, "$"@, "0"@]
}

/// Lists the variables that any shell has.
pub fn standard_list() -> (list: Vec<&'static str>)
    ensures
        script::borrowed_texts(list@) == standard_names(),
{
    let list: Vec<&'static str> = vec!["PATH", "HOME", "PWD", "SHELL", "USER"];
    proof {
        assert(script::borrowed_texts(list@) =~= standard_names());
    }
    list
}

fn cron_list() -> (list: Vec<&'static str>)
    ensures
        script::borrowed_texts(list@) == cron_names(),
{
    let list: Vec<&'static str> = vec!["PATH", "HOME", "PWD", "SHELL", "USER", "?", "#", "$", "0"];
    proof {
        assert(script::borrowed_texts(list@) =~= cron_names());
    }
    list
}

/// The names in order, parted by commas.
pub open spec fn comma_list(set: Set<Seq<char>>) -> Seq<char> {
    text::joined(names::listing(set), ", "@)
}

/// The variables that a script refers to and that cron does not provide.
pub open spec fn cron_foreign(content: Seq<char>) -> Set<Seq<char>> {
    script::foreign_references(content, cron_names())
}

/// The variables that a script refers to and that no shell provides.
pub open spec fn foreign(content: Seq<char>) -> Set<Seq<char>> {
    script::foreign_references(content, standard_names())
}

pub open spec fn has_names(set: Set<Seq<char>>) -> bool {
    names::listing(set).len() > 0
}

/// A script that speaks of paths relative to its directory.
pub open spec fn uses_relative_paths(content: Seq<char>) -> bool {
    text::occurs(content, "./"@) || text::occurs(content, "../"@)
}

/// A script that uses Bash syntax without declaring Bash.
pub open spec fn needs_bash(content: Seq<char>) -> bool {
    &&& text::occurs(content, "[["@) || text::occurs(content, "source "@) || text::occurs(content, "function "@)
    &&& !text::occurs(script::first_line(content), "bash"@)
}

pub open spec fn not_executable_warning(program: Seq<char>) -> finding::FindingView {
    finding::warning(
        "APX002"@,
        "`"@ + program + "` is not executable"@,
        "run chmod +x, or invoke it through its interpreter"@,
    )
}

/// What a check for cron finds of the program itself.
pub open spec fn cron_program(program: Seq<char>, host: HostView) -> Seq<finding::FindingView> {
    if host.exists && host.is_file {
        finding::when(lacks_execute(host.mode), not_executable_warning(program))
    } else if !program.contains('/') && !lookup::cron_finds(program, host.files) {
        match lookup::found_on_path(host.path, program, host.files) {
            Some(local) => seq![
                finding::warning(
                    "APX008"@,
                    "`"@ + program + "` resolves locally to `"@ + local + "` but is not in cron's PATH ("@
                        + lookup::CRON_PATH@ + ")"@,
                    "set PATH explicitly in a wrapper"@,
                ),
            ],
            None => seq![
                finding::error(
                    "APX001"@,
                    "cannot find command `"@ + program + "`"@,
                    "use an absolute path or install the command"@,
                ),
            ],
        }
    } else {
        finding::when(
            program.contains('/'),
            finding::error(
                "APX001"@,
                "command path `"@ + program + "` does not exist"@,
                "check the path from the scheduler's machine"@,
            ),
        )
    }
}

/// What a check for cron finds of the shell that a script is written for.
pub open spec fn cron_form(content: Seq<char>) -> Seq<finding::FindingView> {
    finding::when(
        !"#!"@.is_prefix_of(script::first_line(content)),
        finding::warning("APX003"@, "script has no shebang"@, "add a shebang such as #!/usr/bin/env bash"@),
    ) + finding::when(
        needs_bash(content),
        finding::warning(
            "APX004"@,
            "script appears to use Bash syntax but does not declare Bash"@,
            "use #!/usr/bin/env bash; cron otherwise defaults to /bin/sh"@,
        ),
    )
}

/// What a check for cron finds of the context that a script relies on.
pub open spec fn cron_context(content: Seq<char>) -> Seq<finding::FindingView> {
    finding::when(
        has_names(cron_foreign(content)),
        finding::warning(
            "APX005"@,
            "script references environment variables cron will not inherit: "@ + comma_list(cron_foreign(content)),
            "declare required variables in a wrapper or scheduler configuration"@,
        ),
    ) + finding::when(
        uses_relative_paths(content),
        finding::warning(
            "APX009"@,
            "script uses relative paths"@,
            "set an explicit working directory before running commands"@,
        ),
    ) + finding::when(
        text::occurs(content, "~/"@),
        finding::warning(
            "APX010"@,
            "script expands `~`; cron's HOME may differ from your terminal"@,
            "use an absolute path or explicitly set HOME"@,
        ),
    ) + finding::when(
        script::uses_startup_files(content),
        finding::warning(
            "APX012"@,
            "script names a shell startup file; cron's shell is neither a login shell nor interactive and reads none"@,
            "set what the script needs in a wrapper instead of a startup file"@,
        ),
    ) + finding::when(
        script::assumes_interactive(content),
        finding::warning(
            "APX013"@,
            "script assumes an interactive shell; under cron there is no terminal, no prompt and no alias"@,
            "take input from arguments, files or variables, and write functions in place of aliases"@,
        ),
    )
}

/// What a check for cron finds in the text of a script.
pub open spec fn cron_script(content: Seq<char>) -> Seq<finding::FindingView> {
    cron_form(content) + cron_context(content) + finding::when(
        !text::occurs(content, ">"@) && !text::occurs(content, "logger "@),
        finding::info(
            "APX011"@,
            "no log redirection detected; cron may email output or discard it depending on configuration"@,
        ),
    )
}

/// What a check for cron finds of a command.
pub open spec fn cron_findings(command: Seq<Seq<char>>, host: HostView) -> Seq<finding::FindingView> {
    let program = command[0];
    finding::when(
        "./"@.is_prefix_of(program) || (!lookup::is_absolute(program) && program.contains('/')),
        finding::warning(
            "APX006"@,
            "relative command path `"@ + program + "` depends on cron's working directory"@,
            "set an absolute command path or use Apux's generated wrapper"@,
        ),
    ) + finding::when(
        program.contains('~'),
        finding::warning("APX007"@, "`~` expansion depends on HOME"@, "use an absolute path"@),
    ) + cron_program(program, host) + match host.content {
        Some(content) => cron_script(content),
        None => Seq::empty(),
    }
}

fn bash_missing(content: &str, first_line: &str) -> (r: bool)
    requires
        first_line@ == script::first_line(content@),
    ensures
        r == needs_bash(content@),
{
    (text::holds(content, "[[") || text::holds(content, "source ") || text::holds(content, "function "))
        && !text::holds(first_line, "bash")
}

fn relative_paths(content: &str) -> (r: bool)
    ensures
        r == uses_relative_paths(content@),
{
    text::holds(content, "./") || text::holds(content, "../")
}

fn inspect_cron_program(out: &mut Vec<Finding>, program: &str, host: &Host)
    ensures
        finding::views(final(out)@) == finding::views(old(out)@) + cron_program(program@, host@),
{
    if host.program.exists && host.program.is_file {
        note(
            out,
            not_executable(host.program.mode),
            Finding::warning(
                "APX002",
                "`".to_owned().concat(program).concat("` is not executable"),
                "run chmod +x, or invoke it through its interpreter".to_owned(),
            ),
        );
    } else if !text::has_char(program, '/') && !lookup::is_cron_path_executable(program, &host.files) {
        match lookup::find_on_path(&host.path, program, &host.files) {
            Some(local) => {
                let message = "`".to_owned().concat(program).concat("` resolves locally to `").concat(
                    local.as_str(),
                ).concat("` but is not in cron's PATH (").concat(lookup::CRON_PATH).concat(")");
                note(out, true, Finding::warning("APX008", message, "set PATH explicitly in a wrapper".to_owned()));
            },
            None => {
                note(
                    out,
                    true,
                    Finding::error(
                        "APX001",
                        "cannot find command `".to_owned().concat(program).concat("`"),
                        "use an absolute path or install the command".to_owned(),
                    ),
                );
            },
        }
    } else {
        note(
            out,
            text::has_char(program, '/'),
            Finding::error(
                "APX001",
                "command path `".to_owned().concat(program).concat("` does not exist"),
                "check the path from the scheduler's machine".to_owned(),
            ),
        );
    }
}

fn inspect_cron_form(content: &str) -> (out: Vec<Finding>)
    ensures
        finding::views(out@) == cron_form(content@),
{
    let mut out: Vec<Finding> = Vec::new();
    let first_line = script::read_first_line(content);
    let shebang = text::begins_with(first_line.as_str(), "#!");
    note(
        &mut out,
        !shebang,
        Finding::warning(
            "APX003",
            "script has no shebang".to_owned(),
            "add a shebang such as #!/usr/bin/env bash".to_owned(),
        ),
    );
    proof {
        assert(finding::views(out@) =~= finding::when(
            !shebang,
            finding::warning("APX003"@, "script has no shebang"@, "add a shebang such as #!/usr/bin/env bash"@),
        ));
    }
    note(
        &mut out,
        bash_missing(content, first_line.as_str()),
        Finding::warning(
            "APX004",
            "script appears to use Bash syntax but does not declare Bash".to_owned(),
            "use #!/usr/bin/env bash; cron otherwise defaults to /bin/sh".to_owned(),
        ),
    );
    out
}

fn inspect_cron_context(content: &str) -> (out: Vec<Finding>)
    ensures
        finding::views(out@) == cron_context(content@),
{
    let mut out: Vec<Finding> = Vec::new();
    let refs = script::foreign_env(content, &cron_list());
    let message = "script references environment variables cron will not inherit: ".to_owned().concat(
        text::join(&refs, ", ").as_str(),
    );
    let ghost warned = finding::warning(
        "APX005"@,
        message@,
        "declare required variables in a wrapper or scheduler configuration"@,
    );
    note(
        &mut out,
        refs.len() > 0,
        Finding::warning(
            "APX005",
            message,
            "declare required variables in a wrapper or scheduler configuration".to_owned(),
        ),
    );
    proof {
        assert(finding::views(out@) =~= finding::when(refs@.len() > 0, warned));
    }
    note(
        &mut out,
        relative_paths(content),
        Finding::warning(
            "APX009",
            "script uses relative paths".to_owned(),
            "set an explicit working directory before running commands".to_owned(),
        ),
    );
    note(
        &mut out,
        text::holds(content, "~/"),
        Finding::warning(
            "APX010",
            "script expands `~`; cron's HOME may differ from your terminal".to_owned(),
            "use an absolute path or explicitly set HOME".to_owned(),
        ),
    );
    note(
        &mut out,
        script::names_startup_file(content),
        Finding::warning(
            "APX012",
            "script names a shell startup file; cron's shell is neither a login shell nor interactive and reads none".to_owned(),
            "set what the script needs in a wrapper instead of a startup file".to_owned(),
        ),
    );
    note(
        &mut out,
        script::needs_terminal(content),
        Finding::warning(
            "APX013",
            "script assumes an interactive shell; under cron there is no terminal, no prompt and no alias".to_owned(),
            "take input from arguments, files or variables, and write functions in place of aliases".to_owned(),
        ),
    );
    out
}

fn inspect_cron_script(content: &str) -> (out: Vec<Finding>)
    ensures
        finding::views(out@) == cron_script(content@),
{
    let mut out = inspect_cron_form(content);
    extend(&mut out, inspect_cron_context(content));
    note(
        &mut out,
        !text::holds(content, ">") && !text::holds(content, "logger "),
        Finding::info(
            "APX011",
            "no log redirection detected; cron may email output or discard it depending on configuration".to_owned(),
        ),
    );
    out
}

/// Appends the findings of `more` to those of `out`.
fn extend(out: &mut Vec<Finding>, more: Vec<Finding>)
    ensures
        finding::views(final(out)@) == finding::views(old(out)@) + finding::views(more@),
{
    let ghost before = out@;
    let ghost added = more@;
    let mut more = more;
    out.append(&mut more);
    proof {
        assert(finding::views(out@) =~= finding::views(before) + finding::views(added));
    }
}

/// Checks a command against cron's context.
pub fn findings(command: &Vec<String>, host: &Host) -> (out: Vec<Finding>)
    requires
        command@.len() > 0,
    ensures
        finding::views(out@) == cron_findings(text::texts(command@), host@),
{
    let program = command[0].as_str();
    let mut out: Vec<Finding> = Vec::new();
    let relative = text::begins_with(program, "./") || (!lookup::absolute(program) && text::has_char(program, '/'));
    proof {
        assert(text::texts(command@)[0] == program@);
        assert(finding::views(out@) =~= Seq::empty());
    }
    note(
        &mut out,
        relative,
        Finding::warning(
            "APX006",
            "relative command path `".to_owned().concat(program).concat("` depends on cron's working directory"),
            "set an absolute command path or use Apux's generated wrapper".to_owned(),
        ),
    );
    proof {
        assert(finding::views(out@) =~= finding::when(
            relative,
            finding::warning(
                "APX006"@,
                "relative command path `"@ + program@ + "` depends on cron's working directory"@,
                "set an absolute command path or use Apux's generated wrapper"@,
            ),
        ));
    }
    note(
        &mut out,
        text::has_char(program, '~'),
        Finding::warning("APX007", "`~` expansion depends on HOME".to_owned(), "use an absolute path".to_owned()),
    );
    inspect_cron_program(&mut out, program, host);
    match &host.program.content {
        Some(content) => {
            extend(&mut out, inspect_cron_script(content.as_str()));
        },
        None => {
            proof {
                assert(finding::views(out@) + Seq::<finding::FindingView>::empty() =~= finding::views(out@));
            }
        },
    }
    out
}

/// A word that means something to a shell and nothing to a program.
pub open spec fn is_operator(word: Seq<char>) -> bool {
    word == "|"@ || word == "&&"@ || word == "||"@ || word == ";"@ || word == ">"@ || word == ">>"@
}

/// Some word behind the program is a shell operator.
pub open spec fn has_operator(command: Seq<Seq<char>>) -> bool {
    exists|i: int| 1 <= i < command.len() && is_operator(#[trigger] command[i])
}

fn operator(word: &str) -> (r: bool)
    ensures
        r == is_operator(word@),
{
    text::same(word, "|") || text::same(word, "&&") || text::same(word, "||") || text::same(word, ";") || text::same(
        word,
        ">",
    ) || text::same(word, ">>")
}

fn any_operator(command: &Vec<String>) -> (r: bool)
    requires
        command@.len() > 0,
    ensures
        r == has_operator(text::texts(command@)),
{
    let mut i: usize = 1;
    while i < command.len()
        invariant
            1 <= i <= command@.len(),
            forall|j: int| 1 <= j < i ==> !is_operator(#[trigger] text::texts(command@)[j]),
        decreases command@.len() - i,
    {
        if operator(command[i].as_str()) {
            proof {
                assert(is_operator(text::texts(command@)[i as int]));
            }
            return true;
        }
        i = i + 1;
    }
    false
}

/// What a check for systemd finds in the text of a script.
pub open spec fn systemd_script(content: Seq<char>) -> Seq<finding::FindingView> {
    finding::when(
        has_names(foreign(content)),
        finding::warning(
            "APX005"@,
            "script references environment variables a systemd service will not inherit: "@ + comma_list(
                foreign(content),
            ),
            "set Environment= or EnvironmentFile= explicitly in the unit"@,
        ),
    ) + finding::when(
        uses_relative_paths(content),
        finding::warning("APX009"@, "script uses relative paths"@, "set WorkingDirectory= in the unit"@),
    )
}

/// What a check for systemd finds of the path of the program.
pub open spec fn systemd_program(program: Seq<char>, host: HostView) -> Seq<finding::FindingView> {
    if !lookup::is_absolute(program) {
        seq![
            finding::error(
                "APX030"@,
                "systemd ExecStart requires an absolute executable path; `"@ + program + "` is relative"@,
                "use an absolute executable path, e.g. /usr/local/bin/job"@,
            ),
        ]
    } else {
        finding::when(
            !host.is_file,
            finding::error(
                "APX001"@,
                "command path `"@ + program + "` does not exist"@,
                "check the path on the service host"@,
            ),
        )
    }
}

/// What a check for systemd finds of a command.
pub open spec fn systemd_results(command: Seq<Seq<char>>, host: HostView) -> Seq<finding::FindingView> {
    let program = command[0];
    systemd_program(program, host) + finding::when(
        host.is_file && lacks_execute(host.mode),
        not_executable_warning(program),
    ) + finding::when(
        has_operator(command),
        finding::warning(
            "APX031"@,
            "systemd does not run ExecStart through a shell"@,
            "use a wrapper script for pipes, redirects, or shell control operators"@,
        ),
    ) + match host.content {
        Some(content) => systemd_script(content),
        None => Seq::empty(),
    } + finding::when(
        true,
        finding::info(
            "APX032"@,
            "systemd sends standard output and error to the journal by default; inspect with journalctl -u <unit>"@,
        ),
    )
}

fn inspect_systemd_script(content: &str) -> (out: Vec<Finding>)
    ensures
        finding::views(out@) == systemd_script(content@),
{
    let mut out: Vec<Finding> = Vec::new();
    let refs = script::foreign_env(content, &standard_list());
    let message = "script references environment variables a systemd service will not inherit: ".to_owned().concat(
        text::join(&refs, ", ").as_str(),
    );
    let ghost warned = finding::warning(
        "APX005"@,
        message@,
        "set Environment= or EnvironmentFile= explicitly in the unit"@,
    );
    note(
        &mut out,
        refs.len() > 0,
        Finding::warning(
            "APX005",
            message,
            "set Environment= or EnvironmentFile= explicitly in the unit".to_owned(),
        ),
    );
    proof {
        assert(finding::views(out@) =~= finding::when(refs@.len() > 0, warned));
    }
    note(
        &mut out,
        relative_paths(content),
        Finding::warning(
            "APX009",
            "script uses relative paths".to_owned(),
            "set WorkingDirectory= in the unit".to_owned(),
        ),
    );
    out
}

/// Checks a command against the context of a systemd service.
pub fn systemd_findings(command: &Vec<String>, host: &Host) -> (out: Vec<Finding>)
    requires
        command@.len() > 0,
    ensures
        finding::views(out@) == systemd_results(text::texts(command@), host@),
{
    let program = command[0].as_str();
    let mut out: Vec<Finding> = Vec::new();
    proof {
        assert(text::texts(command@)[0] == program@);
        assert(finding::views(out@) =~= Seq::empty());
    }
    if !lookup::absolute(program) {
        note(
            &mut out,
            true,
            Finding::error(
                "APX030",
                "systemd ExecStart requires an absolute executable path; `".to_owned().concat(program).concat(
                    "` is relative",
                ),
                "use an absolute executable path, e.g. /usr/local/bin/job".to_owned(),
            ),
        );
    } else {
        note(
            &mut out,
            !host.program.is_file,
            Finding::error(
                "APX001",
                "command path `".to_owned().concat(program).concat("` does not exist"),
                "check the path on the service host".to_owned(),
            ),
        );
    }
    proof {
        assert(finding::views(out@) =~= systemd_program(program@, host@));
    }
    note(
        &mut out,
        host.program.is_file && not_executable(host.program.mode),
        Finding::warning(
            "APX002",
            "`".to_owned().concat(program).concat("` is not executable"),
            "run chmod +x, or invoke it through its interpreter".to_owned(),
        ),
    );
    note(
        &mut out,
        any_operator(command),
        Finding::warning(
            "APX031",
            "systemd does not run ExecStart through a shell".to_owned(),
            "use a wrapper script for pipes, redirects, or shell control operators".to_owned(),
        ),
    );
    match &host.program.content {
        Some(content) => {
            extend(&mut out, inspect_systemd_script(content.as_str()));
        },
        None => {
            proof {
                assert(finding::views(out@) + Seq::<finding::FindingView>::empty() =~= finding::views(out@));
            }
        },
    }
    note(
        &mut out,
        true,
        Finding::info(
            "APX032",
            "systemd sends standard output and error to the journal by default; inspect with journalctl -u <unit>".to_owned(),
        ),
    );
    out
}

/// What a check for launchd finds in the text of a script.
pub open spec fn launchd_script(content: Seq<char>) -> Seq<finding::FindingView> {
    finding::when(
        has_names(foreign(content)),
        finding::warning(
            "APX005"@,
            "script references environment variables launchd will not inherit: "@ + comma_list(foreign(content)),
            "declare EnvironmentVariables in the launchd plist or load values in a wrapper"@,
        ),
    ) + finding::when(
        uses_relative_paths(content),
        finding::warning(
            "APX009"@,
            "script uses relative paths"@,
            "set WorkingDirectory in the plist or cd in a wrapper"@,
        ),
    )
}

/// What a check for launchd finds of the path of the program.
pub open spec fn launchd_program(program: Seq<char>, host: HostView) -> Seq<finding::FindingView> {
    if !lookup::is_absolute(program) {
        seq![
            finding::error(
                "APX040"@,
                "launchd ProgramArguments[0] should be an absolute executable path; `"@ + program + "` is relative"@,
                "use an absolute executable path in the launchd plist"@,
            ),
        ]
    } else {
        finding::when(
            !host.is_file,
            finding::error(
                "APX001"@,
                "command path `"@ + program + "` does not exist"@,
                "check the path on the Mac that runs launchd"@,
            ),
        )
    }
}

/// What a check for launchd finds of a command.
pub open spec fn launchd_results(command: Seq<Seq<char>>, host: HostView) -> Seq<finding::FindingView> {
    launchd_program(command[0], host) + finding::when(
        has_operator(command),
        finding::warning(
            "APX041"@,
            "launchd does not run ProgramArguments through a shell"@,
            "put shell control operators in a wrapper script and invoke that script"@,
        ),
    ) + match host.content {
        Some(content) => launchd_script(content),
        None => Seq::empty(),
    } + finding::when(
        true,
        finding::info(
            "APX042"@,
            "declare StandardOutPath and StandardErrorPath in the plist for durable logs"@,
        ),
    )
}

fn inspect_launchd_script(content: &str) -> (out: Vec<Finding>)
    ensures
        finding::views(out@) == launchd_script(content@),
{
    let mut out: Vec<Finding> = Vec::new();
    let refs = script::foreign_env(content, &standard_list());
    let message = "script references environment variables launchd will not inherit: ".to_owned().concat(
        text::join(&refs, ", ").as_str(),
    );
    let ghost warned = finding::warning(
        "APX005"@,
        message@,
        "declare EnvironmentVariables in the launchd plist or load values in a wrapper"@,
    );
    note(
        &mut out,
        refs.len() > 0,
        Finding::warning(
            "APX005",
            message,
            "declare EnvironmentVariables in the launchd plist or load values in a wrapper".to_owned(),
        ),
    );
    proof {
        assert(finding::views(out@) =~= finding::when(refs@.len() > 0, warned));
    }
    note(
        &mut out,
        relative_paths(content),
        Finding::warning(
            "APX009",
            "script uses relative paths".to_owned(),
            "set WorkingDirectory in the plist or cd in a wrapper".to_owned(),
        ),
    );
    out
}

/// Checks a command against the context of a launchd job.
pub fn launchd_findings(command: &Vec<String>, host: &Host) -> (out: Vec<Finding>)
    requires
        command@.len() > 0,
    ensures
        finding::views(out@) == launchd_results(text::texts(command@), host@),
{
    let program = command[0].as_str();
    let mut out: Vec<Finding> = Vec::new();
    proof {
        assert(text::texts(command@)[0] == program@);
        assert(finding::views(out@) =~= Seq::empty());
    }
    if !lookup::absolute(program) {
        note(
            &mut out,
            true,
            Finding::error(
                "APX040",
                "launchd ProgramArguments[0] should be an absolute executable path; `".to_owned().concat(
                    program,
                ).concat("` is relative"),
                "use an absolute executable path in the launchd plist".to_owned(),
            ),
        );
    } else {
        note(
            &mut out,
            !host.program.is_file,
            Finding::error(
                "APX001",
                "command path `".to_owned().concat(program).concat("` does not exist"),
                "check the path on the Mac that runs launchd".to_owned(),
            ),
        );
    }
    proof {
        assert(finding::views(out@) =~= launchd_program(program@, host@));
    }
    note(
        &mut out,
        any_operator(command),
        Finding::warning(
            "APX041",
            "launchd does not run ProgramArguments through a shell".to_owned(),
            "put shell control operators in a wrapper script and invoke that script".to_owned(),
        ),
    );
    match &host.program.content {
        Some(content) => {
            extend(&mut out, inspect_launchd_script(content.as_str()));
        },
        None => {
            proof {
                assert(finding::views(out@) + Seq::<finding::FindingView>::empty() =~= finding::views(out@));
            }
        },
    }
    note(
        &mut out,
        true,
        Finding::info(
            "APX042",
            "declare StandardOutPath and StandardErrorPath in the plist for durable logs".to_owned(),
        ),
    );
    out
}

/// What is found in the text of a script never fails a check.
pub proof fn scripts_only_warn(content: Seq<char>)
    ensures
        !finding::fails(cron_script(content)),
        !finding::fails(systemd_script(content)),
        !finding::fails(launchd_script(content)),
{
    broadcast use finding::fails_together, finding::fails_alone;

    assert(!finding::fails(cron_form(content)));
    assert(!finding::fails(cron_context(content)));
}

/// Every finding of every check says what to do, unless it is for information
/// only.
pub proof fn findings_advise(command: Seq<Seq<char>>, host: HostView)
    requires
        command.len() > 0,
    ensures
        finding::all_advise(cron_findings(command, host)),
        finding::all_advise(systemd_results(command, host)),
        finding::all_advise(launchd_results(command, host)),
{
    broadcast use finding::advise_together, finding::advise_alone;

    match host.content {
        Some(content) => {
            assert(finding::all_advise(cron_form(content)));
            assert(finding::all_advise(cron_context(content)));
            assert(finding::all_advise(cron_script(content)));
            assert(finding::all_advise(systemd_script(content)));
            assert(finding::all_advise(launchd_script(content)));
        },
        None => {},
    }
    assert(finding::all_advise(cron_program(command[0], host)));
    assert(finding::all_advise(systemd_program(command[0], host)));
    assert(finding::all_advise(launchd_program(command[0], host)));
}

/// The code stands for something that the text of the script gives cause for.
pub open spec fn script_gives_cause(code: Seq<char>, content: Seq<char>) -> bool {
    ||| code == "APX003"@ && !"#!"@.is_prefix_of(script::first_line(content))
    ||| code == "APX004"@ && needs_bash(content)
    ||| code == "APX005"@ && has_names(cron_foreign(content))
    ||| code == "APX009"@ && uses_relative_paths(content)
    ||| code == "APX010"@ && text::occurs(content, "~/"@)
    ||| code == "APX012"@ && script::uses_startup_files(content)
    ||| code == "APX013"@ && script::assumes_interactive(content)
    ||| code == "APX011"@ && !text::occurs(content, ">"@) && !text::occurs(content, "logger "@)
}

/// What a check for cron finds in a script is all that the script gives cause
/// for, and nothing else: no finding hides another.
pub proof fn scripts_are_reported_in_full(content: Seq<char>, code: Seq<char>)
    ensures
        finding::reports(cron_script(content), code) <==> script_gives_cause(code, content),
{
    broadcast use finding::reports_together, finding::reports_alone;

    assert(finding::reports(cron_form(content), code) <==> {
        ||| code == "APX003"@ && !"#!"@.is_prefix_of(script::first_line(content))
        ||| code == "APX004"@ && needs_bash(content)
    });
    assert(finding::reports(cron_context(content), code) <==> {
        ||| code == "APX005"@ && has_names(cron_foreign(content))
        ||| code == "APX009"@ && uses_relative_paths(content)
        ||| code == "APX010"@ && text::occurs(content, "~/"@)
        ||| code == "APX012"@ && script::uses_startup_files(content)
        ||| code == "APX013"@ && script::assumes_interactive(content)
    });
}

/// Whatever a script gives cause for is among the findings of its command,
/// whatever the command is otherwise.
pub proof fn script_findings_are_kept(command: Seq<Seq<char>>, host: HostView, code: Seq<char>)
    requires
        command.len() > 0,
        host.content is Some,
        script_gives_cause(code, host.content->0),
    ensures
        finding::reports(cron_findings(command, host), code),
{
    broadcast use finding::reports_together;

    scripts_are_reported_in_full(host.content->0, code);
}

/// A check for cron fails exactly if the command cannot be found.
pub proof fn cron_check_fails_on_missing_commands(command: Seq<Seq<char>>, host: HostView)
    requires
        command.len() > 0,
    ensures
        finding::fails(cron_findings(command, host)) <==> !(host.exists && host.is_file) && (command[0].contains('/') || (
        !lookup::cron_finds(command[0], host.files) && lookup::found_on_path(
            host.path,
            command[0],
            host.files,
        ) is None)),
{
    broadcast use finding::fails_together, finding::fails_alone;

    match host.content {
        Some(content) => scripts_only_warn(content),
        None => {},
    }
    let found = cron_program(command[0], host);
    assert(finding::fails(found) <==> found.len() > 0 && found[0].level == finding::Level::Error);
}

/// A check for systemd fails exactly if the program is not an absolute path or
/// no file stands there.
pub proof fn systemd_check_fails_on_bad_paths(command: Seq<Seq<char>>, host: HostView)
    requires
        command.len() > 0,
    ensures
        finding::fails(systemd_results(command, host)) <==> !lookup::is_absolute(command[0]) || !host.is_file,
{
    broadcast use finding::fails_together, finding::fails_alone;

    match host.content {
        Some(content) => scripts_only_warn(content),
        None => {},
    }
    let found = systemd_program(command[0], host);
    assert(finding::fails(found) <==> found.len() > 0 && found[0].level == finding::Level::Error);
}

/// A check for launchd fails exactly if the program is not an absolute path or
/// no file stands there.
pub proof fn launchd_check_fails_on_bad_paths(command: Seq<Seq<char>>, host: HostView)
    requires
        command.len() > 0,
    ensures
        finding::fails(launchd_results(command, host)) <==> !lookup::is_absolute(command[0]) || !host.is_file,
{
    broadcast use finding::fails_together, finding::fails_alone;

    match host.content {
        Some(content) => scripts_only_warn(content),
        None => {},
    }
    let found = launchd_program(command[0], host);
    assert(finding::fails(found) <==> found.len() > 0 && found[0].level == finding::Level::Error);
}

/// Two machines have files at the same of these places.
pub open spec fn same_files(places: Seq<Seq<char>>, a: Seq<Seq<char>>, b: Seq<Seq<char>>) -> bool {
    forall|i: int| 0 <= i < places.len() ==> (a.contains(#[trigger] places[i]) <==> b.contains(places[i]))
}

proof fn first_file_agrees(places: Seq<Seq<char>>, a: Seq<Seq<char>>, b: Seq<Seq<char>>)
    requires
        same_files(places, a, b),
    ensures
        lookup::first_file(places, a) == lookup::first_file(places, b),
    decreases places.len(),
{
    if places.len() > 0 {
        assert(a.contains(places[0]) <==> b.contains(places[0]));
        assert forall|i: int| 0 <= i < places.drop_first().len() implies (a.contains(#[trigger] places.drop_first()[i])
            <==> b.contains(places.drop_first()[i])) by {
            assert(places.drop_first()[i] == places[i + 1]);
        }
        first_file_agrees(places.drop_first(), a, b);
    }
}

/// No check asks about a file beyond the places in [`places_asked`]: machines
/// that have files at the same of these places, and are alike otherwise, get
/// the same findings.
pub proof fn checks_ask_no_further(command: Seq<Seq<char>>, a: HostView, b: HostView)
    requires
        command.len() > 0,
        b == (HostView { files: b.files, ..a }),
        same_files(places_asked(command[0], a.path), a.files, b.files),
    ensures
        cron_findings(command, a) == cron_findings(command, b),
        systemd_results(command, a) == systemd_results(command, b),
        launchd_results(command, a) == launchd_results(command, b),
        lookup::found_on_path(a.path, "docker"@, a.files) == lookup::found_on_path(b.path, "docker"@, b.files),
{
    let program = command[0];
    let all = places_asked(program, a.path);
    let cron = lookup::cron_places(program);
    assert forall|i: int| 0 <= i < cron.len() implies (a.files.contains(#[trigger] cron[i]) <==> b.files.contains(
        cron[i],
    )) by {
        assert(all[i] == cron[i]);
    }
    first_file_agrees(cron, a.files, b.files);
    match a.path {
        Some(path) => {
            let local = lookup::along(path, program);
            let docker = lookup::along(path, "docker"@);
            assert forall|i: int| 0 <= i < local.len() implies (a.files.contains(#[trigger] local[i])
                <==> b.files.contains(local[i])) by {
                assert(all[cron.len() + i] == local[i]);
            }
            assert forall|i: int| 0 <= i < docker.len() implies (a.files.contains(#[trigger] docker[i])
                <==> b.files.contains(docker[i])) by {
                assert(all[cron.len() + local.len() + i] == docker[i]);
            }
            first_file_agrees(local, a.files, b.files);
            first_file_agrees(docker, a.files, b.files);
        },
        None => {},
    }
}

/// A script is warned of variables exactly if it refers to one that the target
/// does not provide.
pub proof fn foreign_variables_are_reported(content: Seq<char>)
    ensures
        has_names(cron_foreign(content)) <==> exists|name: Seq<char>| #[trigger] cron_foreign(content).contains(name),
        has_names(foreign(content)) <==> exists|name: Seq<char>| #[trigger] foreign(content).contains(name),
{
    script::references_are_listed(content, cron_names());
    script::references_are_listed(content, standard_names());
    let a = names::listing(cron_foreign(content));
    let b = names::listing(foreign(content));
    if a.len() > 0 {
        assert(a.contains(a[0]));
        assert(cron_foreign(content).contains(a[0]));
    }
    if b.len() > 0 {
        assert(b.contains(b[0]));
        assert(foreign(content).contains(b[0]));
    }
}

/// A host says its search path, its files and what it knows of the program.
pub proof fn hosts_say_all_they_hold(host: Host)
    ensures
        host@.path == lookup::optional(host.path),
        host@.files == text::texts(host.files@),
        host@.exists == host.program.exists,
        host@.is_file == host.program.is_file,
        host@.mode == host.program.mode,
        host@.content == lookup::optional(host.program.content),
{
}

/// Of the variables that a script refers to, all are foreign to cron but six,
/// and all are foreign to the other targets but five.
pub proof fn variables_that_targets_provide(content: Seq<char>, name: Seq<char>)
    ensures
        foreign(content).contains(name) <==> {
            &&& script::references(content).contains(name)
            &&& name != "PATH"@ && name != "HOME"@ && name != "PWD"@ && name != "SHELL"@ && name != "USER"@
        },
        cron_foreign(content).contains(name) <==> foreign(content).contains(name) && name != "0"@,
{
    let standard = standard_names();
    let cron = cron_names();
    assert(standard[0] == "PATH"@ && standard[1] == "HOME"@ && standard[2] == "PWD"@ && standard[3] == "SHELL"@
        && standard[4] == "USER"@);
    assert(cron.take(5) =~= standard);
    assert(cron[0] == "PATH"@ && cron[1] == "HOME"@ && cron[2] == "PWD"@ && cron[3] == "SHELL"@ && cron[4] == "USER"@);
    assert(cron[5] == "?"@ && cron[6] == "#"@ && cron[7] == "$"@ && cron[8] == "0"@);
    if script::references(content).contains(name) {
        script::references_are_listed(content, cron);
        assert(script::is_name_char(name[0]));
        reveal_strlit("?");
        reveal_strlit("#");
        reveal_strlit("$");
        assert(name != "?"@ && name != "#"@ && name != "$"@);
    }
}

/// What a check for cron finds of a script, told by what stands in the script:
/// each finding is there exactly if its cause is, and no other is there.
pub proof fn cron_script_explained(content: Seq<char>, found: finding::FindingView)
    ensures
        cron_script(content).contains(found) <==> {
            ||| !"#!"@.is_prefix_of(script::first_line(content)) && found == finding::warning(
                "APX003"@,
                "script has no shebang"@,
                "add a shebang such as #!/usr/bin/env bash"@,
            )
            ||| (text::occurs(content, "[["@) || text::occurs(content, "source "@) || text::occurs(content, "function "@))
                && !text::occurs(script::first_line(content), "bash"@) && found == finding::warning(
                "APX004"@,
                "script appears to use Bash syntax but does not declare Bash"@,
                "use #!/usr/bin/env bash; cron otherwise defaults to /bin/sh"@,
            )
            ||| (exists|name: Seq<char>| #[trigger] cron_foreign(content).contains(name)) && found == finding::warning(
                "APX005"@,
                "script references environment variables cron will not inherit: "@ + text::joined(
                    names::listing(cron_foreign(content)),
                    ", "@,
                ),
                "declare required variables in a wrapper or scheduler configuration"@,
            )
            ||| (text::occurs(content, "./"@) || text::occurs(content, "../"@)) && found == finding::warning(
                "APX009"@,
                "script uses relative paths"@,
                "set an explicit working directory before running commands"@,
            )
            ||| text::occurs(content, "~/"@) && found == finding::warning(
                "APX010"@,
                "script expands `~`; cron's HOME may differ from your terminal"@,
                "use an absolute path or explicitly set HOME"@,
            )
            ||| script::uses_startup_files(content) && found == finding::warning(
                "APX012"@,
                "script names a shell startup file; cron's shell is neither a login shell nor interactive and reads none"@,
                "set what the script needs in a wrapper instead of a startup file"@,
            )
            ||| script::assumes_interactive(content) && found == finding::warning(
                "APX013"@,
                "script assumes an interactive shell; under cron there is no terminal, no prompt and no alias"@,
                "take input from arguments, files or variables, and write functions in place of aliases"@,
            )
            ||| !text::occurs(content, ">"@) && !text::occurs(content, "logger "@) && found == finding::info(
                "APX011"@,
                "no log redirection detected; cron may email output or discard it depending on configuration"@,
            )
        },
{
    broadcast use finding::held_together, finding::held_alone;

    foreign_variables_are_reported(content);
    cron_form_explained(content, found);
    cron_context_explained(content, found);
}

proof fn cron_form_explained(content: Seq<char>, found: finding::FindingView)
    ensures
        cron_form(content).contains(found) <==> {
            ||| !"#!"@.is_prefix_of(script::first_line(content)) && found == finding::warning(
                "APX003"@,
                "script has no shebang"@,
                "add a shebang such as #!/usr/bin/env bash"@,
            )
            ||| needs_bash(content) && found == finding::warning(
                "APX004"@,
                "script appears to use Bash syntax but does not declare Bash"@,
                "use #!/usr/bin/env bash; cron otherwise defaults to /bin/sh"@,
            )
        },
{
    broadcast use finding::held_together, finding::held_alone;

}

proof fn cron_context_explained(content: Seq<char>, found: finding::FindingView)
    ensures
        cron_context(content).contains(found) <==> {
            ||| has_names(cron_foreign(content)) && found == finding::warning(
                "APX005"@,
                "script references environment variables cron will not inherit: "@ + comma_list(cron_foreign(content)),
                "declare required variables in a wrapper or scheduler configuration"@,
            )
            ||| uses_relative_paths(content) && found == finding::warning(
                "APX009"@,
                "script uses relative paths"@,
                "set an explicit working directory before running commands"@,
            )
            ||| text::occurs(content, "~/"@) && found == finding::warning(
                "APX010"@,
                "script expands `~`; cron's HOME may differ from your terminal"@,
                "use an absolute path or explicitly set HOME"@,
            )
            ||| script::uses_startup_files(content) && found == finding::warning(
                "APX012"@,
                "script names a shell startup file; cron's shell is neither a login shell nor interactive and reads none"@,
                "set what the script needs in a wrapper instead of a startup file"@,
            )
            ||| script::assumes_interactive(content) && found == finding::warning(
                "APX013"@,
                "script assumes an interactive shell; under cron there is no terminal, no prompt and no alias"@,
                "take input from arguments, files or variables, and write functions in place of aliases"@,
            )
        },
{
    broadcast use finding::held_together, finding::held_alone;

}

/// Each of the three marks of Bash, wherever it stands in a script, is warned of
/// unless the first line names Bash, and nothing else is.
pub proof fn bash_marks_are_reported(command: Seq<Seq<char>>, host: HostView)
    requires
        command.len() > 0,
        host.content is Some,
    ensures
        text::occurs(host.content->0, "[["@) && !text::occurs(script::first_line(host.content->0), "bash"@)
            ==> finding::reports(cron_findings(command, host), "APX004"@),
        text::occurs(host.content->0, "source "@) && !text::occurs(script::first_line(host.content->0), "bash"@)
            ==> finding::reports(cron_findings(command, host), "APX004"@),
        text::occurs(host.content->0, "function "@) && !text::occurs(script::first_line(host.content->0), "bash"@)
            ==> finding::reports(cron_findings(command, host), "APX004"@),
        finding::reports(cron_findings(command, host), "APX004"@) ==> (text::occurs(host.content->0, "[["@)
            || text::occurs(host.content->0, "source "@) || text::occurs(host.content->0, "function "@)) && !text::occurs(
            script::first_line(host.content->0),
            "bash"@,
        ),
{
    let content = host.content->0;
    let list = cron_findings(command, host);
    let warned = finding::warning(
        "APX004"@,
        "script appears to use Bash syntax but does not declare Bash"@,
        "use #!/usr/bin/env bash; cron otherwise defaults to /bin/sh"@,
    );
    cron_script_explained(content, warned);
    cron_findings_explained(command, host, warned);
    if list.contains(warned) {
        let i = choose|i: int| 0 <= i < list.len() && list[i] == warned;
        assert(list[i].code == "APX004"@);
    }
    if finding::reports(list, "APX004"@) {
        let i = choose|i: int| 0 <= i < list.len() && (#[trigger] list[i]).code == "APX004"@;
        assert(list.contains(list[i]));
        cron_findings_explained(command, host, list[i]);
        cron_script_explained(content, list[i]);
        codes_differ();
    }
}

/// The codes of the findings for cron differ from the one for Bash.
proof fn codes_differ()
    ensures
        "APX004"@ != "APX001"@,
        "APX004"@ != "APX002"@,
        "APX004"@ != "APX003"@,
        "APX004"@ != "APX005"@,
        "APX004"@ != "APX006"@,
        "APX004"@ != "APX007"@,
        "APX004"@ != "APX008"@,
        "APX004"@ != "APX009"@,
        "APX004"@ != "APX010"@,
        "APX004"@ != "APX011"@,
        "APX004"@ != "APX012"@,
        "APX004"@ != "APX013"@,
{
    reveal_strlit("APX001");
    reveal_strlit("APX002");
    reveal_strlit("APX003");
    reveal_strlit("APX004");
    reveal_strlit("APX005");
    reveal_strlit("APX006");
    reveal_strlit("APX007");
    reveal_strlit("APX008");
    reveal_strlit("APX009");
    reveal_strlit("APX010");
    reveal_strlit("APX011");
    reveal_strlit("APX012");
    reveal_strlit("APX013");
    assert("APX004"@[5] == '4' && "APX004"@[4] == '0');
    assert("APX001"@[5] == '1' && "APX002"@[5] == '2' && "APX003"@[5] == '3' && "APX005"@[5] == '5');
    assert("APX006"@[5] == '6' && "APX007"@[5] == '7' && "APX008"@[5] == '8' && "APX009"@[5] == '9');
    assert("APX010"@[4] == '1' && "APX011"@[4] == '1' && "APX012"@[4] == '1' && "APX013"@[4] == '1');
}

/// What a check for cron finds of a command, told by what is known of the
/// machine: each finding is there exactly if its cause is, and no other is
/// there but those of the script.
pub proof fn cron_findings_explained(command: Seq<Seq<char>>, host: HostView, found: finding::FindingView)
    requires
        command.len() > 0,
    ensures
        ({
            let program = command[0];
            let there = host.exists && host.is_file;
            let local = lookup::found_on_path(host.path, program, host.files);
            let astray = !there && !program.contains('/') && !lookup::cron_finds(program, host.files);
            cron_findings(command, host).contains(found) <==> {
                ||| ("./"@.is_prefix_of(program) || (program.contains('/') && !"/"@.is_prefix_of(program))) && found
                    == finding::warning(
                    "APX006"@,
                    "relative command path `"@ + program + "` depends on cron's working directory"@,
                    "set an absolute command path or use Apux's generated wrapper"@,
                )
                ||| program.contains('~') && found == finding::warning(
                    "APX007"@,
                    "`~` expansion depends on HOME"@,
                    "use an absolute path"@,
                )
                ||| there && host.mode is Some && host.mode->0 & 0o111 == 0 && found == finding::warning(
                    "APX002"@,
                    "`"@ + program + "` is not executable"@,
                    "run chmod +x, or invoke it through its interpreter"@,
                )
                ||| astray && local is Some && found == finding::warning(
                    "APX008"@,
                    "`"@ + program + "` resolves locally to `"@ + local->0 + "` but is not in cron's PATH ("@
                        + "/usr/bin:/bin"@ + ")"@,
                    "set PATH explicitly in a wrapper"@,
                )
                ||| astray && local is None && found == finding::error(
                    "APX001"@,
                    "cannot find command `"@ + program + "`"@,
                    "use an absolute path or install the command"@,
                )
                ||| !there && program.contains('/') && found == finding::error(
                    "APX001"@,
                    "command path `"@ + program + "` does not exist"@,
                    "check the path from the scheduler's machine"@,
                )
                ||| host.content is Some && cron_script(host.content->0).contains(found)
            }
        }),
{
    broadcast use finding::held_together, finding::held_alone;

    lookup::absolute_paths_begin_with_a_slash(command[0]);
    cron_program_explained(command[0], host, found);
}

proof fn cron_program_explained(program: Seq<char>, host: HostView, found: finding::FindingView)
    ensures
        ({
            let there = host.exists && host.is_file;
            let local = lookup::found_on_path(host.path, program, host.files);
            let astray = !there && !program.contains('/') && !lookup::cron_finds(program, host.files);
            cron_program(program, host).contains(found) <==> {
                ||| there && lacks_execute(host.mode) && found == not_executable_warning(program)
                ||| astray && local is Some && found == finding::warning(
                    "APX008"@,
                    "`"@ + program + "` resolves locally to `"@ + local->0 + "` but is not in cron's PATH ("@
                        + lookup::CRON_PATH@ + ")"@,
                    "set PATH explicitly in a wrapper"@,
                )
                ||| astray && local is None && found == finding::error(
                    "APX001"@,
                    "cannot find command `"@ + program + "`"@,
                    "use an absolute path or install the command"@,
                )
                ||| !there && program.contains('/') && found == finding::error(
                    "APX001"@,
                    "command path `"@ + program + "` does not exist"@,
                    "check the path from the scheduler's machine"@,
                )
            }
        }),
{
    broadcast use finding::held_alone;

    let list = cron_program(program, host);
    if list.len() == 1 {
        assert(list.contains(found) <==> found == list[0]) by {
            if list.contains(found) {
                let i = choose|i: int| 0 <= i < list.len() && list[i] == found;
                assert(i == 0);
            }
            if found == list[0] {
                assert(list[0] == found);
            }
        }
    }
}

proof fn operators_are_six(command: Seq<Seq<char>>)
    ensures
        has_operator(command) <==> exists|i: int|
            1 <= i < command.len() && seq!["|"@, "&&"@, "||"@, ";"@, ">"@, ">>"@].contains(#[trigger] command[i]),
{
    let six = seq!["|"@, "&&"@, "||"@, ";"@, ">"@, ">>"@];
    assert(six[0] == "|"@ && six[1] == "&&"@ && six[2] == "||"@ && six[3] == ";"@ && six[4] == ">"@ && six[5] == ">>"@);
    assert forall|word: Seq<char>| #[trigger] is_operator(word) <==> six.contains(word) by {
        if six.contains(word) {
            let k = choose|k: int| 0 <= k < six.len() && six[k] == word;
            assert(k == 0 || k == 1 || k == 2 || k == 3 || k == 4 || k == 5);
        }
    }
    if has_operator(command) {
        let i = choose|i: int| 1 <= i < command.len() && is_operator(#[trigger] command[i]);
        assert(six.contains(command[i]));
    }
    if exists|i: int| 1 <= i < command.len() && six.contains(#[trigger] command[i]) {
        let i = choose|i: int| 1 <= i < command.len() && six.contains(#[trigger] command[i]);
        assert(is_operator(command[i]));
    }
}

/// What a check for systemd finds of a command, told by the command and by what is
/// known of the machine: each finding is there exactly if its cause is, and no
/// other is there.
pub proof fn systemd_findings_explained(command: Seq<Seq<char>>, host: HostView, found: finding::FindingView)
    requires
        command.len() > 0,
    ensures
        ({
            let program = command[0];
            let missing = foreign(host.content->0);
            systemd_results(command, host).contains(found) <==> {
                ||| !"/"@.is_prefix_of(program) && found == finding::error(
                    "APX030"@,
                    "systemd ExecStart requires an absolute executable path; `"@ + program + "` is relative"@,
                    "use an absolute executable path, e.g. /usr/local/bin/job"@,
                )
                ||| "/"@.is_prefix_of(program) && !host.is_file && found == finding::error(
                    "APX001"@,
                    "command path `"@ + program + "` does not exist"@,
                    "check the path on the service host"@,
                )
                ||| host.is_file && host.mode is Some && host.mode->0 & 0o111 == 0 && found == finding::warning(
                    "APX002"@,
                    "`"@ + program + "` is not executable"@,
                    "run chmod +x, or invoke it through its interpreter"@,
                )
                ||| (exists|i: int|
                    1 <= i < command.len() && seq!["|"@, "&&"@, "||"@, ";"@, ">"@, ">>"@].contains(#[trigger] command[i]))
                    && found == finding::warning(
                    "APX031"@,
                    "systemd does not run ExecStart through a shell"@,
                    "use a wrapper script for pipes, redirects, or shell control operators"@,
                )
                ||| host.content is Some && (exists|name: Seq<char>| #[trigger] missing.contains(name)) && found
                    == finding::warning(
                    "APX005"@,
                    "script references environment variables a systemd service will not inherit: "@ + text::joined(
                        names::listing(missing),
                        ", "@,
                    ),
                    "set Environment= or EnvironmentFile= explicitly in the unit"@,
                )
                ||| host.content is Some && (text::occurs(host.content->0, "./"@) || text::occurs(host.content->0, "../"@))
                    && found == finding::warning(
                    "APX009"@,
                    "script uses relative paths"@,
                    "set WorkingDirectory= in the unit"@,
                )
                ||| found == finding::info(
                    "APX032"@,
                    "systemd sends standard output and error to the journal by default; inspect with journalctl -u <unit>"@,
                )
            }
        }),
{
    broadcast use finding::held_together, finding::held_alone;

    lookup::absolute_paths_begin_with_a_slash(command[0]);
    operators_are_six(command);
    let path = systemd_program(command[0], host);
    if path.len() == 1 {
        assert(path.contains(found) <==> found == path[0]) by {
            if path.contains(found) {
                let i = choose|i: int| 0 <= i < path.len() && path[i] == found;
                assert(i == 0);
            }
            if found == path[0] {
                assert(path[0] == found);
            }
        }
    }
    if host.content is Some {
        foreign_variables_are_reported(host.content->0);
        assert(systemd_script(host.content->0).contains(found) <==> {
            ||| has_names(foreign(host.content->0)) && found == finding::warning(
                "APX005"@,
                "script references environment variables a systemd service will not inherit: "@ + comma_list(foreign(host.content->0)),
                "set Environment= or EnvironmentFile= explicitly in the unit"@,
            )
            ||| uses_relative_paths(host.content->0) && found == finding::warning(
                "APX009"@,
                "script uses relative paths"@,
                "set WorkingDirectory= in the unit"@,
            )
        });
    }
}

/// What a check for launchd finds of a command, told by the command and by what is
/// known of the machine: each finding is there exactly if its cause is, and no
/// other is there.
pub proof fn launchd_findings_explained(command: Seq<Seq<char>>, host: HostView, found: finding::FindingView)
    requires
        command.len() > 0,
    ensures
        ({
            let program = command[0];
            let missing = foreign(host.content->0);
            launchd_results(command, host).contains(found) <==> {
                ||| !"/"@.is_prefix_of(program) && found == finding::error(
                    "APX040"@,
                    "launchd ProgramArguments[0] should be an absolute executable path; `"@ + program + "` is relative"@,
                    "use an absolute executable path in the launchd plist"@,
                )
                ||| "/"@.is_prefix_of(program) && !host.is_file && found == finding::error(
                    "APX001"@,
                    "command path `"@ + program + "` does not exist"@,
                    "check the path on the Mac that runs launchd"@,
                )
                ||| (exists|i: int|
                    1 <= i < command.len() && seq!["|"@, "&&"@, "||"@, ";"@, ">"@, ">>"@].contains(#[trigger] command[i]))
                    && found == finding::warning(
                    "APX041"@,
                    "launchd does not run ProgramArguments through a shell"@,
                    "put shell control operators in a wrapper script and invoke that script"@,
                )
                ||| host.content is Some && (exists|name: Seq<char>| #[trigger] missing.contains(name)) && found
                    == finding::warning(
                    "APX005"@,
                    "script references environment variables launchd will not inherit: "@ + text::joined(
                        names::listing(missing),
                        ", "@,
                    ),
                    "declare EnvironmentVariables in the launchd plist or load values in a wrapper"@,
                )
                ||| host.content is Some && (text::occurs(host.content->0, "./"@) || text::occurs(host.content->0, "../"@))
                    && found == finding::warning(
                    "APX009"@,
                    "script uses relative paths"@,
                    "set WorkingDirectory in the plist or cd in a wrapper"@,
                )
                ||| found == finding::info(
                    "APX042"@,
                    "declare StandardOutPath and StandardErrorPath in the plist for durable logs"@,
                )
            }
        }),
{
    broadcast use finding::held_together, finding::held_alone;

    lookup::absolute_paths_begin_with_a_slash(command[0]);
    operators_are_six(command);
    let path = launchd_program(command[0], host);
    if path.len() == 1 {
        assert(path.contains(found) <==> found == path[0]) by {
            if path.contains(found) {
                let i = choose|i: int| 0 <= i < path.len() && path[i] == found;
                assert(i == 0);
            }
            if found == path[0] {
                assert(path[0] == found);
            }
        }
    }
    if host.content is Some {
        foreign_variables_are_reported(host.content->0);
        assert(launchd_script(host.content->0).contains(found) <==> {
            ||| has_names(foreign(host.content->0)) && found == finding::warning(
                "APX005"@,
                "script references environment variables launchd will not inherit: "@ + comma_list(foreign(host.content->0)),
                "declare EnvironmentVariables in the launchd plist or load values in a wrapper"@,
            )
            ||| uses_relative_paths(host.content->0) && found == finding::warning(
                "APX009"@,
                "script uses relative paths"@,
                "set WorkingDirectory in the plist or cd in a wrapper"@,
            )
        });
    }
}

/// The findings of a check come in a fixed order, none twice: first those of the
/// program, then those of the script, and last what is for information.
pub proof fn findings_keep_their_order(command: Seq<Seq<char>>, host: HostView)
    requires
        command.len() > 0,
    ensures
        finding::in_order(
            cron_findings(command, host),
            seq![
                "APX006"@,
                "APX007"@,
                "APX001"@,
                "APX002"@,
                "APX008"@,
                "APX003"@,
                "APX004"@,
                "APX005"@,
                "APX009"@,
                "APX010"@,
                "APX012"@,
                "APX013"@,
                "APX011"@,
            ],
            0,
            13,
        ),
        finding::in_order(
            systemd_results(command, host),
            seq!["APX030"@, "APX001"@, "APX002"@, "APX031"@, "APX005"@, "APX009"@, "APX032"@],
            0,
            7,
        ),
        finding::in_order(
            launchd_results(command, host),
            seq!["APX040"@, "APX001"@, "APX041"@, "APX005"@, "APX009"@, "APX042"@],
            0,
            6,
        ),
{
    cron_order(command, host);
    systemd_order(command, host);
    launchd_order(command, host);
}

/// The order of the codes in the findings for cron.
spec fn cron_codes() -> Seq<Seq<char>> {
    seq![
        "APX006"@,
        "APX007"@,
        "APX001"@,
        "APX002"@,
        "APX008"@,
        "APX003"@,
        "APX004"@,
        "APX005"@,
        "APX009"@,
        "APX010"@,
        "APX012"@,
        "APX013"@,
        "APX011"@,
    ]
}

proof fn cron_script_order(content: Seq<char>)
    ensures
        finding::in_order(cron_script(content), cron_codes(), 5, 13),
{
    broadcast use finding::in_order_grows, finding::in_order_begins;

    assert(finding::in_order(cron_form(content), cron_codes(), 5, 7));
    assert(finding::in_order(cron_context(content), cron_codes(), 7, 12));
    finding::in_order_together(cron_form(content), cron_context(content), cron_codes(), 5, 7, 12);
}

proof fn cron_order(command: Seq<Seq<char>>, host: HostView)
    requires
        command.len() > 0,
    ensures
        finding::in_order(cron_findings(command, host), cron_codes(), 0, 13),
{
    broadcast use finding::in_order_grows, finding::in_order_begins;

    let codes = cron_codes();
    let program = command[0];
    let form = finding::when(
        "./"@.is_prefix_of(program) || (!lookup::is_absolute(program) && program.contains('/')),
        finding::warning(
            "APX006"@,
            "relative command path `"@ + program + "` depends on cron's working directory"@,
            "set an absolute command path or use Apux's generated wrapper"@,
        ),
    ) + finding::when(
        program.contains('~'),
        finding::warning("APX007"@, "`~` expansion depends on HOME"@, "use an absolute path"@),
    );
    assert(finding::in_order(form, codes, 0, 2));
    let found = cron_program(program, host);
    let place: int = if host.exists && host.is_file {
        3
    } else if found.len() == 1 && found[0].code == "APX008"@ {
        4
    } else {
        2
    };
    finding::in_order_alone(found, codes, 2, 5, place);
    finding::in_order_together(form, found, codes, 0, 2, 5);
    match host.content {
        Some(content) => {
            cron_script_order(content);
            finding::in_order_together(form + found, cron_script(content), codes, 0, 5, 13);
        },
        None => {
            assert(finding::in_order(Seq::empty(), codes, 5, 13));
            finding::in_order_together(form + found, Seq::empty(), codes, 0, 5, 13);
        },
    }
}

/// The order of the codes in the findings for systemd.
spec fn systemd_codes() -> Seq<Seq<char>> {
    seq![
        "APX030"@,
        "APX001"@,
        "APX002"@,
        "APX031"@,
        "APX005"@,
        "APX009"@,
        "APX032"@,
    ]
}

proof fn systemd_order(command: Seq<Seq<char>>, host: HostView)
    requires
        command.len() > 0,
    ensures
        finding::in_order(systemd_results(command, host), systemd_codes(), 0, 7),
{
    broadcast use finding::in_order_grows, finding::in_order_begins;

    let codes = systemd_codes();
    let path = systemd_program(command[0], host);
    let place: int = if lookup::is_absolute(command[0]) {
        1
    } else {
        0
    };
    finding::in_order_alone(path, codes, 0, 2, place);
    let front = path + finding::when(
        host.is_file && lacks_execute(host.mode),
        not_executable_warning(command[0]),
    ) + finding::when(
        has_operator(command),
        finding::warning(
            "APX031"@,
            "systemd does not run ExecStart through a shell"@,
            "use a wrapper script for pipes, redirects, or shell control operators"@,
        ),
    );
    assert(finding::in_order(front, codes, 0, 4));
    match host.content {
        Some(content) => {
            assert(finding::in_order(systemd_script(content), codes, 4, 6));
            finding::in_order_together(front, systemd_script(content), codes, 0, 4, 6);
        },
        None => {
            assert(finding::in_order(Seq::empty(), codes, 4, 6));
            finding::in_order_together(front, Seq::empty(), codes, 0, 4, 6);
        },
    }
}

/// The order of the codes in the findings for launchd.
spec fn launchd_codes() -> Seq<Seq<char>> {
    seq![
        "APX040"@,
        "APX001"@,
        "APX041"@,
        "APX005"@,
        "APX009"@,
        "APX042"@,
    ]
}

proof fn launchd_order(command: Seq<Seq<char>>, host: HostView)
    requires
        command.len() > 0,
    ensures
        finding::in_order(launchd_results(command, host), launchd_codes(), 0, 6),
{
    broadcast use finding::in_order_grows, finding::in_order_begins;

    let codes = launchd_codes();
    let path = launchd_program(command[0], host);
    let place: int = if lookup::is_absolute(command[0]) {
        1
    } else {
        0
    };
    finding::in_order_alone(path, codes, 0, 2, place);
    let front = path + finding::when(
        has_operator(command),
        finding::warning(
            "APX041"@,
            "launchd does not run ProgramArguments through a shell"@,
            "put shell control operators in a wrapper script and invoke that script"@,
        ),
    );
    assert(finding::in_order(front, codes, 0, 3));
    match host.content {
        Some(content) => {
            assert(finding::in_order(launchd_script(content), codes, 3, 5));
            finding::in_order_together(front, launchd_script(content), codes, 0, 3, 5);
        },
        None => {
            assert(finding::in_order(Seq::empty(), codes, 3, 5));
            finding::in_order_together(front, Seq::empty(), codes, 0, 3, 5);
        },
    }
}

} // verus!
