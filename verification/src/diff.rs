//! How the context of a target differs from the terminal's.

use vstd::prelude::*;

use crate::lookup;
use crate::names;
use crate::preflight;
use crate::report;
use crate::script;
use crate::shell;
use crate::shell::command_display;
use crate::text;
use crate::text::same;

verus! {

/// The variables of the terminal that are held against cron's.
pub struct Locals {
    pub path: Option<String>,
    pub shell: Option<String>,
    pub term: Option<String>,
    pub pwd: Option<String>,
}

/// What [`Locals`] say.
pub struct LocalsView {
    pub path: Option<Seq<char>>,
    pub shell: Option<Seq<char>>,
    pub term: Option<Seq<char>>,
    pub pwd: Option<Seq<char>>,
}

impl View for Locals {
    type V = LocalsView;

    open spec fn view(&self) -> LocalsView {
        LocalsView {
            path: lookup::optional(self.path),
            shell: lookup::optional(self.shell),
            term: lookup::optional(self.term),
            pwd: lookup::optional(self.pwd),
        }
    }
}

/// The variable has in the terminal what it has under cron.
pub open spec fn agrees(local: Option<Seq<char>>, cron: Seq<char>) -> bool {
    match local {
        Some(value) => value == cron,
        None => cron == "<absent>"@,
    }
}

/// What is shown of the terminal's value: only whether there is one.
pub open spec fn shown(local: Option<Seq<char>>) -> Seq<char> {
    if local is Some {
        "<set>"@
    } else {
        "<absent>"@
    }
}

/// The lines on one variable.
pub open spec fn variable_lines(name: Seq<char>, local: Option<Seq<char>>, cron: Seq<char>) -> Seq<char> {
    report::text_if(
        !agrees(local, cron),
        "~ "@ + name + "\n  local: "@ + shown(local) + "\n  cron:  "@ + cron + "\n"@,
    )
}

/// The line on the variables that a script misses under cron.
pub open spec fn missing_line(content: Option<Seq<char>>) -> Seq<char> {
    match content {
        Some(content) => report::text_if(
            preflight::has_names(preflight::foreign(content)),
            "\n! variables referenced by the script but absent from cron by default: "@ + preflight::comma_list(
                preflight::foreign(content),
            ) + "\n"@,
        ),
        None => Seq::empty(),
    }
}

/// How cron's context differs from the terminal's.
pub open spec fn cron_diff(
    command: Seq<Seq<char>>,
    locals: LocalsView,
    content: Option<Seq<char>>,
) -> Seq<char> {
    "Apux context diff: local → cron\n  command: "@ + shell::command_line(command) + "\n\n"@ + variable_lines(
        "PATH"@,
        locals.path,
        lookup::CRON_PATH@,
    ) + variable_lines("SHELL"@, locals.shell, lookup::CRON_SHELL@) + variable_lines(
        "TERM"@,
        locals.term,
        "<absent>"@,
    ) + variable_lines("PWD"@, locals.pwd, "scheduler-defined"@) + missing_line(content)
}

pub open spec fn systemd_diff() -> Seq<char> {
    "Apux context diff: local → systemd\n  PATH: local value → "@ + lookup::SYSTEMD_PATH@
        + "\n  SHELL: local value → <absent>\n  TERM: local value → <absent>\n  working directory: local value → / unless WorkingDirectory= is declared\n"@
}

pub open spec fn launchd_diff() -> Seq<char> {
    "Apux context diff: local → launchd\n  PATH: local value → "@ + lookup::LAUNCHD_PATH@
        + "\n  SHELL: local value → <absent>\n  TERM: local value → <absent>\n  working directory: local value → / unless WorkingDirectory is declared\n  environment: terminal exports → only EnvironmentVariables declared in the plist\n"@
}

/// How the context of a container differs from the terminal's.
pub open spec fn docker_diff(directory: Option<Seq<char>>, image: Option<Seq<char>>) -> Seq<char> {
    "Apux context diff: local → docker\n  filesystem: host checkout → mounted at /workspace\n  working directory: "@
        + match directory {
        Some(directory) => directory,
        None => "<unknown>"@,
    } + " → /workspace\n  environment: terminal exports → image-defined unless passed with --env\n  executable versions: host → image `"@
        + match image {
        Some(image) => image,
        None => "<missing>"@,
    } + "`\n"@
}

fn variable_text(name: &str, local: &Option<String>, cron: &str) -> (r: String)
    ensures
        r@ == variable_lines(name@, lookup::optional(*local), cron@),
{
    let agreed: bool = match local {
        Some(value) => same(value.as_str(), cron),
        None => same(cron, "<absent>"),
    };
    if agreed {
        return String::new();
    }
    let state: &str = match local {
        Some(_) => "<set>",
        None => "<absent>",
    };
    "~ ".to_owned().concat(name).concat("\n  local: ").concat(state).concat("\n  cron:  ").concat(cron).concat("\n")
}

fn missing_text(content: &Option<String>) -> (r: String)
    ensures
        r@ == missing_line(lookup::optional(*content)),
{
    match content {
        Some(content) => {
            let refs = script::foreign_env(content.as_str(), &preflight::standard_list());
            if refs.len() > 0 {
                "\n! variables referenced by the script but absent from cron by default: ".to_owned().concat(
                    text::join(&refs, ", ").as_str(),
                ).concat("\n")
            } else {
                String::new()
            }
        },
        None => String::new(),
    }
}

/// Tells how cron's context differs from the terminal's.
pub fn diff(command: &Vec<String>, locals: &Locals, content: &Option<String>) -> (r: String)
    ensures
        r@ == cron_diff(text::texts(command@), locals@, lookup::optional(*content)),
{
    "Apux context diff: local → cron\n  command: ".to_owned().concat(command_display(command).as_str()).concat(
        "\n\n",
    ).concat(variable_text("PATH", &locals.path, lookup::CRON_PATH).as_str()).concat(
        variable_text("SHELL", &locals.shell, lookup::CRON_SHELL).as_str(),
    ).concat(variable_text("TERM", &locals.term, "<absent>").as_str()).concat(
        variable_text("PWD", &locals.pwd, "scheduler-defined").as_str(),
    ).concat(missing_text(content).as_str())
}

/// How the context of a target differs from the terminal's.
pub open spec fn target_diff(
    target: Seq<char>,
    command: Seq<Seq<char>>,
    locals: LocalsView,
    content: Option<Seq<char>>,
    directory: Option<Seq<char>>,
    image: Option<Seq<char>>,
) -> Seq<char> {
    if target == "cron"@ {
        cron_diff(command, locals, content)
    } else if target == "systemd"@ {
        systemd_diff()
    } else if target == "launchd"@ {
        launchd_diff()
    } else {
        docker_diff(directory, image)
    }
}

/// Tells how the context of a target differs from the terminal's.
pub fn diff_target(
    target: &str,
    command: &Vec<String>,
    locals: &Locals,
    content: &Option<String>,
    directory: &Option<String>,
    image: &Option<String>,
) -> (r: String)
    requires
        report::is_target(target@),
    ensures
        r@ == target_diff(
            target@,
            text::texts(command@),
            locals@,
            lookup::optional(*content),
            lookup::optional(*directory),
            lookup::optional(*image),
        ),
{
    if same(target, "cron") {
        diff(command, locals, content)
    } else if same(target, "systemd") {
        "Apux context diff: local → systemd\n  PATH: local value → ".to_owned().concat(lookup::SYSTEMD_PATH).concat(
            "\n  SHELL: local value → <absent>\n  TERM: local value → <absent>\n  working directory: local value → / unless WorkingDirectory= is declared\n",
        )
    } else if same(target, "launchd") {
        "Apux context diff: local → launchd\n  PATH: local value → ".to_owned().concat(lookup::LAUNCHD_PATH).concat(
            "\n  SHELL: local value → <absent>\n  TERM: local value → <absent>\n  working directory: local value → / unless WorkingDirectory is declared\n  environment: terminal exports → only EnvironmentVariables declared in the plist\n",
        )
    } else {
        let place: &str = match directory {
            Some(directory) => directory.as_str(),
            None => "<unknown>",
        };
        let name: &str = match image {
            Some(image) => image.as_str(),
            None => "<missing>",
        };
        "Apux context diff: local → docker\n  filesystem: host checkout → mounted at /workspace\n  working directory: ".to_owned().concat(
            place,
        ).concat(
            " → /workspace\n  environment: terminal exports → image-defined unless passed with --env\n  executable versions: host → image `",
        ).concat(name).concat("`\n")
    }
}

/// Two terminals look alike to a diff: they have the same variables, and the
/// same of them agree with cron's.
pub open spec fn alike(a: Option<Seq<char>>, b: Option<Seq<char>>, cron: Seq<char>) -> bool {
    (a is Some <==> b is Some) && (agrees(a, cron) <==> agrees(b, cron))
}

/// No diff shows the value of an environment variable: it tells only whether a
/// variable is set and whether it agrees with the target's, so terminals that
/// are alike in this get the same diff whatever the values are.
pub proof fn diff_hides_values(
    target: Seq<char>,
    command: Seq<Seq<char>>,
    a: LocalsView,
    b: LocalsView,
    content: Option<Seq<char>>,
    directory: Option<Seq<char>>,
    image: Option<Seq<char>>,
)
    requires
        alike(a.path, b.path, lookup::CRON_PATH@),
        alike(a.shell, b.shell, lookup::CRON_SHELL@),
        alike(a.term, b.term, "<absent>"@),
        alike(a.pwd, b.pwd, "scheduler-defined"@),
    ensures
        target_diff(target, command, a, content, directory, image) == target_diff(
            target,
            command,
            b,
            content,
            directory,
            image,
        ),
{
}

/// The variables of a terminal are said as they are.
pub proof fn locals_say_all_they_hold(locals: Locals)
    ensures
        locals@.path == lookup::optional(locals.path),
        locals@.shell == lookup::optional(locals.shell),
        locals@.term == lookup::optional(locals.term),
        locals@.pwd == lookup::optional(locals.pwd),
{
}

/// A diff from cron names the command and then, of the four variables, exactly
/// those whose value in the terminal is not the one under cron, with whether
/// they are set there and with what cron has. `TERM` is absent under cron, so
/// it is named exactly if it is set to anything but the mark of absence.
/// Last it lists what the script misses, if it misses anything.
pub proof fn differing_variables_are_shown(
    command: Seq<Seq<char>>,
    locals: LocalsView,
    content: Option<Seq<char>>,
)
    ensures
        ({
            let nothing: Seq<char> = Seq::empty();
            let side = |local: Option<Seq<char>>| if local is Some {
                "<set>"@
            } else {
                "<absent>"@
            };
            let path = if locals.path != Some("/usr/bin:/bin"@) {
                "~ PATH\n  local: "@ + side(locals.path) + "\n  cron:  /usr/bin:/bin\n"@
            } else {
                nothing
            };
            let shell = if locals.shell != Some("/bin/sh"@) {
                "~ SHELL\n  local: "@ + side(locals.shell) + "\n  cron:  /bin/sh\n"@
            } else {
                nothing
            };
            let term = if locals.term is Some && locals.term != Some("<absent>"@) {
                "~ TERM\n  local: <set>\n  cron:  <absent>\n"@
            } else {
                nothing
            };
            let pwd = if locals.pwd != Some("scheduler-defined"@) {
                "~ PWD\n  local: "@ + side(locals.pwd) + "\n  cron:  scheduler-defined\n"@
            } else {
                nothing
            };
            let missing = if content is Some && exists|name: Seq<char>| #[trigger] preflight::foreign(content->0).contains(
                name,
            ) {
                "\n! variables referenced by the script but absent from cron by default: "@ + text::joined(
                    names::listing(preflight::foreign(content->0)),
                    ", "@,
                ) + "\n"@
            } else {
                nothing
            };
            cron_diff(command, locals, content) == "Apux context diff: local → cron\n  command: "@ + shell::command_line(
                command,
            ) + "\n\n"@ + path + shell + term + pwd + missing
        }),
{
    if content is Some {
        preflight::foreign_variables_are_reported(content->0);
    }
    marks_differ();
    if !agrees(locals.path, lookup::CRON_PATH@) {
        path_lines(locals.path);
    }
    if !agrees(locals.shell, lookup::CRON_SHELL@) {
        shell_lines(locals.shell);
    }
    if !agrees(locals.term, "<absent>"@) {
        term_lines(locals.term);
    }
    if !agrees(locals.pwd, "scheduler-defined"@) {
        pwd_lines(locals.pwd);
    }
}

/// What cron has is never the mark of absence.
proof fn marks_differ()
    ensures
        lookup::CRON_PATH@ != "<absent>"@,
        lookup::CRON_SHELL@ != "<absent>"@,
        "scheduler-defined"@ != "<absent>"@,
{
    reveal_strlit("/usr/bin:/bin");
    reveal_strlit("/bin/sh");
    reveal_strlit("scheduler-defined");
    reveal_strlit("<absent>");
    assert("<absent>"@[0] == '<');
    assert("/usr/bin:/bin"@[0] == '/' && "/bin/sh"@[0] == '/' && "scheduler-defined"@[0] == 's');
}

proof fn path_lines(local: Option<Seq<char>>)
    requires
        !agrees(local, lookup::CRON_PATH@),
    ensures
        variable_lines("PATH"@, local, lookup::CRON_PATH@) == "~ PATH\n  local: "@ + shown(local)
            + "\n  cron:  /usr/bin:/bin\n"@,
{
    reveal_strlit("~ ");
    reveal_strlit("PATH");
    reveal_strlit("\n  local: ");
    reveal_strlit("\n  cron:  ");
    reveal_strlit("/usr/bin:/bin");
    reveal_strlit("\n");
    reveal_strlit("~ PATH\n  local: ");
    reveal_strlit("\n  cron:  /usr/bin:/bin\n");
    assert("~ "@ + "PATH"@ + "\n  local: "@ =~= "~ PATH\n  local: "@);
    assert("\n  cron:  "@ + lookup::CRON_PATH@ + "\n"@ =~= "\n  cron:  /usr/bin:/bin\n"@);
    lines_regroup("PATH"@, shown(local), lookup::CRON_PATH@);
}

proof fn shell_lines(local: Option<Seq<char>>)
    requires
        !agrees(local, lookup::CRON_SHELL@),
    ensures
        variable_lines("SHELL"@, local, lookup::CRON_SHELL@) == "~ SHELL\n  local: "@ + shown(local)
            + "\n  cron:  /bin/sh\n"@,
{
    reveal_strlit("~ ");
    reveal_strlit("SHELL");
    reveal_strlit("\n  local: ");
    reveal_strlit("\n  cron:  ");
    reveal_strlit("/bin/sh");
    reveal_strlit("\n");
    reveal_strlit("~ SHELL\n  local: ");
    reveal_strlit("\n  cron:  /bin/sh\n");
    assert("~ "@ + "SHELL"@ + "\n  local: "@ =~= "~ SHELL\n  local: "@);
    assert("\n  cron:  "@ + lookup::CRON_SHELL@ + "\n"@ =~= "\n  cron:  /bin/sh\n"@);
    lines_regroup("SHELL"@, shown(local), lookup::CRON_SHELL@);
}

proof fn term_lines(local: Option<Seq<char>>)
    requires
        !agrees(local, "<absent>"@),
    ensures
        variable_lines("TERM"@, local, "<absent>"@) == "~ TERM\n  local: <set>\n  cron:  <absent>\n"@,
{
    reveal_strlit("~ ");
    reveal_strlit("TERM");
    reveal_strlit("\n  local: ");
    reveal_strlit("<set>");
    reveal_strlit("\n  cron:  ");
    reveal_strlit("<absent>");
    reveal_strlit("\n");
    reveal_strlit("~ TERM\n  local: <set>\n  cron:  <absent>\n");
    assert("~ "@ + "TERM"@ + "\n  local: "@ + "<set>"@ + "\n  cron:  "@ + "<absent>"@ + "\n"@
        =~= "~ TERM\n  local: <set>\n  cron:  <absent>\n"@);
}

proof fn pwd_lines(local: Option<Seq<char>>)
    requires
        !agrees(local, "scheduler-defined"@),
    ensures
        variable_lines("PWD"@, local, "scheduler-defined"@) == "~ PWD\n  local: "@ + shown(local)
            + "\n  cron:  scheduler-defined\n"@,
{
    reveal_strlit("~ ");
    reveal_strlit("PWD");
    reveal_strlit("\n  local: ");
    reveal_strlit("\n  cron:  ");
    reveal_strlit("scheduler-defined");
    reveal_strlit("\n");
    reveal_strlit("~ PWD\n  local: ");
    reveal_strlit("\n  cron:  scheduler-defined\n");
    assert("~ "@ + "PWD"@ + "\n  local: "@ =~= "~ PWD\n  local: "@);
    assert("\n  cron:  "@ + "scheduler-defined"@ + "\n"@ =~= "\n  cron:  scheduler-defined\n"@);
    lines_regroup("PWD"@, shown(local), "scheduler-defined"@);
}

proof fn lines_regroup(name: Seq<char>, state: Seq<char>, cron: Seq<char>)
    ensures
        "~ "@ + name + "\n  local: "@ + state + "\n  cron:  "@ + cron + "\n"@ == ("~ "@ + name + "\n  local: "@) + state + (
        "\n  cron:  "@ + cron + "\n"@),
{
    assert("~ "@ + name + "\n  local: "@ + state + "\n  cron:  "@ + cron + "\n"@ =~= ("~ "@ + name + "\n  local: "@)
        + state + ("\n  cron:  "@ + cron + "\n"@));
}

/// Terminals of which one has what cron has and the other has not, and which
/// are the same otherwise, get different diffs, whichever of the four variables
/// it is.
pub proof fn differing_terminals_differ(
    command: Seq<Seq<char>>,
    same: LocalsView,
    value: Option<Seq<char>>,
    content: Option<Seq<char>>,
)
    ensures
        value != Some("/usr/bin:/bin"@) ==> cron_diff(
            command,
            LocalsView { path: value, ..same },
            content,
        ) != cron_diff(command, LocalsView { path: Some("/usr/bin:/bin"@), ..same }, content),
        value != Some("/bin/sh"@) ==> cron_diff(command, LocalsView { shell: value, ..same }, content) != cron_diff(
            command,
            LocalsView { shell: Some("/bin/sh"@), ..same },
            content,
        ),
        value is Some && value != Some("<absent>"@) ==> cron_diff(
            command,
            LocalsView { term: value, ..same },
            content,
        ) != cron_diff(command, LocalsView { term: None, ..same }, content),
        value != Some("scheduler-defined"@) ==> cron_diff(command, LocalsView { pwd: value, ..same }, content)
            != cron_diff(command, LocalsView { pwd: Some("scheduler-defined"@), ..same }, content),
{
    marks_differ();
    if !agrees(value, lookup::CRON_PATH@) {
        diff_is_longer(command, LocalsView { path: value, ..same }, content);
        diff_is_longer(command, LocalsView { path: Some(lookup::CRON_PATH@), ..same }, content);
        lines_are_some("PATH"@, value, lookup::CRON_PATH@);
    }
    if !agrees(value, lookup::CRON_SHELL@) {
        diff_is_longer(command, LocalsView { shell: value, ..same }, content);
        diff_is_longer(command, LocalsView { shell: Some(lookup::CRON_SHELL@), ..same }, content);
        lines_are_some("SHELL"@, value, lookup::CRON_SHELL@);
    }
    if !agrees(value, "<absent>"@) {
        diff_is_longer(command, LocalsView { term: value, ..same }, content);
        diff_is_longer(command, LocalsView { term: None, ..same }, content);
        lines_are_some("TERM"@, value, "<absent>"@);
    }
    if !agrees(value, "scheduler-defined"@) {
        diff_is_longer(command, LocalsView { pwd: value, ..same }, content);
        diff_is_longer(command, LocalsView { pwd: Some("scheduler-defined"@), ..same }, content);
        lines_are_some("PWD"@, value, "scheduler-defined"@);
    }
}

proof fn lines_are_some(name: Seq<char>, local: Option<Seq<char>>, cron: Seq<char>)
    requires
        !agrees(local, cron),
    ensures
        variable_lines(name, local, cron).len() > 0,
{
    reveal_strlit("~ ");
}

proof fn diff_is_longer(command: Seq<Seq<char>>, locals: LocalsView, content: Option<Seq<char>>)
    ensures
        cron_diff(command, locals, content).len() == ("Apux context diff: local → cron\n  command: "@
            + shell::command_line(command) + "\n\n"@).len() + variable_lines("PATH"@, locals.path, lookup::CRON_PATH@).len()
            + variable_lines("SHELL"@, locals.shell, lookup::CRON_SHELL@).len() + variable_lines(
            "TERM"@,
            locals.term,
            "<absent>"@,
        ).len() + variable_lines("PWD"@, locals.pwd, "scheduler-defined"@).len() + missing_line(content).len(),
{
}

/// The diffs from the other targets: those from systemd and launchd depend on
/// nothing at all, and that from Docker on the directory and the image alone.
pub proof fn diffs_of_other_targets(
    command: Seq<Seq<char>>,
    locals: LocalsView,
    content: Option<Seq<char>>,
    directory: Option<Seq<char>>,
    image: Option<Seq<char>>,
)
    ensures
        target_diff("cron"@, command, locals, content, directory, image) == cron_diff(command, locals, content),
        target_diff("systemd"@, command, locals, content, directory, image)
            == "Apux context diff: local → systemd\n  PATH: local value → "@
            + "/usr/local/sbin:/usr/local/bin:/usr/sbin:/usr/bin:/sbin:/bin"@
            + "\n  SHELL: local value → <absent>\n  TERM: local value → <absent>\n  working directory: local value → / unless WorkingDirectory= is declared\n"@,
        target_diff("launchd"@, command, locals, content, directory, image)
            == "Apux context diff: local → launchd\n  PATH: local value → "@ + "/usr/bin:/bin:/usr/sbin:/sbin"@
            + "\n  SHELL: local value → <absent>\n  TERM: local value → <absent>\n  working directory: local value → / unless WorkingDirectory is declared\n  environment: terminal exports → only EnvironmentVariables declared in the plist\n"@,
        target_diff("docker"@, command, locals, content, directory, image)
            == "Apux context diff: local → docker\n  filesystem: host checkout → mounted at /workspace\n  working directory: "@
            + (if directory is Some {
            directory->0
        } else {
            "<unknown>"@
        })
            + " → /workspace\n  environment: terminal exports → image-defined unless passed with --env\n  executable versions: host → image `"@
            + (if image is Some {
            image->0
        } else {
            "<missing>"@
        }) + "`\n"@,
{
    report::target_names_differ();
}

} // verus!
