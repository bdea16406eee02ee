//! The files that a new project starts with.

use vstd::prelude::*;

use crate::contract;
use crate::contract::ExecutionContract;
use crate::lookup;
use crate::lookup::join_path;
use crate::preflight;
use crate::report;
use crate::shell;
use crate::shell::{command_display, shell_quote};
use crate::text;

verus! {

/// Where the output of the job goes.
pub open spec fn log_path(root: Seq<char>) -> Seq<char> {
    lookup::below(root, ".apux/cron.log"@)
}

/// Where the wrapper stands.
pub open spec fn wrapper_path(root: Seq<char>) -> Seq<char> {
    lookup::below(lookup::below(root, ".apux"@), "run.sh"@)
}

/// The line of the wrapper that enters the working directory.
pub open spec fn enter_line(root: Seq<char>) -> Seq<char> {
    "cd "@ + shell::quoted(root)
}

/// The words of the wrapper that start the command.
pub open spec fn start_line(command: Seq<Seq<char>>) -> Seq<char> {
    "exec "@ + shell::command_line(command)
}

/// The wrapper that runs the command in `root`, in Bash, with cron's search
/// path and with its output appended to the log.
pub open spec fn wrapper(root: Seq<char>, command: Seq<Seq<char>>) -> Seq<char> {
    "#!/usr/bin/env bash\nset -euo pipefail\n\n"@ + enter_line(root) + "\nexport PATH=\""@ + lookup::CRON_PATH@
        + "\"\nexport HOME=\"${HOME:-/}\"\n\n"@ + start_line(command) + " >> "@ + shell::quoted(log_path(root))
        + " 2>&1\n"@
}

/// The contract that a project starts with.
pub open spec fn starter(root: Seq<char>, command: Seq<Seq<char>>) -> contract::ContractView {
    contract::ContractView {
        version: 1,
        target: "cron"@,
        command,
        working_directory: root,
        shell: Some("/usr/bin/env bash"@),
        path: Some(lookup::CRON_PATH@),
        required_env: Seq::empty(),
        log: Some(log_path(root)),
        image: None,
    }
}

/// What is said once the files are written.
pub open spec fn advice(root: Seq<char>) -> Seq<char> {
    "Created .apux/run.sh and apux.yaml.\n\nReview them, then add a schedule like:\n  0 2 * * * "@ + wrapper_path(root)
        + "\n\n"@
}

/// Writes the wrapper of a command.
pub fn wrapper_script(root: &str, command: &Vec<String>) -> (r: String)
    ensures
        r@ == wrapper(root@, text::texts(command@)),
{
    let log = join_path(root, ".apux/cron.log");
    let enter = "cd ".to_owned().concat(shell_quote(root).as_str());
    let start = "exec ".to_owned().concat(command_display(command).as_str());
    "#!/usr/bin/env bash\nset -euo pipefail\n\n".to_owned().concat(enter.as_str()).concat("\nexport PATH=\"").concat(
        lookup::CRON_PATH,
    ).concat("\"\nexport HOME=\"${HOME:-/}\"\n\n").concat(start.as_str()).concat(" >> ").concat(
        shell_quote(log.as_str()).as_str(),
    ).concat(" 2>&1\n")
}

/// Writes the contract that a project starts with.
pub fn starter_contract(root: &str, command: &Vec<String>) -> (r: ExecutionContract)
    ensures
        r@ == starter(root@, text::texts(command@)),
{
    let mut words: Vec<String> = Vec::new();
    let mut i: usize = 0;
    while i < command.len()
        invariant
            i == words@.len() <= command@.len(),
            forall|j: int| 0 <= j < i ==> (#[trigger] words@[j])@ == command@[j]@,
        decreases command@.len() - i,
    {
        words.push(command[i].clone());
        i = i + 1;
    }
    let required: Vec<String> = Vec::new();
    proof {
        assert(text::texts(words@) =~= text::texts(command@));
        assert(text::texts(required@) =~= Seq::empty());
    }
    ExecutionContract {
        version: 1,
        target: "cron".to_owned(),
        command: words,
        working_directory: root.to_owned(),
        shell: Some("/usr/bin/env bash".to_owned()),
        path: Some(lookup::CRON_PATH.to_owned()),
        required_env: required,
        log: Some(join_path(root, ".apux/cron.log")),
        image: None,
    }
}

/// Says what to do once the files are written.
pub fn next_steps(root: &str) -> (r: String)
    ensures
        r@ == advice(root@),
{
    let directory = join_path(root, ".apux");
    "Created .apux/run.sh and apux.yaml.\n\nReview them, then add a schedule like:\n  0 2 * * * ".to_owned().concat(
        join_path(directory.as_str(), "run.sh").as_str(),
    ).concat("\n\n")
}

/// A shell that reads the wrapper enters `root` itself, starts the very words
/// of the command, and appends to the very log file, whatever characters these
/// hold. An empty directory or word is left out: it is written as nothing at
/// all.
pub proof fn wrapper_reads_back(root: Seq<char>, command: Seq<Seq<char>>)
    requires
        root.len() > 0,
        forall|i: int| 0 <= i < command.len() ==> (#[trigger] command[i]).len() > 0,
        command.len() > 0,
    ensures
        shell::shell_words(enter_line(root)) == Some(seq!["cd"@, root]),
        shell::shell_words(start_line(command)) == Some(seq!["exec"@] + command),
        shell::shell_words(shell::quoted(log_path(root))) == Some(seq![log_path(root)]),
{
    reveal_strlit("cd");
    reveal_strlit("cd ");
    reveal_strlit("exec");
    reveal_strlit("exec ");
    reveal_strlit(".apux/cron.log");
    assert(shell::all_safe("cd"@));
    assert(shell::all_safe("exec"@));
    let rest = seq![root];
    shell::command_line_of("cd"@, rest);
    assert(shell::command_line(rest) == shell::quoted(root));
    assert(enter_line(root) =~= shell::command_line(seq!["cd"@] + rest));
    assert(seq!["cd"@] + rest =~= seq!["cd"@, root]);
    shell::displayed_command_reads_back(seq!["cd"@, root]);
    shell::command_line_of("exec"@, command);
    assert(start_line(command) =~= shell::command_line(seq!["exec"@] + command));
    assert forall|i: int| 0 <= i < (seq!["exec"@] + command).len() implies (#[trigger] (seq!["exec"@] + command)[i]).len()
        > 0 by {
        if i > 0 {
            assert((seq!["exec"@] + command)[i] == command[i - 1]);
        }
    }
    shell::displayed_command_reads_back(seq!["exec"@] + command);
    shell::quoted_word_reads_back(log_path(root));
}

/// The contract that a project starts with passes the verification for cron,
/// provided that its directory and its shell are there and the command passes
/// the check.
pub proof fn starter_contract_verifies(
    path: Seq<char>,
    root: Seq<char>,
    command: Seq<Seq<char>>,
    places: contract::Places,
    host: preflight::HostView,
)
    requires
        command.len() > 0,
    ensures
        contract::verified(path, "cron"@, Ok(starter(root, command)), places, host).failed <==> !places.directory_exists
            || !places.shell_exists || report::cron_view(command, host).failed,
{
    reveal_strlit("/usr/bin/env bash");
}

/// The wrapper is a Bash script that stops at the first fault, enters `root`,
/// sets cron's search path and a home directory, and in its last line starts
/// the command and appends to the log. What a shell reads in these places is
/// `root` itself, `exec` with all the words of the command, no more and no
/// fewer, and the log file below `root`. Empty words are left out, and so is an
/// empty directory: they are written as nothing at all.
pub proof fn wrapper_runs_the_whole_command(root: Seq<char>, command: Seq<Seq<char>>)
    requires
        root.len() > 0,
        command.len() > 0,
        forall|i: int| 0 <= i < command.len() ==> (#[trigger] command[i]).len() > 0,
    ensures
        exists|place: Seq<char>, line: Seq<char>, log: Seq<char>|
            {
                &&& wrapper(root, command) == "#!/usr/bin/env bash\nset -euo pipefail\n\n"@ + place
                    + "\nexport PATH=\"/usr/bin:/bin\"\nexport HOME=\"${HOME:-/}\"\n\n"@ + line + " >> "@ + log
                    + " 2>&1\n"@
                &&& "cd "@.is_prefix_of(place)
                &&& "exec "@.is_prefix_of(line)
                &&& #[trigger] shell::shell_words(place) == Some(seq!["cd"@, root])
                &&& #[trigger] shell::shell_words(line) == Some(seq!["exec"@] + command)
                &&& #[trigger] shell::shell_words(log) == Some(seq![lookup::below(root, ".apux/cron.log"@)])
            },
{
    let place = enter_line(root);
    let line = start_line(command);
    let log = shell::quoted(log_path(root));
    wrapper_reads_back(root, command);
    wrapper_keeps_its_form(root, command);
    assert("cd "@.is_prefix_of(place)) by {
        assert(place.subrange(0, "cd "@.len() as int) =~= "cd "@);
    }
    assert("exec "@.is_prefix_of(line)) by {
        assert(line.subrange(0, "exec "@.len() as int) =~= "exec "@);
    }
}

/// The wrapper of any command, also of one with empty words, has the same form
/// round the directory, the command and the log.
pub proof fn wrapper_keeps_its_form(root: Seq<char>, command: Seq<Seq<char>>)
    ensures
        wrapper(root, command) == "#!/usr/bin/env bash\nset -euo pipefail\n\n"@ + ("cd "@ + shell::quoted(root))
            + "\nexport PATH=\"/usr/bin:/bin\"\nexport HOME=\"${HOME:-/}\"\n\n"@ + ("exec "@ + shell::command_line(
            command,
        )) + " >> "@ + shell::quoted(lookup::below(root, ".apux/cron.log"@)) + " 2>&1\n"@,
{
    reveal_strlit("\nexport PATH=\"");
    reveal_strlit("/usr/bin:/bin");
    reveal_strlit("\"\nexport HOME=\"${HOME:-/}\"\n\n");
    reveal_strlit("\nexport PATH=\"/usr/bin:/bin\"\nexport HOME=\"${HOME:-/}\"\n\n");
    let middle = "\nexport PATH=\""@ + lookup::CRON_PATH@ + "\"\nexport HOME=\"${HOME:-/}\"\n\n"@;
    assert(middle =~= "\nexport PATH=\"/usr/bin:/bin\"\nexport HOME=\"${HOME:-/}\"\n\n"@);
    let front = "#!/usr/bin/env bash\nset -euo pipefail\n\n"@ + enter_line(root);
    assert(front + "\nexport PATH=\""@ + lookup::CRON_PATH@ + "\"\nexport HOME=\"${HOME:-/}\"\n\n"@ =~= front + middle);
}

/// The contract that a project starts with is one for cron, holds the whole
/// command and the directory as they are, and logs to the file that the wrapper
/// appends to.
pub proof fn starter_contract_holds_the_command(root: Seq<char>, command: Seq<Seq<char>>)
    ensures
        starter(root, command).version == 1,
        starter(root, command).target == "cron"@,
        starter(root, command).command == command,
        starter(root, command).working_directory == root,
        starter(root, command).shell == Some("/usr/bin/env bash"@),
        starter(root, command).path == Some("/usr/bin:/bin"@),
        starter(root, command).required_env.len() == 0,
        starter(root, command).log == Some(lookup::below(root, ".apux/cron.log"@)),
        starter(root, command).image is None,
{
}

/// The line for the crontab that is shown in the end starts the wrapper where it
/// stands.
pub proof fn advice_names_the_wrapper(root: Seq<char>)
    ensures
        advice(root)
            == "Created .apux/run.sh and apux.yaml.\n\nReview them, then add a schedule like:\n  0 2 * * * "@ + lookup::below(
            root,
            ".apux/run.sh"@,
        ) + "\n\n"@,
{
    reveal_strlit(".apux");
    reveal_strlit("run.sh");
    reveal_strlit(".apux/run.sh");
    let inner = lookup::below(root, ".apux"@);
    assert(inner.last() == 'x');
    assert(lookup::below(inner, "run.sh"@) =~= lookup::below(root, ".apux/run.sh"@));
}

} // verus!
