//! The command line: what it asks for, and what is to be done about it.

use vstd::prelude::*;

use crate::lookup;
use crate::report;
use crate::text;

verus! {

/// How the program is used.
pub const USAGE: &'static str = "apux — preflight unattended commands\n\nUSAGE:\n  apux <check|diff|run|init> --target <cron|systemd|launchd> -- <command> [args...]\n  apux <check|diff|run> --target docker --image <image> -- <command> [args...]\n  apux verify --target <cron|systemd|launchd|docker> [--contract apux.yaml]\n  apux inspect github-actions --file <workflow.yml> [--job <job-id>]\n\nEXAMPLES:\n  apux check --target cron -- ./scripts/nightly-sync.sh\n  apux check --target docker --image node:22 -- npm test\n  apux inspect github-actions --file .github/workflows/ci.yml --job test\n  apux verify --target cron";

/// The contract that is read where none is named.
pub const DEFAULT_CONTRACT: &'static str = "apux.yaml";

/// What a command line asks for. The words are those of the command line; the
/// positions tell which of them a path or the command was taken from.
pub struct Invocation {
    pub action: String,
    pub target: String,
    pub command: Vec<String>,
    /// Where the words of the command begin.
    pub command_at: usize,
    pub contract: String,
    /// Where the path of the contract stands, if it is given.
    pub contract_at: Option<usize>,
    pub image: Option<String>,
    pub workflow: Option<String>,
    /// Where the path of the workflow stands, if it is given.
    pub workflow_at: Option<usize>,
    pub job: Option<String>,
}

/// What an [`Invocation`] says.
pub struct InvocationView {
    pub action: Seq<char>,
    pub target: Seq<char>,
    pub command: Seq<Seq<char>>,
    pub command_at: int,
    pub contract: Seq<char>,
    pub contract_at: Option<usize>,
    pub image: Option<Seq<char>>,
    pub workflow: Option<Seq<char>>,
    pub workflow_at: Option<usize>,
    pub job: Option<Seq<char>>,
}

impl View for Invocation {
    type V = InvocationView;

    open spec fn view(&self) -> InvocationView {
        InvocationView {
            action: self.action@,
            target: self.target@,
            command: text::texts(self.command@),
            command_at: self.command_at as int,
            contract: self.contract@,
            contract_at: self.contract_at,
            image: lookup::optional(self.image),
            workflow: lookup::optional(self.workflow),
            workflow_at: self.workflow_at,
            job: lookup::optional(self.job),
        }
    }
}

/// A command line that could be read.
pub enum Request {
    /// Show how the program is used.
    Help,
    Invoke(Invocation),
}

/// What a [`Request`] says.
pub enum RequestView {
    Help,
    Invoke(InvocationView),
}

/// What the reading of a command line came to.
pub open spec fn outcome(r: Result<Request, String>) -> Result<RequestView, Seq<char>> {
    match r {
        Ok(Request::Help) => Ok(RequestView::Help),
        Ok(Request::Invoke(invocation)) => Ok(RequestView::Invoke(invocation@)),
        Err(message) => Err(message@),
    }
}

pub open spec fn is_action(action: Seq<char>) -> bool {
    action == "check"@ || action == "diff"@ || action == "run"@ || action == "init"@ || action == "verify"@ || action
        == "inspect"@
}

/// What a command line asks for, or why it cannot be read.
pub open spec fn parsed(args: Seq<Seq<char>>) -> Result<RequestView, Seq<char>> {
    if args.len() == 0 {
        Err("missing command"@)
    } else if args[0] == "--help"@ || args[0] == "-h"@ {
        Ok(RequestView::Help)
    } else if !is_action(args[0]) {
        Err("unknown command: "@ + args[0])
    } else if args[0] == "inspect"@ {
        parsed_inspect(args)
    } else {
        parsed_target(args)
    }
}

/// `inspect github-actions --file <workflow> [--job <job>]`
pub open spec fn parsed_inspect(args: Seq<Seq<char>>) -> Result<RequestView, Seq<char>> {
    if args.len() < 2 {
        Err("expected integration name after inspect"@)
    } else if args[1] != "github-actions"@ {
        Err("unsupported integration: "@ + args[1] + ". Supported: github-actions."@)
    } else if args.len() < 3 || args[2] != "--file"@ {
        Err("expected --file <workflow.yml>"@)
    } else if args.len() < 4 {
        Err("missing workflow path after --file"@)
    } else if args.len() > 4 && args[4] != "--job"@ {
        Err("inspect accepts only optional --job <job-id>"@)
    } else if args.len() == 5 {
        Err("missing job id after --job"@)
    } else {
        Ok(
            RequestView::Invoke(
                InvocationView {
                    action: args[0],
                    target: "github-actions"@,
                    command: Seq::empty(),
                    command_at: args.len() as int,
                    contract: DEFAULT_CONTRACT@,
                    contract_at: None,
                    image: None,
                    workflow: Some(args[3]),
                    workflow_at: Some(3usize),
                    job: if args.len() > 4 {
                        Some(args[5])
                    } else {
                        None
                    },
                },
            ),
        )
    }
}

/// The word that may stand before the target: `--target`, or `local` where two
/// contexts are held against each other.
pub open spec fn introduces_target(action: Seq<char>, word: Seq<char>) -> bool {
    word == "--target"@ || (action == "diff"@ && word == "local"@)
}

/// `<action> --target <target> ...`, and `diff local <target> ...`
pub open spec fn parsed_target(args: Seq<Seq<char>>) -> Result<RequestView, Seq<char>> {
    if args.len() < 2 || !introduces_target(args[0], args[1]) {
        Err("expected --target cron"@)
    } else if args.len() < 3 {
        Err("missing target after "@ + args[1])
    } else if !report::is_target(args[2]) {
        Err("unsupported target: "@ + args[2] + ". Supported targets: cron, systemd, launchd, docker."@)
    } else if args[0] == "verify"@ {
        parsed_verify(args)
    } else {
        parsed_command(args)
    }
}

/// `verify --target <target> [--contract <path>]`
pub open spec fn parsed_verify(args: Seq<Seq<char>>) -> Result<RequestView, Seq<char>> {
    if args.len() > 3 && args[3] != "--contract"@ {
        Err("verify accepts only optional --contract <path>"@)
    } else if args.len() == 4 {
        Err("missing path after --contract"@)
    } else {
        Ok(
            RequestView::Invoke(
                InvocationView {
                    action: args[0],
                    target: args[2],
                    command: Seq::empty(),
                    command_at: args.len() as int,
                    contract: if args.len() > 3 {
                        args[4]
                    } else {
                        DEFAULT_CONTRACT@
                    },
                    contract_at: if args.len() > 3 {
                        Some(4usize)
                    } else {
                        None
                    },
                    image: None,
                    workflow: None,
                    workflow_at: None,
                    job: None,
                },
            ),
        )
    }
}

/// `<action> --target <target> [--image <image>] -- <command> [args...]`
pub open spec fn parsed_command(args: Seq<Seq<char>>) -> Result<RequestView, Seq<char>> {
    let with_image = args.len() > 3 && args[3] == "--image"@;
    let dashes: int = if with_image {
        5
    } else {
        3
    };
    if with_image && args.len() < 5 {
        Err("missing image after --image"@)
    } else if args.len() <= dashes || args[dashes] != "--"@ {
        Err("place the command after --"@)
    } else if args.len() == dashes + 1 {
        Err("missing command after --"@)
    } else {
        Ok(
            RequestView::Invoke(
                InvocationView {
                    action: args[0],
                    target: args[2],
                    command: args.skip(dashes + 1),
                    command_at: dashes + 1,
                    contract: DEFAULT_CONTRACT@,
                    contract_at: None,
                    image: if with_image {
                        Some(args[4])
                    } else {
                        None
                    },
                    workflow: None,
                    workflow_at: None,
                    job: None,
                },
            ),
        )
    }
}

fn known_action(action: &str) -> (r: bool)
    ensures
        r == is_action(action@),
{
    text::same(action, "check") || text::same(action, "diff") || text::same(action, "run") || text::same(
        action,
        "init",
    ) || text::same(action, "verify") || text::same(action, "inspect")
}

fn known_target(target: &str) -> (r: bool)
    ensures
        r == report::is_target(target@),
{
    text::same(target, "cron") || text::same(target, "systemd") || text::same(target, "launchd") || text::same(
        target,
        "docker",
    )
}

/// Whether there is a word at `at` and it is `wanted`.
fn word_is(args: &Vec<String>, at: usize, wanted: &str) -> (r: bool)
    ensures
        r == (at < args@.len() && args@[at as int]@ == wanted@),
{
    at < args.len() && text::same(args[at].as_str(), wanted)
}

/// The words from `from` on.
fn words_from(args: &Vec<String>, from: usize) -> (words: Vec<String>)
    requires
        from <= args@.len(),
    ensures
        text::texts(words@) == text::texts(args@).skip(from as int),
{
    let mut words: Vec<String> = Vec::new();
    let mut i: usize = from;
    while i < args.len()
        invariant
            from <= i <= args@.len(),
            words@.len() == i - from,
            forall|j: int| 0 <= j < words@.len() ==> (#[trigger] words@[j])@ == args@[from + j]@,
        decreases args@.len() - i,
    {
        words.push(args[i].clone());
        i = i + 1;
    }
    proof {
        assert(text::texts(words@) =~= text::texts(args@).skip(from as int));
    }
    words
}

fn parse_inspect(args: &Vec<String>) -> (r: Result<Request, String>)
    requires
        args@.len() > 0,
    ensures
        outcome(r) == parsed_inspect(text::texts(args@)),
{
    let ghost words = text::texts(args@);
    let size: usize = args.len();
    proof {
        assert(words.len() == size);
        assert(forall|i: int| 0 <= i < size ==> #[trigger] words[i] == args@[i]@);
    }
    if size < 2 {
        return Err("expected integration name after inspect".to_owned());
    }
    if !word_is(args, 1, "github-actions") {
        return Err(
            "unsupported integration: ".to_owned().concat(args[1].as_str()).concat(". Supported: github-actions."),
        );
    }
    if !word_is(args, 2, "--file") {
        return Err("expected --file <workflow.yml>".to_owned());
    }
    if size < 4 {
        return Err("missing workflow path after --file".to_owned());
    }
    if size > 4 && !word_is(args, 4, "--job") {
        return Err("inspect accepts only optional --job <job-id>".to_owned());
    }
    if size == 5 {
        return Err("missing job id after --job".to_owned());
    }
    let job: Option<String> = if size > 4 {
        Some(args[5].clone())
    } else {
        None
    };
    let command: Vec<String> = Vec::new();
    proof {
        assert(text::texts(command@) =~= Seq::empty());
    }
    Ok(
        Request::Invoke(
            Invocation {
                action: args[0].clone(),
                target: "github-actions".to_owned(),
                command,
                command_at: size,
                contract: DEFAULT_CONTRACT.to_owned(),
                contract_at: None,
                image: None,
                workflow: Some(args[3].clone()),
                workflow_at: Some(3),
                job,
            },
        ),
    )
}

fn parse_verify(args: &Vec<String>) -> (r: Result<Request, String>)
    requires
        args@.len() > 2,
    ensures
        outcome(r) == parsed_verify(text::texts(args@)),
{
    let ghost words = text::texts(args@);
    let size: usize = args.len();
    proof {
        assert(words.len() == size);
        assert(forall|i: int| 0 <= i < size ==> #[trigger] words[i] == args@[i]@);
    }
    if size > 3 && !word_is(args, 3, "--contract") {
        return Err("verify accepts only optional --contract <path>".to_owned());
    }
    if size == 4 {
        return Err("missing path after --contract".to_owned());
    }
    let command: Vec<String> = Vec::new();
    proof {
        assert(text::texts(command@) =~= Seq::empty());
    }
    Ok(
        Request::Invoke(
            Invocation {
                action: args[0].clone(),
                target: args[2].clone(),
                command,
                command_at: size,
                contract: if size > 3 {
                    args[4].clone()
                } else {
                    DEFAULT_CONTRACT.to_owned()
                },
                contract_at: if size > 3 {
                    Some(4)
                } else {
                    None
                },
                image: None,
                workflow: None,
                workflow_at: None,
                job: None,
            },
        ),
    )
}

fn parse_command(args: &Vec<String>) -> (r: Result<Request, String>)
    requires
        args@.len() > 2,
    ensures
        outcome(r) == parsed_command(text::texts(args@)),
{
    let ghost words = text::texts(args@);
    let size: usize = args.len();
    proof {
        assert(words.len() == size);
        assert(forall|i: int| 0 <= i < size ==> #[trigger] words[i] == args@[i]@);
    }
    let with_image: bool = word_is(args, 3, "--image");
    let dashes: usize = if with_image {
        5
    } else {
        3
    };
    if with_image && size < 5 {
        return Err("missing image after --image".to_owned());
    }
    if !word_is(args, dashes, "--") {
        return Err("place the command after --".to_owned());
    }
    if size == dashes + 1 {
        return Err("missing command after --".to_owned());
    }
    let image: Option<String> = if with_image {
        Some(args[4].clone())
    } else {
        None
    };
    Ok(
        Request::Invoke(
            Invocation {
                action: args[0].clone(),
                target: args[2].clone(),
                command: words_from(args, dashes + 1),
                command_at: dashes + 1,
                contract: DEFAULT_CONTRACT.to_owned(),
                contract_at: None,
                image,
                workflow: None,
                workflow_at: None,
                job: None,
            },
        ),
    )
}

/// Reads a command line; `args` are the words behind the program's own name.
pub fn parse_args(args: &Vec<String>) -> (r: Result<Request, String>)
    ensures
        outcome(r) == parsed(text::texts(args@)),
{
    let ghost words = text::texts(args@);
    let size: usize = args.len();
    proof {
        assert(words.len() == size);
        assert(forall|i: int| 0 <= i < size ==> #[trigger] words[i] == args@[i]@);
    }
    if size == 0 {
        return Err("missing command".to_owned());
    }
    let action = args[0].as_str();
    if text::same(action, "--help") || text::same(action, "-h") {
        return Ok(Request::Help);
    }
    if !known_action(action) {
        return Err("unknown command: ".to_owned().concat(action));
    }
    if text::same(action, "inspect") {
        return parse_inspect(args);
    }
    let introduced: bool = word_is(args, 1, "--target") || (text::same(action, "diff") && word_is(args, 1, "local"));
    if !introduced {
        return Err("expected --target cron".to_owned());
    }
    if size < 3 {
        return Err("missing target after ".to_owned().concat(args[1].as_str()));
    }
    if !known_target(args[2].as_str()) {
        return Err(
            "unsupported target: ".to_owned().concat(args[2].as_str()).concat(
                ". Supported targets: cron, systemd, launchd, docker.",
            ),
        );
    }
    if text::same(action, "verify") {
        parse_verify(args)
    } else {
        parse_command(args)
    }
}

/// How the program is used.
pub fn usage() -> (r: &'static str)
    ensures
        r@ == USAGE@,
        r@ == "apux — preflight unattended commands\n\nUSAGE:\n  apux <check|diff|run|init> --target <cron|systemd|launchd> -- <command> [args...]\n  apux <check|diff|run> --target docker --image <image> -- <command> [args...]\n  apux verify --target <cron|systemd|launchd|docker> [--contract apux.yaml]\n  apux inspect github-actions --file <workflow.yml> [--job <job-id>]\n\nEXAMPLES:\n  apux check --target cron -- ./scripts/nightly-sync.sh\n  apux check --target docker --image node:22 -- npm test\n  apux inspect github-actions --file .github/workflows/ci.yml --job test\n  apux verify --target cron"@,
{
    USAGE
}

/// An invocation that a command line can ask for.
pub open spec fn well_formed(invocation: InvocationView) -> bool {
    &&& is_action(invocation.action)
    &&& if invocation.action == "inspect"@ {
        invocation.workflow is Some && invocation.target == "github-actions"@
    } else {
        report::is_target(invocation.target)
    }
    &&& invocation.action != "inspect"@ && invocation.action != "verify"@ ==> invocation.command.len() > 0
}

/// Whatever command line is accepted, the invocation is well formed: the action
/// and the target are known, an inspection has a workflow, and there is a
/// command wherever one is run or checked. The command is the end of the
/// command line, word for word.
pub proof fn accepted_invocations_are_well_formed(args: Seq<Seq<char>>)
    ensures
        parsed(args) matches Ok(RequestView::Invoke(invocation)) ==> {
            &&& well_formed(invocation)
            &&& 0 <= invocation.command_at <= args.len()
            &&& invocation.command == args.skip(invocation.command_at)
            &&& invocation.contract_at matches Some(at) ==> 0 <= at < args.len() && invocation.contract == args[at as int]
            &&& invocation.workflow_at matches Some(at) ==> 0 <= at < args.len() && invocation.workflow == Some(
                args[at as int],
            )
        },
{
    if parsed(args) matches Ok(RequestView::Invoke(invocation)) {
        assert(args.skip(args.len() as int) =~= Seq::empty());
    }
}

/// What is to be done about an invocation.
pub enum Plan {
    /// Print the report of a check; fail if the check fails.
    Check,
    /// Print how the contexts differ.
    Diff,
    /// Run the command in a container of this image.
    RunInDocker(String),
    /// Run the command in cron's environment.
    RunLikeCron,
    /// Write the wrapper and the starter contract.
    Init,
    /// Print the report on a contract; fail if it fails.
    Verify,
    /// Print what a workflow declares.
    Inspect,
    /// Print the message as an error and do nothing.
    Refuse(String),
}

/// What a [`Plan`] says.
pub enum PlanView {
    Check,
    Diff,
    RunInDocker(Seq<char>),
    RunLikeCron,
    Init,
    Verify,
    Inspect,
    Refuse(Seq<char>),
}

impl View for Plan {
    type V = PlanView;

    open spec fn view(&self) -> PlanView {
        match self {
            Plan::Check => PlanView::Check,
            Plan::Diff => PlanView::Diff,
            Plan::RunInDocker(image) => PlanView::RunInDocker(image@),
            Plan::RunLikeCron => PlanView::RunLikeCron,
            Plan::Init => PlanView::Init,
            Plan::Verify => PlanView::Verify,
            Plan::Inspect => PlanView::Inspect,
            Plan::Refuse(message) => PlanView::Refuse(message@),
        }
    }
}

/// What is to be done about an invocation.
pub open spec fn planned(invocation: InvocationView) -> PlanView {
    let action = invocation.action;
    if action == "check"@ {
        PlanView::Check
    } else if action == "diff"@ {
        PlanView::Diff
    } else if action == "run"@ {
        if invocation.target == "docker"@ {
            match invocation.image {
                Some(image) => PlanView::RunInDocker(image),
                None => PlanView::Refuse("Docker target requires --image <image>"@),
            }
        } else {
            PlanView::RunLikeCron
        }
    } else if action == "init"@ {
        if invocation.target == "cron"@ {
            PlanView::Init
        } else {
            PlanView::Refuse(
                "`init` currently generates cron wrappers only; use check and verify for "@ + invocation.target
                    + " today"@,
            )
        }
    } else if action == "verify"@ {
        PlanView::Verify
    } else {
        PlanView::Inspect
    }
}

/// Decides what is to be done about an invocation.
pub fn plan(invocation: &Invocation) -> (r: Plan)
    requires
        well_formed(invocation@),
    ensures
        r@ == planned(invocation@),
{
    let action = invocation.action.as_str();
    let target = invocation.target.as_str();
    if text::same(action, "check") {
        Plan::Check
    } else if text::same(action, "diff") {
        Plan::Diff
    } else if text::same(action, "run") {
        if text::same(target, "docker") {
            match &invocation.image {
                Some(image) => Plan::RunInDocker(image.clone()),
                None => Plan::Refuse("Docker target requires --image <image>".to_owned()),
            }
        } else {
            Plan::RunLikeCron
        }
    } else if text::same(action, "init") {
        if text::same(target, "cron") {
            Plan::Init
        } else {
            Plan::Refuse(
                "`init` currently generates cron wrappers only; use check and verify for ".to_owned().concat(
                    target,
                ).concat(" today"),
            )
        }
    } else if text::same(action, "verify") {
        Plan::Verify
    } else {
        Plan::Inspect
    }
}

/// `diff local <target>` asks for the same as `diff --target <target>`.
pub proof fn diff_takes_either_form(args: Seq<Seq<char>>)
    requires
        args.len() > 2,
        args[0] == "diff"@,
        args[1] == "--target"@,
    ensures
        parsed(args.update(1, "local"@)) == parsed(args),
{
    let other = args.update(1, "local"@);
    reveal_strlit("diff");
    reveal_strlit("inspect");
    assert("diff"@.len() != "inspect"@.len());
    if args.len() > 3 {
        assert(other.skip(4) =~= args.skip(4));
    }
    if args.len() > 5 {
        assert(other.skip(6) =~= args.skip(6));
    }
}

/// An invocation says each of its fields, and a plan what it is.
pub proof fn invocations_say_all_they_hold(invocation: Invocation, message: String)
    ensures
        invocation@.action == invocation.action@,
        invocation@.target == invocation.target@,
        invocation@.command == text::texts(invocation.command@),
        invocation@.command_at == invocation.command_at,
        invocation@.contract == invocation.contract@,
        invocation@.contract_at == invocation.contract_at,
        invocation@.image == lookup::optional(invocation.image),
        invocation@.workflow == lookup::optional(invocation.workflow),
        invocation@.workflow_at == invocation.workflow_at,
        invocation@.job == lookup::optional(invocation.job),
        outcome(Ok(Request::Invoke(invocation))) == Ok::<RequestView, Seq<char>>(RequestView::Invoke(invocation@)),
        outcome(Ok(Request::Help)) == Ok::<RequestView, Seq<char>>(RequestView::Help),
        outcome(Err(message)) == Err::<RequestView, Seq<char>>(message@),
{
}

/// The first words that mean something are eight different texts.
proof fn first_words_differ()
    ensures
        "check"@ != "diff"@,
        "check"@ != "run"@,
        "check"@ != "init"@,
        "check"@ != "verify"@,
        "check"@ != "inspect"@,
        "check"@ != "--help"@,
        "check"@ != "-h"@,
        "diff"@ != "run"@,
        "diff"@ != "init"@,
        "diff"@ != "verify"@,
        "diff"@ != "inspect"@,
        "diff"@ != "--help"@,
        "diff"@ != "-h"@,
        "run"@ != "init"@,
        "run"@ != "verify"@,
        "run"@ != "inspect"@,
        "run"@ != "--help"@,
        "run"@ != "-h"@,
        "init"@ != "verify"@,
        "init"@ != "inspect"@,
        "init"@ != "--help"@,
        "init"@ != "-h"@,
        "verify"@ != "inspect"@,
        "verify"@ != "--help"@,
        "verify"@ != "-h"@,
        "inspect"@ != "--help"@,
        "inspect"@ != "-h"@,
        "--help"@ != "-h"@,
{
    reveal_strlit("check");
    reveal_strlit("diff");
    reveal_strlit("run");
    reveal_strlit("init");
    reveal_strlit("verify");
    reveal_strlit("inspect");
    reveal_strlit("--help");
    reveal_strlit("-h");
    assert("init"@.len() == 4 && "inspect"@.len() == 7);
    assert("check"@[0] == 'c' && "diff"@[0] == 'd' && "run"@[0] == 'r' && "init"@[0] == 'i' && "verify"@[0] == 'v' && "inspect"@[0] == 'i' && "--help"@[0] == '-' && "-h"@[0] == '-');
    assert("check"@[1] == 'h' && "diff"@[1] == 'i' && "run"@[1] == 'u' && "init"@[1] == 'n' && "verify"@[1] == 'e' && "inspect"@[1] == 'n' && "--help"@[1] == '-' && "-h"@[1] == 'h');
}

/// The words that stand for a target.
proof fn targets_are_four(target: Seq<char>)
    ensures
        report::is_target(target) <==> seq!["cron"@, "systemd"@, "launchd"@, "docker"@].contains(target),
{
    let four = seq!["cron"@, "systemd"@, "launchd"@, "docker"@];
    assert(four[0] == "cron"@ && four[1] == "systemd"@ && four[2] == "launchd"@ && four[3] == "docker"@);
    if four.contains(target) {
        let k = choose|k: int| 0 <= k < four.len() && four[k] == target;
        assert(k == 0 || k == 1 || k == 2 || k == 3);
    }
}

/// `<action> --target <target> -- <command>` is read as it is meant, for each of
/// the four actions that take a command and each of the four targets: the
/// command is all the words behind the dashes, whatever they are. With
/// `--image <image>` before the dashes the image is read too.
pub proof fn commands_are_read(action: Seq<char>, target: Seq<char>, image: Seq<char>, command: Seq<Seq<char>>)
    requires
        action == "check"@ || action == "diff"@ || action == "run"@ || action == "init"@,
        seq!["cron"@, "systemd"@, "launchd"@, "docker"@].contains(target),
        command.len() > 0,
    ensures
        parsed(seq![action, "--target"@, target, "--"@] + command) == Ok::<RequestView, Seq<char>>(
            RequestView::Invoke(
                InvocationView {
                    action,
                    target,
                    command,
                    command_at: 4,
                    contract: "apux.yaml"@,
                    contract_at: None,
                    image: None,
                    workflow: None,
                    workflow_at: None,
                    job: None,
                },
            ),
        ),
        parsed(seq![action, "--target"@, target, "--image"@, image, "--"@] + command) == Ok::<RequestView, Seq<char>>(
            RequestView::Invoke(
                InvocationView {
                    action,
                    target,
                    command,
                    command_at: 6,
                    contract: "apux.yaml"@,
                    contract_at: None,
                    image: Some(image),
                    workflow: None,
                    workflow_at: None,
                    job: None,
                },
            ),
        ),
{
    first_words_differ();
    targets_are_four(target);
    reveal_strlit("--");
    reveal_strlit("--image");
    assert("--"@.len() != "--image"@.len());
    let plain = seq![action, "--target"@, target, "--"@] + command;
    let with_image = seq![action, "--target"@, target, "--image"@, image, "--"@] + command;
    assert(plain[0] == action && plain[1] == "--target"@ && plain[2] == target && plain[3] == "--"@);
    assert(plain.skip(4) =~= command);
    assert(with_image[0] == action && with_image[1] == "--target"@ && with_image[2] == target && with_image[3]
        == "--image"@ && with_image[4] == image && with_image[5] == "--"@);
    assert(with_image.skip(6) =~= command);
}

/// `verify --target <target>` asks for the contract of the usual name, and with
/// `--contract <path>` behind it for the one at that path; words behind the path
/// change nothing.
pub proof fn verifications_are_read(target: Seq<char>, path: Seq<char>, more: Seq<Seq<char>>)
    requires
        seq!["cron"@, "systemd"@, "launchd"@, "docker"@].contains(target),
    ensures
        parsed(seq!["verify"@, "--target"@, target]) == Ok::<RequestView, Seq<char>>(
            RequestView::Invoke(
                InvocationView {
                    action: "verify"@,
                    target,
                    command: Seq::empty(),
                    command_at: 3,
                    contract: "apux.yaml"@,
                    contract_at: None,
                    image: None,
                    workflow: None,
                    workflow_at: None,
                    job: None,
                },
            ),
        ),
        parsed(seq!["verify"@, "--target"@, target, "--contract"@, path] + more) == Ok::<RequestView, Seq<char>>(
            RequestView::Invoke(
                InvocationView {
                    action: "verify"@,
                    target,
                    command: Seq::empty(),
                    command_at: 5int + more.len(),
                    contract: path,
                    contract_at: Some(4usize),
                    image: None,
                    workflow: None,
                    workflow_at: None,
                    job: None,
                },
            ),
        ),
{
    first_words_differ();
    targets_are_four(target);
    let named = seq!["verify"@, "--target"@, target, "--contract"@, path] + more;
    assert(named[0] == "verify"@ && named[1] == "--target"@ && named[2] == target && named[3] == "--contract"@ && named[4]
        == path);
}

/// `inspect github-actions --file <workflow>` asks for all jobs of the workflow,
/// and with `--job <job>` behind it for that job; words behind the job change
/// nothing.
pub proof fn inspections_are_read(workflow: Seq<char>, job: Seq<char>, more: Seq<Seq<char>>)
    ensures
        parsed(seq!["inspect"@, "github-actions"@, "--file"@, workflow]) == Ok::<RequestView, Seq<char>>(
            RequestView::Invoke(
                InvocationView {
                    action: "inspect"@,
                    target: "github-actions"@,
                    command: Seq::empty(),
                    command_at: 4,
                    contract: "apux.yaml"@,
                    contract_at: None,
                    image: None,
                    workflow: Some(workflow),
                    workflow_at: Some(3usize),
                    job: None,
                },
            ),
        ),
        parsed(seq!["inspect"@, "github-actions"@, "--file"@, workflow, "--job"@, job] + more) == Ok::<
            RequestView,
            Seq<char>,
        >(
            RequestView::Invoke(
                InvocationView {
                    action: "inspect"@,
                    target: "github-actions"@,
                    command: Seq::empty(),
                    command_at: 6int + more.len(),
                    contract: "apux.yaml"@,
                    contract_at: None,
                    image: None,
                    workflow: Some(workflow),
                    workflow_at: Some(3usize),
                    job: Some(job),
                },
            ),
        ),
{
    first_words_differ();
    let named = seq!["inspect"@, "github-actions"@, "--file"@, workflow, "--job"@, job] + more;
    assert(named[0] == "inspect"@ && named[1] == "github-actions"@ && named[2] == "--file"@ && named[3] == workflow
        && named[4] == "--job"@ && named[5] == job);
}

/// Whatever follows, `--help` and `-h` ask for help, and no other first word
/// does.
pub proof fn help_is_asked_by_the_first_word(args: Seq<Seq<char>>)
    ensures
        parsed(args) == Ok::<RequestView, Seq<char>>(RequestView::Help) <==> args.len() > 0 && (args[0] == "--help"@
            || args[0] == "-h"@),
{
}

/// A command line that is not understood is refused with what is wrong with the
/// first word at fault.
pub proof fn faulty_beginnings_are_refused(args: Seq<Seq<char>>)
    ensures
        ({
            let takes_target = args.len() > 0 && (args[0] == "check"@ || args[0] == "diff"@ || args[0] == "run"@ || args[0]
                == "init"@ || args[0] == "verify"@);
            let led = args.len() > 1 && (args[1] == "--target"@ || (args[0] == "diff"@ && args[1] == "local"@));
            let known = args.len() > 2 && seq!["cron"@, "systemd"@, "launchd"@, "docker"@].contains(args[2]);
            &&& args.len() == 0 ==> parsed(args) == Err::<RequestView, Seq<char>>("missing command"@)
            &&& args.len() > 0 && !takes_target && args[0] != "inspect"@ && args[0] != "--help"@ && args[0] != "-h"@
                ==> parsed(args) == Err::<RequestView, Seq<char>>("unknown command: "@ + args[0])
            &&& takes_target && !led ==> parsed(args) == Err::<RequestView, Seq<char>>("expected --target cron"@)
            &&& takes_target && led && args.len() == 2 ==> parsed(args) == Err::<RequestView, Seq<char>>(
                "missing target after "@ + args[1],
            )
            &&& takes_target && led && args.len() > 2 && !known ==> parsed(args) == Err::<RequestView, Seq<char>>(
                "unsupported target: "@ + args[2] + ". Supported targets: cron, systemd, launchd, docker."@,
            )
        }),
{
    first_words_differ();
    if args.len() > 2 {
        targets_are_four(args[2]);
    }
}

/// Behind a good beginning, too, what is missing or not understood is refused.
pub proof fn faulty_endings_are_refused(args: Seq<Seq<char>>)
    requires
        args.len() > 2,
        args[0] == "check"@ || args[0] == "diff"@ || args[0] == "run"@ || args[0] == "init"@ || args[0] == "verify"@,
        args[1] == "--target"@ || (args[0] == "diff"@ && args[1] == "local"@),
        seq!["cron"@, "systemd"@, "launchd"@, "docker"@].contains(args[2]),
    ensures
        ({
            let verify = args[0] == "verify"@;
            let with_image = !verify && args.len() > 3 && args[3] == "--image"@;
            &&& verify && args.len() > 3 && args[3] != "--contract"@ ==> parsed(args) == Err::<RequestView, Seq<char>>(
                "verify accepts only optional --contract <path>"@,
            )
            &&& verify && args.len() == 4 && args[3] == "--contract"@ ==> parsed(args) == Err::<RequestView, Seq<char>>(
                "missing path after --contract"@,
            )
            &&& with_image && args.len() == 4 ==> parsed(args) == Err::<RequestView, Seq<char>>(
                "missing image after --image"@,
            )
            &&& with_image && (args.len() == 5 || (args.len() > 5 && args[5] != "--"@)) ==> parsed(args) == Err::<
                RequestView,
                Seq<char>,
            >("place the command after --"@)
            &&& !verify && !with_image && (args.len() == 3 || args[3] != "--"@) ==> parsed(args) == Err::<
                RequestView,
                Seq<char>,
            >("place the command after --"@)
            &&& with_image && args.len() == 6 && args[5] == "--"@ ==> parsed(args) == Err::<RequestView, Seq<char>>(
                "missing command after --"@,
            )
            &&& !verify && args.len() == 4 && args[3] == "--"@ ==> parsed(args) == Err::<RequestView, Seq<char>>(
                "missing command after --"@,
            )
        }),
{
    first_words_differ();
    targets_are_four(args[2]);
    reveal_strlit("--");
    reveal_strlit("--image");
    assert("--"@.len() != "--image"@.len());
}

/// An inspection, too, is refused with what is wrong with the first word at
/// fault.
pub proof fn faulty_inspections_are_refused(args: Seq<Seq<char>>)
    requires
        args.len() > 0,
        args[0] == "inspect"@,
    ensures
        args.len() == 1 ==> parsed(args) == Err::<RequestView, Seq<char>>("expected integration name after inspect"@),
        args.len() > 1 && args[1] != "github-actions"@ ==> parsed(args) == Err::<RequestView, Seq<char>>(
            "unsupported integration: "@ + args[1] + ". Supported: github-actions."@,
        ),
        args.len() > 1 && args[1] == "github-actions"@ ==> {
            &&& args.len() == 2 || args[2] != "--file"@ ==> parsed(args) == Err::<RequestView, Seq<char>>(
                "expected --file <workflow.yml>"@,
            )
            &&& args.len() == 3 && args[2] == "--file"@ ==> parsed(args) == Err::<RequestView, Seq<char>>(
                "missing workflow path after --file"@,
            )
            &&& args.len() > 4 && args[2] == "--file"@ && args[4] != "--job"@ ==> parsed(args) == Err::<
                RequestView,
                Seq<char>,
            >("inspect accepts only optional --job <job-id>"@)
            &&& args.len() == 5 && args[2] == "--file"@ && args[4] == "--job"@ ==> parsed(args) == Err::<
                RequestView,
                Seq<char>,
            >("missing job id after --job"@)
        },
{
    first_words_differ();
}

/// Each action is done as its name says. Only `run` and `init` depend on the
/// target: `run` needs an image for Docker and runs the way cron would for the
/// others, and `init` is for cron alone.
pub proof fn actions_are_done_as_named(invocation: InvocationView)
    ensures
        invocation.action == "check"@ ==> planned(invocation) == PlanView::Check,
        invocation.action == "diff"@ ==> planned(invocation) == PlanView::Diff,
        invocation.action == "verify"@ ==> planned(invocation) == PlanView::Verify,
        invocation.action == "inspect"@ ==> planned(invocation) == PlanView::Inspect,
        invocation.action == "run"@ && invocation.target != "docker"@ ==> planned(invocation) == PlanView::RunLikeCron,
        invocation.action == "run"@ && invocation.target == "docker"@ && invocation.image is Some ==> planned(invocation)
            == PlanView::RunInDocker(invocation.image->0),
        invocation.action == "run"@ && invocation.target == "docker"@ && invocation.image is None ==> planned(invocation)
            == PlanView::Refuse("Docker target requires --image <image>"@),
        invocation.action == "init"@ && invocation.target == "cron"@ ==> planned(invocation) == PlanView::Init,
        invocation.action == "init"@ && invocation.target != "cron"@ ==> planned(invocation) == PlanView::Refuse(
            "`init` currently generates cron wrappers only; use check and verify for "@ + invocation.target + " today"@,
        ),
{
    first_words_differ();
}

/// A plan says what is to be done, with its image or its message.
pub proof fn plans_say_all_they_hold(plan: Plan)
    ensures
        plan is Check <==> plan@ is Check,
        plan is Diff <==> plan@ is Diff,
        plan is RunLikeCron <==> plan@ is RunLikeCron,
        plan is Init <==> plan@ is Init,
        plan is Verify <==> plan@ is Verify,
        plan is Inspect <==> plan@ is Inspect,
        plan matches Plan::RunInDocker(image) ==> plan@ == PlanView::RunInDocker(image@),
        plan matches Plan::Refuse(message) ==> plan@ == PlanView::Refuse(message@),
{
}

} // verus!
