//! Reports of a check, as they are printed.

use vstd::prelude::*;

use crate::finding;
use crate::finding::{any_error, Finding, Level};
use crate::lookup;
use crate::preflight;
use crate::preflight::{findings, launchd_findings, systemd_findings, Host};
use crate::shell;
use crate::shell::command_display;
use crate::text;

verus! {

/// The text of a report and whether the check failed.
pub struct Report {
    pub text: String,
    pub failed: bool,
}

/// What a [`Report`] says.
pub struct ReportView {
    pub text: Seq<char>,
    pub failed: bool,
}

impl View for Report {
    type V = ReportView;

    open spec fn view(&self) -> ReportView {
        ReportView { text: self.text@, failed: self.failed }
    }
}

pub open spec fn label(level: Level) -> Seq<char> {
    match level {
        Level::Error => "ERROR"@,
        Level::Warning => "WARN"@,
        Level::Info => "INFO"@,
    }
}

/// The lines that a finding is printed as.
pub open spec fn finding_lines(item: finding::FindingView) -> Seq<char> {
    let head = label(item.level) + " "@ + item.code + ": "@ + item.message + "\n"@;
    match item.remedy {
        Some(remedy) => head + "  fix: "@ + remedy + "\n"@,
        None => head,
    }
}

/// The lines that a list of findings is printed as.
pub open spec fn all_lines(list: Seq<finding::FindingView>) -> Seq<char>
    decreases list.len(),
{
    if list.len() == 0 {
        Seq::empty()
    } else {
        all_lines(list.drop_last()) + finding_lines(list.last())
    }
}

fn print_finding(out: &mut String, item: &Finding)
    ensures
        final(out)@ == old(out)@ + finding_lines(item@),
{
    let name: &str = match item.level {
        Level::Error => "ERROR",
        Level::Warning => "WARN",
        Level::Info => "INFO",
    };
    let head = name.to_owned().concat(" ").concat(item.code).concat(": ").concat(item.message.as_str()).concat("\n");
    match &item.remedy {
        Some(remedy) => {
            out.append(head.concat("  fix: ").concat(remedy.as_str()).concat("\n").as_str());
        },
        None => {
            out.append(head.as_str());
        },
    }
}

fn print_all(out: &mut String, list: &Vec<Finding>)
    ensures
        final(out)@ == old(out)@ + all_lines(finding::views(list@)),
{
    let ghost before = out@;
    let ghost items = finding::views(list@);
    let mut i: usize = 0;
    proof {
        assert(items.take(0) =~= Seq::empty());
        assert(before + Seq::<char>::empty() =~= before);
    }
    while i < list.len()
        invariant
            items == finding::views(list@),
            i <= list@.len(),
            out@ == before + all_lines(items.take(i as int)),
        decreases list@.len() - i,
    {
        print_finding(out, &list[i]);
        proof {
            assert(items.take(i + 1).drop_last() =~= items.take(i as int));
            assert(items.take(i + 1).last() == list@[i as int]@);
            assert(out@ =~= before + all_lines(items.take(i + 1)));
        }
        i = i + 1;
    }
    proof {
        assert(items.take(list@.len() as int) =~= items);
    }
}

/// The report of a check for cron.
pub open spec fn cron_view(command: Seq<Seq<char>>, host: preflight::HostView) -> ReportView {
    let results = preflight::cron_findings(command, host);
    let head = "Apux preflight: cron\n  command: "@ + shell::command_line(command) + "\n  shell:   "@
        + lookup::CRON_SHELL@ + "\n  PATH:    "@ + lookup::CRON_PATH@ + "\n\n"@;
    ReportView {
        text: if results.len() == 0 {
            head + "✓ No obvious cron-context risks found.\n"@
        } else {
            head + all_lines(results)
        },
        failed: finding::fails(results),
    }
}

/// The report of a check for systemd.
pub open spec fn systemd_view(command: Seq<Seq<char>>, host: preflight::HostView) -> ReportView {
    let results = preflight::systemd_results(command, host);
    ReportView {
        text: "Apux preflight: systemd\n  command: "@ + shell::command_line(command)
            + "\n  shell:   none (ExecStart runs directly)\n  PATH:    "@ + lookup::SYSTEMD_PATH@ + "\n\n"@ + all_lines(
            results,
        ),
        failed: finding::fails(results),
    }
}

/// The report of a check for launchd.
pub open spec fn launchd_view(command: Seq<Seq<char>>, host: preflight::HostView) -> ReportView {
    let results = preflight::launchd_results(command, host);
    ReportView {
        text: "Apux preflight: launchd\n  command: "@ + shell::command_line(command)
            + "\n  shell:   none (ProgramArguments runs directly)\n  PATH:    "@ + lookup::LAUNCHD_PATH@ + "\n\n"@
            + all_lines(results),
        failed: finding::fails(results),
    }
}

/// The text, where `condition` holds; nothing otherwise.
pub open spec fn text_if(condition: bool, line: Seq<char>) -> Seq<char> {
    if condition {
        line
    } else {
        Seq::empty()
    }
}

/// An image that is not given or has no name.
pub open spec fn lacks_image(image: Option<Seq<char>>) -> bool {
    match image {
        Some(name) => name.len() == 0,
        None => true,
    }
}

/// The search path leads to the Docker client.
pub open spec fn has_docker(host: preflight::HostView) -> bool {
    lookup::found_on_path(host.path, "docker"@, host.files) is Some
}

/// The report of a check for Docker.
pub open spec fn docker_view(
    command: Seq<Seq<char>>,
    image: Option<Seq<char>>,
    host: preflight::HostView,
) -> ReportView {
    ReportView {
        text: "Apux preflight: docker\n  command: "@ + shell::command_line(command) + "\n  image:   "@ + match image {
            Some(name) => name,
            None => "<missing>"@,
        } + "\n  workdir: /workspace (current directory mounted)\n\n"@ + text_if(
            lacks_image(image),
            "ERROR APX050: Docker target requires --image <image>\n"@,
        ) + text_if(!has_docker(host), "ERROR APX051: docker is not on PATH\n"@) + text_if(
            command.len() > 0 && "./"@.is_prefix_of(command[0]),
            "WARN APX052: relative executable path depends on the image working directory\n  fix: set WORKDIR in the image or use an absolute path\n"@,
        )
            + "INFO APX053: `run` will mount the current directory read-write at /workspace; inspect the image and command before executing.\n"@,
        failed: lacks_image(image) || !has_docker(host),
    }
}

/// The targets that a command can be checked against.
pub open spec fn is_target(target: Seq<char>) -> bool {
    target == "cron"@ || target == "systemd"@ || target == "launchd"@ || target == "docker"@
}

/// The report of a check for one of the targets.
pub open spec fn check_view(
    target: Seq<char>,
    image: Option<Seq<char>>,
    command: Seq<Seq<char>>,
    host: preflight::HostView,
) -> ReportView {
    if target == "cron"@ {
        cron_view(command, host)
    } else if target == "systemd"@ {
        systemd_view(command, host)
    } else if target == "launchd"@ {
        launchd_view(command, host)
    } else {
        docker_view(command, image, host)
    }
}

/// Appends the text, where `condition` holds.
pub fn append_if(out: &mut String, condition: bool, line: &str)
    ensures
        final(out)@ == old(out)@ + text_if(condition, line@),
{
    if condition {
        out.append(line);
    } else {
        proof {
            assert(out@ + Seq::<char>::empty() =~= out@);
        }
    }
}

/// Reports the check of a command against cron's context.
pub fn cron_report(command: &Vec<String>, host: &Host) -> (report: Report)
    requires
        command@.len() > 0,
    ensures
        report@ == cron_view(text::texts(command@), host@),
{
    let mut out = "Apux preflight: cron\n  command: ".to_owned().concat(command_display(command).as_str()).concat(
        "\n  shell:   ",
    ).concat(lookup::CRON_SHELL).concat("\n  PATH:    ").concat(lookup::CRON_PATH).concat("\n\n");
    let results = findings(command, host);
    proof {
        assert(finding::views(results@).len() == results@.len());
    }
    if results.len() == 0 {
        proof {
            assert(!finding::fails(finding::views(results@)));
        }
        return Report { text: out.concat("✓ No obvious cron-context risks found.\n"), failed: false };
    }
    print_all(&mut out, &results);
    Report { text: out, failed: any_error(&results) }
}

/// Reports the check of a command against the context of a systemd service.
pub fn systemd_report(command: &Vec<String>, host: &Host) -> (report: Report)
    requires
        command@.len() > 0,
    ensures
        report@ == systemd_view(text::texts(command@), host@),
{
    let mut out = "Apux preflight: systemd\n  command: ".to_owned().concat(command_display(command).as_str()).concat(
        "\n  shell:   none (ExecStart runs directly)\n  PATH:    ",
    ).concat(lookup::SYSTEMD_PATH).concat("\n\n");
    let results = systemd_findings(command, host);
    print_all(&mut out, &results);
    Report { text: out, failed: any_error(&results) }
}

/// Reports the check of a command against the context of a launchd job.
pub fn launchd_report(command: &Vec<String>, host: &Host) -> (report: Report)
    requires
        command@.len() > 0,
    ensures
        report@ == launchd_view(text::texts(command@), host@),
{
    let mut out = "Apux preflight: launchd\n  command: ".to_owned().concat(command_display(command).as_str()).concat(
        "\n  shell:   none (ProgramArguments runs directly)\n  PATH:    ",
    ).concat(lookup::LAUNCHD_PATH).concat("\n\n");
    let results = launchd_findings(command, host);
    print_all(&mut out, &results);
    Report { text: out, failed: any_error(&results) }
}

/// Reports the check of a command that is to run in a Docker container.
pub fn docker_report(command: &Vec<String>, image: &Option<String>, host: &Host) -> (report: Report)
    ensures
        report@ == docker_view(text::texts(command@), lookup::optional(*image), host@),
{
    let name: &str = match image {
        Some(image) => image.as_str(),
        None => "<missing>",
    };
    let no_image: bool = match image {
        Some(image) => {
            proof {
                reveal_strlit("");
                assert(image@.len() == 0 ==> image@ =~= ""@);
            }
            text::same(image.as_str(), "")
        },
        None => true,
    };
    let mut out = "Apux preflight: docker\n  command: ".to_owned().concat(command_display(command).as_str()).concat(
        "\n  image:   ",
    ).concat(name).concat("\n  workdir: /workspace (current directory mounted)\n\n");
    append_if(&mut out, no_image, "ERROR APX050: Docker target requires --image <image>\n");
    let no_docker: bool = !lookup::docker_available(&host.path, &host.files);
    append_if(&mut out, no_docker, "ERROR APX051: docker is not on PATH\n");
    let relative: bool = command.len() > 0 && text::begins_with(command[0].as_str(), "./");
    append_if(
        &mut out,
        relative,
        "WARN APX052: relative executable path depends on the image working directory\n  fix: set WORKDIR in the image or use an absolute path\n",
    );
    out.append(
        "INFO APX053: `run` will mount the current directory read-write at /workspace; inspect the image and command before executing.\n",
    );
    Report { text: out, failed: no_image || no_docker }
}

/// Reports the check of a command against the context of `target`.
pub fn check_report(target: &str, image: &Option<String>, command: &Vec<String>, host: &Host) -> (report: Report)
    requires
        is_target(target@),
        command@.len() > 0,
    ensures
        report@ == check_view(target@, lookup::optional(*image), text::texts(command@), host@),
{
    if text::same(target, "cron") {
        cron_report(command, host)
    } else if text::same(target, "systemd") {
        systemd_report(command, host)
    } else if text::same(target, "launchd") {
        launchd_report(command, host)
    } else {
        docker_report(command, image, host)
    }
}

/// A report says its text and whether the check failed.
pub proof fn reports_say_all_they_hold(report: Report)
    ensures
        report@.text == report.text@,
        report@.failed == report.failed,
{
}

/// The lines on findings put together are the lines on the one part and then
/// those on the other; no finding has no line.
pub proof fn lines_of_parts(a: Seq<finding::FindingView>, b: Seq<finding::FindingView>)
    ensures
        all_lines(a + b) == all_lines(a) + all_lines(b),
        a.len() == 0 ==> all_lines(a).len() == 0,
    decreases b.len(),
{
    if b.len() == 0 {
        assert(a + b =~= a);
        assert(all_lines(a) + all_lines(b) =~= all_lines(a));
    } else {
        lines_of_parts(a, b.drop_last());
        assert((a + b).drop_last() =~= a + b.drop_last());
        assert((a + b).last() == b.last());
        assert(all_lines(a + b) =~= all_lines(a) + all_lines(b));
    }
}

/// One finding is printed with the name of its level, its code and its message
/// on one line, and with its remedy, where it has one, on the next.
pub proof fn line_of_a_finding(code: Seq<char>, message: Seq<char>, remedy: Seq<char>)
    ensures
        all_lines(seq![finding::error(code, message, remedy)]) == "ERROR "@ + code + ": "@ + message + "\n  fix: "@
            + remedy + "\n"@,
        all_lines(seq![finding::warning(code, message, remedy)]) == "WARN "@ + code + ": "@ + message + "\n  fix: "@
            + remedy + "\n"@,
        all_lines(seq![finding::info(code, message)]) == "INFO "@ + code + ": "@ + message + "\n"@,
{
    reveal_strlit("ERROR ");
    reveal_strlit("ERROR");
    reveal_strlit("WARN ");
    reveal_strlit("WARN");
    reveal_strlit("INFO ");
    reveal_strlit("INFO");
    reveal_strlit(" ");
    reveal_strlit("\n");
    reveal_strlit("  fix: ");
    reveal_strlit("\n  fix: ");
    assert("ERROR"@ + " "@ =~= "ERROR "@);
    assert("WARN"@ + " "@ =~= "WARN "@);
    assert("INFO"@ + " "@ =~= "INFO "@);
    assert("\n"@ + "  fix: "@ =~= "\n  fix: "@);
    let e = finding::error(code, message, remedy);
    let w = finding::warning(code, message, remedy);
    let i = finding::info(code, message);
    line_stands_alone(e);
    line_stands_alone(w);
    line_stands_alone(i);
    assert(finding_lines(e) =~= "ERROR "@ + code + ": "@ + message + "\n  fix: "@ + remedy + "\n"@);
    assert(finding_lines(w) =~= "WARN "@ + code + ": "@ + message + "\n  fix: "@ + remedy + "\n"@);
}

proof fn line_stands_alone(item: finding::FindingView)
    ensures
        all_lines(seq![item]) == finding_lines(item),
{
    assert(seq![item].drop_last() =~= Seq::empty());
    assert(all_lines(Seq::empty()) =~= Seq::empty());
    assert(Seq::<char>::empty() + finding_lines(item) =~= finding_lines(item));
}

/// A report names its target and its command as a shell would read it, and then
/// prints the findings, all of them; it fails exactly if one of them is an
/// error. Only where a check for cron finds nothing, it says so instead.
pub proof fn reports_print_all_findings(command: Seq<Seq<char>>, host: preflight::HostView)
    ensures
        cron_view(command, host).text == "Apux preflight: cron\n  command: "@ + shell::command_line(command)
            + "\n  shell:   /bin/sh\n  PATH:    /usr/bin:/bin\n\n"@ + (if preflight::cron_findings(command, host).len() > 0 {
            all_lines(preflight::cron_findings(command, host))
        } else {
            "✓ No obvious cron-context risks found.\n"@
        }),
        systemd_view(command, host).text == "Apux preflight: systemd\n  command: "@ + shell::command_line(command)
            + "\n  shell:   none (ExecStart runs directly)\n  PATH:    /usr/local/sbin:/usr/local/bin:/usr/sbin:/usr/bin:/sbin:/bin\n\n"@
            + all_lines(preflight::systemd_results(command, host)),
        launchd_view(command, host).text == "Apux preflight: launchd\n  command: "@ + shell::command_line(command)
            + "\n  shell:   none (ProgramArguments runs directly)\n  PATH:    /usr/bin:/bin:/usr/sbin:/sbin\n\n"@
            + all_lines(preflight::launchd_results(command, host)),
        cron_view(command, host).failed <==> exists|i: int|
            0 <= i < preflight::cron_findings(command, host).len() && (#[trigger] preflight::cron_findings(command, host)[i]).level
                == Level::Error,
        systemd_view(command, host).failed <==> exists|i: int|
            0 <= i < preflight::systemd_results(command, host).len() && (#[trigger] preflight::systemd_results(
                command,
                host,
            )[i]).level == Level::Error,
        launchd_view(command, host).failed <==> exists|i: int|
            0 <= i < preflight::launchd_results(command, host).len() && (#[trigger] preflight::launchd_results(
                command,
                host,
            )[i]).level == Level::Error,
{
    cron_head(command);
    service_heads(command);
}

proof fn cron_head(command: Seq<Seq<char>>)
    ensures
        "Apux preflight: cron\n  command: "@ + shell::command_line(command) + "\n  shell:   "@ + lookup::CRON_SHELL@
            + "\n  PATH:    "@ + lookup::CRON_PATH@ + "\n\n"@ == "Apux preflight: cron\n  command: "@
            + shell::command_line(command) + "\n  shell:   /bin/sh\n  PATH:    /usr/bin:/bin\n\n"@,
{
    reveal_strlit("\n  shell:   ");
    reveal_strlit("/bin/sh");
    reveal_strlit("\n  PATH:    ");
    reveal_strlit("/usr/bin:/bin");
    reveal_strlit("\n\n");
    reveal_strlit("\n  shell:   /bin/sh\n  PATH:    /usr/bin:/bin\n\n");
    let front = "Apux preflight: cron\n  command: "@ + shell::command_line(command);
    let tail = "\n  shell:   "@ + lookup::CRON_SHELL@ + "\n  PATH:    "@ + lookup::CRON_PATH@ + "\n\n"@;
    assert(tail =~= "\n  shell:   /bin/sh\n  PATH:    /usr/bin:/bin\n\n"@);
    assert(front + "\n  shell:   "@ + lookup::CRON_SHELL@ + "\n  PATH:    "@ + lookup::CRON_PATH@ + "\n\n"@ =~= front
        + tail);
}

proof fn service_heads(command: Seq<Seq<char>>)
    ensures
        "Apux preflight: systemd\n  command: "@ + shell::command_line(command)
            + "\n  shell:   none (ExecStart runs directly)\n  PATH:    "@ + lookup::SYSTEMD_PATH@ + "\n\n"@
            == "Apux preflight: systemd\n  command: "@ + shell::command_line(command)
            + "\n  shell:   none (ExecStart runs directly)\n  PATH:    /usr/local/sbin:/usr/local/bin:/usr/sbin:/usr/bin:/sbin:/bin\n\n"@,
        "Apux preflight: launchd\n  command: "@ + shell::command_line(command)
            + "\n  shell:   none (ProgramArguments runs directly)\n  PATH:    "@ + lookup::LAUNCHD_PATH@ + "\n\n"@
            == "Apux preflight: launchd\n  command: "@ + shell::command_line(command)
            + "\n  shell:   none (ProgramArguments runs directly)\n  PATH:    /usr/bin:/bin:/usr/sbin:/sbin\n\n"@,
{
    reveal_strlit("\n\n");
    assert("\n  shell:   none (ExecStart runs directly)\n  PATH:    "@ + lookup::SYSTEMD_PATH@ + "\n\n"@
        =~= "\n  shell:   none (ExecStart runs directly)\n  PATH:    /usr/local/sbin:/usr/local/bin:/usr/sbin:/usr/bin:/sbin:/bin\n\n"@)
        by {
        reveal_strlit("\n  shell:   none (ExecStart runs directly)\n  PATH:    ");
        reveal_strlit("/usr/local/sbin:/usr/local/bin:/usr/sbin:/usr/bin:/sbin:/bin");
        reveal_strlit(
            "\n  shell:   none (ExecStart runs directly)\n  PATH:    /usr/local/sbin:/usr/local/bin:/usr/sbin:/usr/bin:/sbin:/bin\n\n",
        );
    }
    assert("\n  shell:   none (ProgramArguments runs directly)\n  PATH:    "@ + lookup::LAUNCHD_PATH@ + "\n\n"@
        =~= "\n  shell:   none (ProgramArguments runs directly)\n  PATH:    /usr/bin:/bin:/usr/sbin:/sbin\n\n"@) by {
        reveal_strlit("\n  shell:   none (ProgramArguments runs directly)\n  PATH:    ");
        reveal_strlit("/usr/bin:/bin:/usr/sbin:/sbin");
        reveal_strlit("\n  shell:   none (ProgramArguments runs directly)\n  PATH:    /usr/bin:/bin:/usr/sbin:/sbin\n\n");
    }
    let a = "Apux preflight: systemd\n  command: "@ + shell::command_line(command);
    let b = "Apux preflight: launchd\n  command: "@ + shell::command_line(command);
    assert(a + "\n  shell:   none (ExecStart runs directly)\n  PATH:    "@ + lookup::SYSTEMD_PATH@ + "\n\n"@ =~= a + (
    "\n  shell:   none (ExecStart runs directly)\n  PATH:    "@ + lookup::SYSTEMD_PATH@ + "\n\n"@));
    assert(b + "\n  shell:   none (ProgramArguments runs directly)\n  PATH:    "@ + lookup::LAUNCHD_PATH@ + "\n\n"@ =~= b
        + ("\n  shell:   none (ProgramArguments runs directly)\n  PATH:    "@ + lookup::LAUNCHD_PATH@ + "\n\n"@));
}

/// A check for Docker fails exactly if no image is named or the search path does
/// not lead to `docker`, and says so, each for itself; it warns of a command
/// that begins with `./`, and it always says what will be mounted.
pub proof fn docker_report_says_what_is_missing(
    command: Seq<Seq<char>>,
    image: Option<Seq<char>>,
    host: preflight::HostView,
)
    ensures
        ({
            let no_image = image is None || image->0.len() == 0;
            let no_docker = lookup::found_on_path(host.path, "docker"@, host.files) is None;
            let relative = command.len() > 0 && "./"@.is_prefix_of(command[0]);
            let report = docker_view(command, image, host);
            &&& report.failed <==> no_image || no_docker
            &&& report.text == "Apux preflight: docker\n  command: "@ + shell::command_line(command) + "\n  image:   "@ + (
            if image is Some {
                image->0
            } else {
                "<missing>"@
            }) + "\n  workdir: /workspace (current directory mounted)\n\n"@ + (if no_image {
                "ERROR APX050: Docker target requires --image <image>\n"@
            } else {
                Seq::empty()
            }) + (if no_docker {
                "ERROR APX051: docker is not on PATH\n"@
            } else {
                Seq::empty()
            }) + (if relative {
                "WARN APX052: relative executable path depends on the image working directory\n  fix: set WORKDIR in the image or use an absolute path\n"@
            } else {
                Seq::empty()
            })
                + "INFO APX053: `run` will mount the current directory read-write at /workspace; inspect the image and command before executing.\n"@
        }),
{
}

/// Each target is checked by its own rules.
pub proof fn targets_have_their_own_rules(
    image: Option<Seq<char>>,
    command: Seq<Seq<char>>,
    host: preflight::HostView,
)
    ensures
        check_view("cron"@, image, command, host) == cron_view(command, host),
        check_view("systemd"@, image, command, host) == systemd_view(command, host),
        check_view("launchd"@, image, command, host) == launchd_view(command, host),
        check_view("docker"@, image, command, host) == docker_view(command, image, host),
{
    target_names_differ();
}

/// The names of the targets are four different texts.
pub proof fn target_names_differ()
    ensures
        "cron"@ != "systemd"@,
        "cron"@ != "launchd"@,
        "cron"@ != "docker"@,
        "systemd"@ != "launchd"@,
        "systemd"@ != "docker"@,
        "launchd"@ != "docker"@,
{
    reveal_strlit("cron");
    reveal_strlit("systemd");
    reveal_strlit("launchd");
    reveal_strlit("docker");
    assert("systemd"@[0] != "launchd"@[0]);
    assert("cron"@.len() != "systemd"@.len());
}

} // verus!
