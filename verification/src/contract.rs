//! Contracts that say how a command is meant to run.

use vstd::prelude::*;

use crate::lookup;
use crate::preflight;
use crate::preflight::Host;
use crate::report;
use crate::report::{append_if, check_report, Report};
use crate::text;
use crate::text::same;

verus! {

/// How a command is meant to run.
pub struct ExecutionContract {
    pub version: u8,
    pub target: String,
    pub command: Vec<String>,
    pub working_directory: String,
    pub shell: Option<String>,
    pub path: Option<String>,
    pub required_env: Vec<String>,
    pub log: Option<String>,
    pub image: Option<String>,
}

/// What an [`ExecutionContract`] says.
pub struct ContractView {
    pub version: nat,
    pub target: Seq<char>,
    pub command: Seq<Seq<char>>,
    pub working_directory: Seq<char>,
    pub shell: Option<Seq<char>>,
    pub path: Option<Seq<char>>,
    pub required_env: Seq<Seq<char>>,
    pub log: Option<Seq<char>>,
    pub image: Option<Seq<char>>,
}

impl View for ExecutionContract {
    type V = ContractView;

    open spec fn view(&self) -> ContractView {
        ContractView {
            version: self.version as nat,
            target: self.target@,
            command: text::texts(self.command@),
            working_directory: self.working_directory@,
            shell: lookup::optional(self.shell),
            path: lookup::optional(self.path),
            required_env: text::texts(self.required_env@),
            log: lookup::optional(self.log),
            image: lookup::optional(self.image),
        }
    }
}

/// What is known of the places that a contract names.
pub struct Places {
    /// The working directory is a directory.
    pub directory_exists: bool,
    /// Something stands at the path of the declared shell.
    pub shell_exists: bool,
}

/// What the reading of a contract came to.
pub open spec fn reading(contract: Result<ExecutionContract, String>) -> Result<ContractView, Seq<char>> {
    match contract {
        Ok(contract) => Ok(contract@),
        Err(message) => Err(message@),
    }
}

/// The contract declares a shell by an absolute path at which nothing stands.
pub open spec fn lacks_shell(contract: ContractView, places: Places) -> bool {
    match contract.shell {
        Some(shell) => !places.shell_exists && lookup::is_absolute(shell),
        None => false,
    }
}

/// The lines before the command is looked at.
pub open spec fn contract_head(path: Seq<char>, target: Seq<char>, contract: ContractView) -> Seq<char> {
    "Apux contract verification: "@ + target + "\n  contract: "@ + path + "\n\n"@ + report::text_if(
        contract.version != 1,
        "ERROR APX021: unsupported contract version "@ + text::numeral(contract.version) + "\n"@,
    ) + report::text_if(
        contract.target != target,
        "ERROR APX022: contract target `"@ + contract.target + "` does not match `--target "@ + target + "`\n"@,
    )
}

/// The lines on what the contract declares beside its command.
pub open spec fn contract_places(contract: ContractView, places: Places) -> Seq<char> {
    report::text_if(
        !places.directory_exists,
        "ERROR APX024: working directory `"@ + contract.working_directory + "` does not exist\n"@,
    ) + match contract.shell {
        Some(shell) => report::text_if(
            lacks_shell(contract, places),
            "ERROR APX025: declared shell `"@ + shell + "` does not exist\n"@,
        ),
        None => Seq::empty(),
    }
}

/// The lines behind the report of the check.
pub open spec fn contract_tail(contract: ContractView) -> Seq<char> {
    report::text_if(
        contract.required_env.len() > 0,
        "INFO APX026: required environment names are declared: "@ + text::joined(contract.required_env, ", "@)
            + "\n  ensure your scheduler injects these values; Apux never reads or stores their values.\n"@,
    ) + report::text_if(contract.log is None, "WARN APX027: contract has no declared log destination\n"@)
}

/// The report on a contract that was read from `path`.
pub open spec fn verified(
    path: Seq<char>,
    target: Seq<char>,
    contract: Result<ContractView, Seq<char>>,
    places: Places,
    host: preflight::HostView,
) -> report::ReportView {
    match contract {
        Err(message) => report::ReportView { text: "ERROR APX020: "@ + message + "\n"@, failed: true },
        Ok(contract) => if contract.command.len() == 0 {
            report::ReportView {
                text: contract_head(path, target, contract) + "ERROR APX023: contract command is empty\n"@,
                failed: true,
            }
        } else {
            let check = report::check_view(target, contract.image, contract.command, host);
            report::ReportView {
                text: contract_head(path, target, contract) + contract_places(contract, places) + check.text
                    + contract_tail(contract),
                failed: contract.version != 1 || contract.target != target || !places.directory_exists || lacks_shell(
                    contract,
                    places,
                ) || check.failed,
            }
        },
    }
}

fn head_text(path: &str, target: &str, contract: &ExecutionContract) -> (out: String)
    ensures
        out@ == contract_head(path@, target@, contract@),
{
    let mut out = "Apux contract verification: ".to_owned().concat(target).concat("\n  contract: ").concat(path).concat(
        "\n\n",
    );
    let version: usize = contract.version as usize;
    append_if(
        &mut out,
        contract.version != 1,
        "ERROR APX021: unsupported contract version ".to_owned().concat(text::number_text(version).as_str()).concat(
            "\n",
        ).as_str(),
    );
    append_if(
        &mut out,
        !same(contract.target.as_str(), target),
        "ERROR APX022: contract target `".to_owned().concat(contract.target.as_str()).concat(
            "` does not match `--target ",
        ).concat(target).concat("`\n").as_str(),
    );
    out
}

fn shell_missing(contract: &ExecutionContract, places: &Places) -> (r: bool)
    ensures
        r == lacks_shell(contract@, *places),
{
    match &contract.shell {
        Some(shell) => !places.shell_exists && lookup::absolute(shell.as_str()),
        None => false,
    }
}

fn places_text(contract: &ExecutionContract, places: &Places) -> (out: String)
    ensures
        out@ == contract_places(contract@, *places),
{
    let mut out = String::new();
    let missing = "ERROR APX024: working directory `".to_owned().concat(contract.working_directory.as_str()).concat(
        "` does not exist\n",
    );
    append_if(&mut out, !places.directory_exists, missing.as_str());
    proof {
        assert(out@ =~= report::text_if(!places.directory_exists, missing@));
    }
    match &contract.shell {
        Some(shell) => {
            append_if(
                &mut out,
                shell_missing(contract, places),
                "ERROR APX025: declared shell `".to_owned().concat(shell.as_str()).concat(
                    "` does not exist\n",
                ).as_str(),
            );
        },
        None => {
            proof {
                assert(out@ + Seq::<char>::empty() =~= out@);
            }
        },
    }
    out
}

fn tail_text(contract: &ExecutionContract) -> (out: String)
    ensures
        out@ == contract_tail(contract@),
{
    let mut out = String::new();
    let declared = "INFO APX026: required environment names are declared: ".to_owned().concat(
        text::join(&contract.required_env, ", ").as_str(),
    ).concat("\n  ensure your scheduler injects these values; Apux never reads or stores their values.\n");
    append_if(&mut out, contract.required_env.len() > 0, declared.as_str());
    proof {
        assert(text::texts(contract.required_env@).len() == contract.required_env@.len());
        assert(out@ =~= report::text_if(contract.required_env@.len() > 0, declared@));
    }
    append_if(
        &mut out,
        contract.log.is_none(),
        "WARN APX027: contract has no declared log destination\n",
    );
    out
}

/// Reports on a contract that was read from `path`: whether it is one for
/// `target`, whether the places it names are there, and what a check of its
/// command finds. The target has to be a known one only where there is a command
/// to check.
pub fn verify_contract(
    path: &str,
    target: &str,
    contract: &Result<ExecutionContract, String>,
    places: &Places,
    host: &Host,
) -> (report: Report)
    requires
        (*contract matches Ok(read) && read.command@.len() > 0) ==> report::is_target(target@),
    ensures
        report@ == verified(path@, target@, reading(*contract), *places, host@),
{
    match contract {
        Err(message) => Report {
            text: "ERROR APX020: ".to_owned().concat(message.as_str()).concat("\n"),
            failed: true,
        },
        Ok(contract) => {
            let head = head_text(path, target, contract);
            proof {
                assert(text::texts(contract.command@).len() == contract.command@.len());
            }
            if contract.command.len() == 0 {
                return Report { text: head.concat("ERROR APX023: contract command is empty\n"), failed: true };
            }
            let check = check_report(target, &contract.image, &contract.command, host);
            let failed: bool = contract.version != 1 || !same(contract.target.as_str(), target)
                || !places.directory_exists || shell_missing(contract, places) || check.failed;
            Report {
                text: head.concat(places_text(contract, places).as_str()).concat(check.text.as_str()).concat(
                    tail_text(contract).as_str(),
                ),
                failed,
            }
        },
    }
}

/// A contract says each of its fields, and the reading of one says the contract
/// or the message.
pub proof fn contracts_say_all_they_hold(contract: ExecutionContract, message: String)
    ensures
        contract@.version == contract.version,
        contract@.target == contract.target@,
        contract@.command == text::texts(contract.command@),
        contract@.working_directory == contract.working_directory@,
        contract@.shell == lookup::optional(contract.shell),
        contract@.path == lookup::optional(contract.path),
        contract@.required_env == text::texts(contract.required_env@),
        contract@.log == lookup::optional(contract.log),
        contract@.image == lookup::optional(contract.image),
        reading(Ok(contract)) == Ok::<ContractView, Seq<char>>(contract@),
        reading(Err(message)) == Err::<ContractView, Seq<char>>(message@),
{
}

/// A contract passes exactly if it has a command, is of version one, is one for
/// the target, its directory is there, an absolute shell that it declares is
/// there, and its command passes the check. Any one of these that is wrong
/// fails it, whatever else is right, and one that cannot be read fails.
pub proof fn any_fault_fails_a_contract(
    path: Seq<char>,
    target: Seq<char>,
    contract: ContractView,
    message: Seq<char>,
    places: Places,
    host: preflight::HostView,
)
    ensures
        contract.command.len() == 0 ==> verified(path, target, Ok(contract), places, host).failed,
        contract.version != 1 ==> verified(path, target, Ok(contract), places, host).failed,
        contract.target != target ==> verified(path, target, Ok(contract), places, host).failed,
        !places.directory_exists ==> verified(path, target, Ok(contract), places, host).failed,
        contract.shell is Some && "/"@.is_prefix_of(contract.shell->0) && !places.shell_exists ==> verified(
            path,
            target,
            Ok(contract),
            places,
            host,
        ).failed,
        report::check_view(target, contract.image, contract.command, host).failed ==> verified(
            path,
            target,
            Ok(contract),
            places,
            host,
        ).failed,
        verified(path, target, Ok(contract), places, host).failed ==> {
            ||| contract.command.len() == 0
            ||| contract.version != 1
            ||| contract.target != target
            ||| !places.directory_exists
            ||| contract.shell is Some && "/"@.is_prefix_of(contract.shell->0) && !places.shell_exists
            ||| report::check_view(target, contract.image, contract.command, host).failed
        },
        verified(path, target, Err(message), places, host).failed,
{
    if contract.shell is Some {
        lookup::absolute_paths_begin_with_a_slash(contract.shell->0);
    }
}

/// The report on a contract says of each thing whether it is wrong, in a fixed
/// order round the report of the check; it stops where there is no command.
pub proof fn contract_reports_say_what_is_wrong(
    path: Seq<char>,
    target: Seq<char>,
    contract: ContractView,
    message: Seq<char>,
    places: Places,
    host: preflight::HostView,
)
    ensures
        verified(path, target, Err(message), places, host).text == "ERROR APX020: "@ + message + "\n"@,
        ({
            let nothing: Seq<char> = Seq::empty();
            let head = "Apux contract verification: "@ + target + "\n  contract: "@ + path + "\n\n"@ + (
            if contract.version != 1 {
                "ERROR APX021: unsupported contract version "@ + text::numeral(contract.version) + "\n"@
            } else {
                nothing
            }) + (if contract.target != target {
                "ERROR APX022: contract target `"@ + contract.target + "` does not match `--target "@ + target + "`\n"@
            } else {
                nothing
            });
            let directory = if !places.directory_exists {
                "ERROR APX024: working directory `"@ + contract.working_directory + "` does not exist\n"@
            } else {
                nothing
            };
            let shell = if contract.shell is Some && "/"@.is_prefix_of(contract.shell->0) && !places.shell_exists {
                "ERROR APX025: declared shell `"@ + contract.shell->0 + "` does not exist\n"@
            } else {
                nothing
            };
            let declared = if contract.required_env.len() > 0 {
                "INFO APX026: required environment names are declared: "@ + text::joined(contract.required_env, ", "@)
                    + "\n  ensure your scheduler injects these values; Apux never reads or stores their values.\n"@
            } else {
                nothing
            };
            let log = if contract.log is None {
                "WARN APX027: contract has no declared log destination\n"@
            } else {
                nothing
            };
            &&& contract.command.len() == 0 ==> verified(path, target, Ok(contract), places, host).text == head
                + "ERROR APX023: contract command is empty\n"@
            &&& contract.command.len() > 0 ==> verified(path, target, Ok(contract), places, host).text == head + (
            directory + shell) + report::check_view(target, contract.image, contract.command, host).text + (declared + log)
        }),
{
    if contract.shell is Some {
        lookup::absolute_paths_begin_with_a_slash(contract.shell->0);
    }
}

} // verus!
