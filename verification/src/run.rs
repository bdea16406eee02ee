//! Running a command the way a target would.

use vstd::prelude::*;

use crate::lookup;
use crate::text;

verus! {

/// Where the value of an environment variable comes from.
pub enum Setting {
    /// This very text.
    Text(String),
    /// The value that the variable of the same name has in the terminal.
    Inherited,
}

/// An environment variable of a command that is run.
pub struct Variable {
    pub name: &'static str,
    pub setting: Setting,
}

/// What a [`Setting`] says: the text, or nothing where the value is inherited.
pub open spec fn fixed(setting: Setting) -> Option<Seq<char>> {
    match setting {
        Setting::Text(value) => Some(value@),
        Setting::Inherited => None,
    }
}

/// What a list of variables says.
pub open spec fn settings(list: Seq<Variable>) -> Seq<(Seq<char>, Option<Seq<char>>)> {
    list.map_values(|variable: Variable| (variable.name@, fixed(variable.setting)))
}

/// All of the environment that cron gives to a job: the search path, the shell
/// and the home directory, which is the root where there is none.
pub open spec fn cron_settings(has_home: bool) -> Seq<(Seq<char>, Option<Seq<char>>)> {
    seq![
        ("PATH"@, Some(lookup::CRON_PATH@)),
        ("SHELL"@, Some(lookup::CRON_SHELL@)),
        (
            "HOME"@,
            if has_home {
                None
            } else {
                Some("/"@)
            },
        ),
    ]
}

/// The environment in which a command is run the way cron would. Nothing else
/// is to be set. `has_home` tells whether the terminal has a home directory.
pub fn cron_environment(has_home: bool) -> (list: Vec<Variable>)
    ensures
        settings(list@) == cron_settings(has_home),
{
    let mut list: Vec<Variable> = Vec::new();
    list.push(Variable { name: "PATH", setting: Setting::Text(lookup::CRON_PATH.to_owned()) });
    list.push(Variable { name: "SHELL", setting: Setting::Text(lookup::CRON_SHELL.to_owned()) });
    let home: Setting = if has_home {
        Setting::Inherited
    } else {
        Setting::Text("/".to_owned())
    };
    list.push(Variable { name: "HOME", setting: home });
    proof {
        assert(settings(list@) =~= cron_settings(has_home));
    }
    list
}

/// The words behind `docker` that start a container of the image in which the
/// directory is mounted; the words of the command follow them.
pub open spec fn docker_words(directory: Seq<char>, image: Seq<char>) -> Seq<Seq<char>> {
    seq![
        "run"@,
        "--rm"@,
        "--init"@,
        "--workdir"@,
        "/workspace"@,
        "--volume"@,
        directory + ":/workspace"@,
        image,
    ]
}

/// Lists the words behind `docker` that start a container.
pub fn docker_arguments(directory: &str, image: &str) -> (words: Vec<String>)
    ensures
        text::texts(words@) == docker_words(directory@, image@),
{
    let mut words: Vec<String> = Vec::new();
    words.push("run".to_owned());
    words.push("--rm".to_owned());
    words.push("--init".to_owned());
    words.push("--workdir".to_owned());
    words.push("/workspace".to_owned());
    words.push("--volume".to_owned());
    words.push(directory.to_owned().concat(":/workspace"));
    words.push(image.to_owned());
    proof {
        assert(text::texts(words@) =~= docker_words(directory@, image@));
    }
    words
}

/// The exit status with which the outcome of a command is passed on: the low
/// eight bits of its own, and one where it has none.
pub open spec fn passed_on(code: Option<i32>) -> int {
    match code {
        Some(code) => code as int % 256,
        None => 1,
    }
}

/// The exit status with which the outcome of a command is passed on.
pub fn exit_of_command(code: Option<i32>) -> (status: u8)
    ensures
        status == passed_on(code),
{
    match code {
        Some(code) => {
            let wide: i64 = code as i64 + 0x1_0000_0000;
            (wide % 256) as u8
        },
        None => 1,
    }
}

/// The exit status of a check: one where it failed, and zero otherwise.
pub fn exit_of_check(failed: bool) -> (status: u8)
    ensures
        status == (if failed {
            1int
        } else {
            0int
        }),
{
    if failed {
        1
    } else {
        0
    }
}

/// A command passes exactly if its own exit status is a multiple of 256.
pub proof fn success_is_passed_on(code: Option<i32>)
    ensures
        passed_on(code) == 0 <==> code is Some && code->0 as int % 256 == 0,
        code == Some(0i32) ==> passed_on(code) == 0,
{
}

/// A command that is run the way cron would has a search path, a shell and a
/// home directory, and no other variable.
pub proof fn cron_environment_is_minimal(has_home: bool)
    ensures
        cron_settings(has_home).map_values(|setting: (Seq<char>, Option<Seq<char>>)| setting.0) == seq![
            "PATH"@,
            "SHELL"@,
            "HOME"@,
        ],
{
    assert(cron_settings(has_home).map_values(|setting: (Seq<char>, Option<Seq<char>>)| setting.0) =~= seq![
        "PATH"@,
        "SHELL"@,
        "HOME"@,
    ]);
}

/// The home directory of a command that is run the way cron would is the
/// terminal's own where there is one, and the root otherwise; the search path
/// and the shell are cron's in either case.
pub proof fn only_the_home_is_inherited(has_home: bool)
    ensures
        cron_settings(has_home).len() == 3,
        cron_settings(has_home)[0] == ("PATH"@, Some("/usr/bin:/bin"@)),
        cron_settings(has_home)[1] == ("SHELL"@, Some("/bin/sh"@)),
        cron_settings(has_home)[2].1 is None <==> has_home,
        !has_home ==> cron_settings(has_home)[2].1 == Some("/"@),
{
}

/// A list of variables says of each its name, and its text unless the value is
/// inherited.
pub proof fn settings_are_in_order(list: Seq<Variable>)
    ensures
        settings(list).len() == list.len(),
        forall|i: int| 0 <= i < list.len() ==> (#[trigger] settings(list)[i]).0 == list[i].name@,
        forall|i: int|
            0 <= i < list.len() ==> (list[i].setting matches Setting::Text(value) ==> (#[trigger] settings(list)[i]).1 == Some(
                value@,
            )),
        forall|i: int| 0 <= i < list.len() ==> (list[i].setting is Inherited <==> (#[trigger] settings(list)[i]).1 is None),
{
}

/// A container is removed at its end, works in `/workspace`, where the directory
/// is mounted, and is made of the image; all words but these two are the same
/// for every directory and image.
pub proof fn containers_mount_the_directory(directory: Seq<char>, image: Seq<char>)
    ensures
        docker_words(directory, image).len() == 8,
        docker_words(directory, image).take(6) == seq![
            "run"@,
            "--rm"@,
            "--init"@,
            "--workdir"@,
            "/workspace"@,
            "--volume"@,
        ],
        docker_words(directory, image)[6] == directory + ":/workspace"@,
        docker_words(directory, image).last() == image,
{
    assert(docker_words(directory, image).take(6) =~= seq![
        "run"@,
        "--rm"@,
        "--init"@,
        "--workdir"@,
        "/workspace"@,
        "--volume"@,
    ]);
}

/// The exit status that is passed on differs from the command's own by a
/// multiple of 256, so one that fits into a byte is passed on as it is. A
/// command without one is passed on as failed.
pub proof fn exit_status_is_kept(code: i32)
    ensures
        0 <= passed_on(Some(code)) < 256,
        (code - passed_on(Some(code))) % 256 == 0,
        0 <= code < 256 ==> passed_on(Some(code)) == code,
        passed_on(None) == 1,
{
}

} // verus!
