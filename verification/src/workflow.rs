//! What a GitHub Actions workflow declares.

use vstd::prelude::*;

use crate::lookup;
use crate::names;
use crate::names::add_name;
use crate::preflight;
use crate::script;
use crate::script::count_lines;
use crate::text;
use crate::text::{join, number_text, same};
use crate::yaml;
use crate::yaml::{read_yaml, Yaml, YamlTree};

verus! {

/// The value of the entry with this key.
pub open spec fn field(entries: Seq<(YamlTree, YamlTree)>, key: Seq<char>) -> Option<YamlTree>
    decreases entries.len(),
{
    if entries.len() == 0 {
        None
    } else if entries[0].0 == YamlTree::Text(key) {
        Some(entries[0].1)
    } else {
        field(entries.drop_first(), key)
    }
}

/// The text of a scalar.
pub open spec fn scalar(value: YamlTree) -> Option<Seq<char>> {
    match value {
        YamlTree::Text(s) => Some(s),
        YamlTree::Number(s) => Some(s),
        YamlTree::Bool(b) => Some(
            if b {
                "true"@
            } else {
                "false"@
            },
        ),
        _ => None,
    }
}

/// The entries of a mapping, below any tags.
pub open spec fn entries_of(value: YamlTree) -> Option<Seq<(YamlTree, YamlTree)>>
    decreases value,
{
    match value {
        YamlTree::Mapping(entries) => Some(entries),
        YamlTree::Tagged(inner) => entries_of(*inner),
        _ => None,
    }
}

/// The items of a sequence, below any tags.
pub open spec fn items_of(value: YamlTree) -> Option<Seq<YamlTree>>
    decreases value,
{
    match value {
        YamlTree::Sequence(items) => Some(items),
        YamlTree::Tagged(inner) => items_of(*inner),
        _ => None,
    }
}

/// The scalar that stands under this key.
pub open spec fn scalar_field(entries: Seq<(YamlTree, YamlTree)>, key: Seq<char>) -> Option<Seq<char>> {
    match field(entries, key) {
        Some(value) => scalar(value),
        None => None,
    }
}

/// The mapping that stands under this key.
pub open spec fn mapping_field(entries: Seq<(YamlTree, YamlTree)>, key: Seq<char>) -> Option<
    Seq<(YamlTree, YamlTree)>,
> {
    match field(entries, key) {
        Some(value) => entries_of(value),
        None => None,
    }
}

/// What was printed, and what stopped the printing.
pub struct Outcome {
    pub text: Seq<char>,
    pub error: Option<Seq<char>>,
}

/// The line on one step; `number` counts from one.
pub open spec fn step_outcome(number: nat, step: YamlTree) -> Outcome {
    match entries_of(step) {
        None => Outcome { text: Seq::empty(), error: Some("step must be a mapping"@) },
        Some(entries) => {
            let name = match scalar_field(entries, "name"@) {
                Some(name) => name,
                None => "step "@ + text::numeral(number),
            };
            let head = "    "@ + text::numeral(number) + ". "@ + name;
            Outcome {
                text: match scalar_field(entries, "run"@) {
                    Some(run) => head + " [run: "@ + text::numeral(script::line_count(run)) + " line(s)]\n"@,
                    None => match scalar_field(entries, "uses"@) {
                        Some(uses) => head + " [uses: "@ + uses + "]\n"@,
                        None => head + "\n"@,
                    },
                },
                error: None,
            }
        },
    }
}

/// The outcome of one thing after another: nothing follows an error.
pub open spec fn then_outcome(before: Outcome, next: Outcome) -> Outcome {
    if before.error is Some {
        before
    } else {
        Outcome { text: before.text + next.text, error: next.error }
    }
}

/// The lines on the steps, in order.
pub open spec fn steps_outcome(steps: Seq<YamlTree>) -> Outcome
    decreases steps.len(),
{
    if steps.len() == 0 {
        Outcome { text: Seq::empty(), error: None }
    } else {
        then_outcome(steps_outcome(steps.drop_last()), step_outcome(steps.len(), steps.last()))
    }
}

/// The container that a job declares.
pub open spec fn container_of(job: Seq<(YamlTree, YamlTree)>) -> Seq<char> {
    let declared = match field(job, "container"@) {
        Some(value) => match scalar(value) {
            Some(image) => Some(image),
            None => match entries_of(value) {
                Some(entries) => scalar_field(entries, "image"@),
                None => None,
            },
        },
        None => None,
    };
    match declared {
        Some(image) => image,
        None => "GitHub-hosted runner (no job container declared)"@,
    }
}

/// The keys of a mapping, in order.
pub open spec fn keys(entries: Seq<(YamlTree, YamlTree)>) -> Seq<YamlTree> {
    entries.map_values(|entry: (YamlTree, YamlTree)| entry.0)
}

/// The keys of the `env` mapping; none where there is no such mapping.
pub open spec fn env_keys(entries: Seq<(YamlTree, YamlTree)>) -> Seq<YamlTree> {
    match mapping_field(entries, "env"@) {
        Some(environment) => keys(environment),
        None => Seq::empty(),
    }
}

/// The names among the keys.
pub open spec fn named(list: Seq<YamlTree>) -> Set<Seq<char>> {
    Set::new(|name: Seq<char>| exists|i: int| 0 <= i < list.len() && scalar(#[trigger] list[i]) == Some(name))
}

/// The names of the variables that a job gets, from the workflow and from the
/// job itself.
pub open spec fn env_names(root: Seq<(YamlTree, YamlTree)>, job: Seq<(YamlTree, YamlTree)>) -> Set<Seq<char>> {
    named(env_keys(root) + env_keys(job))
}

/// The steps that a job declares.
pub open spec fn steps_of(job: Seq<(YamlTree, YamlTree)>) -> Seq<YamlTree> {
    match field(job, "steps"@) {
        Some(value) => match items_of(value) {
            Some(items) => items,
            None => Seq::empty(),
        },
        None => Seq::empty(),
    }
}

/// The first lines on a job.
pub open spec fn job_head(
    root: Seq<(YamlTree, YamlTree)>,
    id: YamlTree,
    job: Seq<(YamlTree, YamlTree)>,
) -> Seq<char> {
    "job: "@ + match scalar(id) {
        Some(name) => name,
        None => "<unnamed>"@,
    } + "\n  container: "@ + container_of(job) + "\n  environment names: "@ + (if preflight::has_names(
        env_names(root, job),
    ) {
        preflight::comma_list(env_names(root, job))
    } else {
        "<none declared>"@
    }) + "\n"@
}

/// The lines on one job.
pub open spec fn job_outcome(root: Seq<(YamlTree, YamlTree)>, entry: (YamlTree, YamlTree)) -> Outcome {
    match entries_of(entry.1) {
        None => Outcome { text: Seq::empty(), error: Some("job must be a mapping"@) },
        Some(job) => {
            let head = job_head(root, entry.0, job);
            if steps_of(job).len() == 0 {
                Outcome { text: head + "  steps: <none>\n\n"@, error: None }
            } else {
                then_outcome(
                    then_outcome(Outcome { text: head + "  steps:\n"@, error: None }, steps_outcome(steps_of(job))),
                    Outcome { text: "\n"@, error: None },
                )
            }
        },
    }
}

/// The lines on the jobs, in order.
pub open spec fn jobs_outcome(root: Seq<(YamlTree, YamlTree)>, jobs: Seq<(YamlTree, YamlTree)>) -> Outcome
    decreases jobs.len(),
{
    if jobs.len() == 0 {
        Outcome { text: Seq::empty(), error: None }
    } else {
        then_outcome(jobs_outcome(root, jobs.drop_last()), job_outcome(root, jobs.last()))
    }
}

/// The job is asked for: its id is the selected one, or none is selected.
pub open spec fn is_selected(entry: (YamlTree, YamlTree), selected: Option<Seq<char>>) -> bool {
    selected is Some ==> scalar(entry.0) == selected
}

/// The jobs that are asked for, in order.
pub open spec fn selection(jobs: Seq<(YamlTree, YamlTree)>, selected: Option<Seq<char>>) -> Seq<(YamlTree, YamlTree)> {
    jobs.filter(|entry: (YamlTree, YamlTree)| is_selected(entry, selected))
}

pub open spec fn refused(message: Seq<char>) -> Outcome {
    Outcome { text: Seq::empty(), error: Some(message) }
}

/// What is printed of the workflow that was read from `path`.
pub open spec fn inspection(
    path: Seq<char>,
    document: Result<YamlTree, Seq<char>>,
    selected: Option<Seq<char>>,
) -> Outcome {
    match document {
        Err(message) => refused("invalid GitHub Actions YAML: "@ + message),
        Ok(tree) => match entries_of(tree) {
            None => refused("workflow root must be a YAML mapping"@),
            Some(root) => match mapping_field(root, "jobs"@) {
                None => refused("workflow has no jobs mapping"@),
                Some(jobs) => if selection(jobs, selected).len() == 0 {
                    refused(
                        "job `"@ + match selected {
                            Some(name) => name,
                            None => Seq::empty(),
                        } + "` was not found"@,
                    )
                } else {
                    then_outcome(
                        Outcome {
                            text: "Apux GitHub Actions inspection\n  workflow: "@ + path + "\n\n"@,
                            error: None,
                        },
                        jobs_outcome(root, selection(jobs, selected)),
                    )
                },
            },
        },
    }
}

/// The entries of a mapping in memory.
pub open spec fn pairs(list: Seq<(Yaml, Yaml)>) -> Seq<(YamlTree, YamlTree)> {
    list.map_values(|entry: (Yaml, Yaml)| (entry.0.tree(), entry.1.tree()))
}

/// The items of a sequence in memory.
pub open spec fn trees(list: Seq<Yaml>) -> Seq<YamlTree> {
    list.map_values(|item: Yaml| item.tree())
}

proof fn mapping_tree(list: Vec<(Yaml, Yaml)>)
    ensures
        Yaml::Mapping(list).tree() == YamlTree::Mapping(pairs(list@)),
{
    assert(Yaml::Mapping(list).tree()->Mapping_0 =~= pairs(list@));
}

proof fn sequence_tree(list: Vec<Yaml>)
    ensures
        Yaml::Sequence(list).tree() == YamlTree::Sequence(trees(list@)),
{
    assert(Yaml::Sequence(list).tree()->Sequence_0 =~= trees(list@));
}

/// What an optional value holds.
pub open spec fn optional_tree(value: Option<&Yaml>) -> Option<YamlTree> {
    match value {
        Some(value) => Some(value.tree()),
        None => None,
    }
}

/// Looks up the value of the entry with this key.
pub fn yaml_field<'a>(mapping: &'a Vec<(Yaml, Yaml)>, key: &str) -> (r: Option<&'a Yaml>)
    ensures
        optional_tree(r) == field(pairs(mapping@), key@),
{
    let mut i: usize = 0;
    proof {
        assert(pairs(mapping@).skip(0) =~= pairs(mapping@));
    }
    while i < mapping.len()
        invariant
            i <= mapping@.len(),
            field(pairs(mapping@), key@) == field(pairs(mapping@).skip(i as int), key@),
        decreases mapping@.len() - i,
    {
        proof {
            assert(pairs(mapping@).skip(i as int)[0] == pairs(mapping@)[i as int]);
            assert(pairs(mapping@).skip(i as int).drop_first() =~= pairs(mapping@).skip(i + 1));
        }
        let found: bool = match &mapping[i].0 {
            Yaml::Text(s) => same(s.as_str(), key),
            _ => false,
        };
        if found {
            return Some(&mapping[i].1);
        }
        i = i + 1;
    }
    None
}

/// Reads the text of a scalar.
pub fn yaml_string(value: &Yaml) -> (r: Option<String>)
    ensures
        lookup::optional(r) == scalar(value.tree()),
{
    match value {
        Yaml::Text(s) => Some(s.clone()),
        Yaml::Number(s) => Some(s.clone()),
        Yaml::Bool(b) => Some(
            if *b {
                "true".to_owned()
            } else {
                "false".to_owned()
            },
        ),
        _ => None,
    }
}

/// What an optional mapping holds.
pub open spec fn optional_pairs(value: Option<&Vec<(Yaml, Yaml)>>) -> Option<Seq<(YamlTree, YamlTree)>> {
    match value {
        Some(list) => Some(pairs(list@)),
        None => None,
    }
}

/// What an optional sequence holds.
pub open spec fn optional_trees(value: Option<&Vec<Yaml>>) -> Option<Seq<YamlTree>> {
    match value {
        Some(list) => Some(trees(list@)),
        None => None,
    }
}

/// The mapping that a value is, below any tags.
pub fn as_mapping<'a>(value: &'a Yaml) -> (r: Option<&'a Vec<(Yaml, Yaml)>>)
    ensures
        optional_pairs(r) == entries_of(value.tree()),
    decreases value,
{
    match value {
        Yaml::Mapping(list) => {
            proof {
                mapping_tree(*list);
            }
            Some(list)
        },
        Yaml::Tagged(inner) => as_mapping(inner),
        _ => None,
    }
}

/// The sequence that a value is, below any tags.
pub fn as_sequence<'a>(value: &'a Yaml) -> (r: Option<&'a Vec<Yaml>>)
    ensures
        optional_trees(r) == items_of(value.tree()),
    decreases value,
{
    match value {
        Yaml::Sequence(list) => {
            proof {
                sequence_tree(*list);
            }
            Some(list)
        },
        Yaml::Tagged(inner) => as_sequence(inner),
        _ => None,
    }
}

fn string_field(mapping: &Vec<(Yaml, Yaml)>, key: &str) -> (r: Option<String>)
    ensures
        lookup::optional(r) == scalar_field(pairs(mapping@), key@),
{
    match yaml_field(mapping, key) {
        Some(value) => yaml_string(value),
        None => None,
    }
}

fn sub_mapping<'a>(mapping: &'a Vec<(Yaml, Yaml)>, key: &str) -> (r: Option<&'a Vec<(Yaml, Yaml)>>)
    ensures
        optional_pairs(r) == mapping_field(pairs(mapping@), key@),
{
    match yaml_field(mapping, key) {
        Some(value) => as_mapping(value),
        None => None,
    }
}

/// What was printed of a workflow, and what stopped the printing.
pub struct Inspection {
    pub text: String,
    pub result: Result<(), String>,
}

impl View for Inspection {
    type V = Outcome;

    open spec fn view(&self) -> Outcome {
        Outcome {
            text: self.text@,
            error: match self.result {
                Ok(_) => None,
                Err(message) => Some(message@),
            },
        }
    }
}

fn stopped(message: &str) -> (r: Inspection)
    ensures
        r@ == refused(message@),
{
    Inspection { text: String::new(), result: Err(message.to_owned()) }
}

/// Puts what was printed next behind what was printed before.
fn follow(before: Inspection, next: Inspection) -> (r: Inspection)
    ensures
        r@ == then_outcome(before@, next@),
{
    match before.result {
        Err(message) => Inspection { text: before.text, result: Err(message) },
        Ok(_) => Inspection { text: before.text.concat(next.text.as_str()), result: next.result },
    }
}

fn inspect_step(number: usize, step: &Yaml) -> (r: Inspection)
    ensures
        r@ == step_outcome(number as nat, step.tree()),
{
    match as_mapping(step) {
        None => stopped("step must be a mapping"),
        Some(entries) => {
            let name = match string_field(entries, "name") {
                Some(name) => name,
                None => "step ".to_owned().concat(number_text(number).as_str()),
            };
            let head = "    ".to_owned().concat(number_text(number).as_str()).concat(". ").concat(name.as_str());
            let line = match string_field(entries, "run") {
                Some(run) => head.concat(" [run: ").concat(number_text(count_lines(run.as_str())).as_str()).concat(
                    " line(s)]\n",
                ),
                None => match string_field(entries, "uses") {
                    Some(uses) => head.concat(" [uses: ").concat(uses.as_str()).concat("]\n"),
                    None => head.concat("\n"),
                },
            };
            Inspection { text: line, result: Ok(()) }
        },
    }
}

fn inspect_steps(steps: &Vec<Yaml>) -> (r: Inspection)
    ensures
        r@ == steps_outcome(trees(steps@)),
{
    let mut r = Inspection { text: String::new(), result: Ok(()) };
    let mut i: usize = 0;
    proof {
        assert(trees(steps@).take(0) =~= Seq::empty());
    }
    while i < steps.len()
        invariant
            i <= steps@.len(),
            r@ == steps_outcome(trees(steps@).take(i as int)),
        decreases steps@.len() - i,
    {
        proof {
            assert(trees(steps@).take(i + 1).drop_last() =~= trees(steps@).take(i as int));
            assert(trees(steps@).take(i + 1).last() == steps@[i as int].tree());
        }
        let next = inspect_step(i + 1, &steps[i]);
        r = follow(r, next);
        i = i + 1;
    }
    proof {
        assert(trees(steps@).take(steps@.len() as int) =~= trees(steps@));
    }
    r
}

fn container_text(job: &Vec<(Yaml, Yaml)>) -> (r: String)
    ensures
        r@ == container_of(pairs(job@)),
{
    let declared: Option<String> = match yaml_field(job, "container") {
        Some(value) => match yaml_string(value) {
            Some(image) => Some(image),
            None => match as_mapping(value) {
                Some(entries) => string_field(entries, "image"),
                None => None,
            },
        },
        None => None,
    };
    match declared {
        Some(image) => image,
        None => "GitHub-hosted runner (no job container declared)".to_owned(),
    }
}

/// Adds the names among the keys of the `env` mapping to a sorted list.
fn add_env_names(found: &mut Vec<String>, mapping: &Vec<(Yaml, Yaml)>)
    requires
        names::sorted(text::texts(old(found)@)),
    ensures
        names::sorted(text::texts(final(found)@)),
        forall|name: Seq<char>|
            #[trigger] text::texts(final(found)@).contains(name) <==> text::texts(old(found)@).contains(name) || named(
                env_keys(pairs(mapping@)),
            ).contains(name),
{
    let ghost before = text::texts(found@);
    match sub_mapping(mapping, "env") {
        Some(environment) => {
            let ghost list = env_keys(pairs(mapping@));
            proof {
                assert(list == keys(pairs(environment@)));
                assert(list.len() == environment@.len());
                assert(forall|j: int| 0 <= j < list.len() ==> #[trigger] list[j] == environment@[j].0.tree());
            }
            let mut i: usize = 0;
            while i < environment.len()
                invariant
                    i <= environment@.len(),
                    list.len() == environment@.len(),
                    forall|j: int| 0 <= j < list.len() ==> #[trigger] list[j] == environment@[j].0.tree(),
                    names::sorted(text::texts(found@)),
                    forall|name: Seq<char>|
                        #[trigger] text::texts(found@).contains(name) <==> before.contains(name) || exists|j: int|
                            0 <= j < i && scalar(#[trigger] list[j]) == Some(name),
                decreases environment@.len() - i,
            {
                let ghost midway = text::texts(found@);
                match yaml_string(&environment[i].0) {
                    Some(name) => {
                        add_name(found, name);
                    },
                    None => {},
                }
                proof {
                    assert forall|name: Seq<char>|
                        #[trigger] text::texts(found@).contains(name) <==> before.contains(name) || exists|j: int|
                            0 <= j < i + 1 && scalar(#[trigger] list[j]) == Some(name) by {
                        assert(midway.contains(name) <==> before.contains(name) || exists|j: int|
                            0 <= j < i && scalar(#[trigger] list[j]) == Some(name));
                        if scalar(list[i as int]) == Some(name) {
                            assert(0 <= i < i + 1 && scalar(list[i as int]) == Some(name));
                        }
                    }
                }
                i = i + 1;
            }
        },
        None => {
            proof {
                assert(env_keys(pairs(mapping@)) =~= Seq::empty());
            }
        },
    }
}

fn env_list(root: &Vec<(Yaml, Yaml)>, job: &Vec<(Yaml, Yaml)>) -> (found: Vec<String>)
    ensures
        text::texts(found@) == names::listing(env_names(pairs(root@), pairs(job@))),
{
    let mut found: Vec<String> = Vec::new();
    proof {
        assert(text::texts(found@) =~= Seq::empty());
    }
    add_env_names(&mut found, root);
    add_env_names(&mut found, job);
    proof {
        let a = env_keys(pairs(root@));
        let b = env_keys(pairs(job@));
        let all = env_names(pairs(root@), pairs(job@));
        assert forall|name: Seq<char>| #[trigger] all.contains(name) <==> text::texts(found@).contains(name) by {
            if all.contains(name) {
                let i = choose|i: int| 0 <= i < (a + b).len() && scalar(#[trigger] (a + b)[i]) == Some(name);
                if i < a.len() {
                    assert(scalar(a[i]) == Some(name));
                } else {
                    assert(scalar(b[i - a.len()]) == Some(name));
                }
            }
            if named(a).contains(name) {
                let i = choose|i: int| 0 <= i < a.len() && scalar(#[trigger] a[i]) == Some(name);
                assert(scalar((a + b)[i]) == Some(name));
            }
            if named(b).contains(name) {
                let i = choose|i: int| 0 <= i < b.len() && scalar(#[trigger] b[i]) == Some(name);
                assert(scalar((a + b)[a.len() + i]) == Some(name));
            }
        }
        names::listing_is(text::texts(found@), all);
    }
    found
}

fn head_of_job(root: &Vec<(Yaml, Yaml)>, id: &Yaml, job: &Vec<(Yaml, Yaml)>) -> (r: String)
    ensures
        r@ == job_head(pairs(root@), id.tree(), pairs(job@)),
{
    let name = match yaml_string(id) {
        Some(name) => name,
        None => "<unnamed>".to_owned(),
    };
    let found = env_list(root, job);
    let listed = if found.len() > 0 {
        join(&found, ", ")
    } else {
        "<none declared>".to_owned()
    };
    proof {
        assert(text::texts(found@).len() == found@.len());
    }
    "job: ".to_owned().concat(name.as_str()).concat("\n  container: ").concat(container_text(job).as_str()).concat(
        "\n  environment names: ",
    ).concat(listed.as_str()).concat("\n")
}

fn inspect_job(root: &Vec<(Yaml, Yaml)>, entry: &(Yaml, Yaml)) -> (r: Inspection)
    ensures
        r@ == job_outcome(pairs(root@), (entry.0.tree(), entry.1.tree())),
{
    match as_mapping(&entry.1) {
        None => stopped("job must be a mapping"),
        Some(job) => {
            let head = head_of_job(root, &entry.0, job);
            let steps: Option<&Vec<Yaml>> = match yaml_field(job, "steps") {
                Some(value) => as_sequence(value),
                None => None,
            };
            match steps {
                Some(steps) => {
                    proof {
                        assert(steps_of(pairs(job@)) == trees(steps@));
                        assert(trees(steps@).len() == steps@.len());
                    }
                    if steps.len() > 0 {
                        let start = Inspection { text: head.concat("  steps:\n"), result: Ok(()) };
                        let end = Inspection { text: "\n".to_owned(), result: Ok(()) };
                        return follow(follow(start, inspect_steps(steps)), end);
                    }
                },
                None => {},
            }
            Inspection { text: head.concat("  steps: <none>\n\n"), result: Ok(()) }
        },
    }
}

fn selects(id: &Yaml, selected: &Option<String>) -> (r: bool)
    ensures
        forall|value: YamlTree| r == #[trigger] is_selected((id.tree(), value), lookup::optional(*selected)),
{
    match selected {
        Some(wanted) => match yaml_string(id) {
            Some(name) => same(name.as_str(), wanted.as_str()),
            None => false,
        },
        None => true,
    }
}

/// Prints what a workflow declares: its jobs, or the selected one. `document`
/// is what the reading of the workflow came to.
pub fn inspect_document(path: &str, document: &Result<Yaml, String>, selected: &Option<String>) -> (r: Inspection)
    ensures
        r@ == inspection(
            path@,
            match *document {
                Ok(yaml) => Ok(yaml.tree()),
                Err(message) => Err(message@),
            },
            lookup::optional(*selected),
        ),
{
    let yaml = match document {
        Ok(yaml) => yaml,
        Err(message) => {
            return stopped("invalid GitHub Actions YAML: ".to_owned().concat(message.as_str()).as_str());
        },
    };
    let root = match as_mapping(yaml) {
        Some(root) => root,
        None => {
            return stopped("workflow root must be a YAML mapping");
        },
    };
    let jobs = match sub_mapping(root, "jobs") {
        Some(jobs) => jobs,
        None => {
            return stopped("workflow has no jobs mapping");
        },
    };
    let ghost wanted = lookup::optional(*selected);
    let ghost all = pairs(jobs@);
    let mut found: bool = false;
    let mut r = Inspection { text: String::new(), result: Ok(()) };
    let mut i: usize = 0;
    proof {
        assert(all.take(0) =~= Seq::empty());
        reveal(Seq::filter);
        assert(selection(all.take(0), wanted) =~= Seq::empty());
    }
    while i < jobs.len()
        invariant
            i <= jobs@.len(),
            all == pairs(jobs@),
            wanted == lookup::optional(*selected),
            found == (selection(all.take(i as int), wanted).len() > 0),
            r@ == jobs_outcome(pairs(root@), selection(all.take(i as int), wanted)),
        decreases jobs@.len() - i,
    {
        let ghost done = selection(all.take(i as int), wanted);
        proof {
            let more = all.take(i + 1);
            assert(more.drop_last() =~= all.take(i as int));
            assert(more.last() == all[i as int]);
            reveal(Seq::filter);
            assert(selection(more, wanted) == if is_selected(all[i as int], wanted) {
                done.push(all[i as int])
            } else {
                done
            });
            assert(done.push(all[i as int]).drop_last() =~= done);
        }
        if selects(&jobs[i].0, selected) {
            found = true;
            let next = inspect_job(root, &jobs[i]);
            r = follow(r, next);
        }
        i = i + 1;
    }
    proof {
        assert(all.take(jobs@.len() as int) =~= all);
    }
    if !found {
        let name: &str = match selected {
            Some(name) => name.as_str(),
            None => "",
        };
        proof {
            reveal_strlit("");
            assert(""@ =~= Seq::empty());
        }
        return stopped("job `".to_owned().concat(name).concat("` was not found").as_str());
    }
    let head = Inspection {
        text: "Apux GitHub Actions inspection\n  workflow: ".to_owned().concat(path).concat("\n\n"),
        result: Ok(()),
    };
    follow(head, r)
}

/// Prints what the workflow with these contents declares: its jobs, or the
/// selected one.
pub fn inspect_github_actions(path: &str, contents: &str, selected_job: &Option<String>) -> (r: Inspection)
    ensures
        r@ == inspection(path@, yaml::yaml_document(contents@), lookup::optional(*selected_job)),
{
    let document = read_yaml(contents);
    inspect_document(path, &document, selected_job)
}

/// Two jobs that differ at most in the values of their variables and in what is
/// not shown at all.
pub open spec fn jobs_alike(a: (YamlTree, YamlTree), b: (YamlTree, YamlTree)) -> bool {
    &&& a.0 == b.0
    &&& match (entries_of(a.1), entries_of(b.1)) {
        (Some(x), Some(y)) => env_keys(x) == env_keys(y) && field(x, "container"@) == field(y, "container"@) && field(
            x,
            "steps"@,
        ) == field(y, "steps"@),
        (None, None) => true,
        _ => false,
    }
}

pub open spec fn all_alike(a: Seq<(YamlTree, YamlTree)>, b: Seq<(YamlTree, YamlTree)>) -> bool {
    a.len() == b.len() && forall|i: int| 0 <= i < a.len() ==> jobs_alike(#[trigger] a[i], b[i])
}

/// Two workflows that differ at most in the values of variables and in what is
/// not shown at all.
pub open spec fn workflows_alike(a: YamlTree, b: YamlTree) -> bool {
    match (entries_of(a), entries_of(b)) {
        (Some(x), Some(y)) => env_keys(x) == env_keys(y) && match (
            mapping_field(x, "jobs"@),
            mapping_field(y, "jobs"@),
        ) {
            (Some(i), Some(j)) => all_alike(i, j),
            (None, None) => true,
            _ => false,
        },
        (None, None) => true,
        _ => false,
    }
}

proof fn selection_alike(
    a: Seq<(YamlTree, YamlTree)>,
    b: Seq<(YamlTree, YamlTree)>,
    selected: Option<Seq<char>>,
)
    requires
        all_alike(a, b),
    ensures
        all_alike(selection(a, selected), selection(b, selected)),
    decreases a.len(),
{
    reveal(Seq::filter);
    if a.len() > 0 {
        assert(jobs_alike(a[a.len() - 1], b[b.len() - 1]));
        assert forall|i: int| 0 <= i < a.drop_last().len() implies jobs_alike(
            #[trigger] a.drop_last()[i],
            b.drop_last()[i],
        ) by {
            assert(jobs_alike(a[i], b[i]));
        }
        selection_alike(a.drop_last(), b.drop_last(), selected);
        let x = selection(a.drop_last(), selected);
        let y = selection(b.drop_last(), selected);
        assert(all_alike(x, y));
        assert(all_alike(x.push(a.last()), y.push(b.last()))) by {
            assert forall|i: int| 0 <= i < x.push(a.last()).len() implies jobs_alike(
                #[trigger] x.push(a.last())[i],
                y.push(b.last())[i],
            ) by {
                if i < x.len() {
                    assert(jobs_alike(x[i], y[i]));
                }
            }
        }
    }
}

proof fn jobs_outcome_alike(
    p: Seq<(YamlTree, YamlTree)>,
    q: Seq<(YamlTree, YamlTree)>,
    a: Seq<(YamlTree, YamlTree)>,
    b: Seq<(YamlTree, YamlTree)>,
)
    requires
        env_keys(p) == env_keys(q),
        all_alike(a, b),
    ensures
        jobs_outcome(p, a) == jobs_outcome(q, b),
    decreases a.len(),
{
    if a.len() > 0 {
        assert(jobs_alike(a[a.len() - 1], b[b.len() - 1]));
        assert forall|i: int| 0 <= i < a.drop_last().len() implies jobs_alike(
            #[trigger] a.drop_last()[i],
            b.drop_last()[i],
        ) by {
            assert(jobs_alike(a[i], b[i]));
        }
        jobs_outcome_alike(p, q, a.drop_last(), b.drop_last());
    }
}

/// An inspection shows the names of variables and never their values: workflows
/// that differ only in the values get the same inspection.
pub proof fn inspection_hides_values(path: Seq<char>, a: YamlTree, b: YamlTree, selected: Option<Seq<char>>)
    requires
        workflows_alike(a, b),
    ensures
        inspection(path, Ok(a), selected) == inspection(path, Ok(b), selected),
{
    match (entries_of(a), entries_of(b)) {
        (Some(x), Some(y)) => match (mapping_field(x, "jobs"@), mapping_field(y, "jobs"@)) {
            (Some(i), Some(j)) => {
                selection_alike(i, j, selected);
                jobs_outcome_alike(x, y, selection(i, selected), selection(j, selected));
            },
            _ => {},
        },
        _ => {},
    }
}

/// Where a job is selected, only jobs of that id are shown, and there is none to
/// show exactly if no job has that id.
pub proof fn only_the_selected_job_is_shown(jobs: Seq<(YamlTree, YamlTree)>, name: Seq<char>)
    ensures
        forall|i: int|
            0 <= i < selection(jobs, Some(name)).len() ==> scalar((#[trigger] selection(jobs, Some(name))[i]).0) == Some(
                name,
            ) && jobs.contains(selection(jobs, Some(name))[i]),
        selection(jobs, Some(name)).len() == 0 <==> forall|i: int|
            0 <= i < jobs.len() ==> scalar((#[trigger] jobs[i]).0) != Some(name),
    decreases jobs.len(),
{
    reveal(Seq::filter);
    let shown = selection(jobs, Some(name));
    if jobs.len() > 0 {
        let front = jobs.drop_last();
        let before = selection(front, Some(name));
        only_the_selected_job_is_shown(front, name);
        assert forall|i: int| 0 <= i < shown.len() implies scalar((#[trigger] shown[i]).0) == Some(name)
            && jobs.contains(shown[i]) by {
            if i < before.len() {
                assert(shown[i] == before[i]);
                let k = choose|k: int| 0 <= k < front.len() && front[k] == before[i];
                assert(jobs[k] == shown[i]);
            } else {
                assert(jobs[jobs.len() - 1] == shown[i]);
            }
        }
        if shown.len() == 0 {
            assert forall|i: int| 0 <= i < jobs.len() implies scalar((#[trigger] jobs[i]).0) != Some(name) by {
                if i < front.len() {
                    assert(front[i] == jobs[i]);
                }
            }
        } else if before.len() > 0 {
            let k = choose|k: int| 0 <= k < front.len() && scalar((#[trigger] front[k]).0) == Some(name);
            assert(scalar(jobs[k].0) == Some(name));
        } else {
            assert(scalar(jobs[jobs.len() - 1].0) == Some(name));
        }
    }
}

/// A workflow that has no job of the selected id is refused, and nothing is
/// printed.
pub proof fn missing_job_is_refused(
    path: Seq<char>,
    root: Seq<(YamlTree, YamlTree)>,
    jobs: Seq<(YamlTree, YamlTree)>,
    name: Seq<char>,
)
    requires
        mapping_field(root, "jobs"@) == Some(jobs),
        forall|i: int| 0 <= i < jobs.len() ==> scalar((#[trigger] jobs[i]).0) != Some(name),
    ensures
        inspection(path, Ok(YamlTree::Mapping(root)), Some(name)) == refused("job `"@ + name + "` was not found"@),
{
    only_the_selected_job_is_shown(jobs, name);
}

/// An inspection says its text, and the message where it was stopped.
pub proof fn inspections_say_all_they_hold(inspection: Inspection)
    ensures
        inspection@.text == inspection.text@,
        inspection.result is Ok <==> inspection@.error is None,
        inspection.result matches Err(message) ==> inspection@.error == Some(message@),
{
}

/// What is in memory is what the tree holds, one for one and in order.
pub proof fn trees_are_in_order(entries: Seq<(Yaml, Yaml)>, items: Seq<Yaml>)
    ensures
        pairs(entries).len() == entries.len(),
        forall|i: int| 0 <= i < entries.len() ==> #[trigger] pairs(entries)[i] == (entries[i].0.tree(), entries[i].1.tree()),
        trees(items).len() == items.len(),
        forall|i: int| 0 <= i < items.len() ==> #[trigger] trees(items)[i] == items[i].tree(),
{
}

/// A key is looked up from the front: what the one part of a mapping has under
/// it hides what the other has, and a single entry has its value under its own
/// key, which is a text, and nothing under any other.
pub proof fn fields_are_looked_up_by_key(
    a: Seq<(YamlTree, YamlTree)>,
    b: Seq<(YamlTree, YamlTree)>,
    name: YamlTree,
    value: YamlTree,
    key: Seq<char>,
)
    ensures
        field(a, key) is Some ==> field(a + b, key) == field(a, key),
        field(a, key) is None ==> field(a + b, key) == field(b, key),
        name == YamlTree::Text(key) ==> field(seq![(name, value)], key) == Some(value),
        name != YamlTree::Text(key) ==> field(seq![(name, value)], key) is None,
        field(Seq::empty(), key) is None,
    decreases a.len(),
{
    let single = seq![(name, value)];
    assert(single.drop_first() =~= Seq::empty());
    assert(field(Seq::empty(), key) is None);
    if a.len() == 0 {
        assert(a + b =~= b);
    } else {
        fields_are_looked_up_by_key(a.drop_first(), b, name, value, key);
        assert((a + b).drop_first() =~= a.drop_first() + b);
        assert((a + b)[0] == a[0]);
    }
}

/// Texts and numbers are scalars as they stand and truth values by their names;
/// nothing else is a scalar. Mappings and sequences are found below any tags,
/// and a tag makes nothing else of what it stands on.
pub proof fn kinds_of_values(s: Seq<char>, items: Seq<YamlTree>, entries: Seq<(YamlTree, YamlTree)>, inner: YamlTree)
    ensures
        scalar(YamlTree::Text(s)) == Some(s),
        scalar(YamlTree::Number(s)) == Some(s),
        scalar(YamlTree::Bool(true)) == Some("true"@),
        scalar(YamlTree::Bool(false)) == Some("false"@),
        scalar(YamlTree::Null) is None,
        scalar(YamlTree::Sequence(items)) is None,
        scalar(YamlTree::Mapping(entries)) is None,
        scalar(YamlTree::Tagged(Box::new(inner))) is None,
        entries_of(YamlTree::Mapping(entries)) == Some(entries),
        items_of(YamlTree::Sequence(items)) == Some(items),
        entries_of(YamlTree::Tagged(Box::new(inner))) == entries_of(inner),
        items_of(YamlTree::Tagged(Box::new(inner))) == items_of(inner),
        entries_of(YamlTree::Sequence(items)) is None,
        items_of(YamlTree::Mapping(entries)) is None,
        scalar(inner) is Some || inner is Null ==> entries_of(inner) is None && items_of(inner) is None,
{
}

/// What stands under a key is read as a scalar or as a mapping.
pub proof fn fields_are_read_by_kind(entries: Seq<(YamlTree, YamlTree)>, key: Seq<char>)
    ensures
        field(entries, key) is None ==> scalar_field(entries, key) is None && mapping_field(entries, key) is None,
        field(entries, key) matches Some(value) ==> scalar_field(entries, key) == scalar(value) && mapping_field(
            entries,
            key,
        ) == entries_of(value),
{
}

/// The line on a step begins with its number and its name, or with its number in
/// place of a name, and what follows is told by `run` and `uses` alone: the
/// lines of the script it runs, or else the action it uses, or else nothing,
/// whether or not the step has a name.
pub proof fn steps_show_what_they_run(number: nat, step: YamlTree, entries: Seq<(YamlTree, YamlTree)>)
    requires
        entries_of(step) == Some(entries),
    ensures
        ({
            let name = scalar_field(entries, "name"@);
            let run = scalar_field(entries, "run"@);
            let uses = scalar_field(entries, "uses"@);
            let head = "    "@ + text::numeral(number) + ". "@ + (if name is Some {
                name->0
            } else {
                "step "@ + text::numeral(number)
            });
            let line = step_outcome(number, step).text;
            &&& step_outcome(number, step).error is None
            &&& run is Some ==> line == head + " [run: "@ + text::numeral(script::line_count(run->0)) + " line(s)]\n"@
            &&& run is None && uses is Some ==> line == head + " [uses: "@ + uses->0 + "]\n"@
            &&& run is None && uses is None ==> line == head + "\n"@
        }),
{
}

/// Of two steps that run and use the same, the lines end alike behind the names,
/// whatever the names are and whether or not there are any.
pub proof fn names_hide_nothing(
    number: nat,
    a: YamlTree,
    b: YamlTree,
    x: Seq<(YamlTree, YamlTree)>,
    y: Seq<(YamlTree, YamlTree)>,
)
    requires
        entries_of(a) == Some(x),
        entries_of(b) == Some(y),
        scalar_field(x, "run"@) == scalar_field(y, "run"@),
        scalar_field(x, "uses"@) == scalar_field(y, "uses"@),
    ensures
        exists|head: Seq<char>, other: Seq<char>, tail: Seq<char>|
            {
                &&& step_outcome(number, a).text == #[trigger] (head + tail)
                &&& step_outcome(number, b).text == #[trigger] (other + tail)
                &&& head == "    "@ + text::numeral(number) + ". "@ + (if scalar_field(x, "name"@) is Some {
                    scalar_field(x, "name"@)->0
                } else {
                    "step "@ + text::numeral(number)
                })
                &&& other == "    "@ + text::numeral(number) + ". "@ + (if scalar_field(y, "name"@) is Some {
                    scalar_field(y, "name"@)->0
                } else {
                    "step "@ + text::numeral(number)
                })
            },
{
    let run = scalar_field(x, "run"@);
    let uses = scalar_field(x, "uses"@);
    let head = "    "@ + text::numeral(number) + ". "@ + (if scalar_field(x, "name"@) is Some {
        scalar_field(x, "name"@)->0
    } else {
        "step "@ + text::numeral(number)
    });
    let other = "    "@ + text::numeral(number) + ". "@ + (if scalar_field(y, "name"@) is Some {
        scalar_field(y, "name"@)->0
    } else {
        "step "@ + text::numeral(number)
    });
    let tail = if run is Some {
        " [run: "@ + text::numeral(script::line_count(run->0)) + " line(s)]\n"@
    } else if uses is Some {
        " [uses: "@ + uses->0 + "]\n"@
    } else {
        "\n"@
    };
    steps_show_what_they_run(number, a, x);
    steps_show_what_they_run(number, b, y);
    assert(step_outcome(number, a).text =~= head + tail);
    assert(step_outcome(number, b).text =~= other + tail);
}

/// A step that is no mapping stops the printing before its line.
pub proof fn steps_must_be_mappings(number: nat, step: YamlTree)
    requires
        entries_of(step) is None,
    ensures
        step_outcome(number, step).text.len() == 0,
        step_outcome(number, step).error == Some("step must be a mapping"@),
{
}

/// Steps are printed one behind the other and numbered from one; behind one that
/// stops the printing nothing is printed.
pub proof fn steps_are_numbered_in_order(steps: Seq<YamlTree>, next: YamlTree)
    ensures
        steps_outcome(Seq::empty()).text.len() == 0,
        steps_outcome(Seq::empty()).error is None,
        steps_outcome(steps).error is Some ==> steps_outcome(steps.push(next)) == steps_outcome(steps),
        steps_outcome(steps).error is None ==> {
            &&& steps_outcome(steps.push(next)).text == steps_outcome(steps).text + step_outcome(
                steps.len() + 1,
                next,
            ).text
            &&& steps_outcome(steps.push(next)).error == step_outcome(steps.len() + 1, next).error
        },
{
    assert(steps.push(next).drop_last() =~= steps);
    assert(steps.push(next).last() == next);
}

/// The container of a job is named by a scalar or by the image of a mapping, and
/// where neither is there the job runs on a hosted runner.
pub proof fn containers_are_named(job: Seq<(YamlTree, YamlTree)>)
    ensures
        ({
            let direct = scalar_field(job, "container"@);
            let inner = mapping_field(job, "container"@);
            &&& direct is Some ==> container_of(job) == direct->0
            &&& direct is None && inner is Some && scalar_field(inner->0, "image"@) is Some ==> container_of(job)
                == scalar_field(inner->0, "image"@)->0
            &&& direct is None && (inner is None || scalar_field(inner->0, "image"@) is None) ==> container_of(job)
                == "GitHub-hosted runner (no job container declared)"@
        }),
{
}

/// A variable is named exactly if it is a scalar key of the `env` mapping of the
/// workflow or of the job.
pub proof fn variables_come_from_both_levels(
    root: Seq<(YamlTree, YamlTree)>,
    job: Seq<(YamlTree, YamlTree)>,
    name: Seq<char>,
)
    ensures
        env_names(root, job).contains(name) <==> {
            ||| mapping_field(root, "env"@) matches Some(list) && exists|i: int|
                0 <= i < list.len() && scalar((#[trigger] list[i]).0) == Some(name)
            ||| mapping_field(job, "env"@) matches Some(list) && exists|i: int|
                0 <= i < list.len() && scalar((#[trigger] list[i]).0) == Some(name)
        },
{
    let a = env_keys(root);
    let b = env_keys(job);
    if env_names(root, job).contains(name) {
        let i = choose|i: int| 0 <= i < (a + b).len() && scalar(#[trigger] (a + b)[i]) == Some(name);
        if i < a.len() {
            assert(scalar(mapping_field(root, "env"@)->0[i].0) == Some(name));
        } else {
            assert(scalar(mapping_field(job, "env"@)->0[i - a.len()].0) == Some(name));
        }
    }
    if mapping_field(root, "env"@) is Some {
        let list = mapping_field(root, "env"@)->0;
        if exists|i: int| 0 <= i < list.len() && scalar((#[trigger] list[i]).0) == Some(name) {
            let i = choose|i: int| 0 <= i < list.len() && scalar((#[trigger] list[i]).0) == Some(name);
            assert(scalar((a + b)[i]) == Some(name));
        }
    }
    if mapping_field(job, "env"@) is Some {
        let list = mapping_field(job, "env"@)->0;
        if exists|i: int| 0 <= i < list.len() && scalar((#[trigger] list[i]).0) == Some(name) {
            let i = choose|i: int| 0 <= i < list.len() && scalar((#[trigger] list[i]).0) == Some(name);
            assert(scalar((a + b)[a.len() + i]) == Some(name));
        }
    }
}

/// The names that a job gets can be listed, so that the list is in order and
/// holds each of them once.
pub proof fn variable_names_are_listed(root: Seq<(YamlTree, YamlTree)>, job: Seq<(YamlTree, YamlTree)>)
    ensures
        names::lists(names::listing(env_names(root, job)), env_names(root, job)),
        preflight::has_names(env_names(root, job)) <==> exists|name: Seq<char>| #[trigger]
            env_names(root, job).contains(name),
{
    let set = env_names(root, job);
    named_sets_are_finite(env_keys(root) + env_keys(job));
    names::finite_sets_are_listed(set);
    let list = names::listing(set);
    if list.len() > 0 {
        assert(list.contains(list[0]));
        assert(set.contains(list[0]));
    }
}

proof fn named_sets_are_finite(list: Seq<YamlTree>)
    ensures
        named(list).finite(),
    decreases list.len(),
{
    let set = named(list);
    if list.len() == 0 {
        assert(set =~= Set::empty());
    } else {
        let front = list.drop_last();
        named_sets_are_finite(front);
        let last: Seq<char> = match scalar(list.last()) {
            Some(name) => name,
            None => Seq::empty(),
        };
        let larger = named(front).insert(last);
        assert forall|name: Seq<char>| #[trigger] set.contains(name) implies larger.contains(name) by {
            let i = choose|i: int| 0 <= i < list.len() && scalar(#[trigger] list[i]) == Some(name);
            if i < front.len() {
                assert(scalar(front[i]) == Some(name));
            }
        }
        vstd::set_lib::lemma_set_subset_finite(larger, set);
    }
}

/// The lines on a job tell its id, its container, the names of its variables and
/// its steps, all of them.
pub proof fn jobs_show_all_they_declare(
    root: Seq<(YamlTree, YamlTree)>,
    id: YamlTree,
    value: YamlTree,
    job: Seq<(YamlTree, YamlTree)>,
)
    requires
        entries_of(value) == Some(job),
    ensures
        ({
            let variables = env_names(root, job);
            let head = "job: "@ + (if scalar(id) is Some {
                scalar(id)->0
            } else {
                "<unnamed>"@
            }) + "\n  container: "@ + container_of(job) + "\n  environment names: "@ + (if exists|name: Seq<char>| #[trigger]
                variables.contains(name) {
                text::joined(names::listing(variables), ", "@)
            } else {
                "<none declared>"@
            }) + "\n"@;
            let listed = field(job, "steps"@) is Some && items_of(field(job, "steps"@)->0) is Some && items_of(
                field(job, "steps"@)->0,
            )->0.len() > 0;
            let steps = items_of(field(job, "steps"@)->0)->0;
            let shown = job_outcome(root, (id, value));
            &&& !listed ==> shown.error is None && shown.text == head + "  steps: <none>\n\n"@
            &&& listed && steps_outcome(steps).error is None ==> shown.error is None && shown.text == head
                + "  steps:\n"@ + steps_outcome(steps).text + "\n"@
            &&& listed && steps_outcome(steps).error is Some ==> shown.error == steps_outcome(steps).error && shown.text
                == head + "  steps:\n"@ + steps_outcome(steps).text
        }),
{
    variable_names_are_listed(root, job);
}

/// A job that is no mapping stops the printing before its lines.
pub proof fn jobs_must_be_mappings(root: Seq<(YamlTree, YamlTree)>, id: YamlTree, value: YamlTree)
    requires
        entries_of(value) is None,
    ensures
        job_outcome(root, (id, value)).text.len() == 0,
        job_outcome(root, (id, value)).error == Some("job must be a mapping"@),
{
}

/// Jobs are printed one behind the other; behind one that stops the printing
/// nothing is printed.
pub proof fn jobs_are_printed_in_order(
    root: Seq<(YamlTree, YamlTree)>,
    jobs: Seq<(YamlTree, YamlTree)>,
    next: (YamlTree, YamlTree),
)
    ensures
        jobs_outcome(root, Seq::empty()).text.len() == 0,
        jobs_outcome(root, Seq::empty()).error is None,
        jobs_outcome(root, jobs).error is Some ==> jobs_outcome(root, jobs.push(next)) == jobs_outcome(root, jobs),
        jobs_outcome(root, jobs).error is None ==> {
            &&& jobs_outcome(root, jobs.push(next)).text == jobs_outcome(root, jobs).text + job_outcome(root, next).text
            &&& jobs_outcome(root, jobs.push(next)).error == job_outcome(root, next).error
        },
{
    assert(jobs.push(next).drop_last() =~= jobs);
    assert(jobs.push(next).last() == next);
}

/// Where no job is selected all are shown; where one is, a further job is shown
/// exactly if its id is the selected one, behind those before it.
pub proof fn all_jobs_asked_for_are_shown(
    jobs: Seq<(YamlTree, YamlTree)>,
    next: (YamlTree, YamlTree),
    name: Seq<char>,
)
    ensures
        selection(jobs, None) == jobs,
        selection(Seq::empty(), Some(name)).len() == 0,
        scalar(next.0) == Some(name) ==> selection(jobs.push(next), Some(name)) == selection(jobs, Some(name)).push(next),
        scalar(next.0) != Some(name) ==> selection(jobs.push(next), Some(name)) == selection(jobs, Some(name)),
    decreases jobs.len(),
{
    reveal(Seq::filter);
    assert(jobs.push(next).drop_last() =~= jobs);
    assert(jobs.push(next).last() == next);
    if jobs.len() > 0 {
        all_jobs_asked_for_are_shown(jobs.drop_last(), next, name);
        assert(jobs.drop_last().push(jobs.last()) =~= jobs);
    } else {
        assert(selection(jobs, None) =~= jobs);
    }
}

/// A workflow that can be read is a mapping with a mapping of jobs; its path and
/// then the jobs that are asked for are printed. Anything else is refused and
/// nothing is printed.
pub proof fn workflows_are_printed_or_refused(
    path: Seq<char>,
    tree: YamlTree,
    message: Seq<char>,
    selected: Option<Seq<char>>,
)
    ensures
        ({
            let refusal = inspection(path, Err(message), selected);
            &&& refusal.text.len() == 0
            &&& refusal.error == Some("invalid GitHub Actions YAML: "@ + message)
        }),
        ({
            let shown = inspection(path, Ok(tree), selected);
            let root = entries_of(tree)->0;
            let jobs = mapping_field(root, "jobs"@)->0;
            &&& entries_of(tree) is None ==> shown.text.len() == 0 && shown.error == Some(
                "workflow root must be a YAML mapping"@,
            )
            &&& entries_of(tree) is Some && mapping_field(root, "jobs"@) is None ==> shown.text.len() == 0 && shown.error
                == Some("workflow has no jobs mapping"@)
            &&& entries_of(tree) is Some && mapping_field(root, "jobs"@) is Some && selection(jobs, selected).len() == 0
                ==> {
                &&& shown.text.len() == 0
                &&& selected is Some ==> shown.error == Some("job `"@ + selected->0 + "` was not found"@)
                &&& selected is None ==> shown.error == Some("job `` was not found"@)
            }
            &&& entries_of(tree) is Some && mapping_field(root, "jobs"@) is Some && selection(jobs, selected).len() > 0
                ==> {
                &&& shown.text == "Apux GitHub Actions inspection\n  workflow: "@ + path + "\n\n"@ + jobs_outcome(
                    root,
                    selection(jobs, selected),
                ).text
                &&& shown.error == jobs_outcome(root, selection(jobs, selected)).error
            }
        }),
{
    reveal_strlit("job `");
    reveal_strlit("` was not found");
    reveal_strlit("job `` was not found");
    assert("job `"@ + Seq::<char>::empty() + "` was not found"@ =~= "job `` was not found"@);
}

/// An optional value, mapping or sequence holds what it would hold by itself.
pub proof fn optional_values(value: &Yaml, entries: &Vec<(Yaml, Yaml)>, items: &Vec<Yaml>)
    ensures
        optional_tree(Some(value)) == Some(value.tree()),
        optional_tree(None) is None,
        optional_pairs(Some(entries)) == Some(pairs(entries@)),
        optional_pairs(None) is None,
        optional_trees(Some(items)) == Some(trees(items@)),
        optional_trees(None) is None,
{
}

} // verus!
