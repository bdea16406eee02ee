use apux::workflow::{
    as_mapping, as_sequence, inspect_document, inspect_github_actions, yaml_field, yaml_string, Inspection,
};
use apux::yaml::{read_yaml, Yaml};

fn inspect(contents: &str, job: Option<&str>) -> Inspection {
    inspect_github_actions("ci.yml", contents, &job.map(str::to_string))
}

const WORKFLOW: &str = "env:\n  TOKEN: ${{ secrets.TOKEN }}\njobs:\n  test:\n    container: node:22\n    env:\n      NODE_ENV: test\n    steps:\n      - uses: actions/checkout@v4\n      - name: Test\n        run: npm test\n";

#[test]
fn reads_github_actions_job_container_and_steps() {
    assert!(inspect(WORKFLOW, Some("test")).result.is_ok());
}

#[test]
fn prints_what_a_workflow_declares() {
    assert_eq!(
        inspect(WORKFLOW, None).text,
        "Apux GitHub Actions inspection\n  workflow: ci.yml\n\njob: test\n  container: node:22\n  environment names: NODE_ENV, TOKEN\n  steps:\n    1. step 1 [uses: actions/checkout@v4]\n    2. Test [run: 1 line(s)]\n\n"
    );
}

#[test]
fn prints_jobs_in_order() {
    let contents = "jobs:\n  b:\n    container: {image: x}\n    steps: [{name: 7}, {run: \"a\\nb\\n\"}]\n  a: {}\n  1: {container: [], steps: no}\n  true: {}\n";
    assert_eq!(
        inspect(contents, None).text,
        "Apux GitHub Actions inspection\n  workflow: ci.yml\n\njob: b\n  container: x\n  environment names: <none declared>\n  steps:\n    1. 7\n    2. step 2 [run: 2 line(s)]\n\njob: a\n  container: GitHub-hosted runner (no job container declared)\n  environment names: <none declared>\n  steps: <none>\n\njob: 1\n  container: GitHub-hosted runner (no job container declared)\n  environment names: <none declared>\n  steps: <none>\n\njob: true\n  container: GitHub-hosted runner (no job container declared)\n  environment names: <none declared>\n  steps: <none>\n\n"
    );
}

#[test]
fn shows_only_the_selected_job() {
    let contents = "jobs:\n  a: {}\n  1: {}\n  b: {}\n";
    let shown = inspect(contents, Some("1"));
    assert!(shown.result.is_ok());
    assert!(shown.text.contains("job: 1\n") && !shown.text.contains("job: a") && !shown.text.contains("job: b"));
}

#[test]
fn refuses_what_is_no_workflow() {
    let refused = |contents: &str, job: Option<&str>| {
        let shown = inspect(contents, job);
        assert_eq!(shown.text, "");
        shown.result.unwrap_err()
    };
    assert_eq!(refused("[1]", None), "workflow root must be a YAML mapping");
    assert_eq!(refused("on: push", None), "workflow has no jobs mapping");
    assert_eq!(refused("jobs: [1]", None), "workflow has no jobs mapping");
    assert_eq!(refused("jobs: {a: {}}", Some("b")), "job `b` was not found");
    assert_eq!(refused("jobs: {}", None), "job `` was not found");
    assert!(refused("jobs: {a: {}", None).starts_with("invalid GitHub Actions YAML: "));
    let message = read_yaml("a: 1\na: 2").err().unwrap();
    assert_eq!(refused("a: 1\na: 2", None), format!("invalid GitHub Actions YAML: {message}"));
    assert_eq!(message, serde_yaml::from_str::<serde_yaml::Value>("a: 1\na: 2").unwrap_err().to_string());
}

#[test]
fn stops_where_a_job_or_step_is_no_mapping() {
    let shown = inspect("jobs: {a: {}, b: 1, c: {}}", None);
    assert_eq!(shown.result.unwrap_err(), "job must be a mapping");
    assert!(shown.text.ends_with("  steps: <none>\n\n") && !shown.text.contains("job: c"));
    let shown = inspect("jobs: {a: {steps: [{run: x}, y, {run: z}]}, c: {}}", None);
    assert_eq!(shown.result.unwrap_err(), "step must be a mapping");
    assert!(shown.text.ends_with("  steps:\n    1. step 1 [run: 1 line(s)]\n"));
}

#[test]
fn an_inspection_hides_values() {
    let other = WORKFLOW.replace("${{ secrets.TOKEN }}", "hunter2").replace("NODE_ENV: test", "NODE_ENV: [x]");
    assert_eq!(inspect(&other, None).text, inspect(WORKFLOW, None).text);
    assert!(!inspect(&other, None).text.contains("hunter2"));
}

#[test]
fn reads_yaml_into_plain_trees() {
    let yaml = read_yaml("a: [~, true, 1, 2.50, -3, x]\n!t b: !u {c: .inf}\n").ok().unwrap();
    let root = as_mapping(&yaml).unwrap();
    assert_eq!(root.len(), 2);
    let items = as_sequence(yaml_field(root, "a").unwrap()).unwrap();
    let shown: Vec<Option<String>> = items.iter().map(yaml_string).collect();
    let wanted = [None, Some("true"), Some("1"), Some("2.5"), Some("-3"), Some("x")];
    assert_eq!(shown, wanted.map(|s| s.map(str::to_string)));
    assert!(matches!(&items[0], Yaml::Null));
    assert!(yaml_field(root, "b").is_none());
    assert!(matches!(&root[1].0, Yaml::Tagged(inner) if matches!(&**inner, Yaml::Text(s) if s == "b")));
    assert!(yaml_string(&root[1].0).is_none());
    let inner = as_mapping(&root[1].1).unwrap();
    assert_eq!(yaml_string(yaml_field(inner, "c").unwrap()).as_deref(), Some(".inf"));
    assert!(as_sequence(&root[1].1).is_none());
    assert!(as_mapping(&items[5]).is_none());
}

#[test]
fn inspects_documents_made_by_hand() {
    let text = |s: &str| Yaml::Text(s.to_string());
    let job = Yaml::Mapping(vec![(
        text("steps"),
        Yaml::Tagged(Box::new(Yaml::Sequence(vec![Yaml::Mapping(vec![(text("uses"), Yaml::Bool(false))])]))),
    )]);
    let document = Ok(Yaml::Mapping(vec![(text("jobs"), Yaml::Mapping(vec![(Yaml::Null, job)]))]));
    let shown = inspect_document("p", &document, &None);
    assert!(shown.result.is_ok());
    assert_eq!(
        shown.text,
        "Apux GitHub Actions inspection\n  workflow: p\n\njob: <unnamed>\n  container: GitHub-hosted runner (no job container declared)\n  environment names: <none declared>\n  steps:\n    1. step 1 [uses: false]\n\n"
    );
    let broken = inspect_document("p", &Err("bad".to_string()), &None);
    assert_eq!(broken.result.unwrap_err(), "invalid GitHub Actions YAML: bad");
}
