# Apux

Apux is a preflight tool for unattended commands. It tells what a command that
works in a terminal will miss under cron, systemd, launchd or in a container.

```sh
apux check --target cron -- ./scripts/nightly-sync.sh
apux diff local cron -- ./scripts/nightly-sync.sh
apux run --target cron -- ./scripts/nightly-sync.sh
apux init --target cron -- ./scripts/nightly-sync.sh
apux verify --target cron
apux inspect github-actions --file .github/workflows/ci.yml --job test
```

No value of an environment variable is shown by `diff` or `inspect`: this is
proved of the text that the library gives out. `run` sets nothing but `PATH`,
`SHELL` and `HOME`: it is proved that the library lists these three and no other
variable, while clearing the environment and setting what is listed is left to
the program in `app/`, which is not verified.

## Layout

`src/` is the library. It is written in Verus, and all of it but the few outside
calls named at the end is verified against its contracts.

- `text`, `names`: searching, splitting and joining text; sorted lists of names
- `script`: the variables and lines of a script, the startup files it names and
  its interactive use
- `shell`: quoting, and that a shell reads quoted words back
- `lookup`: search paths
- `finding`, `preflight`, `report`: the checks and what they print
- `cli`, `run`, `diff`, `contract`, `init`: one module for each thing to do
- `yaml`, `workflow`: YAML documents and what a workflow declares

The library never touches the machine: it is handed what is known of it
(`preflight::Host`, `contract::Places`, `diff::Locals`) and hands back what to
print, write or start. `app/` is the program around it, which reads files and
variables, prints, writes and starts commands.

What is taken on trust is `String::push`, and what the `serde_yaml` crate makes
of a text (`yaml::parse_value`, `yaml::open_value`).
