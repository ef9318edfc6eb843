//! The text of the generated files.
//!
//! Each file is a fixed text with the project's name, its description or a
//! version number put in at a few places. The fixed parts are the constants
//! below; the functions say how they are joined.

use crate::template::Template;
use vstd::prelude::*;

verus! {

/// The version of the Gleam standard library that a new project depends on.
pub const GLEAM_STDLIB_VERSION: &'static str = "0.13.0";

/// The version of the Gleam OTP library that a new application depends on.
pub const GLEAM_OTP_VERSION: &'static str = "0.1.0";

/// The version of Erlang/OTP that the continuous integration workflow installs.
pub const ERLANG_OTP_VERSION: &'static str = "22.1";

/// The version that a new project starts at.
pub const PROJECT_VERSION: &'static str = "1.0.0";

/// Whether `part` stands somewhere in `text`, character for character.
pub open spec fn embeds(text: Seq<char>, part: Seq<char>) -> bool {
    exists|before: Seq<char>, after: Seq<char>| text == #[trigger] (before + part + after)
}

/// The whole of `.gitignore`.
pub const GITIGNORE: &'static str = "*.beam
*.iml
*.o
*.plt
*.swo
*.swp
*~
.erlang.cookie
.eunit
.idea
.rebar
.rebar3
_*
_build
docs
ebin
erl_crash.dump
gen
log
logs
rebar3.crashdump
";

/// The text of `.gitignore`.
pub open spec fn gitignore_text() -> Seq<char> {
    GITIGNORE@
}

/// The workflow, up to the Erlang/OTP version.
pub const GITHUB_CI_OPENING: &'static str = "name: test

on:
  push:
    branches:
      - master
      - main
  pull_request:

jobs:
  test:
    runs-on: ubuntu-latest
    steps:
      - uses: actions/checkout@v2.0.0
      - uses: gleam-lang/setup-erlang@v1.1.0
        with:
          otp-version: ";

/// The workflow, between the Erlang/OTP version and the Gleam version.
pub const GITHUB_CI_BEFORE_GLEAM_VERSION: &'static str = "
      - uses: gleam-lang/setup-gleam@v1.0.2
        with:
          gleam-version: ";

/// The workflow, after the Gleam version.
pub const GITHUB_CI_CLOSING: &'static str = "
      - run: rebar3 install_deps
      - run: rebar3 eunit
      - run: gleam format --check src test
";

/// The text of the continuous integration workflow, which installs the fixed
/// Erlang/OTP version and the given version of Gleam.
pub open spec fn github_ci_text(gleam_version: Seq<char>) -> Seq<char> {
    GITHUB_CI_OPENING@ + ERLANG_OTP_VERSION@ + GITHUB_CI_BEFORE_GLEAM_VERSION@ + gleam_version
        + GITHUB_CI_CLOSING@
}

/// The start of the title line.
pub const README_OPENING: &'static str = "# ";

/// The gap between the title and the description.
pub const README_AFTER_TITLE: &'static str = "\n\n";

/// The body, from the end of the description to the package name in the
/// installation notes.
pub const README_BODY: &'static str = "

## Quick start

```sh
# Build the project
rebar3 compile

# Run the eunit tests
rebar3 eunit

# Run the Erlang REPL
rebar3 shell
```

## Installation

If [available in Hex](https://www.rebar3.org/docs/dependencies#section-declaring-dependencies)
this package can be installed by adding `";

/// The installation notes, up to the dependency entry.
pub const README_BEFORE_DEPENDENCY: &'static str = "` to your `rebar.config` dependencies:

```erlang
{deps, [
    ";

/// The end of the dependency example.
pub const README_CLOSING: &'static str = "
]}.
```
";

/// The text of `README.md`.
pub open spec fn readme_text(name: Seq<char>, description: Seq<char>) -> Seq<char> {
    README_OPENING@ + name + README_AFTER_TITLE@ + description + README_BODY@ + name
        + README_BEFORE_DEPENDENCY@ + name + README_CLOSING@
}

/// The start of the name entry.
pub const GLEAM_TOML_OPENING: &'static str = "name = \"";

/// The end of the name entry and the commented documentation links.
pub const GLEAM_TOML_CLOSING: &'static str = r#""

# [docs]
# links = [
#   { title = 'GitHub', href = 'https://github.com/username/project_name' }
# ]
"#;

/// The text of `gleam.toml`.
pub open spec fn gleam_toml_text(name: Seq<char>) -> Seq<char> {
    GLEAM_TOML_OPENING@ + name + GLEAM_TOML_CLOSING@
}

/// The module, up to the project name in the greeting.
pub const SRC_MODULE_OPENING: &'static str = "pub fn hello_world() -> String {\n  \"Hello, from ";

/// The module, after the project name.
pub const SRC_MODULE_CLOSING: &'static str = "!\"\n}\n";

/// The text of the project's first module, which returns a greeting.
pub open spec fn src_module_text(name: Seq<char>) -> Seq<char> {
    SRC_MODULE_OPENING@ + name + SRC_MODULE_CLOSING@
}

/// The start of the import of the project's module.
pub const TEST_MODULE_OPENING: &'static str = "import ";

/// The test, from the end of the import to the call of the module.
pub const TEST_MODULE_BEFORE_CALL: &'static str = "
import gleam/should

pub fn hello_world_test() {
  ";

/// The test, from the call to the project name in the expected greeting.
pub const TEST_MODULE_BEFORE_GREETING: &'static str = ".hello_world()\n  |> should.equal(\"Hello, from ";

/// The test, after the expected greeting.
pub const TEST_MODULE_CLOSING: &'static str = "!\")\n}\n";

/// The text of the test of the project's first module: it imports the
/// module and expects its greeting.
pub open spec fn test_module_text(name: Seq<char>) -> Seq<char> {
    TEST_MODULE_OPENING@ + name + TEST_MODULE_BEFORE_CALL@ + name + TEST_MODULE_BEFORE_GREETING@
        + name + TEST_MODULE_CLOSING@
}

/// The library build configuration, up to the standard library version.
pub const LIB_REBAR_OPENING: &'static str = r#"{erl_opts, [debug_info]}.
{src_dirs, ["src", "gen/src"]}.

{profiles, [
    {test, [{src_dirs, ["src", "test", "gen/src", "gen/test"]}]}
]}.

{project_plugins, [rebar_gleam]}.

{deps, [
    {gleam_stdlib, ""#;

/// The library build configuration, after the standard library version.
pub const LIB_REBAR_CLOSING: &'static str = "\"}\n]}.\n";

/// The text of `rebar.config` for a library: its one dependency is the
/// standard library.
pub open spec fn lib_rebar_config_text() -> Seq<char> {
    LIB_REBAR_OPENING@ + GLEAM_STDLIB_VERSION@ + LIB_REBAR_CLOSING@
}

/// The application build configuration, up to the application that the
/// shell starts.
pub const APP_REBAR_OPENING: &'static str = r#"{erl_opts, [debug_info]}.
{src_dirs, ["src", "gen/src"]}.

{profiles, [
    {test, [{src_dirs, ["src", "test", "gen/src", "gen/test"]}]}
]}.

{shell, [
    % {config, "config/sys.config"},
    {apps, ["#;

/// The application build configuration, from the shell's application to the
/// standard library version.
pub const APP_REBAR_BEFORE_STDLIB_VERSION: &'static str = r#"]}
]}.

{project_plugins, [rebar_gleam]}.

{deps, [
    {gleam_stdlib, ""#;

/// The application build configuration, between the two versions.
pub const APP_REBAR_BEFORE_OTP_VERSION: &'static str = "\"},\n    {gleam_otp, \"";

/// The application build configuration, after the OTP library version.
pub const APP_REBAR_CLOSING: &'static str = "\"}\n]}.\n";

/// The text of `rebar.config` for an application: the shell starts the
/// project, which depends on the standard library and on the OTP library.
pub open spec fn app_rebar_config_text(name: Seq<char>) -> Seq<char> {
    APP_REBAR_OPENING@ + name + APP_REBAR_BEFORE_STDLIB_VERSION@ + GLEAM_STDLIB_VERSION@
        + APP_REBAR_BEFORE_OTP_VERSION@ + GLEAM_OTP_VERSION@ + APP_REBAR_CLOSING@
}

/// The start of the application descriptor.
pub const APP_SRC_OPENING: &'static str = "{application, ";

/// The descriptor, from the application name to the `description` entry.
pub const APP_SRC_BEFORE_DESCRIPTION: &'static str = ",\n [{description, \"";

/// The descriptor, from the end of the description to the `vsn` entry.
pub const APP_SRC_BEFORE_VSN: &'static str = "\"},\n  {vsn, \"";

/// The descriptor, from the `vsn` entry to the place of the `mod` entry.
pub const APP_SRC_BEFORE_MODULE: &'static str = "\"},\n  {registered, []},";

/// The descriptor, after the place of the `mod` entry.
pub const APP_SRC_CLOSING: &'static str = r#"
  {applications,
   [kernel,
    stdlib,
    gleam_stdlib
   ]},
  {env,[]},
  {modules, []},

  {include_files, ["gleam.toml", "gen"]},
  {licenses, ["Apache 2.0"]},
  {links, []}
]}.
"#;

/// The `mod` entry, up to the project name.
pub const APP_SRC_MODULE_OPENING: &'static str = "\n  {mod, {";

/// The `mod` entry, after the project name.
pub const APP_SRC_MODULE_CLOSING: &'static str = "@application, []}},";

/// The `mod` entry of the application descriptor, which names the module
/// that starts the application. A library has none.
pub open spec fn app_src_module_entry(name: Seq<char>, template: Template) -> Seq<char> {
    match template {
        Template::App => APP_SRC_MODULE_OPENING@ + name + APP_SRC_MODULE_CLOSING@,
        Template::Lib => Seq::empty(),
    }
}

/// The text of the application descriptor. Its `description` entry holds the
/// project's description as it was given, and its `vsn` entry the version
/// that a new project starts at.
pub open spec fn app_src_text(name: Seq<char>, description: Seq<char>, template: Template) -> Seq<
    char,
> {
    APP_SRC_OPENING@ + name + APP_SRC_BEFORE_DESCRIPTION@ + description + APP_SRC_BEFORE_VSN@
        + PROJECT_VERSION@ + APP_SRC_BEFORE_MODULE@ + app_src_module_entry(name, template)
        + APP_SRC_CLOSING@
}

/// The whole of the module that starts and stops an application.
pub const APPLICATION_MODULE: &'static str = "import gleam/otp/supervisor.{ApplicationStartMode, ErlangStartResult}
import gleam/dynamic.{Dynamic}

fn init(children) {
  children
}

pub fn start(
  _mode: ApplicationStartMode,
  _args: List(Dynamic),
) -> ErlangStartResult {
  init
  |> supervisor.start
  |> supervisor.to_erlang_start_result
}

pub fn stop(_state: Dynamic) {
  supervisor.application_stopped()
}
";

/// The text of the module that starts and stops an application.
pub open spec fn application_module_text() -> Seq<char> {
    APPLICATION_MODULE@
}

/// The confirmation, up to the project name.
pub const MESSAGE_OPENING: &'static str = "\nYour Gleam project \"";

/// The confirmation, from the project name to the project root.
pub const MESSAGE_BEFORE_ROOT: &'static str = r#"" has been successfully created.
The rebar3 program can be used to compile and test it.

    cd "#;

/// The confirmation, after the project root.
pub const MESSAGE_CLOSING: &'static str = "\n    rebar3 eunit\n";

/// The confirmation shown once a project has been generated: it names the
/// project and the directory it was generated in.
pub open spec fn success_message_text(name: Seq<char>, root: Seq<char>) -> Seq<char> {
    MESSAGE_OPENING@ + name + MESSAGE_BEFORE_ROOT@ + root + MESSAGE_CLOSING@
}

/// The four fixed version numbers stand in the generated texts, whatever the
/// project: the standard library version in both build configurations, the
/// OTP library version in that of an application, the Erlang/OTP version in
/// the workflow, and the version of the new project in the application
/// descriptor.
pub proof fn lemma_versions_are_embedded(
    name: Seq<char>,
    description: Seq<char>,
    template: Template,
    gleam_version: Seq<char>,
)
    ensures
        embeds(lib_rebar_config_text(), GLEAM_STDLIB_VERSION@),
        embeds(app_rebar_config_text(name), GLEAM_STDLIB_VERSION@),
        embeds(app_rebar_config_text(name), GLEAM_OTP_VERSION@),
        embeds(github_ci_text(gleam_version), ERLANG_OTP_VERSION@),
        embeds(github_ci_text(gleam_version), gleam_version),
        embeds(app_src_text(name, description, template), PROJECT_VERSION@),
{
    assert(lib_rebar_config_text() == LIB_REBAR_OPENING@ + GLEAM_STDLIB_VERSION@
        + LIB_REBAR_CLOSING@);
    assert(app_rebar_config_text(name) =~= (APP_REBAR_OPENING@ + name
        + APP_REBAR_BEFORE_STDLIB_VERSION@) + GLEAM_STDLIB_VERSION@ + (APP_REBAR_BEFORE_OTP_VERSION@
        + GLEAM_OTP_VERSION@ + APP_REBAR_CLOSING@));
    assert(app_rebar_config_text(name) =~= (APP_REBAR_OPENING@ + name
        + APP_REBAR_BEFORE_STDLIB_VERSION@ + GLEAM_STDLIB_VERSION@ + APP_REBAR_BEFORE_OTP_VERSION@)
        + GLEAM_OTP_VERSION@ + APP_REBAR_CLOSING@);
    assert(github_ci_text(gleam_version) =~= GITHUB_CI_OPENING@ + ERLANG_OTP_VERSION@ + (
    GITHUB_CI_BEFORE_GLEAM_VERSION@ + gleam_version + GITHUB_CI_CLOSING@));
    assert(github_ci_text(gleam_version) =~= (GITHUB_CI_OPENING@ + ERLANG_OTP_VERSION@
        + GITHUB_CI_BEFORE_GLEAM_VERSION@) + gleam_version + GITHUB_CI_CLOSING@);
    assert(app_src_text(name, description, template) =~= (APP_SRC_OPENING@ + name
        + APP_SRC_BEFORE_DESCRIPTION@ + description + APP_SRC_BEFORE_VSN@) + PROJECT_VERSION@ + (
    APP_SRC_BEFORE_MODULE@ + app_src_module_entry(name, template) + APP_SRC_CLOSING@));
}

} // verus!
