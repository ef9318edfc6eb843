use gleam_new::{Creator, NewOptions, ProjectPath, Step, Template};

fn options(template: Template, project_root: Option<&str>) -> NewOptions {
    NewOptions {
        name: "myapp".to_string(),
        description: String::new(),
        template,
        project_root: project_root.map(|root| root.to_string()),
    }
}

fn at(root: &str, components: &[&str]) -> ProjectPath {
    ProjectPath {
        root: root.to_string(),
        components: components.iter().map(|component| component.to_string()).collect(),
    }
}

/// The steps in a few letters each: `d` for a directory and `f` for a file,
/// then the names below the root.
fn outline(steps: &[Step]) -> Vec<String> {
    steps
        .iter()
        .map(|step| match step {
            Step::CreateDirectory(path) => format!("d {}", path.components.join("/")),
            Step::WriteFile(file) => format!("f {}", file.path.components.join("/")),
        })
        .collect()
}

#[test]
fn path_join_descends_by_one_name() {
    let root = ProjectPath::new("somewhere/else");
    assert_eq!(root, at("somewhere/else", &[]));
    let src = root.join("src");
    assert_eq!(src, at("somewhere/else", &["src"]));
    assert_eq!(src.join("myapp.gleam"), at("somewhere/else", &["src", "myapp.gleam"]));
    assert_eq!(root, at("somewhere/else", &[]));
    assert_eq!(src.clone(), src);
}

#[test]
fn library_steps_in_order() {
    let steps = Creator::new(options(Template::Lib, None), "0.13.0").run();
    assert_eq!(
        outline(&steps),
        vec![
            "d ",
            "d src",
            "d test",
            "d .github",
            "d .github/workflows",
            "f .gitignore",
            "f .github/workflows/test.yml",
            "f README.md",
            "f gleam.toml",
            "f src/myapp.gleam",
            "f test/myapp_test.gleam",
            "f rebar.config",
            "f src/myapp.app.src",
        ]
    );
}

#[test]
fn application_steps_in_order() {
    let steps = Creator::new(options(Template::App, None), "0.13.0").run();
    assert_eq!(
        outline(&steps),
        vec![
            "d ",
            "d src",
            "d test",
            "d .github",
            "d .github/workflows",
            "d src/myapp",
            "f .gitignore",
            "f .github/workflows/test.yml",
            "f README.md",
            "f gleam.toml",
            "f src/myapp.gleam",
            "f test/myapp_test.gleam",
            "f rebar.config",
            "f src/myapp/application.gleam",
            "f src/myapp.app.src",
        ]
    );
}

#[test]
fn root_defaults_to_the_project_name() {
    let steps = Creator::new(options(Template::Lib, None), "0.13.0").run();
    assert_eq!(steps[0], Step::CreateDirectory(at("myapp", &[])));
    for step in &steps {
        let path = match step {
            Step::CreateDirectory(path) => path,
            Step::WriteFile(file) => &file.path,
        };
        assert_eq!(path.root, "myapp");
    }
}

#[test]
fn root_is_the_directory_asked_for() {
    let steps = Creator::new(options(Template::App, Some("/tmp/projects/one")), "0.13.0").run();
    assert_eq!(steps[0], Step::CreateDirectory(at("/tmp/projects/one", &[])));
    assert_eq!(steps[5], Step::CreateDirectory(at("/tmp/projects/one", &["src", "myapp"])));
    for step in &steps {
        let path = match step {
            Step::CreateDirectory(path) => path,
            Step::WriteFile(file) => &file.path,
        };
        assert_eq!(path.root, "/tmp/projects/one");
    }
}

#[test]
fn run_lists_what_the_file_functions_return() {
    let creator = Creator::new(options(Template::App, None), "0.13.0");
    let steps = creator.run();
    let files: Vec<_> = steps
        .iter()
        .filter_map(|step| match step {
            Step::WriteFile(file) => Some(file.clone()),
            Step::CreateDirectory(_) => None,
        })
        .collect();
    assert_eq!(
        files,
        vec![
            creator.gitignore(),
            creator.github_ci(),
            creator.readme(),
            creator.gleam_toml(),
            creator.src_module(),
            creator.test_module(),
            creator.app_rebar_config(),
            creator.src_application_module(),
            creator.app_src(),
        ]
    );
    let creator = Creator::new(options(Template::Lib, None), "0.13.0");
    let steps = creator.run();
    assert_eq!(steps[11], Step::WriteFile(creator.lib_rebar_config()));
    assert_eq!(steps[12], Step::WriteFile(creator.app_src()));
}

#[test]
fn every_file_lies_in_a_directory_made_before_it() {
    for template in [Template::Lib, Template::App] {
        let steps = Creator::new(options(template, None), "0.13.0").run();
        let mut made: Vec<ProjectPath> = Vec::new();
        let mut writing = false;
        for step in &steps {
            match step {
                Step::CreateDirectory(path) => {
                    assert!(!writing);
                    made.push(path.clone());
                }
                Step::WriteFile(file) => {
                    writing = true;
                    let mut parent = file.path.clone();
                    parent.components.pop();
                    assert!(made.contains(&parent), "{:?}", file.path);
                }
            }
        }
    }
}

#[test]
fn empty_description_is_used_as_it_is() {
    let readme = Creator::new(options(Template::Lib, None), "0.13.0").readme();
    assert!(readme.contents.starts_with("# myapp\n\n\n\n## Quick start\n"));
}

#[test]
fn description_is_not_interpreted() {
    let mut options = options(Template::Lib, None);
    options.description = "100% {name} \"quoted\"\nsecond line".to_string();
    let readme = Creator::new(options, "0.13.0").readme();
    assert!(readme
        .contents
        .starts_with("# myapp\n\n100% {name} \"quoted\"\nsecond line\n\n## Quick start\n"));
}

#[test]
fn descriptor_holds_description_and_version_in_their_entries() {
    let mut options = options(Template::Lib, None);
    options.description = "A demo".to_string();
    let descriptor = Creator::new(options, "0.12.0").app_src();
    assert_eq!(descriptor.path, at("myapp", &["src", "myapp.app.src"]));
    assert!(descriptor.contents.starts_with(
        "{application, myapp,\n [{description, \"A demo\"},\n  {vsn, \"1.0.0\"},\n  {registered, []},"
    ));
}

#[test]
fn descriptor_takes_an_empty_description() {
    let descriptor = Creator::new(options(Template::App, None), "0.13.0").app_src();
    assert!(descriptor.contents.starts_with(
        "{application, myapp,\n [{description, \"\"},\n  {vsn, \"1.0.0\"},\n  {registered, []},\n  {mod, "
    ));
}

#[test]
fn workflow_carries_the_version_given() {
    let workflow = Creator::new(options(Template::Lib, None), "9.8.7-rc1").github_ci();
    assert!(workflow.contents.contains("          otp-version: 22.1\n"));
    assert!(workflow.contents.contains("          gleam-version: 9.8.7-rc1\n"));
}
