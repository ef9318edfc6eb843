//! The layout and the files of a new project.
//!
//! A [`Creator`] is made once from the options of a run. It fixes where the
//! directories of the project lie, says what each generated file holds, and
//! lists, in order, the steps that bring the project into being. Nothing here
//! touches the file system: the steps are values for the caller to carry out.

use crate::error::{Error, ErrorView};
use crate::path::{PathView, ProjectPath};
use crate::template::Template;
use crate::text;
use vstd::prelude::*;
use vstd::string::*;

verus! {

/// What the caller asks for.
#[derive(Debug, Clone, PartialEq, Eq)]
pub struct NewOptions {
    /// The name of the project.
    pub name: String,
    /// A free-form description, used as it is. May be empty.
    pub description: String,
    /// The kind of project.
    pub template: Template,
    /// The directory to generate into. When absent, a directory named after
    /// the project.
    pub project_root: Option<String>,
}

/// The options as mathematical values.
pub struct NewOptionsView {
    pub name: Seq<char>,
    pub description: Seq<char>,
    pub template: Template,
    pub project_root: Option<Seq<char>>,
}

impl View for NewOptions {
    type V = NewOptionsView;

    open spec fn view(&self) -> NewOptionsView {
        NewOptionsView {
            name: self.name@,
            description: self.description@,
            template: self.template,
            project_root: match self.project_root {
                Some(root) => Some(root@),
                None => None,
            },
        }
    }
}

/// A file to write: where, and what.
#[derive(Debug, Clone, PartialEq, Eq)]
pub struct ProjectFile {
    pub path: ProjectPath,
    pub contents: String,
}

/// A file as mathematical values.
pub struct FileView {
    pub path: PathView,
    pub contents: Seq<char>,
}

impl View for ProjectFile {
    type V = FileView;

    open spec fn view(&self) -> FileView {
        FileView { path: self.path@, contents: self.contents@ }
    }
}

/// One thing to do to the file system.
#[derive(Debug, Clone, PartialEq, Eq)]
pub enum Step {
    /// Make sure that a directory exists.
    CreateDirectory(ProjectPath),
    /// Create the file, or empty it if it exists, and write its contents.
    WriteFile(ProjectFile),
}

/// A step as mathematical values.
pub enum StepView {
    CreateDirectory(PathView),
    WriteFile(FileView),
}

impl View for Step {
    type V = StepView;

    open spec fn view(&self) -> StepView {
        match self {
            Step::CreateDirectory(path) => StepView::CreateDirectory(path@),
            Step::WriteFile(file) => StepView::WriteFile(file@),
        }
    }
}

impl StepView {
    /// The failure that ends a run when this step cannot be carried out.
    pub open spec fn failure(self, cause: Seq<char>) -> ErrorView {
        match self {
            StepView::CreateDirectory(path) => ErrorView::DirectoryCreationFailed { path, cause },
            StepView::WriteFile(file) => ErrorView::FileWriteFailed { path: file.path, cause },
        }
    }
}

impl Step {
    /// The failure that ends a run when this step cannot be carried out, for
    /// the cause that the file system gave.
    pub fn failure(&self, cause: String) -> (error: Error)
        ensures
            error@ == self@.failure(cause@),
    {
        match self {
            Step::CreateDirectory(path) => Error::DirectoryCreationFailed {
                path: path.clone(),
                cause,
            },
            Step::WriteFile(file) => Error::FileWriteFailed { path: file.path.clone(), cause },
        }
    }
}

/// The steps of a list, each as mathematical values.
pub open spec fn step_views(steps: Seq<Step>) -> Seq<StepView> {
    steps.map_values(|step: Step| step@)
}

/// What a creator is made from: the options and the version of Gleam that
/// generates the project. Everything a creator produces is a function of
/// these two.
pub struct CreatorView {
    pub options: NewOptionsView,
    pub gleam_version: Seq<char>,
}

impl CreatorView {
    /// The project root: the directory asked for, or else one named after the
    /// project.
    pub open spec fn root(self) -> PathView {
        PathView::at_root(
            match self.options.project_root {
                Some(root) => root,
                None => self.options.name,
            },
        )
    }

    /// The directory of the source modules.
    pub open spec fn src(self) -> PathView {
        self.root().join("src"@)
    }

    /// The directory of the test modules.
    pub open spec fn test(self) -> PathView {
        self.root().join("test"@)
    }

    /// The parent of the workflows directory.
    pub open spec fn github(self) -> PathView {
        self.root().join(".github"@)
    }

    /// The directory of the continuous integration workflows.
    pub open spec fn workflows(self) -> PathView {
        self.github().join("workflows"@)
    }

    /// The directory of the modules of an application, named after the
    /// project.
    pub open spec fn application_dir(self) -> PathView {
        self.src().join(self.options.name)
    }

    pub open spec fn gitignore(self) -> FileView {
        FileView { path: self.root().join(".gitignore"@), contents: text::gitignore_text() }
    }

    pub open spec fn github_ci(self) -> FileView {
        FileView {
            path: self.workflows().join("test.yml"@),
            contents: text::github_ci_text(self.gleam_version),
        }
    }

    pub open spec fn readme(self) -> FileView {
        FileView {
            path: self.root().join("README.md"@),
            contents: text::readme_text(self.options.name, self.options.description),
        }
    }

    pub open spec fn gleam_toml(self) -> FileView {
        FileView {
            path: self.root().join("gleam.toml"@),
            contents: text::gleam_toml_text(self.options.name),
        }
    }

    pub open spec fn src_module(self) -> FileView {
        FileView {
            path: self.src().join(self.options.name + ".gleam"@),
            contents: text::src_module_text(self.options.name),
        }
    }

    pub open spec fn test_module(self) -> FileView {
        FileView {
            path: self.test().join(self.options.name + "_test.gleam"@),
            contents: text::test_module_text(self.options.name),
        }
    }

    pub open spec fn lib_rebar_config(self) -> FileView {
        FileView { path: self.root().join("rebar.config"@), contents: text::lib_rebar_config_text() }
    }

    pub open spec fn app_rebar_config(self) -> FileView {
        FileView {
            path: self.root().join("rebar.config"@),
            contents: text::app_rebar_config_text(self.options.name),
        }
    }

    pub open spec fn src_application_module(self) -> FileView {
        FileView {
            path: self.application_dir().join("application.gleam"@),
            contents: text::application_module_text(),
        }
    }

    pub open spec fn app_src(self) -> FileView {
        FileView {
            path: self.src().join(self.options.name + ".app.src"@),
            contents: text::app_src_text(
                self.options.name,
                self.options.description,
                self.options.template,
            ),
        }
    }

    /// The confirmation shown after a successful run.
    pub open spec fn success_message(self) -> Seq<char> {
        text::success_message_text(self.options.name, self.root().root)
    }

    /// The steps that generate the project, in the order in which they are to
    /// be carried out: the directories from the root down, then the files
    /// that every project has, then the build configuration of the template
    /// and, for an application, its start module, and last the application
    /// descriptor.
    pub open spec fn run(self) -> Seq<StepView> {
        match self.options.template {
            Template::Lib => seq![
                StepView::CreateDirectory(self.root()),
                StepView::CreateDirectory(self.src()),
                StepView::CreateDirectory(self.test()),
                StepView::CreateDirectory(self.github()),
                StepView::CreateDirectory(self.workflows()),
                StepView::WriteFile(self.gitignore()),
                StepView::WriteFile(self.github_ci()),
                StepView::WriteFile(self.readme()),
                StepView::WriteFile(self.gleam_toml()),
                StepView::WriteFile(self.src_module()),
                StepView::WriteFile(self.test_module()),
                StepView::WriteFile(self.lib_rebar_config()),
                StepView::WriteFile(self.app_src()),
            ],
            Template::App => seq![
                StepView::CreateDirectory(self.root()),
                StepView::CreateDirectory(self.src()),
                StepView::CreateDirectory(self.test()),
                StepView::CreateDirectory(self.github()),
                StepView::CreateDirectory(self.workflows()),
                StepView::CreateDirectory(self.application_dir()),
                StepView::WriteFile(self.gitignore()),
                StepView::WriteFile(self.github_ci()),
                StepView::WriteFile(self.readme()),
                StepView::WriteFile(self.gleam_toml()),
                StepView::WriteFile(self.src_module()),
                StepView::WriteFile(self.test_module()),
                StepView::WriteFile(self.app_rebar_config()),
                StepView::WriteFile(self.src_application_module()),
                StepView::WriteFile(self.app_src()),
            ],
        }
    }
}

/// Whether one of the first `count` steps creates the directory.
pub open spec fn creates_directory(steps: Seq<StepView>, count: int, directory: PathView) -> bool {
    exists|i: int|
        0 <= i < count && i < steps.len() && #[trigger] steps[i] == StepView::CreateDirectory(
            directory,
        )
}

/// Every file is written into a directory that an earlier step has created,
/// and no directory is created once the first file has been written.
pub proof fn lemma_directories_come_first(creator: CreatorView)
    ensures
        forall|j: int|
            0 <= j < creator.run().len() ==> (#[trigger] creator.run()[j] matches StepView::WriteFile(
                file,
            ) ==> creates_directory(creator.run(), j, file.path.parent())),
        forall|i: int, j: int|
            #![trigger creator.run()[i], creator.run()[j]]
            0 <= i < j < creator.run().len() && creator.run()[i] is WriteFile
                ==> creator.run()[j] is WriteFile,
{
    let steps = creator.run();
    assert forall|j: int| 0 <= j < steps.len() implies (#[trigger] steps[j] matches StepView::WriteFile(
        file,
    ) ==> creates_directory(steps, j, file.path.parent())) by {
        if let StepView::WriteFile(file) = steps[j] {
            let parent = file.path.parent();
            if parent =~= creator.root() {
                assert(steps[0] == StepView::CreateDirectory(parent));
            } else if parent =~= creator.src() {
                assert(steps[1] == StepView::CreateDirectory(parent));
            } else if parent =~= creator.test() {
                assert(steps[2] == StepView::CreateDirectory(parent));
            } else if parent =~= creator.workflows() {
                assert(steps[4] == StepView::CreateDirectory(parent));
            } else {
                assert(creator.options.template == Template::App);
                assert(parent =~= creator.application_dir());
                assert(steps[5] == StepView::CreateDirectory(parent));
            }
        }
    }
}

/// Creators made from the same options and the same version of Gleam list
/// the same steps, and so write the same text to the same places: nothing
/// but these two goes into a generated project.
pub proof fn lemma_same_inputs_same_steps(first: Creator, second: Creator)
    requires
        first@ == second@,
    ensures
        first@.run() == second@.run(),
{
}

/// The layout of a new project, computed once from the options.
#[derive(Debug)]
pub struct Creator {
    root: ProjectPath,
    src: ProjectPath,
    test: ProjectPath,
    github: ProjectPath,
    workflows: ProjectPath,
    gleam_version: &'static str,
    options: NewOptions,
}

impl View for Creator {
    type V = CreatorView;

    closed spec fn view(&self) -> CreatorView {
        CreatorView { options: self.options@, gleam_version: self.gleam_version@ }
    }
}

impl Creator {
    /// The directories held are those that the options determine.
    #[verifier::type_invariant]
    spec fn layout_follows_options(self) -> bool {
        &&& self.root@ == self@.root()
        &&& self.src@ == self@.src()
        &&& self.test@ == self@.test()
        &&& self.github@ == self@.github()
        &&& self.workflows@ == self@.workflows()
    }

    /// Computes the layout of the project that the options ask for.
    pub fn new(options: NewOptions, gleam_version: &'static str) -> (creator: Creator)
        ensures
            creator@ == (CreatorView { options: options@, gleam_version: gleam_version@ }),
    {
        let root = match &options.project_root {
            Some(root) => ProjectPath::new(root.as_str()),
            None => ProjectPath::new(options.name.as_str()),
        };
        let src = root.join("src");
        let test = root.join("test");
        let github = root.join(".github");
        let workflows = github.join("workflows");
        Creator { root, src, test, github, workflows, gleam_version, options }
    }

    /// Lists the steps that generate the project, in the order in which they
    /// are to be carried out. A step is to be taken only once every step
    /// before it has succeeded.
    pub fn run(&self) -> (steps: Vec<Step>)
        ensures
            steps@.len() == self@.run().len(),
            step_views(steps@) == self@.run(),
    {
        proof {
            use_type_invariant(self);
        }
        let mut steps: Vec<Step> = Vec::new();
        steps.push(Step::CreateDirectory(self.root.clone()));
        steps.push(Step::CreateDirectory(self.src.clone()));
        steps.push(Step::CreateDirectory(self.test.clone()));
        steps.push(Step::CreateDirectory(self.github.clone()));
        steps.push(Step::CreateDirectory(self.workflows.clone()));
        match self.options.template {
            Template::Lib => {
                steps.push(Step::WriteFile(self.gitignore()));
                steps.push(Step::WriteFile(self.github_ci()));
                steps.push(Step::WriteFile(self.readme()));
                steps.push(Step::WriteFile(self.gleam_toml()));
                steps.push(Step::WriteFile(self.src_module()));
                steps.push(Step::WriteFile(self.test_module()));
                steps.push(Step::WriteFile(self.lib_rebar_config()));
                steps.push(Step::WriteFile(self.app_src()));
            },
            Template::App => {
                steps.push(Step::CreateDirectory(self.src.join(self.options.name.as_str())));
                steps.push(Step::WriteFile(self.gitignore()));
                steps.push(Step::WriteFile(self.github_ci()));
                steps.push(Step::WriteFile(self.readme()));
                steps.push(Step::WriteFile(self.gleam_toml()));
                steps.push(Step::WriteFile(self.src_module()));
                steps.push(Step::WriteFile(self.test_module()));
                steps.push(Step::WriteFile(self.app_rebar_config()));
                steps.push(Step::WriteFile(self.src_application_module()));
                steps.push(Step::WriteFile(self.app_src()));
            },
        }
        assert(step_views(steps@) =~= self@.run());
        steps
    }

    /// The confirmation to show once every step has succeeded: it names the
    /// project and the directory it was generated in.
    pub fn success_message(&self) -> (message: String)
        ensures
            message@ == self@.success_message(),
    {
        proof {
            use_type_invariant(self);
        }
        let mut message = String::from_str(text::MESSAGE_OPENING);
        message.append(self.options.name.as_str());
        message.append(text::MESSAGE_BEFORE_ROOT);
        message.append(self.root.root.as_str());
        message.append(text::MESSAGE_CLOSING);
        message
    }

    /// The list of files that version control is to ignore.
    pub fn gitignore(&self) -> (file: ProjectFile)
        ensures
            file@ == self@.gitignore(),
    {
        proof {
            use_type_invariant(self);
        }
        ProjectFile { path: self.root.join(".gitignore"), contents: String::from_str(text::GITIGNORE) }
    }

    /// The continuous integration workflow, pinned to the version of Gleam
    /// that generates the project.
    pub fn github_ci(&self) -> (file: ProjectFile)
        ensures
            file@ == self@.github_ci(),
    {
        proof {
            use_type_invariant(self);
        }
        let mut contents = String::from_str(text::GITHUB_CI_OPENING);
        contents.append(text::ERLANG_OTP_VERSION);
        contents.append(text::GITHUB_CI_BEFORE_GLEAM_VERSION);
        contents.append(self.gleam_version);
        contents.append(text::GITHUB_CI_CLOSING);
        ProjectFile { path: self.workflows.join("test.yml"), contents }
    }

    /// The read-me, with the project's name and description.
    pub fn readme(&self) -> (file: ProjectFile)
        ensures
            file@ == self@.readme(),
    {
        proof {
            use_type_invariant(self);
        }
        let name = self.options.name.as_str();
        let mut contents = String::from_str(text::README_OPENING);
        contents.append(name);
        contents.append(text::README_AFTER_TITLE);
        contents.append(self.options.description.as_str());
        contents.append(text::README_BODY);
        contents.append(name);
        contents.append(text::README_BEFORE_DEPENDENCY);
        contents.append(name);
        contents.append(text::README_CLOSING);
        ProjectFile { path: self.root.join("README.md"), contents }
    }

    /// The project manifest, which names the project.
    pub fn gleam_toml(&self) -> (file: ProjectFile)
        ensures
            file@ == self@.gleam_toml(),
    {
        proof {
            use_type_invariant(self);
        }
        let mut contents = String::from_str(text::GLEAM_TOML_OPENING);
        contents.append(self.options.name.as_str());
        contents.append(text::GLEAM_TOML_CLOSING);
        ProjectFile { path: self.root.join("gleam.toml"), contents }
    }

    /// The project's first module, which returns a greeting.
    pub fn src_module(&self) -> (file: ProjectFile)
        ensures
            file@ == self@.src_module(),
    {
        proof {
            use_type_invariant(self);
        }
        let name = self.options.name.as_str();
        let mut file_name = String::from_str(name);
        file_name.append(".gleam");
        let mut contents = String::from_str(text::SRC_MODULE_OPENING);
        contents.append(name);
        contents.append(text::SRC_MODULE_CLOSING);
        ProjectFile { path: self.src.join(file_name.as_str()), contents }
    }

    /// The test of the project's first module.
    pub fn test_module(&self) -> (file: ProjectFile)
        ensures
            file@ == self@.test_module(),
    {
        proof {
            use_type_invariant(self);
        }
        let name = self.options.name.as_str();
        let mut file_name = String::from_str(name);
        file_name.append("_test.gleam");
        let mut contents = String::from_str(text::TEST_MODULE_OPENING);
        contents.append(name);
        contents.append(text::TEST_MODULE_BEFORE_CALL);
        contents.append(name);
        contents.append(text::TEST_MODULE_BEFORE_GREETING);
        contents.append(name);
        contents.append(text::TEST_MODULE_CLOSING);
        ProjectFile { path: self.test.join(file_name.as_str()), contents }
    }

    /// The build configuration of a library.
    pub fn lib_rebar_config(&self) -> (file: ProjectFile)
        ensures
            file@ == self@.lib_rebar_config(),
    {
        proof {
            use_type_invariant(self);
        }
        let mut contents = String::from_str(text::LIB_REBAR_OPENING);
        contents.append(text::GLEAM_STDLIB_VERSION);
        contents.append(text::LIB_REBAR_CLOSING);
        ProjectFile { path: self.root.join("rebar.config"), contents }
    }

    /// The build configuration of an application.
    pub fn app_rebar_config(&self) -> (file: ProjectFile)
        ensures
            file@ == self@.app_rebar_config(),
    {
        proof {
            use_type_invariant(self);
        }
        let mut contents = String::from_str(text::APP_REBAR_OPENING);
        contents.append(self.options.name.as_str());
        contents.append(text::APP_REBAR_BEFORE_STDLIB_VERSION);
        contents.append(text::GLEAM_STDLIB_VERSION);
        contents.append(text::APP_REBAR_BEFORE_OTP_VERSION);
        contents.append(text::GLEAM_OTP_VERSION);
        contents.append(text::APP_REBAR_CLOSING);
        ProjectFile { path: self.root.join("rebar.config"), contents }
    }

    /// The module that starts and stops an application, in the directory
    /// named after the project.
    pub fn src_application_module(&self) -> (file: ProjectFile)
        ensures
            file@ == self@.src_application_module(),
    {
        proof {
            use_type_invariant(self);
        }
        let directory = self.src.join(self.options.name.as_str());
        ProjectFile {
            path: directory.join("application.gleam"),
            contents: String::from_str(text::APPLICATION_MODULE),
        }
    }

    /// The application descriptor. Only that of an application names a
    /// module to start.
    pub fn app_src(&self) -> (file: ProjectFile)
        ensures
            file@ == self@.app_src(),
    {
        proof {
            use_type_invariant(self);
        }
        let name = self.options.name.as_str();
        let module = match self.options.template {
            Template::App => {
                let mut entry = String::from_str(text::APP_SRC_MODULE_OPENING);
                entry.append(name);
                entry.append(text::APP_SRC_MODULE_CLOSING);
                entry
            },
            Template::Lib => String::new(),
        };
        let mut file_name = String::from_str(name);
        file_name.append(".app.src");
        let mut contents = String::from_str(text::APP_SRC_OPENING);
        contents.append(name);
        contents.append(text::APP_SRC_BEFORE_DESCRIPTION);
        contents.append(self.options.description.as_str());
        contents.append(text::APP_SRC_BEFORE_VSN);
        contents.append(text::PROJECT_VERSION);
        contents.append(text::APP_SRC_BEFORE_MODULE);
        contents.append(module.as_str());
        contents.append(text::APP_SRC_CLOSING);
        ProjectFile { path: self.src.join(file_name.as_str()), contents }
    }
}

} // verus!
