//! The two shapes a new project can take.

use vstd::prelude::*;
use vstd::string::*;

verus! {

/// The kind of project to generate: a plain library, or an application with
/// a process entry point.
#[derive(Debug, Clone, Copy, PartialEq, Eq, Structural)]
pub enum Template {
    Lib,
    App,
}

pub const LIB_NAME: &'static str = "lib";

pub const APP_NAME: &'static str = "app";

impl Template {
    /// The lowercase textual form of a template kind.
    pub open spec fn spec_name(self) -> Seq<char> {
        match self {
            Template::Lib => LIB_NAME@,
            Template::App => APP_NAME@,
        }
    }

    /// The template kind that a text names, if any. Only the exact lowercase
    /// forms are recognised.
    pub open spec fn spec_from_str(text: Seq<char>) -> Option<Template> {
        if text == LIB_NAME@ {
            Some(Template::Lib)
        } else if text == APP_NAME@ {
            Some(Template::App)
        } else {
            None
        }
    }

    /// The lowercase textual form of this template kind.
    pub fn name(&self) -> (text: &'static str)
        ensures
            text@ == self.spec_name(),
    {
        match self {
            Template::Lib => LIB_NAME,
            Template::App => APP_NAME,
        }
    }

    /// The lowercase textual form of this template kind, as an owned string.
    pub fn to_string(&self) -> (text: String)
        ensures
            text@ == self.spec_name(),
    {
        String::from_str(self.name())
    }

    /// Reads a template kind from its lowercase textual form.
    pub fn from_str(text: &str) -> (template: Option<Template>)
        ensures
            template == Template::spec_from_str(text@),
    {
        let owned = String::from_str(text);
        if owned == String::from_str(LIB_NAME) {
            Some(Template::Lib)
        } else if owned == String::from_str(APP_NAME) {
            Some(Template::App)
        } else {
            None
        }
    }

    /// Reading back the textual form of a template kind gives that kind.
    pub proof fn lemma_name_round_trip(template: Template)
        ensures
            Template::spec_from_str(template.spec_name()) == Some(template),
    {
        reveal_strlit("lib");
        reveal_strlit("app");
        assert(LIB_NAME@.len() == 3);
        assert(APP_NAME@[0] == 'a');
        assert(LIB_NAME@[0] == 'l');
    }
}

} // verus!
