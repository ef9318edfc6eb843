//! Validation of project names.
//!
//! A name is rejected when it collides with a word of one of three injected
//! tables, or when it is not made of lowercase ASCII letters and underscores.
//! The tables are consulted first, in a fixed order, so a listed name always
//! reports its collision and never its format.

use vstd::prelude::*;
use vstd::string::*;

verus! {

/// Why a project name was rejected.
#[derive(Debug, Clone, Copy, PartialEq, Eq, Structural)]
pub enum InvalidProjectNameReason {
    /// The name is a reserved word of the host language.
    ReservedWord,
    /// The name is the name of a module of the host standard library.
    StdlibModuleCollision,
    /// The name is a reserved word of the project's own source language.
    LanguageReservedWord,
    /// The name is empty or holds a character other than `a`-`z` and `_`.
    InvalidFormat,
}

/// The word lists a name is checked against.
#[derive(Debug, Clone, PartialEq, Eq)]
pub struct NameTables {
    /// Reserved words of the host language.
    pub reserved_words: Vec<String>,
    /// Names of the modules of the host standard library.
    pub stdlib_modules: Vec<String>,
    /// Reserved words of the project's own source language.
    pub language_keywords: Vec<String>,
}

/// The word lists as sets of words.
pub struct NameTablesView {
    pub reserved_words: Set<Seq<char>>,
    pub stdlib_modules: Set<Seq<char>>,
    pub language_keywords: Set<Seq<char>>,
}

/// The set of words that a list holds.
pub open spec fn word_set(list: Seq<String>) -> Set<Seq<char>> {
    Set::new(|word: Seq<char>| exists|i: int| 0 <= i < list.len() && (#[trigger] list[i])@ == word)
}

impl View for NameTables {
    type V = NameTablesView;

    open spec fn view(&self) -> NameTablesView {
        NameTablesView {
            reserved_words: word_set(self.reserved_words@),
            stdlib_modules: word_set(self.stdlib_modules@),
            language_keywords: word_set(self.language_keywords@),
        }
    }
}

impl NameTablesView {
    /// Whether any of the three tables lists the name.
    pub open spec fn lists(self, name: Seq<char>) -> bool {
        self.reserved_words.contains(name) || self.stdlib_modules.contains(name)
            || self.language_keywords.contains(name)
    }
}

/// The pattern a project name has to match in full.
pub const NAME_PATTERN: &'static str = "^[a-z_]+$";

/// The characters a project name is made of.
pub open spec fn is_name_char(c: char) -> bool {
    ('a' <= c && c <= 'z') || c == '_'
}

/// One or more characters, each a lowercase ASCII letter or an underscore.
pub open spec fn is_well_formed_name(name: Seq<char>) -> bool {
    name.len() > 0 && forall|i: int| 0 <= i < name.len() ==> is_name_char(#[trigger] name[i])
}

/// Whether the name holds an uppercase ASCII letter, an ASCII digit, a hyphen
/// or a space.
pub open spec fn has_excluded_char(name: Seq<char>) -> bool {
    exists|i: int|
        0 <= i < name.len() && {
            let c = #[trigger] name[i];
            ('A' <= c && c <= 'Z') || ('0' <= c && c <= '9') || c == '-' || c == ' '
        }
}

/// The reason a name is rejected for, if it is: the first of the four rules
/// that the name breaks.
pub open spec fn rejection(tables: NameTablesView, name: Seq<char>) -> Option<
    InvalidProjectNameReason,
> {
    if tables.reserved_words.contains(name) {
        Some(InvalidProjectNameReason::ReservedWord)
    } else if tables.stdlib_modules.contains(name) {
        Some(InvalidProjectNameReason::StdlibModuleCollision)
    } else if tables.language_keywords.contains(name) {
        Some(InvalidProjectNameReason::LanguageReservedWord)
    } else if !is_well_formed_name(name) {
        Some(InvalidProjectNameReason::InvalidFormat)
    } else {
        None
    }
}

/// Compiles `pattern` with `regex::Regex::new` and searches `text` with
/// `regex::Regex::is_match`; `None` when the pattern does not compile.
///
/// Trusted: for the pattern `^[a-z_]+$` the crate compiles it, and reports a
/// match exactly for the texts that are, from their first character to their
/// last, one or more characters out of `a`-`z` and `_`. Without the
/// multi-line flag `^` and `$` match only at the two ends of the text, and
/// the class `[a-z_]` holds those 27 characters and no others. Of other
/// patterns nothing is claimed.
#[verifier::external_body]
fn regex_is_match(pattern: &str, text: &str) -> (matched: Option<bool>)
    ensures
        pattern@ == NAME_PATTERN@ ==> matched == Some(is_well_formed_name(text@)),
{
    match regex::Regex::new(pattern) {
        Ok(regex) => Some(regex.is_match(text)),
        Err(_) => None,
    }
}

/// Whether a list holds the word.
fn contains_word(list: &Vec<String>, word: &String) -> (found: bool)
    ensures
        found == word_set(list@).contains(word@),
{
    let mut i: usize = 0;
    while i < list.len()
        invariant
            i <= list.len(),
            forall|j: int| 0 <= j < i ==> (#[trigger] list@[j])@ != word@,
        decreases list.len() - i,
    {
        if list[i] == *word {
            return true;
        }
        i += 1;
    }
    false
}

/// Checks a project name against the tables and the name format.
///
/// The four rules are applied in a fixed order and the first one that the name
/// breaks is reported: host reserved word, host standard library module,
/// reserved word of the project's language, format.
pub fn validate_name(tables: &NameTables, name: &str) -> (result: Result<
    (),
    InvalidProjectNameReason,
>)
    ensures
        result == match rejection(tables@, name@) {
            Some(reason) => Err::<(), InvalidProjectNameReason>(reason),
            None => Ok(()),
        },
        // A well-formed name that no table lists is accepted.
        is_well_formed_name(name@) && !tables@.lists(name@) ==> result is Ok,
        // A name with an uppercase letter, a digit, a hyphen or a space is
        // rejected for its format, unless a table lists it.
        has_excluded_char(name@) && !tables@.lists(name@) ==> result == Err::<
            (),
            InvalidProjectNameReason,
        >(InvalidProjectNameReason::InvalidFormat),
        // A reserved word is reported as one, well formed or not, and also
        // when it names a module of the standard library.
        tables@.reserved_words.contains(name@) ==> result == Err::<(), InvalidProjectNameReason>(
            InvalidProjectNameReason::ReservedWord,
        ),
        tables@.reserved_words.contains(name@) && tables@.stdlib_modules.contains(name@)
            ==> result == Err::<(), InvalidProjectNameReason>(
            InvalidProjectNameReason::ReservedWord,
        ),
{
    let word = String::from_str(name);
    if contains_word(&tables.reserved_words, &word) {
        Err(InvalidProjectNameReason::ReservedWord)
    } else if contains_word(&tables.stdlib_modules, &word) {
        Err(InvalidProjectNameReason::StdlibModuleCollision)
    } else if contains_word(&tables.language_keywords, &word) {
        Err(InvalidProjectNameReason::LanguageReservedWord)
    } else {
        match regex_is_match(NAME_PATTERN, name) {
            Some(true) => Ok(()),
            _ => Err(InvalidProjectNameReason::InvalidFormat),
        }
    }
}

} // verus!
