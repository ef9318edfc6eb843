use gleam_new::{validate_name, InvalidProjectNameReason, NameTables};

fn words(list: &[&str]) -> Vec<String> {
    list.iter().map(|word| word.to_string()).collect()
}

fn tables() -> NameTables {
    NameTables {
        reserved_words: words(&["case", "if", "receive", "lists"]),
        stdlib_modules: words(&["lists", "maps", "base64", "fn"]),
        language_keywords: words(&["fn", "import", "pub"]),
    }
}

fn empty_tables() -> NameTables {
    NameTables { reserved_words: vec![], stdlib_modules: vec![], language_keywords: vec![] }
}

#[test]
fn lowercase_letters_and_underscores_are_accepted() {
    for name in ["myapp", "my_app", "_", "a", "z", "__private__", "abcdefghijklmnopqrstuvwxyz"] {
        assert_eq!(validate_name(&tables(), name), Ok(()), "{name}");
    }
}

#[test]
fn uppercase_digit_hyphen_and_space_are_rejected_for_format() {
    for name in ["MyApp", "myApp", "app2", "2app", "my-app", "my app", " myapp", "myapp ", "A", "0"]
    {
        assert_eq!(
            validate_name(&tables(), name),
            Err(InvalidProjectNameReason::InvalidFormat),
            "{name}"
        );
    }
}

#[test]
fn empty_name_is_rejected_for_format() {
    assert_eq!(validate_name(&tables(), ""), Err(InvalidProjectNameReason::InvalidFormat));
}

#[test]
fn pattern_is_anchored_at_both_ends() {
    for name in ["myapp\n", "\nmyapp", "my\napp", "myapp!", "!myapp", "my.app"] {
        assert_eq!(
            validate_name(&empty_tables(), name),
            Err(InvalidProjectNameReason::InvalidFormat),
            "{name:?}"
        );
    }
}

#[test]
fn characters_next_to_the_accepted_ranges_are_rejected() {
    for name in ["`", "{", "^", "my`app", "my{app", "é", "приложение", "ａｐｐ"] {
        assert_eq!(
            validate_name(&empty_tables(), name),
            Err(InvalidProjectNameReason::InvalidFormat),
            "{name}"
        );
    }
}

#[test]
fn reserved_word_is_rejected_although_well_formed() {
    assert_eq!(validate_name(&tables(), "case"), Err(InvalidProjectNameReason::ReservedWord));
    assert_eq!(validate_name(&tables(), "receive"), Err(InvalidProjectNameReason::ReservedWord));
}

#[test]
fn reserved_word_wins_over_stdlib_module() {
    assert_eq!(validate_name(&tables(), "lists"), Err(InvalidProjectNameReason::ReservedWord));
}

#[test]
fn stdlib_module_is_rejected() {
    assert_eq!(
        validate_name(&tables(), "maps"),
        Err(InvalidProjectNameReason::StdlibModuleCollision)
    );
}

#[test]
fn stdlib_module_wins_over_language_keyword() {
    assert_eq!(
        validate_name(&tables(), "fn"),
        Err(InvalidProjectNameReason::StdlibModuleCollision)
    );
}

#[test]
fn language_keyword_is_rejected() {
    assert_eq!(
        validate_name(&tables(), "import"),
        Err(InvalidProjectNameReason::LanguageReservedWord)
    );
}

#[test]
fn listed_name_reports_its_table_even_when_ill_formed() {
    assert_eq!(
        validate_name(&tables(), "base64"),
        Err(InvalidProjectNameReason::StdlibModuleCollision)
    );
}

#[test]
fn tables_are_matched_on_the_whole_word() {
    for name in ["cas", "cases", "i", "maps_", "pubs"] {
        assert_eq!(validate_name(&tables(), name), Ok(()), "{name}");
    }
    assert_eq!(validate_name(&tables(), "Case"), Err(InvalidProjectNameReason::InvalidFormat));
}

#[test]
fn without_tables_only_the_format_decides() {
    assert_eq!(validate_name(&empty_tables(), "case"), Ok(()));
    assert_eq!(
        validate_name(&empty_tables(), "base64"),
        Err(InvalidProjectNameReason::InvalidFormat)
    );
}
