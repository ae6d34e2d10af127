use nvim_winpick::hint::HintError;
use nvim_winpick::opts::{
    default_bts, default_fts, default_selection_chars, default_true, validate_provided_relative_chars,
    validate_provided_selection_chars, OptsCell, OptsError,
};
use nvim_winpick::{Hint, Multiselect, Opts};

#[test]
fn supply_default_opts() {
    let cell = OptsCell::new();
    assert_eq!(Opts::default(), cell.current());
}

#[test]
fn set_global_opts_replaces_default() {
    let mut cell = OptsCell::new();
    assert_eq!(Opts::default(), cell.current());
    let configured = Opts {
        selection_chars: "abcdefg".to_string(),
        ..Opts::default()
    };
    Opts::setup_opts(&mut cell, configured.clone()).unwrap();
    assert_eq!(cell.current(), configured);
}

#[test]
fn set_global_opts_fails_if_tried_twice() {
    let mut cell = OptsCell::new();
    let configured = Opts {
        selection_chars: "abcdefg".to_string(),
        ..Opts::default()
    };
    Opts::setup_opts(&mut cell, configured.clone()).unwrap();
    assert_eq!(cell.current(), configured);
    let second = Opts {
        selection_chars: "loi".to_string(),
        ..Opts::default()
    };
    let res = Opts::setup_opts(&mut cell, second);
    assert_eq!(res, Err(OptsError::AlreadyConfigured));
    // Not updated
    assert_eq!(cell.current(), configured);
}

#[test]
fn rejects_duplicate_selection_chars() {
    assert!(validate_provided_selection_chars("abcdefg", Hint::default()).is_ok());
    assert_eq!(
        validate_provided_selection_chars("abcdeff", Hint::default()),
        Err(OptsError::DuplicateSelectionChars)
    );
}

#[test]
fn rejects_duplicate_selection_chars_across_case() {
    assert_eq!(
        validate_provided_selection_chars("aA", Hint::FloatingLetter),
        Err(OptsError::DuplicateSelectionChars)
    );
}

#[test]
fn rejects_unrendered_characters_on_floating_big_letter_allows_on_floating_letter() {
    // Check ö, will also implicitly check that the default is floating-big-letter
    assert_eq!(
        validate_provided_selection_chars("ö", Hint::default()),
        Err(OptsError::UnrenderableSelectionChar('ö'))
    );
    assert!(validate_provided_selection_chars("ö", Hint::FloatingLetter).is_ok());
}

#[test]
fn valid_hints_accepted() {
    assert!(matches!(Hint::from_str("floating-letter"), Ok(Hint::FloatingLetter)));
    assert!(matches!(
        Hint::from_str("floating-big-letter"),
        Ok(Hint::FloatingBigLetter)
    ));
}

#[test]
fn unknown_hint_rejected() {
    assert_eq!(
        Hint::from_str("floating-small-letter"),
        Err(HintError::UnknownHint)
    );
}

#[test]
fn valid_multiselect_accepted() {
    let multi = Multiselect::from_parts(Some("m"), Some("c")).unwrap().unwrap();
    assert_eq!('c', multi.commit_char);
    assert_eq!('m', multi.trigger_char);
}

#[test]
fn multiselect_chars_are_lowercased() {
    let multi = Multiselect::from_parts(Some("M"), Some("C")).unwrap().unwrap();
    assert_eq!('m', multi.trigger_char);
    assert_eq!('c', multi.commit_char);
}

#[test]
fn incomplete_multiselect_rejected() {
    assert_eq!(
        Multiselect::from_parts(None, Some("c")),
        Err(OptsError::IncompleteMultiselect)
    );
    assert_eq!(
        Multiselect::from_parts(Some("c"), None),
        Err(OptsError::IncompleteMultiselect)
    );
}

#[test]
fn absent_multiselect_accepted() {
    assert_eq!(Multiselect::from_parts(None, None), Ok(None));
}

#[test]
fn malformed_multiselect_strings_rejected() {
    assert_eq!(
        Multiselect::from_parts(Some(""), Some("c")),
        Err(OptsError::EmptyTriggerChar)
    );
    assert_eq!(
        Multiselect::from_parts(Some("mm"), Some("c")),
        Err(OptsError::TriggerCharTooLong)
    );
    assert_eq!(
        Multiselect::from_parts(Some("m"), Some("")),
        Err(OptsError::EmptyCommitChar)
    );
    assert_eq!(
        Multiselect::from_parts(Some("m"), Some("cc")),
        Err(OptsError::CommitCharTooLong)
    );
}

#[test]
fn multiselect_overlapping_selection_chars_rejected() {
    let base = Opts {
        selection_chars: "abc".to_string(),
        ..Opts::default()
    };
    let overlap_commit = Opts {
        multiselect: Some(Multiselect {
            trigger_char: 'm',
            commit_char: 'b',
        }),
        ..base.clone()
    };
    assert!(matches!(
        overlap_commit.validate(),
        Err(OptsError::OverlapCommitChar('b'))
    ));
    let overlap_trigger = Opts {
        multiselect: Some(Multiselect {
            trigger_char: 'a',
            commit_char: 'z',
        }),
        ..base.clone()
    };
    assert!(matches!(
        overlap_trigger.validate(),
        Err(OptsError::OverlapTriggerChar('a'))
    ));
    let disjoint = Opts {
        multiselect: Some(Multiselect {
            trigger_char: 'm',
            commit_char: 'z',
        }),
        ..base
    };
    assert!(disjoint.validate().is_ok());
}

#[test]
fn open_relative_opts_allows_any_char_in_relative_chars() {
    assert!(validate_provided_relative_chars("ö").is_ok());
}

#[test]
fn open_relative_opts_rejects_duplicates_in_relative_chars() {
    assert_eq!(
        validate_provided_relative_chars("aa"),
        Err(OptsError::DuplicateRelativeChars)
    );
}

#[test]
fn compiled_defaults_match_documented_values() {
    let o = Opts::default();
    assert_eq!(o.selection_chars, default_selection_chars());
    assert_eq!(o.selection_chars, "FJDKSLA;CMRUEIWOQP");
    assert_eq!(o.hint, Hint::FloatingBigLetter);
    assert!(o.multiselect.is_none());
    assert!(o.filter_rules.autoselect_one && default_true());
    assert!(o.filter_rules.include_current_win);
    assert!(o.filter_rules.include_floating);
    assert!(!o.filter_rules.include_unfocusable_windows);
    assert_eq!(
        default_fts(),
        vec!["NvimTree", "neo-tree", "notify", "snacks_notif"]
    );
    assert_eq!(default_bts(), vec!["terminal", "nofile", "prompt"]);
    assert_eq!(o.filter_rules.bo.filetype, default_fts());
    assert_eq!(o.filter_rules.bo.buftype, default_bts());
    assert!(o.filter_rules.file_path_contains.is_empty());
    assert!(o.filter_rules.file_name_contains.is_empty());
}

#[test]
fn default_selection_chars_are_valid_for_the_default_hint() {
    let chars = default_selection_chars();
    assert!(validate_provided_selection_chars(&chars, Hint::default()).is_ok());
    assert!(validate_provided_relative_chars(&chars).is_ok());
}
