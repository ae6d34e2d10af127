//! The validated option model consumed by the selection engine: filter
//! rules, hint characters, the multiselect pair, and the write-once
//! process-wide configuration slot.

use vstd::prelude::*;
use vstd::string::*;
use crate::chars::{has_glyph, spec_has_glyph};
use crate::hint::Hint;
use crate::text::{
    ascii_lower,
    eq_ignore_ascii_case,
    spec_eq_ignore_ascii_case,
    str_chars,
    str_contains_char,
    str_eq,
};

verus! {

/// Everything that can be wrong with a supplied configuration. Each variant
/// is reported once, during validation, before any pane is touched.
#[derive(Clone, Copy, Debug, PartialEq, Eq, Structural)]
pub enum OptsError {
    /// Two selection characters match up to ASCII case.
    DuplicateSelectionChars,
    /// A selection character has no big-letter rendering under the
    /// big-letter hint style.
    UnrenderableSelectionChar(char),
    /// Two relative-pick characters match up to ASCII case.
    DuplicateRelativeChars,
    /// The multiselect trigger string lowercases to no character at all.
    EmptyTriggerChar,
    /// The multiselect trigger string lowercases to more than one character.
    TriggerCharTooLong,
    /// The multiselect commit string lowercases to no character at all.
    EmptyCommitChar,
    /// The multiselect commit string lowercases to more than one character.
    CommitCharTooLong,
    /// Only one of the trigger and commit characters was supplied.
    IncompleteMultiselect,
    /// The multiselect commit character also occurs among the selection
    /// characters.
    OverlapCommitChar(char),
    /// The multiselect trigger character also occurs among the selection
    /// characters.
    OverlapTriggerChar(char),
    /// The process-wide configuration slot was already filled.
    AlreadyConfigured,
}

/// The two special characters of the toggle-based multi-pick protocol.
#[derive(Clone, Copy, Debug, PartialEq, Eq, Structural)]
pub struct Multiselect {
    pub trigger_char: char,
    pub commit_char: char,
}

/// Buffer-option exclusion lists: a pane whose buffer's filetype or buftype
/// occurs in the respective list is filtered out.
#[derive(Clone, Debug)]
pub struct Bo {
    pub filetype: Vec<String>,
    pub buftype: Vec<String>,
}

/// Which panes take part in a pick, and whether a lone candidate is chosen
/// without drawing.
#[derive(Clone, Debug)]
pub struct FilterRules {
    pub autoselect_one: bool,
    pub include_current_win: bool,
    pub include_floating: bool,
    pub include_unfocusable_windows: bool,
    pub bo: Bo,
    pub file_path_contains: Vec<String>,
    pub file_name_contains: Vec<String>,
}

/// A validated configuration for one pick operation.
#[derive(Clone, Debug)]
pub struct Opts {
    pub filter_rules: FilterRules,
    pub selection_chars: String,
    pub hint: Hint,
    pub multiselect: Option<Multiselect>,
}

/// Two string lists hold the same strings in the same order.
pub open spec fn spec_str_vec_eq(a: Seq<String>, b: Seq<String>) -> bool {
    a.len() == b.len() && forall|i: int| 0 <= i < a.len() ==> a[i]@ == #[trigger] b[i]@
}

/// Two [`Bo`] values hold the same lists.
pub open spec fn spec_bo_eq(a: Bo, b: Bo) -> bool {
    spec_str_vec_eq(a.filetype@, b.filetype@) && spec_str_vec_eq(a.buftype@, b.buftype@)
}

/// Two [`FilterRules`] values agree on every field.
pub open spec fn spec_filter_rules_eq(a: FilterRules, b: FilterRules) -> bool {
    &&& a.autoselect_one == b.autoselect_one
    &&& a.include_current_win == b.include_current_win
    &&& a.include_floating == b.include_floating
    &&& a.include_unfocusable_windows == b.include_unfocusable_windows
    &&& spec_bo_eq(a.bo, b.bo)
    &&& spec_str_vec_eq(a.file_path_contains@, b.file_path_contains@)
    &&& spec_str_vec_eq(a.file_name_contains@, b.file_name_contains@)
}

/// Two [`Opts`] values agree on every field.
pub open spec fn spec_opts_eq(a: Opts, b: Opts) -> bool {
    &&& spec_filter_rules_eq(a.filter_rules, b.filter_rules)
    &&& a.selection_chars@ == b.selection_chars@
    &&& a.hint == b.hint
    &&& a.multiselect == b.multiselect
}

/// Compare two string lists element by element.
pub fn str_vec_eq(a: &Vec<String>, b: &Vec<String>) -> (r: bool)
    ensures
        r == spec_str_vec_eq(a@, b@),
{
    if a.len() != b.len() {
        return false;
    }
    let n: usize = a.len();
    let mut i: usize = 0;
    while i < n
        invariant
            n == a@.len(),
            n == b@.len(),
            i <= n,
            forall|j: int| 0 <= j < i ==> a@[j]@ == #[trigger] b@[j]@,
        decreases n - i,
    {
        if !str_eq(a[i].as_str(), b[i].as_str()) {
            return false;
        }
        i = i + 1;
    }
    true
}

/// Copy a string list.
pub fn clone_str_vec(v: &Vec<String>) -> (r: Vec<String>)
    ensures
        r@ == v@,
{
    let n: usize = v.len();
    let mut r: Vec<String> = Vec::new();
    let mut i: usize = 0;
    while i < n
        invariant
            n == v@.len(),
            i <= n,
            r@ == v@.subrange(0, i as int),
        decreases n - i,
    {
        r.push(v[i].clone());
        proof {
            assert(r@ =~= v@.subrange(0, i + 1));
        }
        i = i + 1;
    }
    proof {
        assert(r@ =~= v@);
    }
    r
}

impl PartialEq for Bo {
    fn eq(&self, other: &Bo) -> (r: bool) {
        str_vec_eq(&self.filetype, &other.filetype) && str_vec_eq(&self.buftype, &other.buftype)
    }
}

impl vstd::std_specs::cmp::PartialEqSpecImpl for Bo {
    open spec fn obeys_eq_spec() -> bool {
        true
    }

    open spec fn eq_spec(&self, other: &Bo) -> bool {
        spec_bo_eq(*self, *other)
    }
}

impl PartialEq for FilterRules {
    fn eq(&self, other: &FilterRules) -> (r: bool) {
        self.autoselect_one == other.autoselect_one && self.include_current_win
            == other.include_current_win && self.include_floating == other.include_floating
            && self.include_unfocusable_windows == other.include_unfocusable_windows && self.bo
            == other.bo && str_vec_eq(&self.file_path_contains, &other.file_path_contains)
            && str_vec_eq(&self.file_name_contains, &other.file_name_contains)
    }
}

impl vstd::std_specs::cmp::PartialEqSpecImpl for FilterRules {
    open spec fn obeys_eq_spec() -> bool {
        true
    }

    open spec fn eq_spec(&self, other: &FilterRules) -> bool {
        spec_filter_rules_eq(*self, *other)
    }
}

impl PartialEq for Opts {
    fn eq(&self, other: &Opts) -> (r: bool) {
        self.filter_rules == other.filter_rules && str_eq(
            self.selection_chars.as_str(),
            other.selection_chars.as_str(),
        ) && self.hint == other.hint && self.multiselect == other.multiselect
    }
}

impl vstd::std_specs::cmp::PartialEqSpecImpl for Opts {
    open spec fn obeys_eq_spec() -> bool {
        true
    }

    open spec fn eq_spec(&self, other: &Opts) -> bool {
        spec_opts_eq(*self, *other)
    }
}

/// The hint characters used when the caller supplies none.
pub fn default_selection_chars() -> (r: String)
    ensures
        r@ == "FJDKSLA;CMRUEIWOQP"@,
{
    String::from_str("FJDKSLA;CMRUEIWOQP")
}

/// The default of the boolean rule fields that start switched on.
pub fn default_true() -> (r: bool)
    ensures
        r,
{
    true
}

/// The filetypes excluded when the caller supplies no buffer-option rules.
pub fn default_fts() -> (r: Vec<String>)
    ensures
        r@.len() == 4,
        r@[0]@ == "NvimTree"@,
        r@[1]@ == "neo-tree"@,
        r@[2]@ == "notify"@,
        r@[3]@ == "snacks_notif"@,
{
    let mut r: Vec<String> = Vec::new();
    r.push(String::from_str("NvimTree"));
    r.push(String::from_str("neo-tree"));
    r.push(String::from_str("notify"));
    r.push(String::from_str("snacks_notif"));
    r
}

/// The buftypes excluded when the caller supplies no buffer-option rules.
pub fn default_bts() -> (r: Vec<String>)
    ensures
        r@.len() == 3,
        r@[0]@ == "terminal"@,
        r@[1]@ == "nofile"@,
        r@[2]@ == "prompt"@,
{
    let mut r: Vec<String> = Vec::new();
    r.push(String::from_str("terminal"));
    r.push(String::from_str("nofile"));
    r.push(String::from_str("prompt"));
    r
}

/// A [`Bo`] value holds exactly the compiled default lists.
pub open spec fn spec_is_default_bo(bo: Bo) -> bool {
    &&& bo.filetype@.len() == 4
    &&& bo.filetype@[0]@ == "NvimTree"@
    &&& bo.filetype@[1]@ == "neo-tree"@
    &&& bo.filetype@[2]@ == "notify"@
    &&& bo.filetype@[3]@ == "snacks_notif"@
    &&& bo.buftype@.len() == 3
    &&& bo.buftype@[0]@ == "terminal"@
    &&& bo.buftype@[1]@ == "nofile"@
    &&& bo.buftype@[2]@ == "prompt"@
}

impl Default for Bo {
    /// The compiled default exclusion lists.
    fn default() -> (r: Self)
        ensures
            spec_is_default_bo(r),
    {
        Bo { filetype: default_fts(), buftype: default_bts() }
    }
}

/// A [`FilterRules`] value holds exactly the compiled defaults: every pane
/// but unfocusable ones takes part, and a lone candidate is auto-selected.
pub open spec fn spec_is_default_filter_rules(r: FilterRules) -> bool {
    &&& r.autoselect_one
    &&& r.include_current_win
    &&& r.include_floating
    &&& !r.include_unfocusable_windows
    &&& spec_is_default_bo(r.bo)
    &&& r.file_path_contains@.len() == 0
    &&& r.file_name_contains@.len() == 0
}

impl Default for FilterRules {
    /// The compiled default rules.
    fn default() -> (r: Self)
        ensures
            spec_is_default_filter_rules(r),
    {
        FilterRules {
            autoselect_one: default_true(),
            include_current_win: default_true(),
            include_floating: default_true(),
            include_unfocusable_windows: false,
            bo: Bo::default(),
            file_path_contains: Vec::new(),
            file_name_contains: Vec::new(),
        }
    }
}

/// An [`Opts`] value holds exactly the compiled defaults.
pub open spec fn spec_is_default_opts(o: Opts) -> bool {
    &&& spec_is_default_filter_rules(o.filter_rules)
    &&& o.selection_chars@ == "FJDKSLA;CMRUEIWOQP"@
    &&& o.hint == Hint::FloatingBigLetter
    &&& o.multiselect is None
}

impl Default for Opts {
    /// The compiled default configuration, used before the process-wide slot
    /// is filled.
    fn default() -> (r: Self)
        ensures
            spec_is_default_opts(r),
    {
        Opts {
            filter_rules: FilterRules::default(),
            selection_chars: default_selection_chars(),
            hint: Hint::default(),
            multiselect: None,
        }
    }
}

/// Options for opening a path in a split next to a picked pane.
#[derive(Clone, Debug)]
pub struct OpenSplitOpts {
    pub path: String,
    pub focus_new: bool,
    pub vertical: bool,
    pub opts: Opts,
}

/// Options for opening a path over a picked pane, replacing its content.
#[derive(Clone, Debug)]
pub struct OpenOverOpts {
    pub path: String,
    pub focus_new: bool,
    pub opts: Opts,
}

/// Options for opening a path at a position picked inside one pane.
#[derive(Clone, Debug)]
pub struct OpenRelativeOpts {
    pub path: String,
    pub focus_new: bool,
    pub relative_chars: String,
    pub opts: Opts,
}

/// What `str::to_lowercase` returns for the given characters.
pub uninterp spec fn lower_of(s: Seq<char>) -> Seq<char>;

/// Relies on `str::to_lowercase`: the lowercase mapping of the string, a
/// function of its characters alone; an empty string stays empty.
#[verifier::external_body]
fn lowercase(s: &str) -> (r: String)
    ensures
        r@ == lower_of(s@),
        s@.len() == 0 ==> r@.len() == 0,
{
    s.to_lowercase()
}

/// A valid hint character string: under the big-letter style every character
/// has a rendering, and no two characters match up to ASCII case.
pub open spec fn spec_valid_selection_chars(s: Seq<char>, big: bool) -> bool {
    &&& big ==> forall|i: int| 0 <= i < s.len() ==> spec_has_glyph(#[trigger] s[i])
    &&& forall|i: int, j: int|
        0 <= i < j < s.len() ==> !spec_eq_ignore_ascii_case(#[trigger] s[i], #[trigger] s[j])
}

/// Some earlier character matches `s[i]` up to ASCII case.
pub open spec fn spec_ci_dup_before(s: Seq<char>, i: int) -> bool {
    exists|j: int| 0 <= j < i && spec_eq_ignore_ascii_case(#[trigger] s[j], s[i])
}

/// The first violation a left-to-right scan of the characters reports, from
/// position `i` on: an unrenderable character (big-letter style only), or a
/// character already seen up to ASCII case.
pub open spec fn spec_sel_violation(s: Seq<char>, big: bool, i: int) -> Option<OptsError>
    decreases s.len() - i,
{
    if i < 0 || i >= s.len() {
        None
    } else if big && !spec_has_glyph(s[i]) {
        Some(OptsError::UnrenderableSelectionChar(s[i]))
    } else if spec_ci_dup_before(s, i) {
        Some(OptsError::DuplicateSelectionChars)
    } else {
        spec_sel_violation(s, big, i + 1)
    }
}

proof fn lemma_sel_violation_none_from(s: Seq<char>, big: bool, i: int)
    requires
        0 <= i <= s.len(),
    ensures
        spec_sel_violation(s, big, i) is None <==> ((big ==> forall|k: int|
            i <= k < s.len() ==> spec_has_glyph(#[trigger] s[k])) && (forall|k: int|
            i <= k < s.len() ==> !spec_ci_dup_before(s, k))),
    decreases s.len() - i,
{
    if i < s.len() {
        lemma_sel_violation_none_from(s, big, i + 1);
    }
}

/// The scan reports nothing exactly when the character string is valid.
pub proof fn lemma_valid_selection_chars(s: Seq<char>, big: bool)
    ensures
        spec_sel_violation(s, big, 0) is None <==> spec_valid_selection_chars(s, big),
{
    lemma_sel_violation_none_from(s, big, 0);
    if forall|k: int| 0 <= k < s.len() ==> !spec_ci_dup_before(s, k) {
        assert forall|i: int, j: int|
            0 <= i < j < s.len() implies !spec_eq_ignore_ascii_case(
            #[trigger] s[i],
            #[trigger] s[j],
        ) by {
            assert(!spec_ci_dup_before(s, j));
        }
    }
    if forall|i: int, j: int|
        0 <= i < j < s.len() ==> !spec_eq_ignore_ascii_case(#[trigger] s[i], #[trigger] s[j]) {
        assert forall|k: int| 0 <= k < s.len() implies !spec_ci_dup_before(s, k) by {
            if spec_ci_dup_before(s, k) {
                let j = choose|j: int| 0 <= j < k && spec_eq_ignore_ascii_case(#[trigger] s[j], s[k]);
                assert(!spec_eq_ignore_ascii_case(s[j], s[k]));
            }
        }
    }
}

/// Check a supplied hint character string: under the big-letter style every
/// character must have a rendering, and no character may repeat up to ASCII
/// case. The reported error is the first violation in a left-to-right scan.
pub fn validate_provided_selection_chars(chars: &str, hint: Hint) -> (r: Result<(), OptsError>)
    ensures
        r matches Ok(_) <==> spec_valid_selection_chars(
            chars@,
            hint == Hint::FloatingBigLetter,
        ),
        r matches Err(e) ==> Some(e) == spec_sel_violation(
            chars@,
            hint == Hint::FloatingBigLetter,
            0,
        ),
{
    let big: bool = hint == Hint::FloatingBigLetter;
    let cs = str_chars(chars);
    let n: usize = cs.len();
    proof {
        lemma_valid_selection_chars(chars@, big);
    }
    let mut i: usize = 0;
    while i < n
        invariant
            cs@ == chars@,
            n == chars@.len(),
            i <= n,
            big == (hint == Hint::FloatingBigLetter),
            spec_sel_violation(chars@, big, 0) == spec_sel_violation(chars@, big, i as int),
        decreases n - i,
    {
        if big && !has_glyph(cs[i]) {
            return Err(OptsError::UnrenderableSelectionChar(cs[i]));
        }
        let mut j: usize = 0;
        while j < i
            invariant
                cs@ == chars@,
                n == chars@.len(),
                i < n,
                j <= i,
                big == (hint == Hint::FloatingBigLetter),
                big ==> spec_has_glyph(chars@[i as int]),
                spec_sel_violation(chars@, big, 0) == spec_sel_violation(chars@, big, i as int),
                forall|k: int|
                    0 <= k < j ==> !spec_eq_ignore_ascii_case(#[trigger] chars@[k], chars@[i as int]),
            decreases i - j,
        {
            if eq_ignore_ascii_case(cs[j], cs[i]) {
                proof {
                    assert(spec_ci_dup_before(chars@, i as int));
                    lemma_valid_selection_chars(chars@, big);
                }
                return Err(OptsError::DuplicateSelectionChars);
            }
            j = j + 1;
        }
        proof {
            assert(!spec_ci_dup_before(chars@, i as int));
        }
        i = i + 1;
    }
    Ok(())
}

/// Check a supplied relative-pick character string: any characters are
/// allowed, but none may repeat up to ASCII case.
pub fn validate_provided_relative_chars(chars: &str) -> (r: Result<(), OptsError>)
    ensures
        r matches Ok(_) <==> spec_valid_selection_chars(chars@, false),
        r matches Err(e) ==> e == OptsError::DuplicateRelativeChars,
{
    match validate_provided_selection_chars(chars, Hint::FloatingLetter) {
        Ok(_) => Ok(()),
        Err(_) => Err(OptsError::DuplicateRelativeChars),
    }
}

impl Multiselect {
    /// Build the multiselect pair from the two supplied strings. Each string
    /// is lowercased and must then hold exactly one character; supplying only
    /// one of the two is an error, supplying neither disables multiselect.
    pub fn from_parts(trigger: Option<&str>, commit: Option<&str>) -> (r: Result<
        Option<Multiselect>,
        OptsError,
    >)
        ensures
            trigger is None && commit is None ==> r == Ok::<Option<Multiselect>, OptsError>(None),
            trigger is Some && commit is None ==> r == Err::<Option<Multiselect>, OptsError>(
                OptsError::IncompleteMultiselect,
            ),
            trigger is None && commit is Some ==> r == Err::<Option<Multiselect>, OptsError>(
                OptsError::IncompleteMultiselect,
            ),
            trigger matches Some(t) ==> commit matches Some(c) ==> {
                let lt = lower_of(t@);
                let lc = lower_of(c@);
                &&& lt.len() == 0 ==> r == Err::<Option<Multiselect>, OptsError>(
                    OptsError::EmptyTriggerChar,
                )
                &&& lt.len() > 1 ==> r == Err::<Option<Multiselect>, OptsError>(
                    OptsError::TriggerCharTooLong,
                )
                &&& lt.len() == 1 && lc.len() == 0 ==> r == Err::<Option<Multiselect>, OptsError>(
                    OptsError::EmptyCommitChar,
                )
                &&& lt.len() == 1 && lc.len() > 1 ==> r == Err::<Option<Multiselect>, OptsError>(
                    OptsError::CommitCharTooLong,
                )
                &&& lt.len() == 1 && lc.len() == 1 ==> r == Ok::<Option<Multiselect>, OptsError>(
                    Some(Multiselect { trigger_char: lt[0], commit_char: lc[0] }),
                )
            },
    {
        match (trigger, commit) {
            (None, None) => Ok(None),
            (Some(t), Some(c)) => {
                let lt = lowercase(t);
                if lt.as_str().unicode_len() == 0 {
                    return Err(OptsError::EmptyTriggerChar);
                }
                if lt.as_str().unicode_len() > 1 {
                    return Err(OptsError::TriggerCharTooLong);
                }
                let lc = lowercase(c);
                if lc.as_str().unicode_len() == 0 {
                    return Err(OptsError::EmptyCommitChar);
                }
                if lc.as_str().unicode_len() > 1 {
                    return Err(OptsError::CommitCharTooLong);
                }
                Ok(
                    Some(
                        Multiselect {
                            trigger_char: lt.as_str().get_char(0),
                            commit_char: lc.as_str().get_char(0),
                        },
                    ),
                )
            },
            _ => Err(OptsError::IncompleteMultiselect),
        }
    }
}

impl Opts {
    /// Reject a configuration whose multiselect characters overlap the hint
    /// characters; anything else passes through unchanged.
    pub fn validate(self) -> (r: Result<Opts, OptsError>)
        ensures
            self.multiselect is None ==> r == Ok::<Opts, OptsError>(self),
            self.multiselect matches Some(ms) ==> {
                &&& self.selection_chars@.contains(ms.commit_char) ==> r == Err::<Opts, OptsError>(
                    OptsError::OverlapCommitChar(ms.commit_char),
                )
                &&& !self.selection_chars@.contains(ms.commit_char)
                    && self.selection_chars@.contains(ms.trigger_char) ==> r == Err::<
                    Opts,
                    OptsError,
                >(OptsError::OverlapTriggerChar(ms.trigger_char))
                &&& !self.selection_chars@.contains(ms.commit_char)
                    && !self.selection_chars@.contains(ms.trigger_char) ==> r == Ok::<
                    Opts,
                    OptsError,
                >(self)
            },
    {
        if let Some(ms) = self.multiselect {
            if str_contains_char(self.selection_chars.as_str(), ms.commit_char) {
                return Err(OptsError::OverlapCommitChar(ms.commit_char));
            }
            if str_contains_char(self.selection_chars.as_str(), ms.trigger_char) {
                return Err(OptsError::OverlapTriggerChar(ms.trigger_char));
            }
        }
        Ok(self)
    }
}

/// Copy a configuration, field by field.
pub fn clone_opts(o: &Opts) -> (r: Opts)
    ensures
        spec_opts_eq(r, *o),
{
    Opts {
        filter_rules: FilterRules {
            autoselect_one: o.filter_rules.autoselect_one,
            include_current_win: o.filter_rules.include_current_win,
            include_floating: o.filter_rules.include_floating,
            include_unfocusable_windows: o.filter_rules.include_unfocusable_windows,
            bo: Bo {
                filetype: clone_str_vec(&o.filter_rules.bo.filetype),
                buftype: clone_str_vec(&o.filter_rules.bo.buftype),
            },
            file_path_contains: clone_str_vec(&o.filter_rules.file_path_contains),
            file_name_contains: clone_str_vec(&o.filter_rules.file_name_contains),
        },
        selection_chars: o.selection_chars.clone(),
        hint: o.hint,
        multiselect: o.multiselect,
    }
}

/// The process-wide configuration slot: empty until `setup_opts` fills it,
/// then read-only. A second fill attempt fails and changes nothing.
pub struct OptsCell {
    slot: Option<Opts>,
}

impl OptsCell {
    /// Whether the slot has been filled.
    pub closed spec fn is_set(&self) -> bool {
        self.slot is Some
    }

    /// The configuration the slot holds, once filled.
    pub closed spec fn stored(&self) -> Opts {
        self.slot->Some_0
    }

    /// A fresh, empty slot.
    pub fn new() -> (r: Self)
        ensures
            !r.is_set(),
    {
        OptsCell { slot: None }
    }

    /// The configuration to use for a pick: the stored one if the slot was
    /// filled, else the compiled defaults.
    pub fn current(&self) -> (r: Opts)
        ensures
            self.is_set() ==> spec_opts_eq(r, self.stored()),
            !self.is_set() ==> spec_is_default_opts(r),
    {
        match &self.slot {
            Some(o) => clone_opts(o),
            None => Opts::default(),
        }
    }
}

impl Opts {
    /// Fill the process-wide slot, once. A slot that is already filled stays
    /// exactly as it was and the call reports failure.
    pub fn setup_opts(cell: &mut OptsCell, opts: Opts) -> (r: Result<(), OptsError>)
        ensures
            old(cell).is_set() ==> r == Err::<(), OptsError>(OptsError::AlreadyConfigured)
                && *final(cell) == *old(cell),
            !old(cell).is_set() ==> r == Ok::<(), OptsError>(()) && final(cell).is_set()
                && final(cell).stored() == opts,
    {
        if cell.slot.is_some() {
            return Err(OptsError::AlreadyConfigured);
        }
        cell.slot = Some(opts);
        Ok(())
    }
}

} // verus!
