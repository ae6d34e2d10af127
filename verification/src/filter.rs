//! The pane filter: a pure predicate over a pane's metadata, and the
//! candidate set it induces over an enumeration of panes.
//!
//! The host layer gathers each pane's metadata into a [`PaneMeta`] record;
//! everything decided from that record is decided here, under contract.

use vstd::prelude::*;
use crate::PaneId;
use crate::opts::FilterRules;
use crate::text::{spec_contains_substr, str_contains, str_eq};

verus! {

/// What the host reports about a pane's layout: whether it can take focus
/// and whether it floats.
#[derive(Clone, Copy, Debug, PartialEq, Eq, Structural)]
pub struct PaneLayout {
    pub focusable: bool,
    pub floating: bool,
}

/// What the host reports about the buffer a pane displays. A field is `None`
/// when the value cannot be resolved; such a pane only fails the checks that
/// need that value.
#[derive(Clone, Debug)]
pub struct BufferMeta {
    pub filetype: Option<String>,
    pub buftype: Option<String>,
    pub file_path: Option<String>,
    pub file_name: Option<String>,
}

/// Everything the filter may read about one pane. `layout` is `None` when
/// the host could not be asked (the pane is then excluded, fail-safe);
/// `buffer` is `None` when the buffer query failed (an error, but only if a
/// content rule actually needs it).
#[derive(Clone, Debug)]
pub struct PaneMeta {
    pub id: PaneId,
    pub is_current: bool,
    pub layout: Option<PaneLayout>,
    pub buffer: Option<BufferMeta>,
}

/// The filter fails only when a content rule needs the pane's buffer
/// identity and the host query for it failed.
#[derive(Clone, Copy, Debug, PartialEq, Eq, Structural)]
pub enum FilterError {
    BufferInfoUnavailable,
}

/// Some string in the list equals the value.
pub open spec fn spec_list_has(list: Seq<String>, v: Seq<char>) -> bool {
    exists|i: int| 0 <= i < list.len() && #[trigger] list[i]@ == v
}

/// Some string in the list occurs inside the value.
pub open spec fn spec_list_substr_of(list: Seq<String>, v: Seq<char>) -> bool {
    exists|i: int| 0 <= i < list.len() && spec_contains_substr(v, #[trigger] list[i]@)
}

/// Whether any content-based rule is configured; only then is the pane's
/// buffer identity consulted at all.
pub open spec fn spec_needs_buffer_info(r: FilterRules) -> bool {
    ||| r.bo.filetype@.len() > 0
    ||| r.bo.buftype@.len() > 0
    ||| r.file_path_contains@.len() > 0
    ||| r.file_name_contains@.len() > 0
}

/// The cheap checks that precede any buffer query: the current pane (when
/// excluded), panes whose layout cannot be read, unfocusable panes and
/// floating panes (when excluded).
pub open spec fn spec_passes_basic(r: FilterRules, m: PaneMeta) -> bool {
    &&& r.include_current_win || !m.is_current
    &&& m.layout is Some
    &&& r.include_unfocusable_windows || m.layout->Some_0.focusable
    &&& r.include_floating || !m.layout->Some_0.floating
}

/// The content-based checks: the pane survives unless its filetype or
/// buftype is listed, or a listed substring occurs in its file path or file
/// name. A value the host could not resolve fails no check.
pub open spec fn spec_content_keeps(r: FilterRules, b: BufferMeta) -> bool {
    &&& !(b.filetype matches Some(ft) && spec_list_has(r.bo.filetype@, ft@))
    &&& !(b.buftype matches Some(bt) && spec_list_has(r.bo.buftype@, bt@))
    &&& !(b.file_path matches Some(p) && spec_list_substr_of(r.file_path_contains@, p@))
    &&& !(b.file_name matches Some(n) && spec_list_substr_of(r.file_name_contains@, n@))
}

/// The whole filter predicate: the pane stays in the candidate set.
pub open spec fn spec_keeps(r: FilterRules, m: PaneMeta) -> bool {
    &&& spec_passes_basic(r, m)
    &&& spec_needs_buffer_info(r) ==> (m.buffer matches Some(b) && spec_content_keeps(r, b))
}

/// The filter errs on this pane: the cheap checks all pass, a content rule
/// needs the buffer identity, and the host query for it failed.
pub open spec fn spec_filter_errs(r: FilterRules, m: PaneMeta) -> bool {
    spec_passes_basic(r, m) && spec_needs_buffer_info(r) && m.buffer is None
}

fn list_has(list: &Vec<String>, v: &str) -> (r: bool)
    ensures
        r == spec_list_has(list@, v@),
{
    let n: usize = list.len();
    let mut i: usize = 0;
    while i < n
        invariant
            n == list@.len(),
            i <= n,
            forall|j: int| 0 <= j < i ==> #[trigger] list@[j]@ != v@,
        decreases n - i,
    {
        if str_eq(list[i].as_str(), v) {
            return true;
        }
        i = i + 1;
    }
    false
}

fn list_substr_of(list: &Vec<String>, v: &str) -> (r: bool)
    ensures
        r == spec_list_substr_of(list@, v@),
{
    let n: usize = list.len();
    let mut i: usize = 0;
    while i < n
        invariant
            n == list@.len(),
            i <= n,
            forall|j: int| 0 <= j < i ==> !spec_contains_substr(v@, #[trigger] list@[j]@),
        decreases n - i,
    {
        if str_contains(v, list[i].as_str()) {
            return true;
        }
        i = i + 1;
    }
    false
}

impl FilterRules {
    /// Whether any content-based rule is configured, so that the pane's
    /// buffer identity must be fetched at all.
    pub fn needs_buffer_info(&self) -> (r: bool)
        ensures
            r == spec_needs_buffer_info(*self),
    {
        self.bo.filetype.len() > 0 || self.bo.buftype.len() > 0
            || self.file_path_contains.len() > 0 || self.file_name_contains.len() > 0
    }

    /// Whether the pane described by `meta` takes part in the pick. Pure: no
    /// mutation, and no error unless a content rule needs the pane's buffer
    /// identity and the host could not supply it.
    pub fn filter(&self, meta: &PaneMeta) -> (r: Result<bool, FilterError>)
        ensures
            r matches Ok(keep) ==> !spec_filter_errs(*self, *meta) && keep == spec_keeps(
                *self,
                *meta,
            ),
            r matches Err(e) ==> spec_filter_errs(*self, *meta) && e
                == FilterError::BufferInfoUnavailable,
    {
        if !self.include_current_win && meta.is_current {
            return Ok(false);
        }
        let layout = match &meta.layout {
            Some(l) => l,
            None => {
                return Ok(false);
            },
        };
        if !self.include_unfocusable_windows && !layout.focusable {
            return Ok(false);
        }
        if !self.include_floating && layout.floating {
            return Ok(false);
        }
        if !self.needs_buffer_info() {
            return Ok(true);
        }
        let buffer = match &meta.buffer {
            Some(b) => b,
            None => {
                return Err(FilterError::BufferInfoUnavailable);
            },
        };
        if let Some(ft) = &buffer.filetype {
            if list_has(&self.bo.filetype, ft.as_str()) {
                return Ok(false);
            }
        }
        if let Some(bt) = &buffer.buftype {
            if list_has(&self.bo.buftype, bt.as_str()) {
                return Ok(false);
            }
        }
        if let Some(p) = &buffer.file_path {
            if list_substr_of(&self.file_path_contains, p.as_str()) {
                return Ok(false);
            }
        }
        if let Some(n) = &buffer.file_name {
            if list_substr_of(&self.file_name_contains, n.as_str()) {
                return Ok(false);
            }
        }
        Ok(true)
    }
}

/// The candidate set induced by the rules over an enumeration of panes: the
/// ids of the panes the filter keeps, in enumeration order.
pub open spec fn spec_candidates(r: FilterRules, metas: Seq<PaneMeta>) -> Seq<PaneId>
    decreases metas.len(),
{
    if metas.len() == 0 {
        Seq::empty()
    } else {
        let prefix = spec_candidates(r, metas.drop_last());
        if spec_keeps(r, metas.last()) {
            prefix.push(metas.last().id)
        } else {
            prefix
        }
    }
}

/// The filter errs on at least one of the panes.
pub open spec fn spec_some_filter_errs(r: FilterRules, metas: Seq<PaneMeta>) -> bool {
    exists|i: int| 0 <= i < metas.len() && spec_filter_errs(r, #[trigger] metas[i])
}

/// Filtering is deterministic and order-preserving: the candidate set is the
/// enumeration order filtered down to the kept panes, nothing reordered and
/// nothing added.
pub proof fn lemma_candidates_are_filtered(r: FilterRules, metas: Seq<PaneMeta>)
    ensures
        spec_candidates(r, metas) == metas.filter(|m: PaneMeta| spec_keeps(r, m)).map_values(
            |m: PaneMeta| m.id,
        ),
    decreases metas.len(),
{
    reveal(Seq::filter);
    let pred = |m: PaneMeta| spec_keeps(r, m);
    let f = |m: PaneMeta| m.id;
    if metas.len() == 0 {
        assert(spec_candidates(r, metas) =~= metas.filter(pred).map_values(f));
    } else {
        lemma_candidates_are_filtered(r, metas.drop_last());
        if spec_keeps(r, metas.last()) {
            assert(metas.filter(pred) == metas.drop_last().filter(pred).push(metas.last()));
            assert(metas.filter(pred).map_values(f) =~= metas.drop_last().filter(pred).map_values(
                f,
            ).push(metas.last().id));
        } else {
            assert(metas.filter(pred) == metas.drop_last().filter(pred));
        }
    }
}

/// Run the filter over every pane, in order, and collect the candidate set.
/// Fails on the first pane the filter errs on.
pub fn filter_candidates(rules: &FilterRules, panes: &Vec<PaneMeta>) -> (r: Result<
    Vec<PaneId>,
    FilterError,
>)
    ensures
        r matches Ok(ids) ==> ids@ == spec_candidates(*rules, panes@) && !spec_some_filter_errs(
            *rules,
            panes@,
        ),
        r matches Err(e) ==> spec_some_filter_errs(*rules, panes@) && e
            == FilterError::BufferInfoUnavailable,
{
    let n: usize = panes.len();
    let mut ids: Vec<PaneId> = Vec::new();
    let mut i: usize = 0;
    while i < n
        invariant
            n == panes@.len(),
            i <= n,
            ids@ == spec_candidates(*rules, panes@.subrange(0, i as int)),
            forall|k: int| 0 <= k < i ==> !spec_filter_errs(*rules, #[trigger] panes@[k]),
        decreases n - i,
    {
        let keep = match rules.filter(&panes[i]) {
            Ok(k) => k,
            Err(e) => {
                return Err(e);
            },
        };
        if keep {
            ids.push(panes[i].id);
        }
        proof {
            let prefix = panes@.subrange(0, i as int);
            let next = panes@.subrange(0, i + 1);
            assert(next.drop_last() =~= prefix);
            assert(next.last() == panes@[i as int]);
        }
        i = i + 1;
    }
    proof {
        assert(panes@.subrange(0, n as int) =~= panes@);
    }
    Ok(ids)
}

} // verus!
