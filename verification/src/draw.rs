//! The overlay renderer's verified core: the hint assignment that ties the
//! Nth hint character to the Nth candidate pane and the Nth drawn surface,
//! keystroke resolution over that assignment, the exact shape of each
//! overlay surface, and the cleanup obligation.
//!
//! The host layer creates and closes the actual surfaces; it records every
//! surface it creates in the [`Drawer`] and closes exactly what
//! [`Drawer::clear`] hands back.

use vstd::prelude::*;
use vstd::string::*;
use crate::{PaneId, SurfaceId};
use crate::chars::{char_to_lines, spec_has_glyph};
use crate::geometry::{
    get_overlay_centered_position,
    spec_centered,
    spec_indicator_points,
    spec_positions_order,
    IndicatorPoint,
    LayoutError,
    Positions,
    WindowDimensions,
};
use crate::opts::spec_valid_selection_chars;
use crate::text::{eq_ignore_ascii_case, hint_line, spec_eq_ignore_ascii_case};

verus! {

/// The layout box a big-letter glyph is centered within, in cells.
pub const BIG_CHAR_WIDTH: u32 = 18;

/// The layout box a big-letter glyph is centered within, in cells.
pub const BIG_CHAR_HEIGHT: u32 = 8;

/// Drawing a hint fails only on a character without a rendering.
#[derive(Clone, Copy, Debug, PartialEq, Eq, Structural)]
pub enum DrawError {
    NoGlyph(char),
}

/// Everything the host needs to create one overlay surface: its size, its
/// placement relative to the anchor pane (in whole cells), and its content.
#[derive(Clone, Debug)]
pub struct SurfaceSpec {
    pub width: u32,
    pub height: u32,
    pub row: u32,
    pub col: u32,
    pub lines: Vec<String>,
}

/// One directional indicator: a character at one of the nine positions, in
/// quarter-cell units.
#[derive(Clone, Debug)]
pub struct IndicatorSpec {
    pub ch: char,
    pub pos: IndicatorPoint,
    pub width: u32,
    pub height: u32,
    pub line: String,
}

/// The least index at or after `k`, below `n` and within `chars`, whose
/// character matches `user` up to ASCII case.
pub open spec fn spec_first_match_from(chars: Seq<char>, n: int, user: char, k: int) -> Option<
    int,
>
    decreases n - k,
{
    if k < 0 || k >= n || k >= chars.len() {
        None
    } else if spec_eq_ignore_ascii_case(chars[k], user) {
        Some(k)
    } else {
        spec_first_match_from(chars, n, user, k + 1)
    }
}

/// The least index below `n` whose character matches `user` up to ASCII
/// case.
pub open spec fn spec_first_match(chars: Seq<char>, n: int, user: char) -> Option<int> {
    spec_first_match_from(chars, n, user, 0)
}

/// What a typed character resolves to over an assignment of `chars` to
/// `targets`, considering only the first `n` pairs.
pub open spec fn spec_resolve(chars: Seq<char>, targets: Seq<PaneId>, n: int, user: char) -> Option<
    PaneId,
> {
    match spec_first_match(chars, n, user) {
        Some(i) => if 0 <= i < targets.len() {
            Some(targets[i])
        } else {
            None
        },
        None => None,
    }
}

proof fn lemma_first_match_from_finds(chars: Seq<char>, n: int, user: char, k: int, i: int)
    requires
        0 <= k <= i < n,
        n <= chars.len(),
        spec_eq_ignore_ascii_case(chars[i], user),
        forall|j: int| k <= j < i ==> !spec_eq_ignore_ascii_case(#[trigger] chars[j], user),
    ensures
        spec_first_match_from(chars, n, user, k) == Some(i),
    decreases i - k,
{
    if k < i {
        lemma_first_match_from_finds(chars, n, user, k + 1, i);
    }
}

proof fn lemma_first_match_from_sound(chars: Seq<char>, n: int, user: char, k: int)
    requires
        0 <= k,
    ensures
        spec_first_match_from(chars, n, user, k) matches Some(i) ==> k <= i < n && i < chars.len()
            && spec_eq_ignore_ascii_case(chars[i], user),
        spec_first_match_from(chars, n, user, k) is None ==> forall|j: int|
            k <= j < n && j < chars.len() ==> !spec_eq_ignore_ascii_case(#[trigger] chars[j], user),
    decreases n - k,
{
    if !(k < 0 || k >= n || k >= chars.len()) && !spec_eq_ignore_ascii_case(chars[k], user) {
        lemma_first_match_from_sound(chars, n, user, k + 1);
    }
}

/// For hint characters with no two alike up to ASCII case, resolution is a
/// bijection between the first `n` characters and the first `n` targets, for
/// every typed case variant: any variant of the `i`th character resolves to
/// the `i`th target, and anything that resolves at all resolves that way.
pub proof fn lemma_resolution_bijection(chars: Seq<char>, targets: Seq<PaneId>, n: int, user: char)
    requires
        spec_valid_selection_chars(chars, false),
        0 <= n <= chars.len(),
        n <= targets.len(),
    ensures
        forall|i: int|
            0 <= i < n && spec_eq_ignore_ascii_case(#[trigger] chars[i], user) ==> spec_resolve(
                chars,
                targets,
                n,
                user,
            ) == Some(targets[i]),
        spec_resolve(chars, targets, n, user) matches Some(p) ==> exists|i: int|
            0 <= i < n && spec_eq_ignore_ascii_case(#[trigger] chars[i], user) && p == targets[i],
{
    lemma_first_match_from_sound(chars, n, user, 0);
    assert forall|i: int|
        0 <= i < n && spec_eq_ignore_ascii_case(#[trigger] chars[i], user) implies spec_resolve(
        chars,
        targets,
        n,
        user,
    ) == Some(targets[i]) by {
        assert forall|j: int| 0 <= j < i implies !spec_eq_ignore_ascii_case(
            #[trigger] chars[j],
            user,
        ) by {
            assert(!spec_eq_ignore_ascii_case(chars[j], chars[i]));
        }
        lemma_first_match_from_finds(chars, n, user, 0, i);
    }
}

/// One hint assignment: the Nth character labels the Nth target pane, and
/// the Nth surface the host created displays it. The three stay
/// index-aligned for the lifetime of one render; this triple is the single
/// source of truth for keystroke resolution.
#[derive(Clone, Debug)]
pub struct Drawer {
    pub chars: Vec<char>,
    pub targets: Vec<PaneId>,
    pub drawn: Vec<SurfaceId>,
}

impl Drawer {
    /// How many hints take part in resolution: excess candidates get no hint
    /// and excess characters label nothing.
    pub open spec fn spec_pair_limit(&self) -> int {
        if self.chars@.len() <= self.targets@.len() {
            self.chars@.len() as int
        } else {
            self.targets@.len() as int
        }
    }

    /// How many hints can be resolved together with their drawn surface.
    pub open spec fn spec_drawn_limit(&self) -> int {
        if self.drawn@.len() <= self.spec_pair_limit() {
            self.drawn@.len() as int
        } else {
            self.spec_pair_limit()
        }
    }

    /// A fresh assignment over the candidate panes, with nothing drawn yet.
    pub fn new(chars: Vec<char>, targets: Vec<PaneId>) -> (r: Self)
        ensures
            r.chars == chars,
            r.targets == targets,
            r.drawn@.len() == 0,
    {
        Drawer { chars, targets, drawn: Vec::new() }
    }

    /// The number of (character, pane) pairs to draw.
    pub fn pair_count(&self) -> (r: usize)
        ensures
            r == self.spec_pair_limit(),
    {
        if self.chars.len() <= self.targets.len() {
            self.chars.len()
        } else {
            self.targets.len()
        }
    }

    /// Record a surface the host created for the next pair. The assignment
    /// itself never changes while surfaces are recorded.
    pub fn record_drawn(&mut self, surface: SurfaceId)
        ensures
            final(self).chars == old(self).chars,
            final(self).targets == old(self).targets,
            final(self).drawn@ == old(self).drawn@.push(surface),
    {
        self.drawn.push(surface);
    }

    /// The pane the typed character picks: the target aligned with the first
    /// hint character that matches it up to ASCII case.
    pub fn target_win_for_char(&self, user: char) -> (r: Option<PaneId>)
        ensures
            r == spec_resolve(self.chars@, self.targets@, self.spec_pair_limit(), user),
    {
        let n = self.pair_count();
        let mut i: usize = 0;
        while i < n
            invariant
                n == self.spec_pair_limit(),
                n <= self.chars@.len(),
                n <= self.targets@.len(),
                i <= n,
                forall|j: int|
                    0 <= j < i ==> !spec_eq_ignore_ascii_case(#[trigger] self.chars@[j], user),
            decreases n - i,
        {
            if eq_ignore_ascii_case(self.chars[i], user) {
                proof {
                    lemma_first_match_from_finds(
                        self.chars@,
                        n as int,
                        user,
                        0,
                        i as int,
                    );
                }
                return Some(self.targets[i]);
            }
            i = i + 1;
        }
        proof {
            lemma_first_match_from_sound(self.chars@, n as int, user, 0);
            let m = spec_first_match(self.chars@, n as int, user);
            if m is Some {
                assert(!spec_eq_ignore_ascii_case(self.chars@[m->Some_0], user));
            }
        }
        None
    }

    /// The pane the typed character picks, together with the surface that
    /// displays its hint; only pairs whose surface was recorded resolve.
    pub fn target_and_drawn_win_for_char(&self, user: char) -> (r: Option<(PaneId, SurfaceId)>)
        ensures
            r matches Some(p) ==> spec_first_match(self.chars@, self.spec_drawn_limit(), user)
                matches Some(i) && p.0 == self.targets@[i] && p.1 == self.drawn@[i],
            r is None ==> spec_first_match(self.chars@, self.spec_drawn_limit(), user) is None,
    {
        let pairs = self.pair_count();
        let n: usize = if self.drawn.len() <= pairs {
            self.drawn.len()
        } else {
            pairs
        };
        let mut i: usize = 0;
        while i < n
            invariant
                n == self.spec_drawn_limit(),
                n <= self.chars@.len(),
                n <= self.targets@.len(),
                n <= self.drawn@.len(),
                i <= n,
                forall|j: int|
                    0 <= j < i ==> !spec_eq_ignore_ascii_case(#[trigger] self.chars@[j], user),
            decreases n - i,
        {
            if eq_ignore_ascii_case(self.chars[i], user) {
                proof {
                    lemma_first_match_from_finds(
                        self.chars@,
                        n as int,
                        user,
                        0,
                        i as int,
                    );
                }
                return Some((self.targets[i], self.drawn[i]));
            }
            i = i + 1;
        }
        proof {
            lemma_first_match_from_sound(self.chars@, n as int, user, 0);
            let m = spec_first_match(self.chars@, n as int, user);
            if m is Some {
                assert(!spec_eq_ignore_ascii_case(self.chars@[m->Some_0], user));
            }
        }
        None
    }

    /// Hand every recorded surface back for closing, exactly once each and
    /// in the order they were drawn, and forget them. The host closes each
    /// returned surface, attempting all of them even when one fails.
    pub fn clear(&mut self) -> (r: Vec<SurfaceId>)
        ensures
            r@ == old(self).drawn@,
            final(self).drawn@.len() == 0,
            final(self).chars == old(self).chars,
            final(self).targets == old(self).targets,
    {
        let mut out: Vec<SurfaceId> = Vec::new();
        core::mem::swap(&mut self.drawn, &mut out);
        out
    }
}

/// The largest character count over the lines.
pub open spec fn spec_max_line_len(ls: Seq<String>) -> int
    decreases ls.len(),
{
    if ls.len() == 0 {
        0
    } else {
        let rest = spec_max_line_len(ls.drop_last());
        if ls.last()@.len() > rest {
            ls.last()@.len() as int
        } else {
            rest
        }
    }
}

proof fn lemma_max_line_len_ge(ls: Seq<String>, i: int)
    requires
        0 <= i < ls.len(),
    ensures
        spec_max_line_len(ls) >= ls[i]@.len(),
    decreases ls.len(),
{
    if i < ls.len() - 1 {
        lemma_max_line_len_ge(ls.drop_last(), i);
    }
}

proof fn lemma_max_line_len_le(ls: Seq<String>, b: int)
    requires
        0 <= b,
        forall|i: int| 0 <= i < ls.len() ==> (#[trigger] ls[i])@.len() <= b,
    ensures
        spec_max_line_len(ls) <= b,
    decreases ls.len(),
{
    if ls.len() > 0 {
        lemma_max_line_len_le(ls.drop_last(), b);
    }
}

/// Center the glyph art: an empty line above and below, and one space on
/// either side of every line.
pub fn add_char_margin(lines: &[&str]) -> (r: Vec<String>)
    ensures
        r@.len() == lines@.len() + 2,
        r@[0]@.len() == 0,
        r@[r@.len() - 1]@.len() == 0,
        forall|i: int|
            0 <= i < lines@.len() ==> #[trigger] r@[i + 1]@ == seq![' '] + lines@[i]@ + seq![' '],
{
    proof {
        reveal_strlit(" ");
    }
    let n: usize = lines.len();
    let mut r: Vec<String> = Vec::new();
    r.push(String::new());
    let mut i: usize = 0;
    while i < n
        invariant
            n == lines@.len(),
            i <= n,
            r@.len() == i + 1,
            r@[0]@.len() == 0,
            forall|j: int|
                0 <= j < i ==> #[trigger] r@[j + 1]@ == seq![' '] + lines@[j]@ + seq![' '],
        decreases n - i,
    {
        let mut line = String::from_str(" ");
        line.append(lines[i]);
        line.append(" ");
        proof {
            reveal_strlit(" ");
            assert(line@ =~= seq![' '] + lines@[i as int]@ + seq![' ']);
        }
        r.push(line);
        i = i + 1;
    }
    r.push(String::new());
    r
}

/// The shape of one big-letter hint surface for a pane of the given
/// dimensions: the margined glyph art, sized to its widest line, centered
/// within the pane's fixed glyph box. Succeeds exactly on the characters
/// the glyph table renders.
pub fn big_letter_surface(dims: WindowDimensions, ch: char) -> (r: Result<SurfaceSpec, DrawError>)
    ensures
        r.is_ok() == spec_has_glyph(ch),
        r matches Err(e) ==> e == DrawError::NoGlyph(ch),
        r matches Ok(s) ==> ({
            &&& s.col == spec_centered(dims.width as int, BIG_CHAR_WIDTH as int)
            &&& s.row == spec_centered(dims.height as int, BIG_CHAR_HEIGHT as int)
            &&& s.lines@.len() == (if ch == ';' {
                6int
            } else {
                8int
            })
            &&& s.height == s.lines@.len()
            &&& s.lines@[0]@.len() == 0
            &&& s.lines@[s.lines@.len() - 1]@.len() == 0
            &&& s.width == spec_max_line_len(s.lines@)
            &&& s.width == 13
        }),
{
    let pos = get_overlay_centered_position(dims, BIG_CHAR_WIDTH, BIG_CHAR_HEIGHT);
    let glyph = match char_to_lines(ch) {
        Ok(g) => g,
        Err(_) => {
            return Err(DrawError::NoGlyph(ch));
        },
    };
    let lines = add_char_margin(glyph.as_slice());
    let mut max_len: usize = 0;
    let n: usize = lines.len();
    let mut i: usize = 0;
    while i < n
        invariant
            n == lines@.len(),
            i <= n,
            max_len == spec_max_line_len(lines@.subrange(0, i as int)),
        decreases n - i,
    {
        let l = lines[i].as_str().unicode_len();
        if l > max_len {
            max_len = l;
        }
        proof {
            assert(lines@.subrange(0, i + 1).drop_last() =~= lines@.subrange(0, i as int));
        }
        i = i + 1;
    }
    proof {
        assert(lines@.subrange(0, n as int) =~= lines@);
        assert forall|k: int| 0 <= k < lines@.len() implies (#[trigger] lines@[k])@.len()
            <= 13 by {
            if 0 < k < lines@.len() - 1 {
                let j = k - 1;
                assert(lines@[j + 1]@ == seq![' '] + glyph@[j]@ + seq![' ']);
            }
        }
        lemma_max_line_len_le(lines@, 13);
        let j0 = 0int;
        assert(lines@[j0 + 1]@ == seq![' '] + glyph@[j0]@ + seq![' ']);
        lemma_max_line_len_ge(lines@, 1);
    }
    let width: u32 = max_len as u32;
    let height: u32 = n as u32;
    Ok(SurfaceSpec { width, height, row: pos.y, col: pos.x, lines })
}

/// The shape of one small-letter hint surface: a three-cell line holding the
/// character, anchored at the same centered position the big-letter box
/// uses.
pub fn small_letter_surface(dims: WindowDimensions, ch: char) -> (r: SurfaceSpec)
    ensures
        r.width == 3,
        r.height == 1,
        r.col == spec_centered(dims.width as int, BIG_CHAR_WIDTH as int),
        r.row == spec_centered(dims.height as int, BIG_CHAR_HEIGHT as int),
        r.lines@.len() == 1,
        r.lines@[0]@ == seq![' ', ch, ' '],
{
    let pos = get_overlay_centered_position(dims, BIG_CHAR_WIDTH, BIG_CHAR_HEIGHT);
    let mut lines: Vec<String> = Vec::new();
    lines.push(hint_line(ch));
    SurfaceSpec { width: 3, height: 1, row: pos.y, col: pos.x, lines }
}

/// The directional indicators to draw inside one pane: one small surface per
/// available character, at the nine computed positions, in position
/// enumeration order. Fails exactly when the pane cannot hold the three-cell
/// indicator box.
/// Build one directional indicator: its character, its quarter-cell
/// position, the fixed three-by-one box, and the one-line body.
fn indicator_for(ch: char, pos: IndicatorPoint) -> (r: IndicatorSpec)
    ensures
        r.ch == ch,
        r.pos == pos,
        r.width == 3,
        r.height == 1,
        r.line@ == seq![' ', ch, ' '],
{
    IndicatorSpec { ch, pos, width: 3, height: 1, line: hint_line(ch) }
}

/// The directional indicators to draw inside one pane: one small surface per
/// available character, at the nine computed positions, in position
/// enumeration order. Fails exactly when the pane cannot hold the three-cell
/// indicator box.
#[verifier::loop_isolation(false)]
pub fn indicator_specs(chars: &Vec<char>, dims: WindowDimensions) -> (r: Result<
    Vec<IndicatorSpec>,
    LayoutError,
>)
    ensures
        r.is_ok() <==> dims.width >= 3,
        r matches Ok(v) ==> {
            &&& v@.len() == (if chars@.len() <= 9 {
                chars@.len() as int
            } else {
                9int
            })
            &&& forall|i: int|
                0 <= i < v@.len() ==> {
                    let overlay = (WindowDimensions { width: 3, height: 1 });
                    &&& (#[trigger] v@[i]).ch == chars@[i]
                    &&& v@[i].pos.x_quarters == spec_indicator_points(dims, overlay)[i].0
                    &&& v@[i].pos.y_quarters == spec_indicator_points(dims, overlay)[i].1
                    &&& v@[i].width == 3
                    &&& v@[i].height == 1
                    &&& v@[i].line@ == seq![' ', chars@[i], ' ']
                }
        },
{
    let overlay = WindowDimensions { width: 3, height: 1 };
    let points = match Positions::calculate_indicator_positions(dims, overlay) {
        Ok(p) => p,
        Err(e) => {
            return Err(e);
        },
    };
    let n: usize = if chars.len() <= 9 {
        chars.len()
    } else {
        9
    };
    let mut v: Vec<IndicatorSpec> = Vec::new();
    let mut i: usize = 0;
    while i < n
        invariant
            v@.len() == i,
            i <= n,
            forall|k: int|
                0 <= k < i ==> {
                    let overlay = (WindowDimensions { width: 3, height: 1 });
                    &&& (#[trigger] v@[k]).ch == chars@[k]
                    &&& v@[k].pos.x_quarters == spec_indicator_points(dims, overlay)[k].0
                    &&& v@[k].pos.y_quarters == spec_indicator_points(dims, overlay)[k].1
                    &&& v@[k].width == 3
                    &&& v@[k].height == 1
                    &&& v@[k].line@ == seq![' ', chars@[k], ' ']
                },
        decreases n - i,
    {
        let ind = indicator_for(chars[i], points[i]);
        v.push(ind);
        i = i + 1;
    }
    Ok(v)
}

/// The position the typed character picks during a directional pick: the
/// position aligned with the first matching character, in position
/// enumeration order.
pub fn pos_for_char(chars: &Vec<char>, user: char) -> (r: Option<Positions>)
    ensures
        r matches Some(p) ==> spec_first_match(
            chars@,
            if chars@.len() <= 9 {
                chars@.len() as int
            } else {
                9int
            },
            user,
        ) matches Some(i) && p == spec_positions_order()[i],
        r is None ==> spec_first_match(
            chars@,
            if chars@.len() <= 9 {
                chars@.len() as int
            } else {
                9int
            },
            user,
        ) is None,
{
    let positions = Positions::iter();
    let n: usize = if chars.len() <= 9 {
        chars.len()
    } else {
        9
    };
    let mut i: usize = 0;
    while i < n
        invariant
            n <= chars@.len(),
            n <= 9,
            n == (if chars@.len() <= 9 {
                chars@.len() as int
            } else {
                9int
            }),
            positions@ == spec_positions_order(),
            i <= n,
            forall|j: int|
                0 <= j < i ==> !spec_eq_ignore_ascii_case(#[trigger] chars@[j], user),
        decreases n - i,
    {
        if eq_ignore_ascii_case(chars[i], user) {
            proof {
                lemma_first_match_from_finds(chars@, n as int, user, 0, i as int);
            }
            return Some(positions[i]);
        }
        i = i + 1;
    }
    proof {
        lemma_first_match_from_sound(chars@, n as int, user, 0);
        let m = spec_first_match(chars@, n as int, user);
        if m is Some {
            assert(!spec_eq_ignore_ascii_case(chars@[m->Some_0], user));
        }
    }
    None
}

} // verus!
