use nvim_winpick::chars::{char_to_lines, GlyphError};
use nvim_winpick::draw::{
    add_char_margin, big_letter_surface, indicator_specs, pos_for_char, small_letter_surface,
    Drawer,
};
use nvim_winpick::geometry::{Positions, WindowDimensions};
use nvim_winpick::{PaneId, SurfaceId};

fn drawer(chars: &str, targets: &[i32]) -> Drawer {
    Drawer::new(
        chars.chars().collect(),
        targets.iter().map(|w| PaneId(*w)).collect(),
    )
}

#[test]
fn resolve_char_is_a_case_insensitive_bijection() {
    let d = drawer("ab", &[1, 2]);
    assert_eq!(d.target_win_for_char('a'), Some(PaneId(1)));
    assert_eq!(d.target_win_for_char('A'), Some(PaneId(1)));
    assert_eq!(d.target_win_for_char('b'), Some(PaneId(2)));
    assert_eq!(d.target_win_for_char('B'), Some(PaneId(2)));
    assert_eq!(d.target_win_for_char('x'), None);
}

#[test]
fn excess_candidates_are_unreachable() {
    // Three candidates, two hint characters: the third pane gets no hint.
    let d = drawer("ab", &[1, 2, 3]);
    assert_eq!(d.target_win_for_char('a'), Some(PaneId(1)));
    assert_eq!(d.target_win_for_char('b'), Some(PaneId(2)));
    assert_eq!(d.target_win_for_char('c'), None);
}

#[test]
fn excess_characters_label_nothing() {
    let d = drawer("abc", &[1]);
    assert_eq!(d.target_win_for_char('a'), Some(PaneId(1)));
    assert_eq!(d.target_win_for_char('b'), None);
}

#[test]
fn resolution_with_surface_needs_the_surface_drawn() {
    let mut d = drawer("ab", &[1, 2]);
    d.record_drawn(SurfaceId(11));
    // Only the first pair has a surface so far.
    assert_eq!(
        d.target_and_drawn_win_for_char('a'),
        Some((PaneId(1), SurfaceId(11)))
    );
    assert_eq!(d.target_and_drawn_win_for_char('b'), None);
    d.record_drawn(SurfaceId(12));
    assert_eq!(
        d.target_and_drawn_win_for_char('B'),
        Some((PaneId(2), SurfaceId(12)))
    );
}

#[test]
fn clear_hands_every_surface_back_exactly_once() {
    let mut d = drawer("ab", &[1, 2]);
    d.record_drawn(SurfaceId(11));
    d.record_drawn(SurfaceId(12));
    let to_close = d.clear();
    assert_eq!(to_close, vec![SurfaceId(11), SurfaceId(12)]);
    // Everything was handed back once; a second sweep has nothing left.
    assert_eq!(d.clear(), vec![]);
}

#[test]
fn cleanup_after_failed_render_closes_each_created_surface_once() {
    // Three pairs to draw; the host manages to create two surfaces and then
    // fails mid-render. Exactly the two created surfaces come back to be
    // closed, each once, in creation order.
    let mut d = drawer("abc", &[1, 2, 3]);
    assert_eq!(d.pair_count(), 3);
    d.record_drawn(SurfaceId(21));
    d.record_drawn(SurfaceId(22));
    // Host failure here: the third surface is never created.
    let to_close = d.clear();
    assert_eq!(to_close, vec![SurfaceId(21), SurfaceId(22)]);
    assert_eq!(d.clear(), vec![]);
}

#[test]
fn char_margin_wraps_lines_in_blank_space() {
    let lines = vec!["ab", "c"];
    let got = add_char_margin(&lines);
    assert_eq!(got, vec!["", " ab ", " c ", ""]);
}

#[test]
fn glyph_table_covers_letters_digits_and_semicolon() {
    assert_eq!(char_to_lines('a').unwrap().len(), 6);
    assert_eq!(char_to_lines('Z').unwrap().len(), 6);
    assert_eq!(char_to_lines('0').unwrap().len(), 6);
    assert_eq!(char_to_lines(';').unwrap().len(), 4);
    assert_eq!(char_to_lines('ö'), Err(GlyphError::NoGlyph('ö')));
    assert_eq!(char_to_lines('!'), Err(GlyphError::NoGlyph('!')));
}

#[test]
fn big_letter_surface_centers_the_margined_glyph() {
    let s = big_letter_surface(
        WindowDimensions {
            width: 40,
            height: 20,
        },
        'a',
    )
    .unwrap();
    assert_eq!(s.col, (40 - 18) / 2);
    assert_eq!(s.row, (20 - 8) / 2);
    assert_eq!(s.height, 8);
    assert_eq!(s.lines.len(), 8);
    // Every glyph line is eleven cells wide, plus the one-cell margin.
    assert_eq!(s.width, 13);
    assert_eq!(s.lines[0], "");
    assert_eq!(s.lines[7], "");
}

#[test]
fn big_letter_surface_rejects_unrenderable_characters() {
    let r = big_letter_surface(
        WindowDimensions {
            width: 40,
            height: 20,
        },
        'ö',
    );
    assert!(matches!(r, Err(nvim_winpick::draw::DrawError::NoGlyph('ö'))));
}

#[test]
fn small_letter_surface_is_a_three_cell_box() {
    let s = small_letter_surface(
        WindowDimensions {
            width: 40,
            height: 20,
        },
        'x',
    );
    assert_eq!((s.width, s.height), (3, 1));
    assert_eq!((s.col, s.row), ((40 - 18) / 2, (20 - 8) / 2));
    assert_eq!(s.lines, vec![" x "]);
}

#[test]
fn indicator_specs_follow_position_order() {
    let chars: Vec<char> = "abc".chars().collect();
    let specs = indicator_specs(
        &chars,
        WindowDimensions {
            width: 40,
            height: 20,
        },
    )
    .unwrap();
    assert_eq!(specs.len(), 3);
    assert_eq!(specs[0].ch, 'a');
    assert_eq!(specs[1].ch, 'b');
    assert_eq!(specs[2].ch, 'c');
    // First position: top edge, centered horizontally, in quarter cells.
    assert_eq!(specs[0].pos.x_quarters, 2 * 40 - 2 * 3);
    assert_eq!(specs[0].pos.y_quarters, 0);
    assert_eq!(specs[1].line, " b ");
    assert_eq!((specs[2].width, specs[2].height), (3, 1));
}

#[test]
fn indicator_specs_cap_at_nine_positions() {
    let chars: Vec<char> = "abcdefghijkl".chars().collect();
    let specs = indicator_specs(
        &chars,
        WindowDimensions {
            width: 40,
            height: 20,
        },
    )
    .unwrap();
    assert_eq!(specs.len(), 9);
}

#[test]
fn indicator_specs_fail_in_a_too_narrow_pane() {
    let chars: Vec<char> = "ab".chars().collect();
    assert!(indicator_specs(&chars, WindowDimensions { width: 2, height: 9 }).is_err());
}

#[test]
fn pos_for_char_zips_characters_against_position_order() {
    let chars: Vec<char> = "abcdefghi".chars().collect();
    assert_eq!(pos_for_char(&chars, 'a'), Some(Positions::TopFullHor));
    assert_eq!(pos_for_char(&chars, 'E'), Some(Positions::SplitTop));
    assert_eq!(pos_for_char(&chars, 'i'), Some(Positions::Center));
    assert_eq!(pos_for_char(&chars, 'z'), None);
    let two: Vec<char> = "ab".chars().collect();
    assert_eq!(pos_for_char(&two, 'c'), None);
}

#[test]
fn semicolon_big_letter_surface_is_shorter() {
    let s = big_letter_surface(
        WindowDimensions {
            width: 40,
            height: 20,
        },
        ';',
    )
    .unwrap();
    assert_eq!(s.height, 6);
    assert_eq!(s.width, 13);
}
