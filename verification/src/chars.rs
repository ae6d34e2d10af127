//! The hint glyph table: a fixed ASCII-art rendering for each character the
//! big-letter hint style can display. A static data resource; the only
//! algorithmic content is which characters have a rendering.

use vstd::prelude::*;

verus! {

/// A character was asked for that the big-letter table cannot render.
#[derive(Clone, Copy, Debug, PartialEq, Eq, Structural)]
pub enum GlyphError {
    NoGlyph(char),
}

/// The characters with a big-letter rendering: ASCII letters (either case),
/// digits, and the semicolon.
pub open spec fn spec_has_glyph(c: char) -> bool {
    ('a' <= c && c <= 'z') || ('A' <= c && c <= 'Z') || ('0' <= c && c <= '9') || c == ';'
}

/// Whether the big-letter table can render the character.
pub fn has_glyph(c: char) -> (r: bool)
    ensures
        r == spec_has_glyph(c),
{
    ('a' <= c && c <= 'z') || ('A' <= c && c <= 'Z') || ('0' <= c && c <= '9') || c == ';'
}

/// The ASCII-art lines for a character's big-letter rendering: six lines for
/// letters and digits, four for the semicolon, each eleven cells wide. Fails
/// exactly on characters outside the table.
pub fn char_to_lines(ch: char) -> (r: Result<Vec<&'static str>, GlyphError>)
    ensures
        r.is_ok() == spec_has_glyph(ch),
        r matches Ok(lines) ==> lines@.len() == (if ch == ';' {
            4int
        } else {
            6int
        }) && (forall|i: int| 0 <= i < lines@.len() ==> (#[trigger] lines@[i])@.len() == 11),
        r matches Err(e) ==> e == GlyphError::NoGlyph(ch),
{
    match ch {
        'a' | 'A' => {
            let lines = vec![
                "  █████╗   ",
                " ██╔══██╗  ",
                " ███████║  ",
                " ██╔══██║  ",
                " ██║  ██║  ",
                " ╚═╝  ╚═╝  ",
            ];
            proof {
                reveal_strlit("  █████╗   ");
                reveal_strlit(" ██╔══██╗  ");
                reveal_strlit(" ███████║  ");
                reveal_strlit(" ██╔══██║  ");
                reveal_strlit(" ██║  ██║  ");
                reveal_strlit(" ╚═╝  ╚═╝  ");
            }
            assert(lines@[0]@.len() == 11);
            assert(lines@[1]@.len() == 11);
            assert(lines@[2]@.len() == 11);
            assert(lines@[3]@.len() == 11);
            assert(lines@[4]@.len() == 11);
            assert(lines@[5]@.len() == 11);
            Ok(lines)
        },
        'b' | 'B' => {
            let lines = vec![
                " ██████╗   ",
                " ██╔══██╗  ",
                " ██████╔╝  ",
                " ██╔══██╗  ",
                " ██████╔╝  ",
                " ╚═════╝   ",
            ];
            proof {
                reveal_strlit(" ██████╗   ");
                reveal_strlit(" ██╔══██╗  ");
                reveal_strlit(" ██████╔╝  ");
                reveal_strlit(" ██╔══██╗  ");
                reveal_strlit(" ██████╔╝  ");
                reveal_strlit(" ╚═════╝   ");
            }
            assert(lines@[0]@.len() == 11);
            assert(lines@[1]@.len() == 11);
            assert(lines@[2]@.len() == 11);
            assert(lines@[3]@.len() == 11);
            assert(lines@[4]@.len() == 11);
            assert(lines@[5]@.len() == 11);
            Ok(lines)
        },
        'c' | 'C' => {
            let lines = vec![
                "  ██████╗  ",
                " ██╔════╝  ",
                " ██║       ",
                " ██║       ",
                "  ██████╗  ",
                "  ╚═════╝  ",
            ];
            proof {
                reveal_strlit("  ██████╗  ");
                reveal_strlit(" ██╔════╝  ");
                reveal_strlit(" ██║       ");
                reveal_strlit(" ██║       ");
                reveal_strlit("  ██████╗  ");
                reveal_strlit("  ╚═════╝  ");
            }
            assert(lines@[0]@.len() == 11);
            assert(lines@[1]@.len() == 11);
            assert(lines@[2]@.len() == 11);
            assert(lines@[3]@.len() == 11);
            assert(lines@[4]@.len() == 11);
            assert(lines@[5]@.len() == 11);
            Ok(lines)
        },
        'd' | 'D' => {
            let lines = vec![
                " ██████╗   ",
                " ██╔══██╗  ",
                " ██║  ██║  ",
                " ██║  ██║  ",
                " ██████╔╝  ",
                " ╚═════╝   ",
            ];
            proof {
                reveal_strlit(" ██████╗   ");
                reveal_strlit(" ██╔══██╗  ");
                reveal_strlit(" ██║  ██║  ");
                reveal_strlit(" ██║  ██║  ");
                reveal_strlit(" ██████╔╝  ");
                reveal_strlit(" ╚═════╝   ");
            }
            assert(lines@[0]@.len() == 11);
            assert(lines@[1]@.len() == 11);
            assert(lines@[2]@.len() == 11);
            assert(lines@[3]@.len() == 11);
            assert(lines@[4]@.len() == 11);
            assert(lines@[5]@.len() == 11);
            Ok(lines)
        },
        'e' | 'E' => {
            let lines = vec![
                " ███████╗  ",
                " ██╔════╝  ",
                " █████╗    ",
                " ██╔══╝    ",
                " ███████╗  ",
                " ╚══════╝  ",
            ];
            proof {
                reveal_strlit(" ███████╗  ");
                reveal_strlit(" ██╔════╝  ");
                reveal_strlit(" █████╗    ");
                reveal_strlit(" ██╔══╝    ");
                reveal_strlit(" ███████╗  ");
                reveal_strlit(" ╚══════╝  ");
            }
            assert(lines@[0]@.len() == 11);
            assert(lines@[1]@.len() == 11);
            assert(lines@[2]@.len() == 11);
            assert(lines@[3]@.len() == 11);
            assert(lines@[4]@.len() == 11);
            assert(lines@[5]@.len() == 11);
            Ok(lines)
        },
        'f' | 'F' => {
            let lines = vec![
                " ███████╗  ",
                " ██╔════╝  ",
                " █████╗    ",
                " ██╔══╝    ",
                " ██║       ",
                " ╚═╝       ",
            ];
            proof {
                reveal_strlit(" ███████╗  ");
                reveal_strlit(" ██╔════╝  ");
                reveal_strlit(" █████╗    ");
                reveal_strlit(" ██╔══╝    ");
                reveal_strlit(" ██║       ");
                reveal_strlit(" ╚═╝       ");
            }
            assert(lines@[0]@.len() == 11);
            assert(lines@[1]@.len() == 11);
            assert(lines@[2]@.len() == 11);
            assert(lines@[3]@.len() == 11);
            assert(lines@[4]@.len() == 11);
            assert(lines@[5]@.len() == 11);
            Ok(lines)
        },
        'g' | 'G' => {
            let lines = vec![
                " ██████╗   ",
                " ██╔════╝  ",
                " ██║ ███╗  ",
                " ██║  ██║  ",
                " ╚█████╔╝  ",
                " ╚═════╝   ",
            ];
            proof {
                reveal_strlit(" ██████╗   ");
                reveal_strlit(" ██╔════╝  ");
                reveal_strlit(" ██║ ███╗  ");
                reveal_strlit(" ██║  ██║  ");
                reveal_strlit(" ╚█████╔╝  ");
                reveal_strlit(" ╚═════╝   ");
            }
            assert(lines@[0]@.len() == 11);
            assert(lines@[1]@.len() == 11);
            assert(lines@[2]@.len() == 11);
            assert(lines@[3]@.len() == 11);
            assert(lines@[4]@.len() == 11);
            assert(lines@[5]@.len() == 11);
            Ok(lines)
        },
        'h' | 'H' => {
            let lines = vec![
                " ██╗  ██╗  ",
                " ██║  ██║  ",
                " ███████║  ",
                " ██╔══██║  ",
                " ██║  ██║  ",
                " ╚═╝  ╚═╝  ",
            ];
            proof {
                reveal_strlit(" ██╗  ██╗  ");
                reveal_strlit(" ██║  ██║  ");
                reveal_strlit(" ███████║  ");
                reveal_strlit(" ██╔══██║  ");
                reveal_strlit(" ██║  ██║  ");
                reveal_strlit(" ╚═╝  ╚═╝  ");
            }
            assert(lines@[0]@.len() == 11);
            assert(lines@[1]@.len() == 11);
            assert(lines@[2]@.len() == 11);
            assert(lines@[3]@.len() == 11);
            assert(lines@[4]@.len() == 11);
            assert(lines@[5]@.len() == 11);
            Ok(lines)
        },
        'i' | 'I' => {
            let lines = vec![
                "    ██╗    ",
                "    ██║    ",
                "    ██║    ",
                "    ██║    ",
                "    ██║    ",
                "    ╚═╝    ",
            ];
            proof {
                reveal_strlit("    ██╗    ");
                reveal_strlit("    ██║    ");
                reveal_strlit("    ██║    ");
                reveal_strlit("    ██║    ");
                reveal_strlit("    ██║    ");
                reveal_strlit("    ╚═╝    ");
            }
            assert(lines@[0]@.len() == 11);
            assert(lines@[1]@.len() == 11);
            assert(lines@[2]@.len() == 11);
            assert(lines@[3]@.len() == 11);
            assert(lines@[4]@.len() == 11);
            assert(lines@[5]@.len() == 11);
            Ok(lines)
        },
        'j' | 'J' => {
            let lines = vec![
                " ██╗       ",
                " ██║       ",
                " ██║       ",
                " ██║  ██║  ",
                " ╚█████╔╝  ",
                "  ╚════╝   ",
            ];
            proof {
                reveal_strlit(" ██╗       ");
                reveal_strlit(" ██║       ");
                reveal_strlit(" ██║       ");
                reveal_strlit(" ██║  ██║  ");
                reveal_strlit(" ╚█████╔╝  ");
                reveal_strlit("  ╚════╝   ");
            }
            assert(lines@[0]@.len() == 11);
            assert(lines@[1]@.len() == 11);
            assert(lines@[2]@.len() == 11);
            assert(lines@[3]@.len() == 11);
            assert(lines@[4]@.len() == 11);
            assert(lines@[5]@.len() == 11);
            Ok(lines)
        },
        'k' | 'K' => {
            let lines = vec![
                " ██╗  ██╗  ",
                " ██║ ██╔╝  ",
                " █████╔╝   ",
                " ██╔═██╗   ",
                " ██║  ██╗  ",
                " ╚═╝  ╚═╝  ",
            ];
            proof {
                reveal_strlit(" ██╗  ██╗  ");
                reveal_strlit(" ██║ ██╔╝  ");
                reveal_strlit(" █████╔╝   ");
                reveal_strlit(" ██╔═██╗   ");
                reveal_strlit(" ██║  ██╗  ");
                reveal_strlit(" ╚═╝  ╚═╝  ");
            }
            assert(lines@[0]@.len() == 11);
            assert(lines@[1]@.len() == 11);
            assert(lines@[2]@.len() == 11);
            assert(lines@[3]@.len() == 11);
            assert(lines@[4]@.len() == 11);
            assert(lines@[5]@.len() == 11);
            Ok(lines)
        },
        'l' | 'L' => {
            let lines = vec![
                " ██╗       ",
                " ██║       ",
                " ██║       ",
                " ██║       ",
                " ███████╗  ",
                " ╚══════╝  ",
            ];
            proof {
                reveal_strlit(" ██╗       ");
                reveal_strlit(" ██║       ");
                reveal_strlit(" ██║       ");
                reveal_strlit(" ██║       ");
                reveal_strlit(" ███████╗  ");
                reveal_strlit(" ╚══════╝  ");
            }
            assert(lines@[0]@.len() == 11);
            assert(lines@[1]@.len() == 11);
            assert(lines@[2]@.len() == 11);
            assert(lines@[3]@.len() == 11);
            assert(lines@[4]@.len() == 11);
            assert(lines@[5]@.len() == 11);
            Ok(lines)
        },
        'm' | 'M' => {
            let lines = vec![
                "███╗   ███╗",
                "████╗ ████║",
                "██╔████╔██║",
                "██║╚██╔╝██║",
                "██║ ╚═╝ ██║",
                "╚═╝     ╚═╝",
            ];
            proof {
                reveal_strlit("███╗   ███╗");
                reveal_strlit("████╗ ████║");
                reveal_strlit("██╔████╔██║");
                reveal_strlit("██║╚██╔╝██║");
                reveal_strlit("██║ ╚═╝ ██║");
                reveal_strlit("╚═╝     ╚═╝");
            }
            assert(lines@[0]@.len() == 11);
            assert(lines@[1]@.len() == 11);
            assert(lines@[2]@.len() == 11);
            assert(lines@[3]@.len() == 11);
            assert(lines@[4]@.len() == 11);
            assert(lines@[5]@.len() == 11);
            Ok(lines)
        },
        'n' | 'N' => {
            let lines = vec![
                "███╗   ██╗ ",
                "████╗  ██║ ",
                "██╔██╗ ██║ ",
                "██║╚██╗██║ ",
                "██║ ╚████║ ",
                "╚═╝  ╚═══╝ ",
            ];
            proof {
                reveal_strlit("███╗   ██╗ ");
                reveal_strlit("████╗  ██║ ");
                reveal_strlit("██╔██╗ ██║ ");
                reveal_strlit("██║╚██╗██║ ");
                reveal_strlit("██║ ╚████║ ");
                reveal_strlit("╚═╝  ╚═══╝ ");
            }
            assert(lines@[0]@.len() == 11);
            assert(lines@[1]@.len() == 11);
            assert(lines@[2]@.len() == 11);
            assert(lines@[3]@.len() == 11);
            assert(lines@[4]@.len() == 11);
            assert(lines@[5]@.len() == 11);
            Ok(lines)
        },
        'o' | 'O' => {
            let lines = vec![
                "  ██████╗  ",
                " ██╔═══██╗ ",
                " ██║   ██║ ",
                " ██║   ██║ ",
                " ╚██████╔╝ ",
                "  ╚═════╝  ",
            ];
            proof {
                reveal_strlit("  ██████╗  ");
                reveal_strlit(" ██╔═══██╗ ");
                reveal_strlit(" ██║   ██║ ");
                reveal_strlit(" ██║   ██║ ");
                reveal_strlit(" ╚██████╔╝ ");
                reveal_strlit("  ╚═════╝  ");
            }
            assert(lines@[0]@.len() == 11);
            assert(lines@[1]@.len() == 11);
            assert(lines@[2]@.len() == 11);
            assert(lines@[3]@.len() == 11);
            assert(lines@[4]@.len() == 11);
            assert(lines@[5]@.len() == 11);
            Ok(lines)
        },
        'p' | 'P' => {
            let lines = vec![
                "  ██████╗  ",
                "  ██╔══██╗ ",
                "  ██████╔╝ ",
                "  ██╔═══╝  ",
                "  ██║      ",
                "  ╚═╝      ",
            ];
            proof {
                reveal_strlit("  ██████╗  ");
                reveal_strlit("  ██╔══██╗ ");
                reveal_strlit("  ██████╔╝ ");
                reveal_strlit("  ██╔═══╝  ");
                reveal_strlit("  ██║      ");
                reveal_strlit("  ╚═╝      ");
            }
            assert(lines@[0]@.len() == 11);
            assert(lines@[1]@.len() == 11);
            assert(lines@[2]@.len() == 11);
            assert(lines@[3]@.len() == 11);
            assert(lines@[4]@.len() == 11);
            assert(lines@[5]@.len() == 11);
            Ok(lines)
        },
        'q' | 'Q' => {
            let lines = vec![
                " ██████╗   ",
                " ██╔═══██╗ ",
                " ██║   ██║ ",
                " ██║▄▄ ██║ ",
                " ╚██████╔╝ ",
                "  ╚══▀▀═╝  ",
            ];
            proof {
                reveal_strlit(" ██████╗   ");
                reveal_strlit(" ██╔═══██╗ ");
                reveal_strlit(" ██║   ██║ ");
                reveal_strlit(" ██║▄▄ ██║ ");
                reveal_strlit(" ╚██████╔╝ ");
                reveal_strlit("  ╚══▀▀═╝  ");
            }
            assert(lines@[0]@.len() == 11);
            assert(lines@[1]@.len() == 11);
            assert(lines@[2]@.len() == 11);
            assert(lines@[3]@.len() == 11);
            assert(lines@[4]@.len() == 11);
            assert(lines@[5]@.len() == 11);
            Ok(lines)
        },
        'r' | 'R' => {
            let lines = vec![
                " ██████╗   ",
                " ██╔══██╗  ",
                " ██████╔╝  ",
                " ██╔══██╗  ",
                " ██║  ██║  ",
                " ╚═╝  ╚═╝  ",
            ];
            proof {
                reveal_strlit(" ██████╗   ");
                reveal_strlit(" ██╔══██╗  ");
                reveal_strlit(" ██████╔╝  ");
                reveal_strlit(" ██╔══██╗  ");
                reveal_strlit(" ██║  ██║  ");
                reveal_strlit(" ╚═╝  ╚═╝  ");
            }
            assert(lines@[0]@.len() == 11);
            assert(lines@[1]@.len() == 11);
            assert(lines@[2]@.len() == 11);
            assert(lines@[3]@.len() == 11);
            assert(lines@[4]@.len() == 11);
            assert(lines@[5]@.len() == 11);
            Ok(lines)
        },
        's' | 'S' => {
            let lines = vec![
                " ███████╗  ",
                " ██╔════╝  ",
                " ███████╗  ",
                " ╚════██║  ",
                " ███████║  ",
                " ╚══════╝  ",
            ];
            proof {
                reveal_strlit(" ███████╗  ");
                reveal_strlit(" ██╔════╝  ");
                reveal_strlit(" ███████╗  ");
                reveal_strlit(" ╚════██║  ");
                reveal_strlit(" ███████║  ");
                reveal_strlit(" ╚══════╝  ");
            }
            assert(lines@[0]@.len() == 11);
            assert(lines@[1]@.len() == 11);
            assert(lines@[2]@.len() == 11);
            assert(lines@[3]@.len() == 11);
            assert(lines@[4]@.len() == 11);
            assert(lines@[5]@.len() == 11);
            Ok(lines)
        },
        't' | 'T' => {
            let lines = vec![
                " ████████╗ ",
                " ╚══██╔══╝ ",
                "    ██║    ",
                "    ██║    ",
                "    ██║    ",
                "    ╚═╝    ",
            ];
            proof {
                reveal_strlit(" ████████╗ ");
                reveal_strlit(" ╚══██╔══╝ ");
                reveal_strlit("    ██║    ");
                reveal_strlit("    ██║    ");
                reveal_strlit("    ██║    ");
                reveal_strlit("    ╚═╝    ");
            }
            assert(lines@[0]@.len() == 11);
            assert(lines@[1]@.len() == 11);
            assert(lines@[2]@.len() == 11);
            assert(lines@[3]@.len() == 11);
            assert(lines@[4]@.len() == 11);
            assert(lines@[5]@.len() == 11);
            Ok(lines)
        },
        'u' | 'U' => {
            let lines = vec![
                " ██╗   ██╗ ",
                " ██║   ██║ ",
                " ██║   ██║ ",
                " ██║   ██║ ",
                " ╚██████╔╝ ",
                "  ╚═════╝  ",
            ];
            proof {
                reveal_strlit(" ██╗   ██╗ ");
                reveal_strlit(" ██║   ██║ ");
                reveal_strlit(" ██║   ██║ ");
                reveal_strlit(" ██║   ██║ ");
                reveal_strlit(" ╚██████╔╝ ");
                reveal_strlit("  ╚═════╝  ");
            }
            assert(lines@[0]@.len() == 11);
            assert(lines@[1]@.len() == 11);
            assert(lines@[2]@.len() == 11);
            assert(lines@[3]@.len() == 11);
            assert(lines@[4]@.len() == 11);
            assert(lines@[5]@.len() == 11);
            Ok(lines)
        },
        'v' | 'V' => {
            let lines = vec![
                " ██╗   ██╗ ",
                " ██║   ██║ ",
                " ██║   ██║ ",
                " ╚██╗ ██╔╝ ",
                "  ╚████╔╝  ",
                "   ╚═══╝   ",
            ];
            proof {
                reveal_strlit(" ██╗   ██╗ ");
                reveal_strlit(" ██║   ██║ ");
                reveal_strlit(" ██║   ██║ ");
                reveal_strlit(" ╚██╗ ██╔╝ ");
                reveal_strlit("  ╚████╔╝  ");
                reveal_strlit("   ╚═══╝   ");
            }
            assert(lines@[0]@.len() == 11);
            assert(lines@[1]@.len() == 11);
            assert(lines@[2]@.len() == 11);
            assert(lines@[3]@.len() == 11);
            assert(lines@[4]@.len() == 11);
            assert(lines@[5]@.len() == 11);
            Ok(lines)
        },
        'w' | 'W' => {
            let lines = vec![
                "██╗    ██╗ ",
                "██║    ██║ ",
                "██║ █╗ ██║ ",
                "██║███╗██║ ",
                "╚███╔███╔╝ ",
                " ╚══╝╚══╝  ",
            ];
            proof {
                reveal_strlit("██╗    ██╗ ");
                reveal_strlit("██║    ██║ ");
                reveal_strlit("██║ █╗ ██║ ");
                reveal_strlit("██║███╗██║ ");
                reveal_strlit("╚███╔███╔╝ ");
                reveal_strlit(" ╚══╝╚══╝  ");
            }
            assert(lines@[0]@.len() == 11);
            assert(lines@[1]@.len() == 11);
            assert(lines@[2]@.len() == 11);
            assert(lines@[3]@.len() == 11);
            assert(lines@[4]@.len() == 11);
            assert(lines@[5]@.len() == 11);
            Ok(lines)
        },
        'x' | 'X' => {
            let lines = vec![
                " ██╗  ██╗  ",
                " ╚██╗██╔╝  ",
                "  ╚███╔╝   ",
                "  ██╔██╗   ",
                " ██╔╝ ██╗  ",
                " ╚═╝  ╚═╝  ",
            ];
            proof {
                reveal_strlit(" ██╗  ██╗  ");
                reveal_strlit(" ╚██╗██╔╝  ");
                reveal_strlit("  ╚███╔╝   ");
                reveal_strlit("  ██╔██╗   ");
                reveal_strlit(" ██╔╝ ██╗  ");
                reveal_strlit(" ╚═╝  ╚═╝  ");
            }
            assert(lines@[0]@.len() == 11);
            assert(lines@[1]@.len() == 11);
            assert(lines@[2]@.len() == 11);
            assert(lines@[3]@.len() == 11);
            assert(lines@[4]@.len() == 11);
            assert(lines@[5]@.len() == 11);
            Ok(lines)
        },
        'y' | 'Y' => {
            let lines = vec![
                " ██╗   ██╗ ",
                " ╚██╗ ██╔╝ ",
                "  ╚████╔╝  ",
                "   ╚██╔╝   ",
                "    ██║    ",
                "    ╚═╝    ",
            ];
            proof {
                reveal_strlit(" ██╗   ██╗ ");
                reveal_strlit(" ╚██╗ ██╔╝ ");
                reveal_strlit("  ╚████╔╝  ");
                reveal_strlit("   ╚██╔╝   ");
                reveal_strlit("    ██║    ");
                reveal_strlit("    ╚═╝    ");
            }
            assert(lines@[0]@.len() == 11);
            assert(lines@[1]@.len() == 11);
            assert(lines@[2]@.len() == 11);
            assert(lines@[3]@.len() == 11);
            assert(lines@[4]@.len() == 11);
            assert(lines@[5]@.len() == 11);
            Ok(lines)
        },
        'z' | 'Z' => {
            let lines = vec![
                " ███████╗  ",
                " ╚══███╔╝  ",
                "   ███╔╝   ",
                "  ███╔╝    ",
                " ███████╗  ",
                " ╚══════╝  ",
            ];
            proof {
                reveal_strlit(" ███████╗  ");
                reveal_strlit(" ╚══███╔╝  ");
                reveal_strlit("   ███╔╝   ");
                reveal_strlit("  ███╔╝    ");
                reveal_strlit(" ███████╗  ");
                reveal_strlit(" ╚══════╝  ");
            }
            assert(lines@[0]@.len() == 11);
            assert(lines@[1]@.len() == 11);
            assert(lines@[2]@.len() == 11);
            assert(lines@[3]@.len() == 11);
            assert(lines@[4]@.len() == 11);
            assert(lines@[5]@.len() == 11);
            Ok(lines)
        },
        '0' => {
            let lines = vec![
                " ██████╗   ",
                " ██╔═████╗ ",
                " ██║██╔██║ ",
                " ████╔╝██║ ",
                " ╚██████╔╝ ",
                "  ╚═════╝  ",
            ];
            proof {
                reveal_strlit(" ██████╗   ");
                reveal_strlit(" ██╔═████╗ ");
                reveal_strlit(" ██║██╔██║ ");
                reveal_strlit(" ████╔╝██║ ");
                reveal_strlit(" ╚██████╔╝ ");
                reveal_strlit("  ╚═════╝  ");
            }
            assert(lines@[0]@.len() == 11);
            assert(lines@[1]@.len() == 11);
            assert(lines@[2]@.len() == 11);
            assert(lines@[3]@.len() == 11);
            assert(lines@[4]@.len() == 11);
            assert(lines@[5]@.len() == 11);
            Ok(lines)
        },
        '1' => {
            let lines = vec![
                "    ██╗    ",
                "   ███║    ",
                "   ╚██║    ",
                "    ██║    ",
                "    ██║    ",
                "    ╚═╝    ",
            ];
            proof {
                reveal_strlit("    ██╗    ");
                reveal_strlit("   ███║    ");
                reveal_strlit("   ╚██║    ");
                reveal_strlit("    ██║    ");
                reveal_strlit("    ██║    ");
                reveal_strlit("    ╚═╝    ");
            }
            assert(lines@[0]@.len() == 11);
            assert(lines@[1]@.len() == 11);
            assert(lines@[2]@.len() == 11);
            assert(lines@[3]@.len() == 11);
            assert(lines@[4]@.len() == 11);
            assert(lines@[5]@.len() == 11);
            Ok(lines)
        },
        '2' => {
            let lines = vec![
                " ██████╗   ",
                " ╚════██╗  ",
                "  █████╔╝  ",
                " ██╔═══╝   ",
                " ███████╗  ",
                " ╚══════╝  ",
            ];
            proof {
                reveal_strlit(" ██████╗   ");
                reveal_strlit(" ╚════██╗  ");
                reveal_strlit("  █████╔╝  ");
                reveal_strlit(" ██╔═══╝   ");
                reveal_strlit(" ███████╗  ");
                reveal_strlit(" ╚══════╝  ");
            }
            assert(lines@[0]@.len() == 11);
            assert(lines@[1]@.len() == 11);
            assert(lines@[2]@.len() == 11);
            assert(lines@[3]@.len() == 11);
            assert(lines@[4]@.len() == 11);
            assert(lines@[5]@.len() == 11);
            Ok(lines)
        },
        '3' => {
            let lines = vec![
                " ██████╗   ",
                " ╚════██╗  ",
                "  █████╔╝  ",
                "  ╚═══██╗  ",
                " ██████╔╝  ",
                " ╚═════╝   ",
            ];
            proof {
                reveal_strlit(" ██████╗   ");
                reveal_strlit(" ╚════██╗  ");
                reveal_strlit("  █████╔╝  ");
                reveal_strlit("  ╚═══██╗  ");
                reveal_strlit(" ██████╔╝  ");
                reveal_strlit(" ╚═════╝   ");
            }
            assert(lines@[0]@.len() == 11);
            assert(lines@[1]@.len() == 11);
            assert(lines@[2]@.len() == 11);
            assert(lines@[3]@.len() == 11);
            assert(lines@[4]@.len() == 11);
            assert(lines@[5]@.len() == 11);
            Ok(lines)
        },
        '4' => {
            let lines = vec![
                " ██╗  ██╗  ",
                " ██║  ██║  ",
                " ███████║  ",
                " ╚════██║  ",
                "      ██║  ",
                "      ╚═╝  ",
            ];
            proof {
                reveal_strlit(" ██╗  ██╗  ");
                reveal_strlit(" ██║  ██║  ");
                reveal_strlit(" ███████║  ");
                reveal_strlit(" ╚════██║  ");
                reveal_strlit("      ██║  ");
                reveal_strlit("      ╚═╝  ");
            }
            assert(lines@[0]@.len() == 11);
            assert(lines@[1]@.len() == 11);
            assert(lines@[2]@.len() == 11);
            assert(lines@[3]@.len() == 11);
            assert(lines@[4]@.len() == 11);
            assert(lines@[5]@.len() == 11);
            Ok(lines)
        },
        '5' => {
            let lines = vec![
                " ███████╗  ",
                " ██╔════╝  ",
                " ███████╗  ",
                " ╚════██║  ",
                " ███████║  ",
                " ╚══════╝  ",
            ];
            proof {
                reveal_strlit(" ███████╗  ");
                reveal_strlit(" ██╔════╝  ");
                reveal_strlit(" ███████╗  ");
                reveal_strlit(" ╚════██║  ");
                reveal_strlit(" ███████║  ");
                reveal_strlit(" ╚══════╝  ");
            }
            assert(lines@[0]@.len() == 11);
            assert(lines@[1]@.len() == 11);
            assert(lines@[2]@.len() == 11);
            assert(lines@[3]@.len() == 11);
            assert(lines@[4]@.len() == 11);
            assert(lines@[5]@.len() == 11);
            Ok(lines)
        },
        '6' => {
            let lines = vec![
                " ██████╗   ",
                " ██╔════╝  ",
                " ███████╗  ",
                " ██╔═══██╗ ",
                " ╚██████╔╝ ",
                "  ╚═════╝  ",
            ];
            proof {
                reveal_strlit(" ██████╗   ");
                reveal_strlit(" ██╔════╝  ");
                reveal_strlit(" ███████╗  ");
                reveal_strlit(" ██╔═══██╗ ");
                reveal_strlit(" ╚██████╔╝ ");
                reveal_strlit("  ╚═════╝  ");
            }
            assert(lines@[0]@.len() == 11);
            assert(lines@[1]@.len() == 11);
            assert(lines@[2]@.len() == 11);
            assert(lines@[3]@.len() == 11);
            assert(lines@[4]@.len() == 11);
            assert(lines@[5]@.len() == 11);
            Ok(lines)
        },
        '7' => {
            let lines = vec![
                " ███████╗  ",
                " ╚════██║  ",
                "     ██╔╝  ",
                "    ██╔╝   ",
                "    ██║    ",
                "    ╚═╝    ",
            ];
            proof {
                reveal_strlit(" ███████╗  ");
                reveal_strlit(" ╚════██║  ");
                reveal_strlit("     ██╔╝  ");
                reveal_strlit("    ██╔╝   ");
                reveal_strlit("    ██║    ");
                reveal_strlit("    ╚═╝    ");
            }
            assert(lines@[0]@.len() == 11);
            assert(lines@[1]@.len() == 11);
            assert(lines@[2]@.len() == 11);
            assert(lines@[3]@.len() == 11);
            assert(lines@[4]@.len() == 11);
            assert(lines@[5]@.len() == 11);
            Ok(lines)
        },
        '8' => {
            let lines = vec![
                "   █████╗  ",
                "  ██╔══██╗ ",
                "  ╚█████╔╝ ",
                "  ██╔══██╗ ",
                "  ╚█████╔╝ ",
                "   ╚════╝  ",
            ];
            proof {
                reveal_strlit("   █████╗  ");
                reveal_strlit("  ██╔══██╗ ");
                reveal_strlit("  ╚█████╔╝ ");
                reveal_strlit("  ██╔══██╗ ");
                reveal_strlit("  ╚█████╔╝ ");
                reveal_strlit("   ╚════╝  ");
            }
            assert(lines@[0]@.len() == 11);
            assert(lines@[1]@.len() == 11);
            assert(lines@[2]@.len() == 11);
            assert(lines@[3]@.len() == 11);
            assert(lines@[4]@.len() == 11);
            assert(lines@[5]@.len() == 11);
            Ok(lines)
        },
        '9' => {
            let lines = vec![
                "  █████╗   ",
                " ██╔══██╗  ",
                " ╚██████║  ",
                "  ╚═══██║  ",
                "  █████╔╝  ",
                "  ╚════╝   ",
            ];
            proof {
                reveal_strlit("  █████╗   ");
                reveal_strlit(" ██╔══██╗  ");
                reveal_strlit(" ╚██████║  ");
                reveal_strlit("  ╚═══██║  ");
                reveal_strlit("  █████╔╝  ");
                reveal_strlit("  ╚════╝   ");
            }
            assert(lines@[0]@.len() == 11);
            assert(lines@[1]@.len() == 11);
            assert(lines@[2]@.len() == 11);
            assert(lines@[3]@.len() == 11);
            assert(lines@[4]@.len() == 11);
            assert(lines@[5]@.len() == 11);
            Ok(lines)
        },
        ';' => {
            let lines = vec![
                "    ██╗    ",
                "    ╚═╝    ",
                "    ▄█╗    ",
                "    ▀═╝    ",
            ];
            proof {
                reveal_strlit("    ██╗    ");
                reveal_strlit("    ╚═╝    ");
                reveal_strlit("    ▄█╗    ");
                reveal_strlit("    ▀═╝    ");
            }
            assert(lines@[0]@.len() == 11);
            assert(lines@[1]@.len() == 11);
            assert(lines@[2]@.len() == 11);
            assert(lines@[3]@.len() == 11);
            Ok(lines)
        },
        unk => Err(GlyphError::NoGlyph(unk)),
    }
}

} // verus!
