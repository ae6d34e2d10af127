//! The hint style: how hint glyphs are painted on candidate panes.

use vstd::prelude::*;
use crate::text::str_eq;

verus! {

/// A hint style name that the library does not know.
#[derive(Clone, Copy, Debug, PartialEq, Eq, Structural)]
pub enum HintError {
    UnknownHint,
}

/// The two hint styles: a large ASCII-art letter, or a small three-cell
/// letter, each painted on a transient floating surface.
#[derive(Clone, Copy, Debug, PartialEq, Eq, Structural)]
pub enum Hint {
    FloatingBigLetter,
    FloatingLetter,
}

impl Default for Hint {
    /// The big-letter style is the default.
    fn default() -> (r: Self)
        ensures
            r == Hint::FloatingBigLetter,
    {
        Hint::FloatingBigLetter
    }
}

impl Hint {
    /// Parse a style name; exactly `"floating-big-letter"` and
    /// `"floating-letter"` are known.
    pub fn from_str(test: &str) -> (r: Result<Self, HintError>)
        ensures
            test@ == "floating-big-letter"@ ==> r == Ok::<Hint, HintError>(
                Hint::FloatingBigLetter,
            ),
            test@ == "floating-letter"@ ==> r == Ok::<Hint, HintError>(Hint::FloatingLetter),
            test@ != "floating-big-letter"@ && test@ != "floating-letter"@ ==> r == Err::<
                Hint,
                HintError,
            >(HintError::UnknownHint),
    {
        proof {
            reveal_strlit("floating-big-letter");
            reveal_strlit("floating-letter");
            assert("floating-big-letter"@.len() == 19);
            assert("floating-letter"@.len() == 15);
        }
        if str_eq(test, "floating-big-letter") {
            Ok(Hint::FloatingBigLetter)
        } else if str_eq(test, "floating-letter") {
            Ok(Hint::FloatingLetter)
        } else {
            Err(HintError::UnknownHint)
        }
    }
}

} // verus!
