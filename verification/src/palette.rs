//! The set of candidate characters that glyphs are drawn from.

use vstd::prelude::*;
use crate::rng::rand_below;

verus! {

/// The default palette: the 94 visible single-byte characters, `'!'` (code
/// 33) through `'~'` (code 126), in ascending order.
pub open spec fn is_default_palette(s: Seq<char>) -> bool {
    &&& s.len() == 94
    &&& forall|i: int| 0 <= i < 94 ==> (#[trigger] s[i]) as u32 == 33 + i
}

/// An ordered, never-empty sequence of candidate characters. If no list is
/// configured, or an empty one, the default visible-character set stands in.
pub struct GlyphPalette {
    chars: Vec<char>,
}

impl View for GlyphPalette {
    type V = Seq<char>;

    closed spec fn view(&self) -> Seq<char> {
        self.chars@
    }
}

impl GlyphPalette {
    /// Builds the palette from the configured character list, if any. A
    /// missing or empty list falls back to the default visible-character
    /// set, so the palette is never empty.
    pub fn new(configured: Option<Vec<char>>) -> (p: Self)
        ensures
            p@.len() >= 1,
            match configured {
                Some(cs) => if cs@.len() > 0 {
                    p@ == cs@
                } else {
                    is_default_palette(p@)
                },
                None => is_default_palette(p@),
            },
    {
        match configured {
            Some(cs) => if cs.len() > 0 {
                GlyphPalette { chars: cs }
            } else {
                GlyphPalette { chars: default_chars() }
            },
            None => GlyphPalette { chars: default_chars() },
        }
    }

    /// A uniformly random member of the palette; never a character outside
    /// the configured set.
    pub fn random_char(&self) -> (c: char)
        requires
            self@.len() >= 1,
        ensures
            self@.contains(c),
    {
        let i: u64 = rand_below(self.chars.len() as u64);
        let c = self.chars[i as usize];
        proof {
            assert(self@[i as int] == c);
        }
        c
    }

    /// How many characters the palette holds.
    pub fn len(&self) -> (n: usize)
        ensures
            n == self@.len(),
    {
        self.chars.len()
    }

    /// The character at a given position, for callers that want to inspect
    /// the configured set.
    pub fn char_at(&self, i: usize) -> (c: char)
        requires
            i < self@.len(),
        ensures
            c == self@[i as int],
    {
        self.chars[i]
    }
}

/// The default character list: codes 33 through 126 in ascending order.
fn default_chars() -> (v: Vec<char>)
    ensures
        is_default_palette(v@),
{
    let mut v: Vec<char> = Vec::new();
    let mut c: u8 = 33;
    while c <= 126
        invariant
            33 <= c <= 127,
            v@.len() == c - 33,
            forall|i: int| 0 <= i < v@.len() ==> (#[trigger] v@[i]) as u32 == 33 + i,
        decreases 127 - c,
    {
        v.push(c as char);
        c += 1;
    }
    v
}

} // verus!
