//! The frame of cell kinds and its rendering into fixed-width text rows.
//!
//! Cell kinds: 0 = empty, 1 = body segment, 2 = apple, 3 = head; any other
//! value renders as empty.
use vstd::prelude::*;
use vstd::string::StringExecFns;
use core::marker::PhantomData;

verus! {

/// Turns one cell kind into its three-character glyph.
pub trait DisplayRenderer {
    /// The characters of the glyph for a cell kind.
    spec fn spec_render(on: u8) -> Seq<char>;

    /// The glyph for a cell kind.
    fn render(on: &u8) -> (r: String)
        ensures
            r@ == Self::spec_render(*on),
    ;
}

/// The game's renderer: `[ ]` empty, `[@]` body, `[a]` apple, `[%]` head;
/// an unrecognized kind renders as empty.
pub struct SnakeRenderer {}

impl DisplayRenderer for SnakeRenderer {
    open spec fn spec_render(on: u8) -> Seq<char> {
        if on == 1 {
            "[@]"@
        } else if on == 2 {
            "[a]"@
        } else if on == 3 {
            "[%]"@
        } else {
            "[ ]"@
        }
    }

    fn render(on: &u8) -> (r: String) {
        match *on {
            1u8 => "[@]".to_owned(),
            2u8 => "[a]".to_owned(),
            3u8 => "[%]".to_owned(),
            _ => "[ ]".to_owned(),
        }
    }
}

/// A grid of cell kinds, row by row, ready to be rendered.
pub struct MyDisplay<T: DisplayRenderer> {
    pub content: Vec<Vec<u8>>,
    pub _marker: PhantomData<T>,
}

impl<T: DisplayRenderer> MyDisplay<T> {
    /// The text of one row: the glyphs of its cells, left to right.
    pub open spec fn spec_row_text(row: Seq<u8>) -> Seq<char>
        decreases row.len(),
    {
        if row.len() == 0 {
            Seq::empty()
        } else {
            Self::spec_row_text(row.drop_last()) + T::spec_render(row.last())
        }
    }

    /// Renders the grid into one text line per row; each line is the
    /// concatenation of the glyphs of that row's cells.
    pub fn draw(&self) -> (lines: Vec<String>)
        ensures
            lines@.len() == self.content@.len(),
            forall|i: int| 0 <= i < lines@.len()
                ==> lines@[i]@ == Self::spec_row_text(self.content@[i]@),
    {
        let mut lines: Vec<String> = Vec::new();
        let mut a: usize = 0;
        while a < self.content.len()
            invariant
                a <= self.content@.len(),
                lines@.len() == a,
                forall|i: int| 0 <= i < a
                    ==> lines@[i]@ == Self::spec_row_text(self.content@[i]@),
            decreases self.content@.len() - a,
        {
            let cells = &self.content[a];
            let mut row = String::new();
            let mut b: usize = 0;
            while b < cells.len()
                invariant
                    b <= cells@.len(),
                    row@ == Self::spec_row_text(cells@.take(b as int)),
                decreases cells@.len() - b,
            {
                let glyph = T::render(&cells[b]);
                row.append(glyph.as_str());
                proof {
                    assert(cells@.take(b + 1).drop_last() =~= cells@.take(b as int));
                    assert(cells@.take(b + 1).last() == cells@[b as int]);
                }
                b = b + 1;
            }
            proof {
                assert(cells@.take(cells@.len() as int) =~= cells@);
            }
            lines.push(row);
            a = a + 1;
        }
        lines
    }
}

} // verus!
