//! Text layout with the 8x16 console font: where each character's quad goes on screen and which
//! cell of the 16x16-character font texture it shows.
use vstd::prelude::*;

verus! {

/// Width of the screen in pixels; a line wraps before a character would cross it.
pub const SCREEN_WIDTH: u16 = 640;

/// Size of a character cell in pixels.
pub const CHAR_WIDTH: u16 = 8;
pub const CHAR_HEIGHT: u16 = 16;

/// The quad of one character: screen corners and font texture coordinates (in the units the
/// vertex format uses: 1/64 of the texture).
#[derive(Clone, Copy, Debug, PartialEq, Eq, Structural)]
pub struct GlyphQuad {
    pub x0: u16,
    pub y0: u16,
    pub x1: u16,
    pub y1: u16,
    pub s0: u8,
    pub s1: u8,
    pub t0: u8,
    pub t1: u8,
}

/// The quad of character `c` at `(x, y)`: columns of the font are the low four bits, rows the
/// high four; each cell is 4 units, of which the middle 2 are shown horizontally.
pub open spec fn spec_glyph(x: u16, y: u16, c: u8) -> GlyphQuad {
    let s0 = (4 * (c % 16) + 1) as u8;
    let t0 = (4 * (c / 16)) as u8;
    GlyphQuad {
        x0: x,
        y0: y,
        x1: (x + 8) as u16,
        y1: (y + 16) as u16,
        s0,
        s1: (s0 + 2) as u8,
        t0,
        t1: (t0 + 4) as u8,
    }
}

/// Where text is drawn next.
#[derive(Clone, Copy, Debug, PartialEq, Eq, Structural)]
pub struct TextRenderer {
    pub x: u16,
    pub y: u16,
    pub left_margin: u16,
}

/// The pen after character `c`: a newline moves to the start of the next line; any other
/// character advances by one cell, and wraps when the next cell would cross the screen edge.
pub open spec fn spec_after_char(r: TextRenderer, c: u8) -> TextRenderer {
    if c == 0x0a {
        TextRenderer { x: r.left_margin, y: (r.y + 16) as u16, ..r }
    } else if r.x + 16 > SCREEN_WIDTH {
        TextRenderer { x: r.left_margin, y: (r.y + 16) as u16, ..r }
    } else {
        TextRenderer { x: (r.x + 8) as u16, ..r }
    }
}

/// The quad drawn for character `c`, none for a newline.
pub open spec fn spec_char_quad(r: TextRenderer, c: u8) -> Option<GlyphQuad> {
    if c == 0x0a {
        None
    } else {
        Some(spec_glyph(r.x, r.y, c))
    }
}

/// Whether drawing one more character cannot overflow the pen position.
pub open spec fn spec_room(r: TextRenderer, lines: nat) -> bool {
    r.x + 16 <= u16::MAX && r.left_margin + 16 <= u16::MAX && r.y + 16 * (lines + 1) <= u16::MAX
}

/// The pen after the characters of `s`, in order.
pub open spec fn spec_after_str(r: TextRenderer, s: Seq<u8>) -> TextRenderer
    decreases s.len(),
{
    if s.len() == 0 {
        r
    } else {
        spec_after_char(spec_after_str(r, s.drop_last()), s.last())
    }
}

/// The quads drawn for the characters of `s`, in order.
pub open spec fn spec_str_quads(r: TextRenderer, s: Seq<u8>) -> Seq<GlyphQuad>
    decreases s.len(),
{
    if s.len() == 0 {
        Seq::empty()
    } else {
        let before = spec_str_quads(r, s.drop_last());
        match spec_char_quad(spec_after_str(r, s.drop_last()), s.last()) {
            Some(q) => before.push(q),
            None => before,
        }
    }
}

/// After `s`, the pen has moved down at most one line per character and stays where a next
/// character fits.
pub proof fn lemma_after_str_bounds(r: TextRenderer, s: Seq<u8>)
    requires
        spec_room(r, s.len()),
    ensures
        spec_after_str(r, s).y <= r.y + 16 * s.len(),
        spec_after_str(r, s).y >= r.y,
        spec_after_str(r, s).left_margin == r.left_margin,
        spec_after_str(r, s).x + 16 <= u16::MAX,
    decreases s.len(),
{
    if s.len() > 0 {
        lemma_after_str_bounds(r, s.drop_last());
    }
}

impl TextRenderer {
    /// Moves to the start of the next line.
    pub fn new_line(&mut self)
        requires
            old(self).y + 16 <= u16::MAX,
        ensures
            *final(self) == (TextRenderer { x: old(self).left_margin, y: (old(self).y + 16) as u16, ..*old(self) }),
    {
        self.x = self.left_margin;
        self.y = self.y + 16;
    }

    /// Lays out one character: returns its quad (none for a newline) and moves the pen.
    pub fn draw_char(&mut self, c: u8) -> (r: Option<GlyphQuad>)
        requires
            spec_room(*old(self), 1),
        ensures
            r == spec_char_quad(*old(self), c),
            *final(self) == spec_after_char(*old(self), c),
    {
        if c == 0x0a {
            self.new_line();
            return None;
        }
        let x0 = self.x;
        let x1 = x0 + 8;
        let y0 = self.y;
        let y1 = y0 + 16;
        assert(((c & 0xf) << 2u8) == 4 * (c % 16) && ((c >> 4u8) << 2u8) == 4 * (c / 16))
            by (bit_vector);
        let s0 = ((c & 0xf) << 2u8) + 1;
        let s1 = s0 + 2;
        let t0 = (c >> 4u8) << 2u8;
        let t1 = t0 + 4;
        self.x = self.x + 8;
        if self.x + 8 > SCREEN_WIDTH {
            self.new_line();
        }
        Some(GlyphQuad { x0, y0, x1, y1, s0, s1, t0, t1 })
    }

    /// Lays out the characters of `s` in order and returns their quads.
    pub fn draw_str(&mut self, s: &[u8]) -> (r: Vec<GlyphQuad>)
        requires
            spec_room(*old(self), s@.len()),
        ensures
            r@ == spec_str_quads(*old(self), s@),
            *final(self) == spec_after_str(*old(self), s@),
    {
        let ghost r0 = *self;
        let mut quads: Vec<GlyphQuad> = Vec::new();
        let mut i: usize = 0;
        while i < s.len()
            invariant
                i <= s@.len(),
                spec_room(r0, s@.len()),
                *self == spec_after_str(r0, s@.subrange(0, i as int)),
                quads@ == spec_str_quads(r0, s@.subrange(0, i as int)),
            decreases s@.len() - i,
        {
            proof {
                lemma_after_str_bounds(r0, s@.subrange(0, i as int));
                assert(s@.subrange(0, i + 1).drop_last() =~= s@.subrange(0, i as int));
            }
            match self.draw_char(s[i]) {
                Some(q) => quads.push(q),
                None => {},
            }
            i = i + 1;
        }
        assert(s@.subrange(0, s@.len() as int) =~= s@);
        quads
    }
}

} // verus!
