use vstd::prelude::*;
use crate::vram::VramBufferInfo;

verus! {

/// Width in pixels of one character cell.
pub const GLYPH_WIDTH: i64 = 8;

/// Height in pixels of one line of text.
pub const LINE_HEIGHT: i64 = 16;

/// Colour in which text is drawn: white.
pub const TEXT_COLOR: u32 = 0xffffff;

/// One character to be drawn: its top-left corner, its colour and the character.
#[derive(Clone, Copy, Debug, PartialEq, Eq, Structural)]
pub struct Glyph {
    pub x: i64,
    pub y: i64,
    pub color: u32,
    pub c: char,
}

/// A glyph as placed by the layout: its top-left corner, as mathematical
/// integers, and the character.
pub type GlyphPlacement = (int, int, char);

/// Where the cursor ends and which characters are drawn where.
pub struct TextLayout {
    pub x: int,
    pub y: int,
    pub glyphs: Seq<GlyphPlacement>,
}

/// Lays out `s` with the cursor starting at `(x, y)`: a line feed moves the
/// cursor to the start of the next line and draws nothing; any other
/// character is drawn at the cursor, which then moves one cell right.
pub open spec fn spec_text_layout(x: int, y: int, s: Seq<char>) -> TextLayout
    decreases s.len(),
{
    if s.len() == 0 {
        TextLayout { x: x, y: y, glyphs: Seq::empty() }
    } else {
        let prev = spec_text_layout(x, y, s.drop_last());
        let c = s.last();
        if c == '\n' {
            TextLayout { x: 0, y: prev.y + LINE_HEIGHT, glyphs: prev.glyphs }
        } else {
            TextLayout {
                x: prev.x + GLYPH_WIDTH,
                y: prev.y,
                glyphs: prev.glyphs.push((prev.x, prev.y, c)),
            }
        }
    }
}

/// Whether a cursor position can be held in the writer's `i64` fields.
pub open spec fn spec_cursor_in_range(x: int, y: int) -> bool {
    i64::MIN <= x <= i64::MAX && i64::MIN <= y <= i64::MAX
}

/// Whether the cursor stays within `i64` after every character of `s`,
/// starting at `(x, y)`.
pub open spec fn spec_layout_fits(x: int, y: int, s: Seq<char>) -> bool {
    forall|i: int|
        0 <= i <= s.len() ==> {
            let l = #[trigger] spec_text_layout(x, y, s.take(i));
            spec_cursor_in_range(l.x, l.y)
        }
}

/// A glyph to draw agrees with its placement and is drawn in the text colour.
pub open spec fn spec_glyph_matches(g: Glyph, p: GlyphPlacement) -> bool {
    g.x == p.0 && g.y == p.1 && g.c == p.2 && g.color == TEXT_COLOR
}

/// The glyphs to draw are exactly the placed ones, in order.
pub open spec fn spec_glyphs_match(gs: Seq<Glyph>, ps: Seq<GlyphPlacement>) -> bool {
    gs.len() == ps.len() && forall|i: int|
        0 <= i < gs.len() ==> spec_glyph_matches(#[trigger] gs[i], ps[i])
}

proof fn lemma_glyphs_match_push(
    gs: Seq<Glyph>,
    ps: Seq<GlyphPlacement>,
    g: Glyph,
    p: GlyphPlacement,
)
    requires
        spec_glyphs_match(gs, ps),
        spec_glyph_matches(g, p),
    ensures
        spec_glyphs_match(gs.push(g), ps.push(p)),
{
    assert forall|k: int| 0 <= k < gs.push(g).len() implies spec_glyph_matches(
        #[trigger] gs.push(g)[k],
        ps.push(p)[k],
    ) by {
        if k < gs.len() {
            assert(gs.push(g)[k] == gs[k]);
            assert(ps.push(p)[k] == ps[k]);
        }
    }
}

/// Laying out two pieces of text one after the other is laying out their
/// concatenation: the second piece starts where the first left the cursor,
/// and the glyphs of the two follow each other.
pub proof fn lemma_layout_concat(x: int, y: int, s1: Seq<char>, s2: Seq<char>)
    ensures
        ({
            let l1 = spec_text_layout(x, y, s1);
            let l2 = spec_text_layout(l1.x, l1.y, s2);
            let l = spec_text_layout(x, y, s1 + s2);
            l.x == l2.x && l.y == l2.y && l.glyphs == l1.glyphs + l2.glyphs
        }),
    decreases s2.len(),
{
    let l1 = spec_text_layout(x, y, s1);
    if s2.len() == 0 {
        assert(s1 + s2 =~= s1);
        assert(l1.glyphs + Seq::<GlyphPlacement>::empty() =~= l1.glyphs);
    } else {
        lemma_layout_concat(x, y, s1, s2.drop_last());
        assert((s1 + s2).drop_last() =~= s1 + s2.drop_last());
        assert((s1 + s2).last() == s2.last());
        let p2 = spec_text_layout(l1.x, l1.y, s2.drop_last());
        if s2.last() != '\n' {
            let g = (p2.x, p2.y, s2.last());
            assert(l1.glyphs + p2.glyphs.push(g) =~= (l1.glyphs + p2.glyphs).push(g));
        }
    }
}

/// Each character other than a line feed is drawn exactly at the cursor that
/// the text before it left, and moves the cursor exactly one 8-pixel cell to
/// the right on the same line; a line feed draws nothing and moves the
/// cursor to column 0, 16 pixels down.
pub proof fn lemma_layout_step(x: int, y: int, s: Seq<char>, c: char)
    ensures
        ({
            let before = spec_text_layout(x, y, s);
            let after = spec_text_layout(x, y, s.push(c));
            &&& c != '\n' ==> after.x == before.x + 8 && after.y == before.y && after.glyphs
                == before.glyphs.push((before.x, before.y, c))
            &&& c == '\n' ==> after.x == 0 && after.y == before.y + 16 && after.glyphs
                == before.glyphs
        }),
{
    assert(s.push(c).drop_last() =~= s);
}

/// Text without line feeds is drawn on one line: its `i`-th character at
/// `8 * i` pixels right of the starting cursor, and the cursor ends `8`
/// pixels right per character.
pub proof fn lemma_layout_single_line(x: int, y: int, s: Seq<char>)
    requires
        !s.contains('\n'),
    ensures
        spec_text_layout(x, y, s).x == x + 8 * s.len(),
        spec_text_layout(x, y, s).y == y,
        spec_text_layout(x, y, s).glyphs == Seq::new(s.len(), |i: int| (x + 8 * i, y, s[i])),
    decreases s.len(),
{
    if s.len() > 0 {
        let t = s.drop_last();
        assert(!t.contains('\n')) by {
            if t.contains('\n') {
                let j = choose|j: int| 0 <= j < t.len() && t[j] == '\n';
                assert(s[j] == '\n');
            }
        }
        assert(s.last() != '\n') by {
            assert(s[s.len() - 1] == s.last());
        }
        lemma_layout_single_line(x, y, t);
        assert(spec_text_layout(x, y, s).glyphs =~= Seq::new(
            s.len(),
            |i: int| (x + 8 * i, y, s[i]),
        ));
    } else {
        assert(spec_text_layout(x, y, s).glyphs =~= Seq::new(
            s.len(),
            |i: int| (x + 8 * i, y, s[i]),
        ));
    }
}

/// After a line feed the cursor is at the start of a line, one line below
/// where it was before the line feed.
pub proof fn lemma_line_feed_returns(x: int, y: int, s: Seq<char>)
    ensures
        spec_text_layout(x, y, s.push('\n')).x == 0,
        spec_text_layout(x, y, s.push('\n')).y == spec_text_layout(x, y, s).y + LINE_HEIGHT,
        spec_text_layout(x, y, s.push('\n')).glyphs == spec_text_layout(x, y, s).glyphs,
{
    assert(s.push('\n').drop_last() =~= s);
}

/// Where a text writer stands: the frame buffer it draws into and its cursor.
pub struct VramTextWriterView {
    pub vram: VramBufferInfo,
    pub cursor_x: i64,
    pub cursor_y: i64,
}

/// Writes text into a frame buffer, one character cell after another,
/// starting at the top-left corner.
pub struct VramTextWriter<'a> {
    vram: &'a mut VramBufferInfo,
    cursor_x: i64,
    cursor_y: i64,
}

impl<'a> View for VramTextWriter<'a> {
    type V = VramTextWriterView;

    closed spec fn view(&self) -> VramTextWriterView {
        VramTextWriterView { vram: *self.vram, cursor_x: self.cursor_x, cursor_y: self.cursor_y }
    }
}

impl<'a> VramTextWriter<'a> {
    /// A writer for `vram` with its cursor at the top-left corner.
    pub fn new(vram: &'a mut VramBufferInfo) -> (r: Self)
        ensures
            r@.vram == *old(vram),
            r@.cursor_x == 0,
            r@.cursor_y == 0,
    {
        Self { vram, cursor_x: 0, cursor_y: 0 }
    }

    /// The frame buffer this writer draws into.
    pub fn vram(&self) -> (r: VramBufferInfo)
        ensures
            r == self@.vram,
    {
        *self.vram
    }

    /// Column of the cursor, in pixels.
    pub fn cursor_x(&self) -> (r: i64)
        ensures
            r == self@.cursor_x,
    {
        self.cursor_x
    }

    /// Row of the cursor, in pixels.
    pub fn cursor_y(&self) -> (r: i64)
        ensures
            r == self@.cursor_y,
    {
        self.cursor_y
    }

    /// Whether writing `s` keeps the cursor within `i64` at every step, that
    /// is whether `write_str` may be called with `s`.
    pub fn can_write(&self, s: &str) -> (r: bool)
        ensures
            r == spec_layout_fits(self@.cursor_x as int, self@.cursor_y as int, s@),
    {
        let ghost x0 = self.cursor_x as int;
        let ghost y0 = self.cursor_y as int;
        let ghost text = s@;
        let mut x: i64 = self.cursor_x;
        let mut y: i64 = self.cursor_y;
        proof {
            assert(text.take(0) =~= Seq::<char>::empty());
        }
        for c in it: s.chars()
            invariant
                it.seq() == text,
                s@ == text,
                x0 == self.cursor_x,
                y0 == self.cursor_y,
                x == spec_text_layout(x0, y0, text.take(it.index())).x,
                y == spec_text_layout(x0, y0, text.take(it.index())).y,
                forall|j: int|
                    0 <= j <= it.index() ==> {
                        let l = #[trigger] spec_text_layout(x0, y0, text.take(j));
                        spec_cursor_in_range(l.x, l.y)
                    },
        {
            let ghost next = spec_text_layout(x0, y0, text.take(it.index() + 1));
            proof {
                let i = it.index();
                assert(text.take(i + 1).drop_last() =~= text.take(i));
                assert(text.take(i + 1).last() == c);
            }
            if c == '\n' {
                match y.checked_add(LINE_HEIGHT) {
                    Some(ny) => {
                        y = ny;
                        x = 0;
                    },
                    None => {
                        assert(!spec_cursor_in_range(next.x, next.y));
                        return false;
                    },
                }
            } else {
                match x.checked_add(GLYPH_WIDTH) {
                    Some(nx) => {
                        x = nx;
                    },
                    None => {
                        assert(!spec_cursor_in_range(next.x, next.y));
                        return false;
                    },
                }
            }
        }
        assert(text.take(text.len() as int) =~= text);
        true
    }

    /// Moves the cursor over `s` as `spec_text_layout` lays it out and
    /// returns, in order, the glyphs to draw in the text colour. A line feed
    /// draws nothing.
    pub fn write_str(&mut self, s: &str) -> (glyphs: Vec<Glyph>)
        requires
            spec_layout_fits(old(self)@.cursor_x as int, old(self)@.cursor_y as int, s@),
        ensures
            ({
                let l = spec_text_layout(old(self)@.cursor_x as int, old(self)@.cursor_y as int, s@);
                &&& final(self)@.cursor_x == l.x
                &&& final(self)@.cursor_y == l.y
                &&& spec_glyphs_match(glyphs@, l.glyphs)
            }),
            final(self)@.vram == old(self)@.vram,
    {
        let ghost x0 = self.cursor_x as int;
        let ghost y0 = self.cursor_y as int;
        let ghost text = s@;
        let mut glyphs: Vec<Glyph> = Vec::new();
        for c in it: s.chars()
            invariant
                it.seq() == text,
                spec_layout_fits(x0, y0, text),
                ({
                    let l = spec_text_layout(x0, y0, text.take(it.index()));
                    &&& self.cursor_x == l.x
                    &&& self.cursor_y == l.y
                    &&& spec_glyphs_match(glyphs@, l.glyphs)
                }),
                *self.vram == *old(self).vram,
        {
            proof {
                let i = it.index();
                assert(text.take(i + 1).drop_last() =~= text.take(i));
                assert(text.take(i + 1).last() == c);
                let l = spec_text_layout(x0, y0, text.take(i + 1));
                assert(spec_cursor_in_range(l.x, l.y));
            }
            let ghost prev_glyphs = glyphs@;
            let ghost placed = spec_text_layout(x0, y0, text.take(it.index())).glyphs;
            if c == '\n' {
                self.cursor_y = self.cursor_y + LINE_HEIGHT;
                self.cursor_x = 0;
            } else {
                let g = Glyph { x: self.cursor_x, y: self.cursor_y, color: TEXT_COLOR, c };
                glyphs.push(g);
                proof {
                    lemma_glyphs_match_push(prev_glyphs, placed, g, (g.x as int, g.y as int, c));
                }
                self.cursor_x = self.cursor_x + GLYPH_WIDTH;
            }
        }
        assert(text.take(text.len() as int) =~= text);
        glyphs
    }
}

} // verus!
