use vstd::prelude::*;

verus! {

/// Glyphs per line of the font texture.
pub const CHARS_PER_LINE: usize = 31;

/// Vertices (two triangles) per glyph.
pub const VERTICES_PER_GLYPH: i32 = 6;

/// The text renderer: its shader program, the vertex array holding one quad
/// per glyph of the font, and the font texture.
pub struct DrawText {
    pub shader: u32,
    pub vao: u32,
    pub texture: u32,
}

/// The low byte of a character's code, which is what the renderer reads.
pub open spec fn low_byte(c: char) -> int {
    (c as int) % 256
}

/// Whether a character is drawn (rather than only taking up room).
pub open spec fn drawn(c: char) -> bool {
    low_byte(c) > 32
}

/// Whether a character can be drawn at all: the renderer cannot place a
/// character above '_' whose low byte lies below '`' (its offset would be
/// negative).
pub open spec fn drawable(c: char) -> bool {
    drawn(c) && c > '_' ==> low_byte(c) >= 96
}

/// The first vertex of the glyph of a drawn character. Capitals and
/// `[\]^_` are on the second line of the font, lower case, '`' and `{|}~` on
/// the third, punctuation and digits on the first, with '-' sitting one place
/// left of where its code would put it (on the quad of ',') and '@' one past
/// the first line (on the quad of 'A').
pub open spec fn spec_glyph_first_vertex(c: char) -> int {
    if 'A' <= c && c <= '_' {
        31 * 6 + (low_byte(c) - 65) * 6
    } else if c > '_' {
        31 * 6 * 2 + (low_byte(c) - 96) * 6
    } else if c == '-' {
        (45 - 34) * 6
    } else {
        (low_byte(c) - 33) * 6
    }
}

fn low_byte_exec(c: char) -> (b: u32)
    ensures
        b == low_byte(c),
{
    (c as u32) % 256
}

/// The first vertex of the glyph of `c`, or `None` for a character that is
/// not drawn (space, newline and other control characters).
pub fn glyph_first_vertex(c: char) -> (v: Option<i32>)
    requires
        drawable(c),
    ensures
        drawn(c) ==> v == Some(spec_glyph_first_vertex(c) as i32),
        !drawn(c) ==> v == None::<i32>,
{
    let b = low_byte_exec(c);
    if b <= 32 {
        return None;
    }
    let triangles: i32 = if c >= 'A' && c <= '_' {
        let abcdefg = b - 65;
        31 * 6 + abcdefg as i32 * 6
    } else if c > '_' {
        let abcdefg = b - 96;
        31 * 6 * 2 + abcdefg as i32 * 6
    } else if c == '-' {
        let abcdefg: u32 = 45 - 34;
        abcdefg as i32 * 6
    } else {
        let abcdefg = b - 33;
        abcdefg as i32 * 6
    };
    Some(triangles)
}

/// A glyph to draw: its column and line (counted from the text's start) and
/// the first vertex of its quad in the font's vertex array.
#[derive(PartialEq, Eq, Structural, Clone, Copy, Debug)]
pub struct Glyph {
    pub column: i32,
    pub line: i32,
    pub first_vertex: i32,
}

/// Laying out text: the glyphs so far, the column of the next character and
/// its line. Every character takes a column; a newline (low byte 10) starts
/// the next line at column 0.
pub open spec fn layout(s: Seq<char>) -> (Seq<Glyph>, int, int)
    decreases s.len(),
{
    if s.len() == 0 {
        (Seq::empty(), 0, 0)
    } else {
        let (glyphs, letter, line) = layout(s.drop_last());
        let c = s.last();
        let glyphs2 = if drawn(c) {
            glyphs.push(
                Glyph { column: letter as i32, line: line as i32, first_vertex: spec_glyph_first_vertex(c) as i32 },
            )
        } else {
            glyphs
        };
        if low_byte(c) == 10 {
            (glyphs2, 0, line + 1)
        } else {
            (glyphs2, letter + 1, line)
        }
    }
}

proof fn lemma_layout_bounds(s: Seq<char>)
    ensures
        0 <= layout(s).1 <= s.len(),
        0 <= layout(s).2 <= s.len(),
        layout(s).0.len() <= s.len(),
    decreases s.len(),
{
    if s.len() > 0 {
        lemma_layout_bounds(s.drop_last());
    }
}

/// The glyphs of `message`, in order, with their places.
pub fn layout_text(message: &str) -> (glyphs: Vec<Glyph>)
    requires
        message@.len() < i32::MAX,
        forall|i: int| 0 <= i < message@.len() ==> drawable(#[trigger] message@[i]),
    ensures
        glyphs@ == layout(message@).0,
{
    let n = message.unicode_len();
    let mut glyphs: Vec<Glyph> = Vec::new();
    let mut letter: i32 = 0;
    let mut line: i32 = 0;
    let mut i: usize = 0;
    while i < n
        invariant
            n == message@.len(),
            n < i32::MAX,
            i <= n,
            forall|j: int| 0 <= j < message@.len() ==> drawable(#[trigger] message@[j]),
            (glyphs@, letter as int, line as int) == layout(message@.take(i as int)),
        decreases n - i,
    {
        let c = message.get_char(i);
        proof {
            assert(message@.take(i + 1).drop_last() =~= message@.take(i as int));
            assert(message@.take(i + 1).last() == c);
            lemma_layout_bounds(message@.take(i as int));
        }
        let g = glyph_first_vertex(c);
        match g {
            Some(first_vertex) => {
                glyphs.push(Glyph { column: letter, line, first_vertex });
            },
            None => {},
        }
        letter = letter + 1;
        if low_byte_exec(c) == 10 {
            letter = 0;
            line = line + 1;
        }
        i = i + 1;
    }
    assert(message@.take(n as int) =~= message@);
    glyphs
}

/// Every printable ASCII character has a glyph inside the font's 93 quads.
pub proof fn law_printable_glyphs_lie_in_the_font(c: char)
    requires
        '!' <= c <= '~',
    ensures
        drawn(c),
        drawable(c),
        0 <= spec_glyph_first_vertex(c) <= 92 * 6,
        spec_glyph_first_vertex(c) % 6 == 0,
{
}

/// Where each printable character's quad is: a character below 'A' other
/// than '-' at 6 vertices per place counted from '!', '-' on the quad of
/// ',', capitals and `[\]^_` from vertex 186 counted from 'A', and the rest
/// from vertex 372 counted from '`'. Apart from '-' and '@', which share a
/// quad with ',' and 'A', no two printable characters share a quad.
pub proof fn law_glyph_quads_of_printable_characters(c: char, d: char)
    requires
        '!' <= c <= '~',
        '!' <= d <= '~',
    ensures
        c < 'A' && c != '-' ==> spec_glyph_first_vertex(c) == (c as int - 33) * 6,
        c == '-' ==> spec_glyph_first_vertex(c) == spec_glyph_first_vertex(','),
        'A' <= c <= '_' ==> spec_glyph_first_vertex(c) == 186 + (c as int - 65) * 6,
        '_' < c ==> spec_glyph_first_vertex(c) == 372 + (c as int - 96) * 6,
        c != d && c != '-' && d != '-' && c != '@' && d != '@' ==> spec_glyph_first_vertex(c)
            != spec_glyph_first_vertex(d),
{
    assert(low_byte(c) == c as int);
    assert(low_byte(d) == d as int);
    assert(low_byte(',') == 44);
}

/// Lines of glyphs in the font texture.
pub const CHAR_LINES: usize = 3;

/// Where the quad of the glyph in column `x` and row `y` of the font texture
/// sits in the font's vertex array, counted in quads: the rows are stored
/// from the last to the first.
pub open spec fn spec_glyph_slot(x: int, y: int) -> int {
    (CHAR_LINES - 1 - y) * (CHARS_PER_LINE as int) + x
}

/// The quad slot of the glyph in column `x` and row `y` of the font texture.
pub fn glyph_slot(x: usize, y: usize) -> (slot: usize)
    requires
        x < CHARS_PER_LINE,
        y < CHAR_LINES,
    ensures
        slot == spec_glyph_slot(x as int, y as int),
        slot < CHAR_LINES * (CHARS_PER_LINE as int),
{
    (CHAR_LINES - 1 - y) * 31 + x
}

/// The 93 glyphs of the font fill the 93 quads of the vertex array, each
/// in a quad of its own.
pub proof fn law_glyph_slots_fill_the_font(x1: int, y1: int, x2: int, y2: int)
    requires
        0 <= x1 < CHARS_PER_LINE,
        0 <= y1 < CHAR_LINES,
        0 <= x2 < CHARS_PER_LINE,
        0 <= y2 < CHAR_LINES,
    ensures
        0 <= spec_glyph_slot(x1, y1) < 93,
        spec_glyph_slot(x1, y1) == spec_glyph_slot(x2, y2) ==> x1 == x2 && y1 == y2,
{
}

} // verus!
