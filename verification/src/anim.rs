//! Pure animation frame generators: a frame counter in, glyphs or lines out.
//! Every generator is a function of its arguments alone.

use vstd::prelude::*;
use crate::text::{chars_of, views};

verus! {

/// The braille spinner cycle.
pub const SPINNER_FRAMES: [char; 10] = ['⠋', '⠙', '⠹', '⠸', '⠼', '⠴', '⠦', '⠧', '⠇', '⠏'];

/// Target animation frame rate: the event loop derives the frame index from
/// wall-clock time at this rate.
pub const ANIM_FPS: u64 = 30;

/// Number of frames the one-shot intro runs before [`intro_done`] holds.
pub const INTRO_TICKS: usize = 36;

/// Columns of the block-letter art.
pub const ART_COLS: usize = 17;

/// Frames over which the art is revealed; the finished poster then lingers a
/// few frames before the intro counts as done.
pub const REVEAL_TICKS: usize = INTRO_TICKS - 4;

/// The spinner glyph at a position of the cycle.
pub open spec fn spinner_glyph(i: int) -> char {
    if i == 0 { '⠋' }
    else if i == 1 { '⠙' }
    else if i == 2 { '⠹' }
    else if i == 3 { '⠸' }
    else if i == 4 { '⠼' }
    else if i == 5 { '⠴' }
    else if i == 6 { '⠦' }
    else if i == 7 { '⠧' }
    else if i == 8 { '⠇' }
    else { '⠏' }
}

/// One braille spinner glyph for `frame`, cycling through the ten glyphs.
pub fn spinner_frame(frame: usize) -> (c: char)
    ensures
        c == spinner_glyph(frame as int % 10),
        c == SPINNER_FRAMES[frame as int % 10],
{
    let i = frame % 10;
    if i == 0 { '⠋' }
    else if i == 1 { '⠙' }
    else if i == 2 { '⠹' }
    else if i == 3 { '⠸' }
    else if i == 4 { '⠼' }
    else if i == 5 { '⠴' }
    else if i == 6 { '⠦' }
    else if i == 7 { '⠧' }
    else if i == 8 { '⠇' }
    else { '⠏' }
}


/// The spinner shows a new glyph on each of nine consecutive frames and comes
/// back to the same glyph every ten frames.
pub proof fn spinner_period(f: nat, d: nat)
    ensures
        1 <= d % 10 ==> spinner_glyph(f as int % 10) != spinner_glyph((f + d) as int % 10),
        spinner_glyph(f as int % 10) == spinner_glyph((f + 10 * d) as int % 10),
{
    assert((f + 10 * d) as int % 10 == f as int % 10) by (nonlinear_arith);
    assert(1 <= d % 10 ==> (f + d) as int % 10 != f as int % 10) by (nonlinear_arith);
}

/// True once the one-shot intro has fully played.
pub fn intro_done(frame: usize) -> (done: bool)
    ensures
        done == (frame >= INTRO_TICKS),
{
    frame >= INTRO_TICKS
}

// ------------------------------------------------------------------------- //
// The block-letter "MMA" intro poster
// ------------------------------------------------------------------------- //

/// The block-letter art for "MMA", five rows of [`ART_COLS`] cells; `#` is a
/// filled cell.
pub const MMA_ART: [&'static str; 5] = [
    "#   # #   #  ### ",
    "## ## ## ## #   #",
    "# # # # # # #####",
    "#   # #   # #   #",
    "#   # #   # #   #",
];

/// Row `r` of the block-letter art: `#` is a filled cell.
pub open spec fn art_row(r: int) -> Seq<char> {
    if r == 0 { "#   # #   #  ### "@ }
    else if r == 1 { "## ## ## ## #   #"@ }
    else if r == 2 { "# # # # # # #####"@ }
    else if r == 3 { "#   # #   # #   #"@ }
    else { "#   # #   # #   #"@ }
}

fn art_row_str(r: usize) -> (s: &'static str)
    requires
        r < 5,
    ensures
        s@ == art_row(r as int),
        s@.len() == ART_COLS,
{
    proof {
        reveal_strlit("#   # #   #  ### ");
        reveal_strlit("## ## ## ## #   #");
        reveal_strlit("# # # # # # #####");
        reveal_strlit("#   # #   # #   #");
    }
    MMA_ART[r]
}

/// How many art columns (from the left) are revealed at `frame`.
pub open spec fn revealed_cols(frame: int) -> int {
    if frame >= REVEAL_TICKS {
        ART_COLS as int
    } else {
        let r = (frame * ART_COLS) / (REVEAL_TICKS as int);
        if r < ART_COLS { r } else { ART_COLS as int }
    }
}

/// One art row as shown after `revealed` columns have been slammed in:
/// filled revealed cells become `█`, everything else is blank.
pub open spec fn art_line(r: int, revealed: int) -> Seq<char> {
    Seq::new(
        ART_COLS as nat,
        |c: int|
            if c >= revealed {
                ' '
            } else if art_row(r)[c] == '#' {
                '█'
            } else {
                ' '
            },
    )
}

/// The poster's top or bottom border: a corner, a run of `═`, a corner.
pub open spec fn border(left: char, right: char) -> Seq<char> {
    seq![left] + Seq::new((ART_COLS + 2) as nat, |i: int| '═') + seq![right]
}

/// A content row inside the poster frame.
pub open spec fn framed(inner: Seq<char>) -> Seq<char> {
    seq!['║', ' '] + inner + seq![' ', '║']
}

/// A line clamped to `width` columns (`0` means no clamp).
pub open spec fn clamp_line(line: Seq<char>, width: int) -> Seq<char> {
    if width > 0 && line.len() > width {
        line.take(width)
    } else {
        line
    }
}

/// The unclamped poster at `frame`: top border, a blank row, the five art rows,
/// a blank row and the bottom border.
pub open spec fn poster(frame: int) -> Seq<Seq<char>> {
    let rev = revealed_cols(frame);
    let blank = framed(Seq::new(ART_COLS as nat, |c: int| ' '));
    seq![
        border('╔', '╗'),
        blank,
        framed(art_line(0, rev)),
        framed(art_line(1, rev)),
        framed(art_line(2, rev)),
        framed(art_line(3, rev)),
        framed(art_line(4, rev)),
        blank,
        border('╚', '╝'),
    ]
}

/// The intro lines at `frame`, each clamped to `width` columns.
pub open spec fn intro_lines(frame: int, width: int) -> Seq<Seq<char>> {
    poster(frame).map_values(|l: Seq<char>| clamp_line(l, width))
}

fn push_n(v: &mut Vec<char>, c: char, n: usize)
    ensures
        final(v)@ == old(v)@ + Seq::new(n as nat, |i: int| c),
{
    let ghost start = v@;
    let mut i: usize = 0;
    while i < n
        invariant
            i <= n,
            v@ == start + Seq::new(i as nat, |k: int| c),
        decreases n - i,
    {
        v.push(c);
        i += 1;
        assert(v@ =~= start + Seq::new(i as nat, |k: int| c));
    }
}

fn clamped_string(line: &Vec<char>, width: usize) -> (s: String)
    ensures
        s@ == clamp_line(line@, width as int),
{
    let limit = if width > 0 && line.len() > width { width } else { line.len() };
    let mut s = String::new();
    let mut i: usize = 0;
    while i < limit
        invariant
            limit <= line.len(),
            i <= limit,
            s@ == line@.take(i as int),
            limit == (if width > 0 && line.len() > width { width as int } else { line.len() as int }),
        decreases limit - i,
    {
        s.push(line[i]);
        i += 1;
        assert(s@ =~= line@.take(i as int));
    }
    assert(line@.take(line.len() as int) =~= line@);
    s
}

fn border_chars(left: char, right: char) -> (v: Vec<char>)
    ensures
        v@ == border(left, right),
{
    let mut v: Vec<char> = Vec::new();
    v.push(left);
    push_n(&mut v, '═', ART_COLS + 2);
    v.push(right);
    assert(v@ =~= border(left, right));
    v
}

fn framed_chars(inner: &Vec<char>) -> (v: Vec<char>)
    ensures
        v@ == framed(inner@),
{
    let mut v: Vec<char> = Vec::new();
    v.push('║');
    v.push(' ');
    let mut i: usize = 0;
    while i < inner.len()
        invariant
            i <= inner.len(),
            v@ == seq!['║', ' '] + inner@.take(i as int),
        decreases inner.len() - i,
    {
        v.push(inner[i]);
        i += 1;
        assert(v@ =~= seq!['║', ' '] + inner@.take(i as int));
    }
    v.push(' ');
    v.push('║');
    assert(inner@.take(inner.len() as int) =~= inner@);
    assert(v@ =~= framed(inner@));
    v
}

fn art_line_chars(r: usize, revealed: usize) -> (v: Vec<char>)
    requires
        r < 5,
    ensures
        v@ == art_line(r as int, revealed as int),
{
    let row = chars_of(art_row_str(r));
    let mut v: Vec<char> = Vec::new();
    let mut c: usize = 0;
    while c < ART_COLS
        invariant
            row@ == art_row(r as int),
            row@.len() == ART_COLS,
            c <= ART_COLS,
            v@ == art_line(r as int, revealed as int).take(c as int),
        decreases ART_COLS - c,
    {
        let ch = if c >= revealed {
            ' '
        } else if row[c] == '#' {
            '█'
        } else {
            ' '
        };
        v.push(ch);
        c += 1;
        assert(v@ =~= art_line(r as int, revealed as int).take(c as int));
    }
    assert(art_line(r as int, revealed as int).take(ART_COLS as int) =~= art_line(r as int, revealed as int));
    v
}

proof fn lemma_poster_rows(frame: int)
    ensures
        poster(frame).len() == 9,
        forall|r: int| 0 <= r < 5 ==> #[trigger] poster(frame)[r + 2] == framed(art_line(r, revealed_cols(frame))),
        poster(frame)[0] == border('╔', '╗'),
        poster(frame)[8] == border('╚', '╝'),
        poster(frame)[1] == framed(Seq::new(ART_COLS as nat, |c: int| ' ')),
        poster(frame)[7] == framed(Seq::new(ART_COLS as nat, |c: int| ' ')),
{
    let p = poster(frame);
    assert forall|r: int| 0 <= r < 5 implies #[trigger] p[r + 2] == framed(art_line(r, revealed_cols(frame))) by {
        if r == 0 {} else if r == 1 {} else if r == 2 {} else if r == 3 {} else {}
    }
}

/// The one-shot block-letter "MMA" intro, revealed left to right and framed
/// as a fight poster, with every line clamped to `width` columns (`0`: no
/// clamp).
pub fn mma_intro(frame: usize, width: usize) -> (lines: Vec<String>)
    ensures
        views(lines@) == intro_lines(frame as int, width as int),
{
    let revealed: usize = if frame >= REVEAL_TICKS {
        ART_COLS
    } else {
        let r = (frame * ART_COLS) / REVEAL_TICKS;
        if r < ART_COLS { r } else { ART_COLS }
    };
    let mut blank_inner: Vec<char> = Vec::new();
    push_n(&mut blank_inner, ' ', ART_COLS);
    let blank = framed_chars(&blank_inner);

    let ghost il = intro_lines(frame as int, width as int);
    proof {
        lemma_poster_rows(frame as int);
    }
    let mut lines: Vec<String> = Vec::new();
    lines.push(clamped_string(&border_chars('╔', '╗'), width));
    lines.push(clamped_string(&blank, width));
    let mut r: usize = 0;
    while r < 5
        invariant
            r <= 5,
            revealed == revealed_cols(frame as int),
            il == intro_lines(frame as int, width as int),
            blank@ == framed(Seq::new(ART_COLS as nat, |c: int| ' ')),
            views(lines@) == intro_lines(frame as int, width as int).take(r + 2),
        decreases 5 - r,
    {
        let line = framed_chars(&art_line_chars(r, revealed));
        let ghost before = lines@;
        lines.push(clamped_string(&line, width));
        proof {
            lemma_poster_rows(frame as int);
            assert(il[r + 2] == clamp_line(poster(frame as int)[r + 2], width as int));
            assert(views(lines@) =~= views(before).push(il[r + 2]));
        }
        r += 1;
        assert(views(lines@) =~= intro_lines(frame as int, width as int).take(r + 2));
    }
    let ghost mid = lines@;
    lines.push(clamped_string(&blank, width));
    let ghost mid2 = lines@;
    lines.push(clamped_string(&border_chars('╚', '╝'), width));
    proof {
        lemma_poster_rows(frame as int);
        assert(views(mid2) =~= views(mid).push(il[7]));
        assert(views(lines@) =~= views(mid2).push(il[8]));
        assert(il.take(7).push(il[7]).push(il[8]) =~= il);
    }
    assert(views(lines@) =~= intro_lines(frame as int, width as int));
    lines
}


// ------------------------------------------------------------------------- //
// Laws of the intro
// ------------------------------------------------------------------------- //

proof fn lemma_poster_line_lengths(frame: int)
    ensures
        forall|k: int| 0 <= k < 9 ==> #[trigger] poster(frame)[k].len() == ART_COLS + 4,
{
    lemma_poster_rows(frame);
    assert forall|k: int| 0 <= k < 9 implies #[trigger] poster(frame)[k].len() == ART_COLS + 4 by {
        if 2 <= k < 7 {
            assert(poster(frame)[(k - 2) + 2] == framed(art_line(k - 2, revealed_cols(frame))));
        }
    }
}

/// Within one frame every intro line has the same width: the full poster
/// width, or `width` when a narrower clamp applies.
pub proof fn intro_lines_have_uniform_width(frame: int, width: int)
    ensures
        intro_lines(frame, width).len() == 9,
        forall|k: int| 0 <= k < 9 ==> #[trigger] intro_lines(frame, width)[k].len() == (
            if 0 < width < ART_COLS + 4 { width } else { ART_COLS + 4 }),
{
    lemma_poster_line_lengths(frame);
}

/// With a positive `width`, no intro line is wider than `width`.
pub proof fn intro_respects_width(frame: int, width: int)
    requires
        width > 0,
    ensures
        forall|k: int| 0 <= k < intro_lines(frame, width).len() ==> #[trigger] intro_lines(frame, width)[k].len() <= width,
{
    intro_lines_have_uniform_width(frame, width);
}

proof fn lemma_revealed_cols_monotone(f1: int, f2: int)
    requires
        0 <= f1 <= f2,
    ensures
        0 <= revealed_cols(f1) <= revealed_cols(f2) <= ART_COLS,
{
    if f2 < REVEAL_TICKS {
        assert((f1 * 17) / 32 <= (f2 * 17) / 32) by (nonlinear_arith)
            requires 0 <= f1 <= f2;
        assert(0 <= (f1 * 17) / 32) by (nonlinear_arith)
            requires 0 <= f1;
    } else if f1 < REVEAL_TICKS {
        assert(0 <= (f1 * 17) / 32) by (nonlinear_arith)
            requires 0 <= f1;
    }
}

/// The cell of the art row `r`, column `c` (a poster line index `r + 2`,
/// a character index `c + 2`) at `frame`.
pub open spec fn poster_cell(frame: int, r: int, c: int) -> char {
    poster(frame)[r + 2][c + 2]
}

proof fn lemma_poster_cell(frame: int, r: int, c: int)
    requires
        0 <= r < 5,
        0 <= c < ART_COLS,
    ensures
        poster_cell(frame, r, c) == art_line(r, revealed_cols(frame))[c],
{
    lemma_poster_rows(frame);
    assert(poster(frame)[r + 2] == framed(art_line(r, revealed_cols(frame))));
}

/// The only `█` glyphs of the poster are revealed art cells: a cell shows `█`
/// exactly when its column is already revealed and the art fills it.
pub proof fn intro_blocks_are_revealed_art(frame: int, k: int, c: int)
    requires
        0 <= k < 9,
        0 <= c < ART_COLS + 4,
    ensures
        poster(frame)[k][c] == '█' <==> (2 <= k < 7 && 2 <= c < ART_COLS + 2
            && c - 2 < revealed_cols(frame) && art_row(k - 2)[c - 2] == '#'),
{
    lemma_poster_rows(frame);
    if 2 <= k < 7 {
        assert(poster(frame)[(k - 2) + 2] == framed(art_line(k - 2, revealed_cols(frame))));
    }
}

/// Frame 0 reveals no block glyphs at all.
pub proof fn intro_starts_empty(width: int, k: int, c: int)
    requires
        0 <= k < intro_lines(0, width).len(),
        0 <= c < intro_lines(0, width)[k].len(),
    ensures
        intro_lines(0, width)[k][c] != '█',
{
    intro_lines_have_uniform_width(0, width);
    lemma_poster_line_lengths(0);
    intro_blocks_are_revealed_art(0, k, c);
}

/// The reveal only grows: a block shown at some frame is still shown at every
/// later frame, in the same place.
pub proof fn intro_reveal_is_monotone(f1: int, f2: int, width: int, k: int, c: int)
    requires
        0 <= f1 <= f2,
        0 <= k < intro_lines(f1, width).len(),
        0 <= c < intro_lines(f1, width)[k].len(),
        intro_lines(f1, width)[k][c] == '█',
    ensures
        intro_lines(f2, width)[k][c] == '█',
{
    intro_lines_have_uniform_width(f1, width);
    intro_lines_have_uniform_width(f2, width);
    lemma_poster_line_lengths(f1);
    lemma_poster_line_lengths(f2);
    lemma_revealed_cols_monotone(f1, f2);
    intro_blocks_are_revealed_art(f1, k, c);
    intro_blocks_are_revealed_art(f2, k, c);
}

/// Once the reveal has finished, every later frame shows the same finished
/// poster, and that poster shows a block exactly where the art is filled.
pub proof fn intro_completes(frame: int, width: int)
    requires
        frame >= REVEAL_TICKS,
    ensures
        intro_lines(frame, width) == intro_lines(REVEAL_TICKS as int, width),
        forall|r: int, c: int| 0 <= r < 5 && 0 <= c < ART_COLS ==>
            (#[trigger] poster_cell(frame, r, c) == '█' <==> art_row(r)[c] == '#'),
{
    assert(poster(frame) =~= poster(REVEAL_TICKS as int));
    assert forall|r: int, c: int| 0 <= r < 5 && 0 <= c < ART_COLS implies
        (#[trigger] poster_cell(frame, r, c) == '█' <==> art_row(r)[c] == '#') by {
        lemma_poster_cell(frame, r, c);
    }
}

/// The number of `█` glyphs in a line.
pub open spec fn block_count(s: Seq<char>) -> nat
    decreases s.len(),
{
    if s.len() == 0 {
        0
    } else {
        block_count(s.drop_last()) + (if s.last() == '█' { 1nat } else { 0nat })
    }
}

/// The number of `█` glyphs over all lines.
pub open spec fn blocks(lines: Seq<Seq<char>>) -> nat
    decreases lines.len(),
{
    if lines.len() == 0 {
        0
    } else {
        blocks(lines.drop_last()) + block_count(lines.last())
    }
}

proof fn lemma_block_count_le(s1: Seq<char>, s2: Seq<char>)
    requires
        s1.len() == s2.len(),
        forall|i: int| 0 <= i < s1.len() && s1[i] == '█' ==> s2[i] == '█',
    ensures
        block_count(s1) <= block_count(s2),
    decreases s1.len(),
{
    if s1.len() > 0 {
        lemma_block_count_le(s1.drop_last(), s2.drop_last());
    }
}

proof fn lemma_block_count_zero(s: Seq<char>)
    requires
        forall|i: int| 0 <= i < s.len() ==> s[i] != '█',
    ensures
        block_count(s) == 0,
    decreases s.len(),
{
    if s.len() > 0 {
        lemma_block_count_zero(s.drop_last());
    }
}

proof fn lemma_block_count_concat(a: Seq<char>, b: Seq<char>)
    ensures
        block_count(a + b) == block_count(a) + block_count(b),
    decreases b.len(),
{
    if b.len() > 0 {
        assert((a + b).drop_last() =~= a + b.drop_last());
        lemma_block_count_concat(a, b.drop_last());
    } else {
        assert(a + b =~= a);
    }
}

proof fn lemma_blocks_le(l1: Seq<Seq<char>>, l2: Seq<Seq<char>>)
    requires
        l1.len() == l2.len(),
        forall|k: int| 0 <= k < l1.len() ==> (#[trigger] l1[k]).len() == l2[k].len(),
        forall|k: int, c: int| 0 <= k < l1.len() && 0 <= c < l1[k].len() && l1[k][c] == '█' ==> l2[k][c] == '█',
    ensures
        blocks(l1) <= blocks(l2),
    decreases l1.len(),
{
    if l1.len() > 0 {
        let n = l1.len() - 1;
        lemma_blocks_le(l1.drop_last(), l2.drop_last());
        assert forall|i: int| 0 <= i < l1[n].len() && l1[n][i] == '█' implies l2[n][i] == '█' by {}
        lemma_block_count_le(l1[n], l2[n]);
    }
}

proof fn lemma_blocks_zero(l: Seq<Seq<char>>)
    requires
        forall|k: int, c: int| 0 <= k < l.len() && 0 <= c < l[k].len() ==> l[k][c] != '█',
    ensures
        blocks(l) == 0,
    decreases l.len(),
{
    if l.len() > 0 {
        let n = l.len() - 1;
        lemma_blocks_zero(l.drop_last());
        assert forall|i: int| 0 <= i < l[n].len() implies l[n][i] != '█' by {}
        lemma_block_count_zero(l[n]);
    }
}

/// The count of `█` glyphs never falls as the intro plays, at any width.
pub proof fn intro_block_count_never_falls(f1: int, f2: int, width: int)
    requires
        0 <= f1 <= f2,
    ensures
        blocks(intro_lines(f1, width)) <= blocks(intro_lines(f2, width)),
{
    let l1 = intro_lines(f1, width);
    let l2 = intro_lines(f2, width);
    intro_lines_have_uniform_width(f1, width);
    intro_lines_have_uniform_width(f2, width);
    assert forall|k: int, c: int| 0 <= k < l1.len() && 0 <= c < l1[k].len() && l1[k][c] == '█' implies l2[k][c] == '█' by {
        intro_reveal_is_monotone(f1, f2, width, k, c);
    }
    lemma_blocks_le(l1, l2);
}

/// Frame 0 shows no `█` glyph at any width.
pub proof fn intro_block_count_starts_at_zero(width: int)
    ensures
        blocks(intro_lines(0, width)) == 0,
{
    let l = intro_lines(0, width);
    intro_lines_have_uniform_width(0, width);
    assert forall|k: int, c: int| 0 <= k < l.len() && 0 <= c < l[k].len() implies l[k][c] != '█' by {
        intro_starts_empty(width, k, c);
    }
    lemma_blocks_zero(l);
}

/// The finished poster, unclamped, shows exactly the 40 filled cells of the
/// art as `█` glyphs.
pub proof fn finished_poster_shows_forty_blocks(frame: int, width: int)
    requires
        frame >= REVEAL_TICKS,
        width <= 0 || width >= ART_COLS + 4,
    ensures
        blocks(intro_lines(frame, width)) == 40,
{
    intro_completes(frame, width);
    let p = poster(REVEAL_TICKS as int);
    lemma_poster_line_lengths(REVEAL_TICKS as int);
    assert(intro_lines(REVEAL_TICKS as int, width) =~= p);
    reveal_strlit("#   # #   #  ### ");
    reveal_strlit("## ## ## ## #   #");
    reveal_strlit("# # # # # # #####");
    reveal_strlit("#   # #   # #   #");
    let counts = seq![7nat, 10nat, 11nat, 6nat, 6nat];
    assert forall|r: int| 0 <= r < 5 implies block_count(#[trigger] art_line(r, ART_COLS as int)) == counts[r] by {
        reveal_with_fuel(block_count, 18);
    }
    assert forall|k: int| 0 <= k < 9 implies #[trigger] block_count(p[k]) == (if 2 <= k < 7 { counts[k - 2] } else { 0nat }) by {
        lemma_poster_rows(REVEAL_TICKS as int);
        if 2 <= k < 7 {
            let line = art_line(k - 2, ART_COLS as int);
            assert(p[k] == framed(line));
            lemma_block_count_concat(seq!['║', ' '] + line, seq![' ', '║']);
            lemma_block_count_concat(seq!['║', ' '], line);
            lemma_block_count_zero(seq!['║', ' ']);
            lemma_block_count_zero(seq![' ', '║']);
        } else {
            assert forall|i: int| 0 <= i < p[k].len() implies p[k][i] != '█' by {
                intro_blocks_are_revealed_art(REVEAL_TICKS as int, k, i);
            }
            lemma_block_count_zero(p[k]);
        }
    }
    reveal_with_fuel(blocks, 10);
    assert(p.len() == 9);
}

/// The reveal really moves: over its frames the count of `█` glyphs rises at
/// least once from one frame to the next.
pub proof fn intro_block_count_rises(width: int)
    requires
        width <= 0 || width >= ART_COLS + 4,
    ensures
        exists|f: int| 1 <= f <= REVEAL_TICKS && #[trigger] blocks(intro_lines(f, width)) > blocks(intro_lines(f - 1, width)),
{
    intro_block_count_starts_at_zero(width);
    finished_poster_shows_forty_blocks(REVEAL_TICKS as int, width);
    if !(exists|f: int| 1 <= f <= REVEAL_TICKS && #[trigger] blocks(intro_lines(f, width)) > blocks(intro_lines(f - 1, width))) {
        lemma_no_rise(width, REVEAL_TICKS as int);
        assert(false);
    }
}

proof fn lemma_no_rise(width: int, n: int)
    requires
        0 <= n,
        forall|f: int| 1 <= f <= n ==> !(#[trigger] blocks(intro_lines(f, width)) > blocks(intro_lines(f - 1, width))),
    ensures
        blocks(intro_lines(n, width)) <= blocks(intro_lines(0, width)),
    decreases n,
{
    if n > 0 {
        lemma_no_rise(width, n - 1);
        assert(!(blocks(intro_lines(n, width)) > blocks(intro_lines(n - 1, width))));
    }
}

/// The animation frame index `ms` milliseconds after the start, at
/// [`ANIM_FPS`] frames per second.
pub fn frame_at_millis(ms: u64) -> (f: u64)
    requires
        ms <= u64::MAX / ANIM_FPS,
    ensures
        f == ms * ANIM_FPS / 1000,
{
    ms * ANIM_FPS / 1000
}

/// Whether the screen needs the fast redraw cadence: a job is still running,
/// or Home is showing an intro that has not finished.
pub fn animating(job_running: bool, on_home: bool, frame: usize) -> (r: bool)
    ensures
        r == (job_running || (on_home && frame < INTRO_TICKS)),
{
    job_running || (on_home && !intro_done(frame))
}

} // verus!
