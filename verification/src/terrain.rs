//! The integer side of the terrain and forest rasters: splitting their
//! packed text into number tokens, the size of the square terrain grid, the
//! triangles of a sampled grid, and the average of four vertex colours.
use vstd::prelude::*;
use crate::model::{texts, RgbaColor};
use crate::text::{chars_of, spec_trim, string_of, trim_bounds};

verus! {

/// The characters that separate terrain numbers.
pub open spec fn is_terrain_separator(c: char) -> bool {
    c == ',' || c == ':' || c == '\n' || c == '\r' || c == '\t' || c == ' '
}

/// `str::split` with a predicate: the pieces between separators, empty
/// pieces included (a text without separators is one piece).
pub open spec fn split_pieces(s: Seq<char>, sep: spec_fn(char) -> bool) -> Seq<Seq<char>>
    decreases s.len(),
{
    if s.len() == 0 {
        seq![Seq::empty()]
    } else {
        let p = split_pieces(s.drop_last(), sep);
        if sep(s.last()) {
            p.push(Seq::empty())
        } else {
            p.update(p.len() - 1, p.last().push(s.last()))
        }
    }
}

/// The non-empty pieces, in order.
pub open spec fn non_empty(ps: Seq<Seq<char>>) -> Seq<Seq<char>>
    decreases ps.len(),
{
    if ps.len() == 0 {
        Seq::empty()
    } else if ps.last().len() > 0 {
        non_empty(ps.drop_last()).push(ps.last())
    } else {
        non_empty(ps.drop_last())
    }
}

/// The number tokens of a packed terrain text.
pub open spec fn spec_terrain_tokens(s: Seq<char>) -> Seq<Seq<char>> {
    non_empty(split_pieces(s, |c: char| is_terrain_separator(c)))
}

proof fn lemma_split_len(s: Seq<char>, sep: spec_fn(char) -> bool)
    ensures
        split_pieces(s, sep).len() >= 1,
    decreases s.len(),
{
    if s.len() > 0 {
        lemma_split_len(s.drop_last(), sep);
    }
}

/// No character of `p` separates terrain numbers.
pub open spec fn separator_free(p: Seq<char>) -> bool {
    forall|j: int| 0 <= j < p.len() ==> !is_terrain_separator(#[trigger] p[j])
}

proof fn lemma_pieces_separator_free(s: Seq<char>, sep: spec_fn(char) -> bool)
    requires
        forall|c: char| #[trigger] sep(c) == is_terrain_separator(c),
    ensures
        forall|k: int|
            0 <= k < split_pieces(s, sep).len() ==> separator_free(#[trigger] split_pieces(s, sep)[k]),
    decreases s.len(),
{
    if s.len() > 0 {
        lemma_pieces_separator_free(s.drop_last(), sep);
        lemma_split_len(s.drop_last(), sep);
        let p = split_pieces(s.drop_last(), sep);
        if !sep(s.last()) {
            let q = p.update(p.len() - 1, p.last().push(s.last()));
            assert forall|k: int| 0 <= k < q.len() implies separator_free(#[trigger] q[k]) by {
                if k == p.len() - 1 {
                    assert(separator_free(p[k]));
                    assert forall|j: int| 0 <= j < q[k].len() implies !is_terrain_separator(
                        #[trigger] q[k][j],
                    ) by {
                        if j < p[k].len() {
                            assert(q[k][j] == p[k][j]);
                        }
                    }
                }
            }
        } else {
            let q = p.push(Seq::empty());
            assert forall|k: int| 0 <= k < q.len() implies separator_free(#[trigger] q[k]) by {
                if k < p.len() {
                    assert(q[k] == p[k]);
                }
            }
        }
    }
}

proof fn lemma_non_empty_keeps(ps: Seq<Seq<char>>)
    requires
        forall|k: int| 0 <= k < ps.len() ==> separator_free(#[trigger] ps[k]),
    ensures
        forall|k: int|
            0 <= k < non_empty(ps).len() ==> #[trigger] non_empty(ps)[k].len() > 0 && separator_free(
                non_empty(ps)[k],
            ),
    decreases ps.len(),
{
    if ps.len() > 0 {
        let rest = ps.drop_last();
        assert forall|k: int| 0 <= k < rest.len() implies separator_free(#[trigger] rest[k]) by {
            assert(rest[k] == ps[k]);
        }
        lemma_non_empty_keeps(rest);
        assert(separator_free(ps[ps.len() - 1]));
        let n = non_empty(ps);
        let m = non_empty(rest);
        assert forall|k: int| 0 <= k < n.len() implies #[trigger] n[k].len() > 0 && separator_free(
            n[k],
        ) by {
            if k < m.len() {
                assert(n[k] == m[k]);
            }
        }
    }
}

/// Every number token of a packed terrain text is non-empty and holds no
/// separator.
pub proof fn law_terrain_tokens_are_clean(s: Seq<char>)
    ensures
        forall|k: int|
            0 <= k < spec_terrain_tokens(s).len() ==> #[trigger] spec_terrain_tokens(s)[k].len() > 0
                && separator_free(spec_terrain_tokens(s)[k]),
{
    let sep = |c: char| is_terrain_separator(c);
    lemma_pieces_separator_free(s, sep);
    lemma_non_empty_keeps(split_pieces(s, sep));
}

/// Splits a packed terrain text into its number tokens (the non-empty runs
/// between separators).
pub fn terrain_tokens(packed: &str) -> (r: Vec<String>)
    ensures
        texts(r@) == spec_terrain_tokens(packed@),
{
    let v = chars_of(packed);
    let ghost sep = |c: char| is_terrain_separator(c);
    let mut out: Vec<String> = Vec::new();
    let mut start: usize = 0;
    let mut i: usize = 0;
    assert(v@.take(0) =~= Seq::<char>::empty());
    while i < v.len()
        invariant
            start <= i <= v.len(),
            sep == (|c: char| is_terrain_separator(c)),
            split_pieces(v@.take(i as int), sep).last() == v@.subrange(start as int, i as int),
            non_empty(split_pieces(v@.take(i as int), sep).drop_last()) == texts(out@),
        decreases v.len() - i,
    {
        let ghost before = split_pieces(v@.take(i as int), sep);
        proof {
            lemma_split_len(v@.take(i as int), sep);
        }
        assert(v@.take(i + 1).drop_last() =~= v@.take(i as int));
        assert(v@.take(i + 1).last() == v@[i as int]);
        let c = v[i];
        if c == ',' || c == ':' || c == '\n' || c == '\r' || c == '\t' || c == ' ' {
            let ghost after = before.push(Seq::empty());
            assert(after.drop_last() =~= before);
            assert(before =~= before.drop_last().push(before.last()));
            if start < i {
                let piece = string_of(&v, start, i);
                let ghost old_out = out@;
                out.push(piece);
                assert(texts(out@) =~= texts(old_out).push(piece@));
            }
            start = i + 1;
            assert(v@.subrange(start as int, i + 1) =~= Seq::<char>::empty());
        } else {
            let ghost after = before.update(before.len() - 1, before.last().push(c));
            assert(after.drop_last() =~= before.drop_last());
            assert(v@.subrange(start as int, i + 1) =~= v@.subrange(start as int, i as int).push(c));
        }
        i = i + 1;
    }
    proof {
        lemma_split_len(v@.take(i as int), sep);
    }
    let ghost all = split_pieces(v@.take(i as int), sep);
    assert(all =~= all.drop_last().push(all.last()));
    if start < i {
        let piece = string_of(&v, start, i);
        let ghost old_out = out@;
        out.push(piece);
        assert(texts(out@) =~= texts(old_out).push(piece@));
    }
    assert(v@.take(v.len() as int) =~= v@);
    out
}

/// The cells of a forest row: split at commas (empty cells included) and
/// trimmed.
pub open spec fn spec_forest_cells(row: Seq<char>) -> Seq<Seq<char>> {
    split_pieces(row, |c: char| c == ',').map_values(|p: Seq<char>| spec_trim(p))
}

fn trimmed_piece(v: &Vec<char>, lo: usize, hi: usize) -> (s: String)
    requires
        lo <= hi <= v.len(),
    ensures
        s@ == spec_trim(v@.subrange(lo as int, hi as int)),
{
    let piece = string_of(v, lo, hi);
    let pv = chars_of(piece.as_str());
    let (a, b) = trim_bounds(&pv);
    string_of(&pv, a, b)
}

/// Splits a forest row into its trimmed cells.
pub fn forest_cells(row: &str) -> (r: Vec<String>)
    ensures
        texts(r@) == spec_forest_cells(row@),
{
    let v = chars_of(row);
    let ghost sep = |c: char| c == ',';
    let mut out: Vec<String> = Vec::new();
    let mut start: usize = 0;
    let mut i: usize = 0;
    assert(v@.take(0) =~= Seq::<char>::empty());
    while i < v.len()
        invariant
            start <= i <= v.len(),
            sep == (|c: char| c == ','),
            split_pieces(v@.take(i as int), sep).last() == v@.subrange(start as int, i as int),
            split_pieces(v@.take(i as int), sep).drop_last().map_values(
                |p: Seq<char>| spec_trim(p),
            ) == texts(out@),
        decreases v.len() - i,
    {
        let ghost before = split_pieces(v@.take(i as int), sep);
        proof {
            lemma_split_len(v@.take(i as int), sep);
        }
        assert(v@.take(i + 1).drop_last() =~= v@.take(i as int));
        assert(v@.take(i + 1).last() == v@[i as int]);
        let c = v[i];
        if c == ',' {
            let ghost after = before.push(Seq::empty());
            assert(after.drop_last() =~= before);
            let piece = trimmed_piece(&v, start, i);
            let ghost old_out = out@;
            out.push(piece);
            assert(texts(out@) =~= texts(old_out).push(piece@));
            assert(before.map_values(|p: Seq<char>| spec_trim(p)) =~= before.drop_last().map_values(
                |p: Seq<char>| spec_trim(p),
            ).push(spec_trim(before.last())));
            start = i + 1;
            assert(v@.subrange(start as int, i + 1) =~= Seq::<char>::empty());
        } else {
            let ghost after = before.update(before.len() - 1, before.last().push(c));
            assert(after.drop_last() =~= before.drop_last());
            assert(v@.subrange(start as int, i + 1) =~= v@.subrange(start as int, i as int).push(c));
        }
        i = i + 1;
    }
    proof {
        lemma_split_len(v@.take(i as int), sep);
    }
    let ghost all = split_pieces(v@.take(i as int), sep);
    let piece = trimmed_piece(&v, start, i);
    let ghost old_out = out@;
    out.push(piece);
    assert(texts(out@) =~= texts(old_out).push(piece@));
    assert(all.map_values(|p: Seq<char>| spec_trim(p)) =~= all.drop_last().map_values(
        |p: Seq<char>| spec_trim(p),
    ).push(spec_trim(all.last())));
    assert(v@.take(v.len() as int) =~= v@);
    out
}

/// `k` is the integer nearest to the square root of `n`.
pub open spec fn is_rounded_sqrt(n: int, k: int) -> bool {
    0 <= k && (2 * k - 1) * (2 * k - 1) <= 4 * n && 4 * n < (2 * k + 1) * (2 * k + 1)
}

/// The side of the square terrain grid that `pair_count` height pairs
/// give: the square root of the count, rounded to nearest, when it is at
/// least one and its square does not exceed the count.
pub fn grid_side(pair_count: usize) -> (r: Option<usize>)
    ensures
        match r {
            Some(k) => k >= 1 && k * k <= pair_count && is_rounded_sqrt(pair_count as int, k as int),
            None => forall|k: int|
                #![trigger is_rounded_sqrt(pair_count as int, k)]
                is_rounded_sqrt(pair_count as int, k) ==> k == 0 || k * k > pair_count,
        },
{
    let n = pair_count as u128;
    let mut k: u128 = 0;
    loop
        invariant_except_break
            k * k <= n,
            n == pair_count,
            n <= u64::MAX,
            k < 0x1_0000_0000,
        ensures
            k * k <= n,
            n == pair_count,
            n < (k + 1) * (k + 1),
        decreases n - k * k,
    {
        let next = k + 1;
        assert(next * next <= 0x1_0000_0000 * 0x1_0000_0000) by (nonlinear_arith)
            requires
                next <= 0x1_0000_0000,
        ;
        let square = next * next;
        if square > n {
            break;
        }
        assert(next < 0x1_0000_0000) by (nonlinear_arith)
            requires
                next * next <= n,
                n <= u64::MAX,
        ;
        assert(next * next > k * k) by (nonlinear_arith)
            requires
                next == k + 1,
        ;
        k = next;
    }
    let ghost ni = n as int;
    let ghost ki = k as int;
    if n - k * k > k {
        proof {
            assert forall|j: int| is_rounded_sqrt(ni, j) implies j == 0 || j * j > ni by {
                if j != 0 && j * j <= ni {
                    assert(j >= ki + 1 ==> j * j >= (ki + 1) * (ki + 1)) by (nonlinear_arith)
                        requires
                            ki >= 0,
                    ;
                    assert(ni < (ki + 1) * (ki + 1));
                    assert(j <= ki);
                    assert(4 * ni < (2 * j + 1) * (2 * j + 1));
                    assert((2 * j + 1) * (2 * j + 1) <= (2 * ki + 1) * (2 * ki + 1)) by (nonlinear_arith)
                        requires
                            0 <= j <= ki,
                    ;
                    assert(false) by (nonlinear_arith)
                        requires
                            4 * ni < (2 * ki + 1) * (2 * ki + 1),
                            ni - ki * ki > ki,
                    ;
                }
            }
        }
        None
    } else if k == 0 {
        proof {
            assert forall|j: int| is_rounded_sqrt(ni, j) implies j == 0 || j * j > ni by {
                if j != 0 && j * j <= ni {
                    assert(j >= 1 ==> j * j >= 1) by (nonlinear_arith);
                }
            }
        }
        None
    } else {
        proof {
            assert(is_rounded_sqrt(ni, ki)) by (nonlinear_arith)
                requires
                    ki * ki <= ni,
                    ni - ki * ki <= ki,
                    ki >= 1,
            ;
        }
        assert(k <= n) by (nonlinear_arith)
            requires
                k * k <= n,
                k >= 1,
        ;
        Some(k as usize)
    }
}

/// Each channel of the result is the truncated mean of the four colours'
/// channels.
pub open spec fn spec_average_color(c: [RgbaColor; 4]) -> RgbaColor {
    RgbaColor {
        r: ((c[0].r + c[1].r + c[2].r + c[3].r) / 4) as u8,
        g: ((c[0].g + c[1].g + c[2].g + c[3].g) / 4) as u8,
        b: ((c[0].b + c[1].b + c[2].b + c[3].b) / 4) as u8,
        a: ((c[0].a + c[1].a + c[2].a + c[3].a) / 4) as u8,
    }
}

/// The colour of a grid quad: the mean of its four corner colours.
pub fn average_color(colors: [RgbaColor; 4]) -> (r: RgbaColor)
    ensures
        r == spec_average_color(colors),
{
    let mut total_r: u32 = 0;
    let mut total_g: u32 = 0;
    let mut total_b: u32 = 0;
    let mut total_a: u32 = 0;
    let mut i: usize = 0;
    while i < 4
        invariant
            i <= 4,
            total_r == if i == 0 { 0 } else if i == 1 { colors[0].r as int } else if i == 2 {
                colors[0].r + colors[1].r
            } else if i == 3 {
                colors[0].r + colors[1].r + colors[2].r
            } else {
                colors[0].r + colors[1].r + colors[2].r + colors[3].r
            },
            total_g == if i == 0 { 0 } else if i == 1 { colors[0].g as int } else if i == 2 {
                colors[0].g + colors[1].g
            } else if i == 3 {
                colors[0].g + colors[1].g + colors[2].g
            } else {
                colors[0].g + colors[1].g + colors[2].g + colors[3].g
            },
            total_b == if i == 0 { 0 } else if i == 1 { colors[0].b as int } else if i == 2 {
                colors[0].b + colors[1].b
            } else if i == 3 {
                colors[0].b + colors[1].b + colors[2].b
            } else {
                colors[0].b + colors[1].b + colors[2].b + colors[3].b
            },
            total_a == if i == 0 { 0 } else if i == 1 { colors[0].a as int } else if i == 2 {
                colors[0].a + colors[1].a
            } else if i == 3 {
                colors[0].a + colors[1].a + colors[2].a
            } else {
                colors[0].a + colors[1].a + colors[2].a + colors[3].a
            },
        decreases 4 - i,
    {
        let color = colors[i];
        total_r = total_r + color.r as u32;
        total_g = total_g + color.g as u32;
        total_b = total_b + color.b as u32;
        total_a = total_a + color.a as u32;
        i = i + 1;
    }
    RgbaColor {
        r: (total_r / 4) as u8,
        g: (total_g / 4) as u8,
        b: (total_b / 4) as u8,
        a: (total_a / 4) as u8,
    }
}

/// The two triangles of the quad at `(row, column)` of a grid of
/// `columns + 1` vertices per row: top-left, top-right, bottom-right, then
/// top-left, bottom-right, bottom-left.
pub open spec fn quad_triangles(columns: int, row: int, column: int) -> Seq<(u32, u32, u32)> {
    let stride = columns + 1;
    let tl = row * stride + column;
    seq![
        (tl as u32, (tl + 1) as u32, (tl + stride + 1) as u32),
        (tl as u32, (tl + stride + 1) as u32, (tl + stride) as u32),
    ]
}

/// Triangle `t` of the mesh lists the quads row by row.
pub open spec fn mesh_triangle(columns: int, t: int) -> (u32, u32, u32) {
    let q = t / 2;
    quad_triangles(columns, q / columns, q % columns)[t % 2]
}

/// Every triangle of the mesh of `rows` by `columns` quads joins three
/// distinct vertices of the `(rows + 1) * (columns + 1)` grid.
pub proof fn law_mesh_stays_in_grid(columns: int, rows: int, t: int)
    requires
        columns >= 1,
        rows >= 1,
        (rows + 1) * (columns + 1) <= u32::MAX,
        0 <= t < 2 * rows * columns,
    ensures
        ({
            let (a, b, c) = mesh_triangle(columns, t);
            &&& a < (rows + 1) * (columns + 1)
            &&& b < (rows + 1) * (columns + 1)
            &&& c < (rows + 1) * (columns + 1)
            &&& a != b && b != c && a != c
        }),
{
    let q = t / 2;
    let row = q / columns;
    let column = q % columns;
    let stride = columns + 1;
    assert(0 <= q < rows * columns) by (nonlinear_arith)
        requires
            0 <= t < 2 * rows * columns,
            q == t / 2,
    ;
    assert(0 <= row < rows && 0 <= column < columns) by (nonlinear_arith)
        requires
            0 <= q < rows * columns,
            columns >= 1,
            row == q / columns,
            column == q % columns,
    ;
    assert(0 <= row * stride + column && row * stride + column + stride + 1 < (rows + 1) * (
    columns + 1)) by (nonlinear_arith)
        requires
            0 <= row < rows,
            0 <= column < columns,
            stride == columns + 1,
    ;
}

/// The vertex indices of the triangles that cover a sampled grid of
/// `rows` by `columns` quads, two per quad, quads row by row.
pub fn grid_triangles(columns: usize, rows: usize) -> (r: Vec<(u32, u32, u32)>)
    requires
        (rows + 1) * (columns + 1) <= u32::MAX,
    ensures
        r.len() == 2 * rows * columns,
        forall|t: int| 0 <= t < r.len() ==> #[trigger] r@[t] == mesh_triangle(columns as int, t),
{
    let mut out: Vec<(u32, u32, u32)> = Vec::new();
    assert(columns + 1 <= (rows + 1) * (columns + 1)) by (nonlinear_arith);
    let stride = columns + 1;
    assert(2 * 0 * columns == 0) by (nonlinear_arith);
    for row in 0..rows
        invariant
            stride == columns + 1,
            (rows + 1) * (columns + 1) <= u32::MAX,
            out.len() == 2 * row * columns,
            forall|t: int| 0 <= t < out.len() ==> #[trigger] out@[t] == mesh_triangle(columns as int, t),
    {
        assert(2 * row * columns == 2 * (row * columns + 0)) by (nonlinear_arith);
        for column in 0..columns
            invariant
                stride == columns + 1,
                row < rows,
                (rows + 1) * (columns + 1) <= u32::MAX,
                out.len() == 2 * (row * columns + column),
                forall|t: int| 0 <= t < out.len() ==> #[trigger] out@[t] == mesh_triangle(columns as int, t),
        {
            proof {
                assert((row + 1) * stride + column + 1 <= (rows + 1) * (columns + 1)) by (nonlinear_arith)
                    requires
                        row < rows,
                        column < columns,
                        stride == columns + 1,
                ;
                assert(row * stride + column + stride + 1 == (row + 1) * stride + column + 1) by (nonlinear_arith);
            }
            let top_left = (row * stride + column) as u32;
            let top_right = top_left + 1;
            let bottom_left = top_left + stride as u32;
            let bottom_right = bottom_left + 1;
            let ghost len0 = out.len() as int;
            out.push((top_left, top_right, bottom_right));
            out.push((top_left, bottom_right, bottom_left));
            proof {
                let q = row * columns + column;
                assert(len0 / 2 == q && len0 % 2 == 0);
                assert((len0 + 1) / 2 == q && (len0 + 1) % 2 == 1);
                assert(q / (columns as int) == row && q % (columns as int) == column) by (nonlinear_arith)
                    requires
                        q == row * columns + column,
                        column < columns,
                ;
                assert forall|t: int| 0 <= t < out.len() implies #[trigger] out@[t] == mesh_triangle(
                    columns as int,
                    t,
                ) by {
                    if t >= len0 {
                        assert(quad_triangles(columns as int, row as int, column as int)[0] == (
                            top_left,
                            top_right,
                            bottom_right,
                        ));
                    }
                }
            }
        }
        assert(2 * (row * columns + columns) == 2 * (row + 1) * columns) by (nonlinear_arith);
    }
    out
}

} // verus!
