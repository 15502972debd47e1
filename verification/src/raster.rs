use crate::color::{Color, Sample, SampleV};
use crate::elements::{Rectangle_Custom, RectangleCustomV};
use crate::geometry::{
    abs_i, dist_round, lemma_rounded_sqrt_of_square, lemma_rounded_sqrt_unique, pt_in_range, sq,
    Point, PointV,
};
use vstd::arithmetic::div_mod::lemma_fundamental_div_mod_converse;
use vstd::prelude::*;

verus! {

/// The grid corner where the row-major scan starts: the rectangle corner
/// diagonally opposite the drag corner `k`, with `c` as the geometric center.
pub open spec fn raster_top_left(c: PointV, k: PointV) -> PointV {
    PointV { x: 2 * c.x - k.x, y: 2 * c.y - k.y }
}

/// Number of columns: the rounded length of the top edge, which spans twice
/// the horizontal drag delta.
pub open spec fn raster_width(c: PointV, k: PointV) -> int {
    2 * abs_i(k.x - c.x)
}

/// Number of rows: the rounded length of the left edge, which spans twice
/// the vertical drag delta.
pub open spec fn raster_height(c: PointV, k: PointV) -> int {
    2 * abs_i(k.y - c.y)
}

/// A row-major grid of `h` rows of `w` colored samples starting at `lt`:
/// ascending row, then ascending column, x growing rightward and y shrinking
/// downward, one sample per unit step.
pub open spec fn grid_row_major(lt: PointV, w: int, h: int, color: Color) -> Seq<SampleV>
    recommends
        w >= 0,
        h >= 0,
{
    Seq::new(
        (w * h) as nat,
        |i: int| SampleV { pos: PointV { x: lt.x + i % w, y: lt.y - i / w }, color },
    )
}

/// The ordered sample cloud produced by rasterizing the rectangle with
/// center `c` and drag corner `k`: a pure function of center, corner and
/// color, nothing else.
pub open spec fn raster_seq(c: PointV, k: PointV, color: Color) -> Seq<SampleV> {
    grid_row_major(raster_top_left(c, k), raster_width(c, k), raster_height(c, k), color)
}

/// The cloud holds one sample per grid cell.
pub proof fn lemma_raster_len(c: PointV, k: PointV, color: Color)
    ensures
        raster_seq(c, k, color).len() == raster_width(c, k) * raster_height(c, k),
{
    assert(raster_width(c, k) * raster_height(c, k) >= 0) by (nonlinear_arith)
        requires
            raster_width(c, k) >= 0,
            raster_height(c, k) >= 0,
    ;
}

/// Law: rasterization is deterministic. Two rasterizations of the same
/// center and drag corner with the same color yield the identical ordered
/// sample sequence.
pub proof fn lemma_raster_deterministic(
    c: PointV,
    k: PointV,
    color: Color,
    first: Seq<SampleV>,
    second: Seq<SampleV>,
)
    requires
        first == raster_seq(c, k, color),
        second == raster_seq(c, k, color),
    ensures
        first == second,
{
}

/// Law: a degenerate drag is a legitimate empty rasterization, not an
/// error. Whenever the drag collapses in either axis — in particular for a
/// zero drag, `k == c` — the cloud is empty.
pub proof fn lemma_raster_degenerate(c: PointV, k: PointV, color: Color)
    requires
        k.x == c.x || k.y == c.y,
    ensures
        raster_seq(c, k, color) == Seq::<SampleV>::empty(),
{
    assert(raster_width(c, k) * raster_height(c, k) == 0) by (nonlinear_arith)
        requires
            raster_width(c, k) == 0 || raster_height(c, k) == 0,
    ;
    assert(raster_seq(c, k, color) =~= Seq::<SampleV>::empty());
}

/// Convert a two-corner rectangle drag into its explicit ordered point
/// cloud, one sample per unit step, visited row-major. Follows the
/// edge lengths through rounded Euclidean distances between the computed
/// corners, which the proof shows equal twice the drag deltas.
#[verifier::loop_isolation(false)]
pub fn rasterize(center: Point, corner: Point, color: Color) -> (out: Vec<Sample>)
    requires
        pt_in_range(center@),
        pt_in_range(corner@),
    ensures
        out.deep_view() == raster_seq(center@, corner@, color),
{
    let ghost cv = center@;
    let ghost kv = corner@;
    let ghost rs = raster_seq(cv, kv, color);
    let ghost w = raster_width(cv, kv);
    let ghost hh = raster_height(cv, kv);
    let ghost ltv = raster_top_left(cv, kv);

    let dx: i64 = corner.x - center.x;
    let dy: i64 = corner.y - center.y;
    let x1: i64 = corner.x - 2 * dx;
    let x2: i64 = corner.x;
    let y1: i64 = corner.y - 2 * dy;
    let y2: i64 = corner.y;

    let lt = Point::new(x1, y1);
    let lb = Point::new(x1, y2);
    let rt = Point::new(x2, y1);

    let height_raw: u64 = dist_round(lb, lt);
    let width_raw: u64 = dist_round(rt, lt);
    proof {
        // The left edge is vertical and the top edge horizontal, so the
        // rounded Euclidean distances are exactly the absolute deltas.
        assert(sq(lb@.x - lt@.x) + sq(lb@.y - lt@.y) == sq(2 * dy as int));
        assert(sq(rt@.x - lt@.x) + sq(rt@.y - lt@.y) == sq(2 * dx as int));
        assert(sq(2 * dy as int) == abs_i(2 * dy as int) * abs_i(2 * dy as int))
            by (nonlinear_arith);
        assert(sq(2 * dx as int) == abs_i(2 * dx as int) * abs_i(2 * dx as int))
            by (nonlinear_arith);
        lemma_rounded_sqrt_of_square(abs_i(2 * dy as int));
        lemma_rounded_sqrt_of_square(abs_i(2 * dx as int));
        lemma_rounded_sqrt_unique(
            sq(lb@.x - lt@.x) + sq(lb@.y - lt@.y),
            height_raw as int,
            abs_i(2 * dy as int),
        );
        lemma_rounded_sqrt_unique(
            sq(rt@.x - lt@.x) + sq(rt@.y - lt@.y),
            width_raw as int,
            abs_i(2 * dx as int),
        );
        assert(height_raw as int == hh);
        assert(width_raw as int == w);
    }
    let height: i64 = height_raw as i64;
    let width: i64 = width_raw as i64;

    let mut out: Vec<Sample> = Vec::new();
    proof {
        assert(out.deep_view() =~= rs.take(0));
    }
    let mut height_counter: i64 = 0;
    while height_counter < height
        invariant
            0 <= height_counter <= height,
            out.deep_view() == rs.take(height_counter as int * w),
        decreases height - height_counter,
    {
        let mut width_counter: i64 = 0;
        while width_counter < width
            invariant
                0 <= width_counter <= width,
                0 <= height_counter < height,
                out.deep_view() == rs.take(height_counter as int * w + width_counter as int),
            decreases width - width_counter,
        {
            let p = Point::new(x1 + width_counter, y1 - height_counter);
            out.push(Sample::new(p, color));
            proof {
                let i = height_counter as int * w + width_counter as int;
                assert(i + 1 <= hh * w) by (nonlinear_arith)
                    requires
                        0 <= width_counter < w,
                        0 <= height_counter < hh,
                        i == height_counter as int * w + width_counter as int,
                ;
                assert(w * hh == hh * w) by (nonlinear_arith);
                lemma_fundamental_div_mod_converse(
                    i,
                    w,
                    height_counter as int,
                    width_counter as int,
                );
                assert(rs[i] == (SampleV {
                    pos: PointV { x: ltv.x + width_counter, y: ltv.y - height_counter },
                    color,
                }));
                assert(out.deep_view() =~= rs.take(i + 1));
            }
            width_counter = width_counter + 1;
        }
        proof {
            assert(height_counter as int * w + w == (height_counter as int + 1) * w)
                by (nonlinear_arith);
        }
        height_counter = height_counter + 1;
    }
    proof {
        assert(hh * w == w * hh) by (nonlinear_arith);
        assert(rs.take(hh * w) =~= rs);
    }
    out
}

impl Rectangle_Custom {
    /// Rasterize the in-flight drag: append the row-major cloud for this
    /// rectangle's center, the released drag corner and this rectangle's
    /// color to the pixel buffer.
    pub fn rect_to_pixels(&mut self, rb_corner: Point)
        requires
            pt_in_range(old(self)@.center),
            pt_in_range(rb_corner@),
        ensures
            final(self)@ == (RectangleCustomV {
                pixels: old(self)@.pixels + raster_seq(
                    old(self)@.center,
                    rb_corner@,
                    old(self)@.color,
                ),
                ..old(self)@
            }),
    {
        let mut add = rasterize(self.get_center(), rb_corner, self.get_color());
        let ghost added = add.deep_view();
        let ghost before = self.pixels.deep_view();
        self.pixels.append(&mut add);
        proof {
            assert(self.pixels.deep_view() =~= before + added);
        }
    }
}

} // verus!
