use crate::geometry::{Point, PointV};
use vstd::prelude::*;

verus! {

/// A hue/saturation/value triple; an immutable value type that is copied
/// freely. Hue is measured in degrees, saturation and value in thousandths,
/// matching whatever units the external settings panel supplies.
#[derive(Clone, Copy, PartialEq, Eq, Structural, Debug)]
pub struct Color {
    pub hue: u32,
    pub sat: u32,
    pub val: u32,
}

impl Color {
    pub fn new(hue: u32, sat: u32, val: u32) -> (r: Color)
        ensures
            r == (Color { hue, sat, val }),
    {
        Color { hue, sat, val }
    }
}

/// The color a freshly created stroke starts with before the settings
/// snapshot is applied.
pub fn default_color() -> (r: Color)
    ensures
        r == (Color { hue: 10u32, sat: 500u32, val: 1000u32 }),
{
    Color { hue: 10, sat: 500, val: 1000 }
}

/// A single recorded pixel/vertex: a position together with the color that
/// was active when the position was captured.
#[derive(Clone, Copy, PartialEq, Eq, Structural, Debug)]
pub struct Sample {
    pub pos: Point,
    pub color: Color,
}

/// Mathematical counterpart of `Sample`.
#[verifier::ext_equal]
pub ghost struct SampleV {
    pub pos: PointV,
    pub color: Color,
}

impl View for Sample {
    type V = SampleV;

    open spec fn view(&self) -> SampleV {
        SampleV { pos: self.pos@, color: self.color }
    }
}

impl DeepView for Sample {
    type V = SampleV;

    open spec fn deep_view(&self) -> SampleV {
        self.view()
    }
}

impl Sample {
    pub fn new(pos: Point, color: Color) -> (r: Sample)
        ensures
            r@ == (SampleV { pos: pos@, color }),
    {
        Sample { pos, color }
    }
}

/// An element-by-element copy of a sample buffer.
pub fn copy_samples(v: &Vec<Sample>) -> (r: Vec<Sample>)
    ensures
        r@ == v@,
        r.deep_view() == v.deep_view(),
{
    let mut out: Vec<Sample> = Vec::new();
    let mut i: usize = 0;
    while i < v.len()
        invariant
            i <= v.len(),
            out@ == v@.take(i as int),
        decreases v.len() - i,
    {
        out.push(v[i]);
        i = i + 1;
    }
    proof {
        assert(out@ =~= v@);
        assert(out.deep_view() =~= v.deep_view());
    }
    out
}

} // verus!
