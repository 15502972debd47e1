use crate::color::{default_color, copy_samples, Color, Sample, SampleV};
use crate::geometry::{Point, PointV};
use vstd::prelude::*;

verus! {

/// The currently active drawing mode. Exactly one tool is selected at any
/// time; `Rubber` is reserved and drives no gesture in the canonical flow.
#[allow(non_camel_case_types)]
#[derive(Clone, Copy, PartialEq, Eq, Structural, Debug)]
pub enum Tool {
    Pencil,
    Rect,
    Rect_Custom,
    Ellipse,
    Rubber,
}

/// An outlined rectangle: a center, a width/height pair and one outline
/// color for the whole element.
#[derive(Clone, Copy, PartialEq, Eq, Structural, Debug)]
pub struct Rectangle {
    center: Point,
    wh: Point,
    color: Color,
    clicked: bool,
}

/// Mathematical counterpart of `Rectangle`.
#[verifier::ext_equal]
pub ghost struct RectangleV {
    pub center: PointV,
    pub wh: PointV,
    pub color: Color,
    pub clicked: bool,
}

impl View for Rectangle {
    type V = RectangleV;

    closed spec fn view(&self) -> RectangleV {
        RectangleV { center: self.center@, wh: self.wh@, color: self.color, clicked: self.clicked }
    }
}

impl DeepView for Rectangle {
    type V = RectangleV;

    open spec fn deep_view(&self) -> RectangleV {
        self.view()
    }
}

impl Rectangle {
    pub fn new(center: Point, wh: Point, color: Color, clicked: bool) -> (r: Rectangle)
        ensures
            r@ == (RectangleV { center: center@, wh: wh@, color, clicked }),
    {
        Rectangle { center, wh, color, clicked }
    }

    pub fn get_wh(&self) -> (r: Point)
        ensures
            r@ == self@.wh,
    {
        self.wh
    }

    pub fn set_wh(&mut self, wh: Point)
        ensures
            final(self)@ == (RectangleV { wh: wh@, ..old(self)@ }),
    {
        self.wh = wh;
    }

    pub fn get_color(&self) -> (r: Color)
        ensures
            r == self@.color,
    {
        self.color
    }

    pub fn set_color(&mut self, color: Color)
        ensures
            final(self)@ == (RectangleV { color, ..old(self)@ }),
    {
        self.color = color;
    }

    pub fn get_center(&self) -> (r: Point)
        ensures
            r@ == self@.center,
    {
        self.center
    }

    pub fn set_center(&mut self, center: Point)
        ensures
            final(self)@ == (RectangleV { center: center@, ..old(self)@ }),
    {
        self.center = center;
    }

    pub fn get_clicked(&self) -> (r: bool)
        ensures
            r == self@.clicked,
    {
        self.clicked
    }

    pub fn set_clicked(&mut self, clicked: bool)
        ensures
            final(self)@ == (RectangleV { clicked, ..old(self)@ }),
    {
        self.clicked = clicked;
    }
}

/// An outlined ellipse: a center, a radius and one color.
#[derive(Clone, Copy, PartialEq, Eq, Structural, Debug)]
pub struct Ellipse {
    center: Point,
    color: Color,
    radius: i64,
    clicked: bool,
}

/// Mathematical counterpart of `Ellipse`.
#[verifier::ext_equal]
pub ghost struct EllipseV {
    pub center: PointV,
    pub color: Color,
    pub radius: int,
    pub clicked: bool,
}

impl View for Ellipse {
    type V = EllipseV;

    closed spec fn view(&self) -> EllipseV {
        EllipseV {
            center: self.center@,
            color: self.color,
            radius: self.radius as int,
            clicked: self.clicked,
        }
    }
}

impl DeepView for Ellipse {
    type V = EllipseV;

    open spec fn deep_view(&self) -> EllipseV {
        self.view()
    }
}

impl Ellipse {
    pub fn new(center: Point, color: Color, radius: i64, clicked: bool) -> (r: Ellipse)
        ensures
            r@ == (EllipseV { center: center@, color, radius: radius as int, clicked }),
    {
        Ellipse { center, color, radius, clicked }
    }

    pub fn get_radius(&self) -> (r: i64)
        ensures
            r as int == self@.radius,
    {
        self.radius
    }

    pub fn set_radius(&mut self, radius: i64)
        ensures
            final(self)@ == (EllipseV { radius: radius as int, ..old(self)@ }),
    {
        self.radius = radius;
    }

    pub fn get_color(&self) -> (r: Color)
        ensures
            r == self@.color,
    {
        self.color
    }

    pub fn set_color(&mut self, color: Color)
        ensures
            final(self)@ == (EllipseV { color, ..old(self)@ }),
    {
        self.color = color;
    }

    pub fn get_center(&self) -> (r: Point)
        ensures
            r@ == self@.center,
    {
        self.center
    }

    pub fn set_center(&mut self, center: Point)
        ensures
            final(self)@ == (EllipseV { center: center@, ..old(self)@ }),
    {
        self.center = center;
    }

    pub fn get_clicked(&self) -> (r: bool)
        ensures
            r == self@.clicked,
    {
        self.clicked
    }

    pub fn set_clicked(&mut self, clicked: bool)
        ensures
            final(self)@ == (EllipseV { clicked, ..old(self)@ }),
    {
        self.clicked = clicked;
    }
}

/// A freehand stroke: an ordered sequence of colored samples connected as a
/// polyline, with one stroke weight. Colors are stored per sample so that a
/// stroke drawn while the active color changes keeps the color each point
/// was captured with.
pub struct Line {
    pub pixels: Vec<Sample>,
    pub weight: u32,
    pub color: Color,
}

/// Mathematical counterpart of `Line`.
#[verifier::ext_equal]
pub ghost struct LineV {
    pub pixels: Seq<SampleV>,
    pub weight: u32,
    pub color: Color,
}

impl View for Line {
    type V = LineV;

    open spec fn view(&self) -> LineV {
        LineV { pixels: self.pixels.deep_view(), weight: self.weight, color: self.color }
    }
}

impl DeepView for Line {
    type V = LineV;

    open spec fn deep_view(&self) -> LineV {
        self.view()
    }
}

impl Line {
    pub fn new() -> (r: Line)
        ensures
            r@ == (LineV {
                pixels: Seq::<SampleV>::empty(),
                weight: 0u32,
                color: Color { hue: 10u32, sat: 500u32, val: 1000u32 },
            }),
    {
        let r = Line { pixels: Vec::new(), weight: 0, color: default_color() };
        proof {
            assert(r@.pixels =~= Seq::<SampleV>::empty());
        }
        r
    }

    pub fn new_param(pixels: Vec<Sample>, weight: u32, color: Color) -> (r: Line)
        ensures
            r@ == (LineV { pixels: pixels.deep_view(), weight, color }),
    {
        Line { pixels, weight, color }
    }

    pub fn clear_line(&mut self)
        ensures
            final(self)@ == (LineV { pixels: Seq::<SampleV>::empty(), ..old(self)@ }),
    {
        self.pixels.clear();
        proof {
            assert(self@.pixels =~= Seq::<SampleV>::empty());
        }
    }

    pub fn get_line(&self) -> (r: &Vec<Sample>)
        ensures
            r.deep_view() == self@.pixels,
    {
        &self.pixels
    }

    pub fn get_pixels(&self) -> (r: Vec<Sample>)
        ensures
            r.deep_view() == self@.pixels,
    {
        copy_samples(&self.pixels)
    }

    pub fn get_weight(&self) -> (r: u32)
        ensures
            r == self@.weight,
    {
        self.weight
    }

    pub fn set_weight(&mut self, weight: u32)
        ensures
            final(self)@ == (LineV { weight, ..old(self)@ }),
    {
        self.weight = weight;
    }

    pub fn get_color(&self) -> (r: Color)
        ensures
            r == self@.color,
    {
        self.color
    }

    pub fn set_color(&mut self, color: Color)
        ensures
            final(self)@ == (LineV { color, ..old(self)@ }),
    {
        self.color = color;
    }
}

/// The custom, rasterized rectangle: parametric while the gesture is in
/// flight (center plus width/height), an explicit ordered point cloud after
/// rasterization.
#[allow(non_camel_case_types)]
pub struct Rectangle_Custom {
    pub center: Point,
    pub wh: Point,
    pub weight: u32,
    pub pixels: Vec<Sample>,
    pub color: Color,
    pub clicked: bool,
}

/// Mathematical counterpart of `Rectangle_Custom`.
#[verifier::ext_equal]
pub ghost struct RectangleCustomV {
    pub center: PointV,
    pub wh: PointV,
    pub weight: u32,
    pub pixels: Seq<SampleV>,
    pub color: Color,
    pub clicked: bool,
}

impl View for Rectangle_Custom {
    type V = RectangleCustomV;

    open spec fn view(&self) -> RectangleCustomV {
        RectangleCustomV {
            center: self.center@,
            wh: self.wh@,
            weight: self.weight,
            pixels: self.pixels.deep_view(),
            color: self.color,
            clicked: self.clicked,
        }
    }
}

impl DeepView for Rectangle_Custom {
    type V = RectangleCustomV;

    open spec fn deep_view(&self) -> RectangleCustomV {
        self.view()
    }
}

impl Rectangle_Custom {
    pub fn new(center: Point, wh: Point, color: Color, clicked: bool, weight: u32) -> (r:
        Rectangle_Custom)
        ensures
            r@ == (RectangleCustomV {
                center: center@,
                wh: wh@,
                weight,
                pixels: Seq::<SampleV>::empty(),
                color,
                clicked,
            }),
    {
        let r = Rectangle_Custom { center, wh, weight, pixels: Vec::new(), color, clicked };
        proof {
            assert(r@.pixels =~= Seq::<SampleV>::empty());
        }
        r
    }

    /// A full copy, pixel buffer included.
    pub fn duplicate(&self) -> (r: Rectangle_Custom)
        ensures
            r@ == self@,
    {
        Rectangle_Custom {
            center: self.center,
            wh: self.wh,
            weight: self.weight,
            pixels: copy_samples(&self.pixels),
            color: self.color,
            clicked: self.clicked,
        }
    }

    pub fn get_wh(&self) -> (r: Point)
        ensures
            r@ == self@.wh,
    {
        self.wh
    }

    pub fn set_wh(&mut self, wh: Point)
        ensures
            final(self)@ == (RectangleCustomV { wh: wh@, ..old(self)@ }),
    {
        self.wh = wh;
    }

    pub fn clear_line(&mut self)
        ensures
            final(self)@ == (RectangleCustomV { pixels: Seq::<SampleV>::empty(), ..old(self)@ }),
    {
        self.pixels.clear();
        proof {
            assert(self@.pixels =~= Seq::<SampleV>::empty());
        }
    }

    pub fn get_line(&self) -> (r: &Vec<Sample>)
        ensures
            r.deep_view() == self@.pixels,
    {
        &self.pixels
    }

    pub fn get_pixels(&self) -> (r: Vec<Sample>)
        ensures
            r.deep_view() == self@.pixels,
    {
        copy_samples(&self.pixels)
    }

    pub fn get_center(&self) -> (r: Point)
        ensures
            r@ == self@.center,
    {
        self.center
    }

    pub fn set_center(&mut self, center: Point)
        ensures
            final(self)@ == (RectangleCustomV { center: center@, ..old(self)@ }),
    {
        self.center = center;
    }

    pub fn get_color(&self) -> (r: Color)
        ensures
            r == self@.color,
    {
        self.color
    }

    pub fn set_color(&mut self, color: Color)
        ensures
            final(self)@ == (RectangleCustomV { color, ..old(self)@ }),
    {
        self.color = color;
    }

    pub fn get_weight(&self) -> (r: u32)
        ensures
            r == self@.weight,
    {
        self.weight
    }

    pub fn set_weight(&mut self, weight: u32)
        ensures
            final(self)@ == (RectangleCustomV { weight, ..old(self)@ }),
    {
        self.weight = weight;
    }

    pub fn get_clicked(&self) -> (r: bool)
        ensures
            r == self@.clicked,
    {
        self.clicked
    }

    pub fn set_clicked(&mut self, clicked: bool)
        ensures
            final(self)@ == (RectangleCustomV { clicked, ..old(self)@ }),
    {
        self.clicked = clicked;
    }
}

/// The closed set of committed drawing elements. The variant set is fixed
/// and matched exhaustively everywhere an element is consumed, so a missing
/// case is a compile error rather than a silent no-op.
pub enum Elements {
    Line(Line),
    Rect(Rectangle),
    Ellipse(Ellipse),
    RectCustom(Rectangle_Custom),
}

/// Mathematical counterpart of `Elements`.
#[verifier::ext_equal]
pub ghost enum ElementsV {
    Line(LineV),
    Rect(RectangleV),
    Ellipse(EllipseV),
    RectCustom(RectangleCustomV),
}

impl View for Elements {
    type V = ElementsV;

    open spec fn view(&self) -> ElementsV {
        match self {
            Elements::Line(l) => ElementsV::Line(l@),
            Elements::Rect(r) => ElementsV::Rect(r@),
            Elements::Ellipse(e) => ElementsV::Ellipse(e@),
            Elements::RectCustom(rc) => ElementsV::RectCustom(rc@),
        }
    }
}

impl DeepView for Elements {
    type V = ElementsV;

    open spec fn deep_view(&self) -> ElementsV {
        self.view()
    }
}

} // verus!
