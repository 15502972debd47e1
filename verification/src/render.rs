use crate::color::{copy_samples, Color, Sample, SampleV};
use crate::elements::{Elements, ElementsV, Tool};
use crate::geometry::{Point, PointV};
use crate::model::{Model, ModelV};
use vstd::prelude::*;

verus! {

/// A draw primitive handed to the external rendering surface: a weighted
/// colored polyline, an outlined or filled rectangle, or a filled ellipse.
#[derive(PartialEq)]
pub enum DrawCmd {
    Polyline { points: Vec<Sample>, weight: u32 },
    RectOutline { center: Point, wh: Point, color: Color },
    RectFill { center: Point, wh: Point, color: Color },
    EllipseFill { center: Point, radius: i64, color: Color },
}

/// Mathematical counterpart of `DrawCmd`.
#[verifier::ext_equal]
pub ghost enum DrawCmdV {
    Polyline { points: Seq<SampleV>, weight: u32 },
    RectOutline { center: PointV, wh: PointV, color: Color },
    RectFill { center: PointV, wh: PointV, color: Color },
    EllipseFill { center: PointV, radius: int, color: Color },
}

impl View for DrawCmd {
    type V = DrawCmdV;

    open spec fn view(&self) -> DrawCmdV {
        match self {
            DrawCmd::Polyline { points, weight } => DrawCmdV::Polyline {
                points: points.deep_view(),
                weight: *weight,
            },
            DrawCmd::RectOutline { center, wh, color } => DrawCmdV::RectOutline {
                center: center@,
                wh: wh@,
                color: *color,
            },
            DrawCmd::RectFill { center, wh, color } => DrawCmdV::RectFill {
                center: center@,
                wh: wh@,
                color: *color,
            },
            DrawCmd::EllipseFill { center, radius, color } => DrawCmdV::EllipseFill {
                center: center@,
                radius: *radius as int,
                color: *color,
            },
        }
    }
}

impl DeepView for DrawCmd {
    type V = DrawCmdV;

    open spec fn deep_view(&self) -> DrawCmdV {
        self.view()
    }
}

/// The one primitive a committed element draws as: a stroke or a rasterized
/// rectangle as a colored polyline, a rectangle as its outline, an ellipse
/// as a filled disc.
pub open spec fn elem_cmd(e: ElementsV) -> DrawCmdV {
    match e {
        ElementsV::Line(l) => DrawCmdV::Polyline { points: l.pixels, weight: l.weight },
        ElementsV::Rect(r) => DrawCmdV::RectOutline { center: r.center, wh: r.wh, color: r.color },
        ElementsV::Ellipse(e) => DrawCmdV::EllipseFill {
            center: e.center,
            radius: e.radius,
            color: e.color,
        },
        ElementsV::RectCustom(rc) => DrawCmdV::Polyline { points: rc.pixels, weight: rc.weight },
    }
}

/// The primitive the in-flight draft draws as, topmost, while a gesture is
/// active; nothing when idle or when the reserved eraser tool is selected.
pub open spec fn draft_cmd(m: ModelV) -> Option<DrawCmdV> {
    if !m.drawing {
        Option::None
    } else {
        match m.tool {
            Tool::Pencil => Option::Some(
                DrawCmdV::Polyline { points: m.line.pixels, weight: m.line.weight },
            ),
            Tool::Rect => Option::Some(
                DrawCmdV::RectFill { center: m.rect.center, wh: m.rect.wh, color: m.rect.color },
            ),
            Tool::Ellipse => Option::Some(
                DrawCmdV::EllipseFill {
                    center: m.ellipse.center,
                    radius: m.ellipse.radius,
                    color: m.settings.color,
                },
            ),
            Tool::Rect_Custom => Option::Some(
                DrawCmdV::RectFill {
                    center: m.rect_custom.center,
                    wh: m.rect_custom.wh,
                    color: m.rect_custom.color,
                },
            ),
            Tool::Rubber => Option::None,
        }
    }
}

/// The full ordered primitive sequence for one frame: every committed
/// element in commit order — later elements draw on top of earlier ones —
/// followed by the in-flight draft, if any, so in-progress work is always
/// visually topmost. A pure function of the model.
pub open spec fn render_seq(m: ModelV) -> Seq<DrawCmdV> {
    let base = m.elements.map_values(|e: ElementsV| elem_cmd(e));
    match draft_cmd(m) {
        Option::Some(c) => base.push(c),
        Option::None => base,
    }
}

/// Law: rendering is idempotent. Dispatching the same model twice without
/// mutation yields the identical ordered primitive sequence, because the
/// sequence is a function of the model alone.
pub proof fn lemma_render_idempotent(m: ModelV, first: Seq<DrawCmdV>, second: Seq<DrawCmdV>)
    requires
        first == render_seq(m),
        second == render_seq(m),
    ensures
        first == second,
{
}

impl Elements {
    /// Per-variant rendering: the primitive this committed element draws as.
    pub fn draw_elem(&self) -> (r: DrawCmd)
        ensures
            r@ == elem_cmd(self@),
    {
        match self {
            Elements::Line(l) => DrawCmd::Polyline {
                points: copy_samples(&l.pixels),
                weight: l.get_weight(),
            },
            Elements::Rect(rect) => DrawCmd::RectOutline {
                center: rect.get_center(),
                wh: rect.get_wh(),
                color: rect.get_color(),
            },
            Elements::Ellipse(e) => DrawCmd::EllipseFill {
                center: e.get_center(),
                radius: e.get_radius(),
                color: e.get_color(),
            },
            Elements::RectCustom(rc) => DrawCmd::Polyline {
                points: rc.get_pixels(),
                weight: rc.get_weight(),
            },
        }
    }
}

impl Model {
    /// The primitive for the in-flight draft, if a gesture is active.
    pub fn display(&self) -> (r: Option<DrawCmd>)
        ensures
            r.deep_view() == draft_cmd(self@),
    {
        if !self.get_drawing() {
            return None;
        }
        match self.tool {
            Tool::Pencil => Some(
                DrawCmd::Polyline {
                    points: self.line.get_pixels(),
                    weight: self.line.get_weight(),
                },
            ),
            Tool::Rect => Some(
                DrawCmd::RectFill {
                    center: self.rect.get_center(),
                    wh: self.rect.get_wh(),
                    color: self.rect.get_color(),
                },
            ),
            Tool::Ellipse => Some(
                DrawCmd::EllipseFill {
                    center: self.ellipse.get_center(),
                    radius: self.ellipse.get_radius(),
                    color: self.settings.get_color(),
                },
            ),
            Tool::Rect_Custom => Some(
                DrawCmd::RectFill {
                    center: self.rect_custom.get_center(),
                    wh: self.rect_custom.get_wh(),
                    color: self.rect_custom.get_color(),
                },
            ),
            Tool::Rubber => None,
        }
    }

    /// Walk the canvas in commit order and emit the primitive of every
    /// committed element, then the draft's primitive on top.
    #[verifier::loop_isolation(false)]
    pub fn render(&self) -> (r: Vec<DrawCmd>)
        ensures
            r.deep_view() == render_seq(self@),
    {
        let ghost base = self@.elements.map_values(|e: ElementsV| elem_cmd(e));
        let mut out: Vec<DrawCmd> = Vec::new();
        proof {
            assert(out.deep_view() =~= base.take(0));
        }
        let mut i: usize = 0;
        while i < self.elements.len()
            invariant
                i <= self.elements.len(),
                out.deep_view() == base.take(i as int),
            decreases self.elements.len() - i,
        {
            let cmd = self.elements[i].draw_elem();
            out.push(cmd);
            proof {
                assert(base[i as int] == elem_cmd(self@.elements[i as int]));
                assert(out.deep_view() =~= base.take(i as int + 1));
            }
            i = i + 1;
        }
        proof {
            assert(base.take(self.elements.len() as int) =~= base);
        }
        let draft = self.display();
        let r = match draft {
            Some(c) => {
                let mut out2 = out;
                out2.push(c);
                proof {
                    assert(out2.deep_view() =~= render_seq(self@));
                }
                out2
            },
            None => out,
        };
        r
    }
}

} // verus!
