use crate::color::{Color, Sample, SampleV};
use crate::elements::{
    Elements, ElementsV, Ellipse, EllipseV, Line, LineV, Rectangle, RectangleCustomV, RectangleV,
    Rectangle_Custom, Tool,
};
use crate::geometry::{
    abs_i, abs_i64, clamp0, lemma_rounded_sqrt_le, lemma_rt_round_nonneg, pt_in_range, rt_round,
    sq, sqrt_round, Point, PointV,
};
use crate::raster::raster_seq;
use vstd::prelude::*;

verus! {

/// Which mouse button a pointer event carries. Only the primary button
/// drives tool gestures; events from the other buttons are consumed
/// unchanged.
#[derive(Clone, Copy, PartialEq, Eq, Structural, Debug)]
pub enum MouseButton {
    Primary,
    Secondary,
    Middle,
}

/// The tool-settings snapshot the core reads whenever it starts or mutates a
/// draft: current color, current stroke weight, and whether the shape
/// palette is open. Owned by the external settings panel.
#[derive(Clone, Copy)]
pub struct Settings {
    pub color: Color,
    pub weight: u32,
    shapes: bool,
}

/// Mathematical counterpart of `Settings`.
#[verifier::ext_equal]
pub ghost struct SettingsV {
    pub color: Color,
    pub weight: u32,
    pub shapes: bool,
}

impl View for Settings {
    type V = SettingsV;

    closed spec fn view(&self) -> SettingsV {
        SettingsV { color: self.color, weight: self.weight, shapes: self.shapes }
    }
}

impl Settings {
    pub fn new(color: Color, weight: u32, shapes: bool) -> (r: Settings)
        ensures
            r@ == (SettingsV { color, weight, shapes }),
    {
        Settings { color, weight, shapes }
    }

    pub fn set_shapes(&mut self, shape: bool)
        ensures
            final(self)@ == (SettingsV { shapes: shape, ..old(self)@ }),
    {
        self.shapes = shape;
    }

    pub fn get_weight(&self) -> (r: u32)
        ensures
            r == self@.weight,
    {
        self.weight
    }

    pub fn get_color(&self) -> (r: Color)
        ensures
            r == self@.color,
    {
        self.color
    }

    pub fn get_shapes(&self) -> (r: bool)
        ensures
            r == self@.shapes,
    {
        self.shapes
    }
}

/// The width/height pair of a rectangle dragged from its center `center` to
/// the pointer position `pos`: twice the component-wise absolute delta.
pub open spec fn drag_wh(center: PointV, pos: PointV) -> PointV {
    PointV { x: 2 * abs_i(pos.x - center.x), y: 2 * abs_i(pos.y - center.y) }
}

/// The ellipse radius for a pointer at `pos` and an anchor at `center`:
/// the square root of the difference of the squared deltas, rounded, with
/// the radicand clamped to zero so that no degenerate drag can poison the
/// stored geometry.
pub open spec fn ellipse_radius_spec(center: PointV, pos: PointV) -> int {
    rt_round(clamp0(sq(pos.x - center.x) - sq(pos.y - center.y)))
}

/// Law: the ellipse radius is well defined and non-negative for any two
/// points — the clamped radicand is never negative, so no square root of a
/// negative number is ever taken.
pub proof fn lemma_ellipse_radius_nonneg(center: PointV, pos: PointV)
    ensures
        ellipse_radius_spec(center, pos) >= 0,
{
    lemma_rt_round_nonneg(clamp0(sq(pos.x - center.x) - sq(pos.y - center.y)));
}

/// Compute the ellipse radius for a drag from `center` to `pos`.
pub fn ellipse_radius(center: Point, pos: Point) -> (r: i64)
    requires
        pt_in_range(center@),
        pt_in_range(pos@),
    ensures
        r as int == ellipse_radius_spec(center@, pos@),
        r >= 0,
{
    let dx: i64 = pos.x - center.x;
    let dy: i64 = pos.y - center.y;
    assert(dx * dx <= 0x40000000000i64 && dx * dx >= 0) by (nonlinear_arith)
        requires
            -2097152 <= dx <= 2097152,
    ;
    assert(dy * dy <= 0x40000000000i64 && dy * dy >= 0) by (nonlinear_arith)
        requires
            -2097152 <= dy <= 2097152,
    ;
    let sx: i64 = dx * dx;
    let sy: i64 = dy * dy;
    let rad: i64 = if sx >= sy {
        sx - sy
    } else {
        0
    };
    assert(rad as int == clamp0(sq(pos@.x - center@.x) - sq(pos@.y - center@.y)));
    let root: u64 = sqrt_round(rad as u64);
    proof {
        assert(2097152 * 2097152 == 0x40000000000) by (nonlinear_arith);
        lemma_rounded_sqrt_le(rad as int, root as int, 2097152);
    }
    root as i64
}

/// The whole interactive core: the settings snapshot, the four draft slots,
/// the committed canvas, the selected tool and the gesture flag.
///
/// The state machine has two states: idle (`drawing == false`) and drawing
/// (`drawing == true`, gesturing with `tool`). A press starts a fresh draft
/// for the current tool, a move mutates that draft, a release converts the
/// draft into a committed element, appends it to the canvas and returns to
/// idle. Events that have no defined transition (a move or release while
/// idle, a second press while drawing) are consumed as no-ops. Tool
/// selection is edited externally between gestures only; the external UI is
/// expected to disable tool switching while a gesture is active.
pub struct Model {
    pub settings: Settings,
    pub line: Line,
    pub ellipse: Ellipse,
    pub rect: Rectangle,
    pub rect_custom: Rectangle_Custom,
    pub elements: Vec<Elements>,
    pub tool: Tool,
    pub drawing: bool,
}

/// Mathematical counterpart of `Model`.
#[verifier::ext_equal]
pub ghost struct ModelV {
    pub settings: SettingsV,
    pub line: LineV,
    pub ellipse: EllipseV,
    pub rect: RectangleV,
    pub rect_custom: RectangleCustomV,
    pub elements: Seq<ElementsV>,
    pub tool: Tool,
    pub drawing: bool,
}

impl View for Model {
    type V = ModelV;

    open spec fn view(&self) -> ModelV {
        ModelV {
            settings: self.settings@,
            line: self.line@,
            ellipse: self.ellipse@,
            rect: self.rect@,
            rect_custom: self.rect_custom@,
            elements: self.elements.deep_view(),
            tool: self.tool,
            drawing: self.drawing,
        }
    }
}

/// `post` keeps every element of `pre`, in place and in order.
pub open spec fn extends(post: Seq<ElementsV>, pre: Seq<ElementsV>) -> bool {
    &&& post.len() >= pre.len()
    &&& forall|i: int| 0 <= i < pre.len() ==> post[i] == pre[i]
}

impl ModelV {
    /// All stored anchors lie inside the supported canvas range, so gesture
    /// arithmetic stays inside `i64`.
    pub open spec fn wf(self) -> bool {
        &&& pt_in_range(self.ellipse.center)
        &&& pt_in_range(self.rect.center)
        &&& pt_in_range(self.rect_custom.center)
    }

    /// Transition for `press(pos)`: in the idle state, start drawing and
    /// initialize a fresh draft for the current tool from the settings
    /// snapshot. A pencil stroke starts with the press position as its first
    /// sample. A press while already drawing is consumed as a no-op.
    pub open spec fn press_spec(self, pos: PointV) -> ModelV {
        if self.drawing {
            self
        } else {
            let armed = ModelV { drawing: true, ..self };
            match self.tool {
                Tool::Pencil => ModelV {
                    line: LineV {
                        pixels: seq![SampleV { pos, color: self.settings.color }],
                        weight: self.settings.weight,
                        color: self.settings.color,
                    },
                    ..armed
                },
                Tool::Rect => ModelV {
                    rect: RectangleV {
                        center: pos,
                        wh: PointV { x: 0, y: 0 },
                        color: self.settings.color,
                        clicked: self.rect.clicked,
                    },
                    ..armed
                },
                Tool::Ellipse => ModelV {
                    ellipse: EllipseV {
                        center: pos,
                        color: self.settings.color,
                        radius: 0,
                        clicked: self.ellipse.clicked,
                    },
                    ..armed
                },
                Tool::Rect_Custom => ModelV {
                    rect_custom: RectangleCustomV {
                        center: pos,
                        wh: PointV { x: 0, y: 0 },
                        weight: self.settings.weight,
                        pixels: Seq::<SampleV>::empty(),
                        color: self.settings.color,
                        clicked: self.rect_custom.clicked,
                    },
                    ..armed
                },
                Tool::Rubber => armed,
            }
        }
    }

    /// Transition for `move(pos)` while drawing: mutate the in-flight draft.
    /// A pencil stroke appends a sample carrying the color active at capture
    /// time; the rectangle tools recompute their size from the anchor; the
    /// ellipse recomputes its radius. A move while idle is a no-op.
    pub open spec fn move_spec(self, pos: PointV) -> ModelV {
        if !self.drawing {
            self
        } else {
            match self.tool {
                Tool::Pencil => ModelV {
                    line: LineV {
                        pixels: self.line.pixels.push(
                            SampleV { pos, color: self.settings.color },
                        ),
                        ..self.line
                    },
                    ..self
                },
                Tool::Rect => ModelV {
                    rect: RectangleV { wh: drag_wh(self.rect.center, pos), ..self.rect },
                    ..self
                },
                Tool::Ellipse => ModelV {
                    ellipse: EllipseV {
                        radius: ellipse_radius_spec(self.ellipse.center, pos),
                        ..self.ellipse
                    },
                    ..self
                },
                Tool::Rect_Custom => ModelV {
                    rect_custom: RectangleCustomV {
                        wh: drag_wh(self.rect_custom.center, pos),
                        ..self.rect_custom
                    },
                    ..self
                },
                Tool::Rubber => self,
            }
        }
    }

    /// Transition for `release(pos)` while drawing: commit the draft as one
    /// element appended to the canvas, clear the draft slot that carried a
    /// sample buffer, and return to idle. The custom rectangle is rasterized
    /// with the release position as the drag corner before it is committed.
    /// A release while idle is a no-op; a release with the reserved eraser
    /// tool commits nothing.
    pub open spec fn release_spec(self, pos: PointV) -> ModelV {
        if !self.drawing {
            self
        } else {
            let done = ModelV { drawing: false, ..self };
            match self.tool {
                Tool::Pencil => ModelV {
                    elements: self.elements.push(ElementsV::Line(self.line)),
                    line: LineV { pixels: Seq::<SampleV>::empty(), ..self.line },
                    ..done
                },
                Tool::Rect => ModelV {
                    elements: self.elements.push(ElementsV::Rect(self.rect)),
                    ..done
                },
                Tool::Ellipse => ModelV {
                    elements: self.elements.push(ElementsV::Ellipse(self.ellipse)),
                    ..done
                },
                Tool::Rect_Custom => ModelV {
                    elements: self.elements.push(
                        ElementsV::RectCustom(
                            RectangleCustomV {
                                pixels: self.rect_custom.pixels + raster_seq(
                                    self.rect_custom.center,
                                    pos,
                                    self.rect_custom.color,
                                ),
                                ..self.rect_custom
                            },
                        ),
                    ),
                    rect_custom: RectangleCustomV {
                        pixels: Seq::<SampleV>::empty(),
                        ..self.rect_custom
                    },
                    ..done
                },
                Tool::Rubber => done,
            }
        }
    }

    /// Transition for a button-tagged press: only the primary button starts
    /// a gesture.
    pub open spec fn mouse_pressed_spec(self, button: MouseButton, pos: PointV) -> ModelV {
        if button == MouseButton::Primary {
            self.press_spec(pos)
        } else {
            self
        }
    }

    /// Transition for a button-tagged release: only the primary button
    /// commits a gesture.
    pub open spec fn mouse_released_spec(self, button: MouseButton, pos: PointV) -> ModelV {
        if button == MouseButton::Primary {
            self.release_spec(pos)
        } else {
            self
        }
    }

    /// The state after a whole sequence of pointer moves.
    pub open spec fn moves_spec(self, ps: Seq<PointV>) -> ModelV
        decreases ps.len(),
    {
        if ps.len() == 0 {
            self
        } else {
            self.move_spec(ps[0]).moves_spec(ps.drop_first())
        }
    }
}

/// A pointer move mutates only the in-flight draft: the committed canvas,
/// the selected tool, the settings and the gesture flag are untouched.
pub proof fn lemma_move_keeps_canvas(m: ModelV, pos: PointV)
    ensures
        m.move_spec(pos).elements == m.elements,
        m.move_spec(pos).tool == m.tool,
        m.move_spec(pos).drawing == m.drawing,
        m.move_spec(pos).settings == m.settings,
{
}

/// Any sequence of pointer moves keeps the canvas, tool, settings and
/// gesture flag untouched.
pub proof fn lemma_moves_keep_canvas(m: ModelV, ps: Seq<PointV>)
    ensures
        m.moves_spec(ps).elements == m.elements,
        m.moves_spec(ps).tool == m.tool,
        m.moves_spec(ps).drawing == m.drawing,
        m.moves_spec(ps).settings == m.settings,
    decreases ps.len(),
{
    if ps.len() == 0 {
    } else {
        lemma_move_keeps_canvas(m, ps[0]);
        lemma_moves_keep_canvas(m.move_spec(ps[0]), ps.drop_first());
    }
}

/// Law: the canvas is append-only. No single transition removes or reorders
/// a committed element, so the canvas length never decreases.
pub proof fn lemma_canvas_append_only(m: ModelV, pos: PointV)
    ensures
        m.press_spec(pos).elements == m.elements,
        m.move_spec(pos).elements == m.elements,
        extends(m.release_spec(pos).elements, m.elements),
{
}

/// Law: every completed gesture — a press, any number of moves, then a
/// release — with a drawing tool grows the canvas by exactly one element and
/// keeps every element already committed, in place and in order.
pub proof fn lemma_gesture_appends_one(
    m: ModelV,
    press_pos: PointV,
    move_ps: Seq<PointV>,
    release_pos: PointV,
)
    requires
        !m.drawing,
        m.tool != Tool::Rubber,
    ensures
        ({
            let end = m.press_spec(press_pos).moves_spec(move_ps).release_spec(release_pos);
            &&& end.elements.len() == m.elements.len() + 1
            &&& extends(end.elements, m.elements)
        }),
{
    let pressed = m.press_spec(press_pos);
    assert(pressed.elements == m.elements);
    assert(pressed.tool == m.tool && pressed.drawing);
    lemma_moves_keep_canvas(pressed, move_ps);
    let moved = pressed.moves_spec(move_ps);
    assert(moved.drawing && moved.tool == m.tool && moved.elements == m.elements);
}

impl Model {
    pub fn new(
        settings: Settings,
        line: Line,
        ellipse: Ellipse,
        rect: Rectangle,
        rect_custom: Rectangle_Custom,
        elements: Vec<Elements>,
        tool: Tool,
        drawing: bool,
    ) -> (r: Model)
        ensures
            r@ == (ModelV {
                settings: settings@,
                line: line@,
                ellipse: ellipse@,
                rect: rect@,
                rect_custom: rect_custom@,
                elements: elements.deep_view(),
                tool,
                drawing,
            }),
    {
        Model { settings, line, ellipse, rect, rect_custom, elements, tool, drawing }
    }

    pub fn get_drawing(&self) -> (r: bool)
        ensures
            r == self@.drawing,
    {
        self.drawing
    }

    pub fn get_settings(&self) -> (r: &Settings)
        ensures
            r@ == self@.settings,
    {
        &self.settings
    }

    pub fn get_tool(&self) -> (r: Tool)
        ensures
            r == self@.tool,
    {
        self.tool
    }

    pub fn get_line(&self) -> (r: &Line)
        ensures
            r@ == self@.line,
    {
        &self.line
    }

    pub fn get_rect_line(&self) -> (r: &Rectangle_Custom)
        ensures
            r@ == self@.rect_custom,
    {
        &self.rect_custom
    }

    pub fn get_mut_line(&mut self) -> (r: &mut Line)
        ensures
            r@ == old(self)@.line,
            final(self)@ == (ModelV { line: final(r)@, ..old(self)@ }),
    {
        &mut self.line
    }

    pub fn get_mut_rect_line(&mut self) -> (r: &mut Rectangle_Custom)
        ensures
            r@ == old(self)@.rect_custom,
            final(self)@ == (ModelV { rect_custom: final(r)@, ..old(self)@ }),
    {
        &mut self.rect_custom
    }

    pub fn set_drawing(&mut self, drawing: bool)
        ensures
            final(self)@ == (ModelV { drawing, ..old(self)@ }),
    {
        self.drawing = drawing;
    }

    /// Number of committed elements on the canvas, for external diagnostics.
    pub fn appended_count(&self) -> (r: usize)
        ensures
            r == self@.elements.len(),
    {
        self.elements.len()
    }

    /// Commit the current stroke draft: append a copy of it to the canvas.
    pub fn set_line(&mut self)
        ensures
            final(self)@ == (ModelV {
                elements: old(self)@.elements.push(ElementsV::Line(old(self)@.line)),
                ..old(self)@
            }),
    {
        let committed = Line::new_param(
            self.line.get_pixels(),
            self.line.get_weight(),
            self.line.get_color(),
        );
        self.elements.push(Elements::Line(committed));
        proof {
            assert(self.elements.deep_view() =~= old(self).elements.deep_view().push(
                ElementsV::Line(old(self)@.line),
            ));
            assert(self@ =~~= (ModelV {
                elements: old(self)@.elements.push(ElementsV::Line(old(self)@.line)),
                ..old(self)@
            }));
        }
    }

    /// Commit the current custom-rectangle draft: append a copy of it, pixel
    /// buffer included, to the canvas.
    pub fn set_rect_line(&mut self)
        ensures
            final(self)@ == (ModelV {
                elements: old(self)@.elements.push(
                    ElementsV::RectCustom(old(self)@.rect_custom),
                ),
                ..old(self)@
            }),
    {
        let committed = self.rect_custom.duplicate();
        self.elements.push(Elements::RectCustom(committed));
        proof {
            assert(self.elements.deep_view() =~= old(self).elements.deep_view().push(
                ElementsV::RectCustom(old(self)@.rect_custom),
            ));
            assert(self@ =~~= (ModelV {
                elements: old(self)@.elements.push(
                    ElementsV::RectCustom(old(self)@.rect_custom),
                ),
                ..old(self)@
            }));
        }
    }

    /// Handle a primary-button press at `pos`.
    pub fn press(&mut self, pos: Point)
        requires
            old(self)@.wf(),
            pt_in_range(pos@),
        ensures
            final(self)@ == old(self)@.press_spec(pos@),
            final(self)@.wf(),
    {
        if self.get_drawing() {
            return ;
        }
        self.set_drawing(true);
        let color = self.settings.get_color();
        match self.tool {
            Tool::Pencil => {
                self.line.clear_line();
                self.line.set_weight(self.settings.get_weight());
                self.line.set_color(color);
                self.line.pixels.push(Sample::new(pos, color));
                proof {
                    assert(self.line@.pixels =~= seq![
                        SampleV { pos: pos@, color: old(self)@.settings.color },
                    ]);
                }
            },
            Tool::Rect => {
                self.rect.set_center(pos);
                self.rect.set_wh(Point::new(0, 0));
                self.rect.set_color(color);
            },
            Tool::Ellipse => {
                self.ellipse.set_center(pos);
                self.ellipse.set_radius(0);
                self.ellipse.set_color(color);
            },
            Tool::Rect_Custom => {
                self.rect_custom.set_center(pos);
                self.rect_custom.set_wh(Point::new(0, 0));
                self.rect_custom.set_weight(self.settings.get_weight());
                self.rect_custom.set_color(color);
                self.rect_custom.clear_line();
            },
            Tool::Rubber => {},
        }
        proof {
            assert(self@ =~~= old(self)@.press_spec(pos@));
        }
    }

    /// Handle a pointer move to `mouse_pos` (one per frame while the primary
    /// button is held).
    pub fn update(&mut self, mouse_pos: Point)
        requires
            old(self)@.wf(),
            pt_in_range(mouse_pos@),
        ensures
            final(self)@ == old(self)@.move_spec(mouse_pos@),
            final(self)@.wf(),
    {
        if !self.get_drawing() {
            return ;
        }
        match self.tool {
            Tool::Pencil => {
                self.line.pixels.push(Sample::new(mouse_pos, self.settings.get_color()));
                proof {
                    assert(self.line@.pixels =~= old(self)@.line.pixels.push(
                        SampleV { pos: mouse_pos@, color: old(self)@.settings.color },
                    ));
                }
            },
            Tool::Rect => {
                let c = self.rect.get_center();
                let wx: i64 = 2 * abs_i64(mouse_pos.x - c.x);
                let wy: i64 = 2 * abs_i64(mouse_pos.y - c.y);
                self.rect.set_wh(Point::new(wx, wy));
            },
            Tool::Ellipse => {
                let r = ellipse_radius(self.ellipse.get_center(), mouse_pos);
                self.ellipse.set_radius(r);
            },
            Tool::Rect_Custom => {
                let c = self.rect_custom.get_center();
                let wx: i64 = 2 * abs_i64(mouse_pos.x - c.x);
                let wy: i64 = 2 * abs_i64(mouse_pos.y - c.y);
                self.rect_custom.set_wh(Point::new(wx, wy));
            },
            Tool::Rubber => {},
        }
        proof {
            assert(self@ =~~= old(self)@.move_spec(mouse_pos@));
        }
    }

    /// Handle a button-tagged press event: dispatch to `press` when the
    /// primary button fired, consume the event otherwise.
    pub fn mouse_pressed(&mut self, button: MouseButton, pos: Point)
        requires
            old(self)@.wf(),
            pt_in_range(pos@),
        ensures
            final(self)@ == old(self)@.mouse_pressed_spec(button, pos@),
            final(self)@.wf(),
    {
        match button {
            MouseButton::Primary => self.press(pos),
            _ => {},
        }
    }

    /// Handle a button-tagged release event: dispatch to `release` when the
    /// primary button fired, consume the event otherwise.
    pub fn mouse_released(&mut self, button: MouseButton, pos: Point)
        requires
            old(self)@.wf(),
            pt_in_range(pos@),
        ensures
            final(self)@ == old(self)@.mouse_released_spec(button, pos@),
            final(self)@.wf(),
    {
        match button {
            MouseButton::Primary => self.release(pos),
            _ => {},
        }
    }

    /// Handle a primary-button release at `pos`: commit the draft.
    pub fn release(&mut self, pos: Point)
        requires
            old(self)@.wf(),
            pt_in_range(pos@),
        ensures
            final(self)@ == old(self)@.release_spec(pos@),
            final(self)@.wf(),
    {
        if !self.get_drawing() {
            return ;
        }
        match self.tool {
            Tool::Pencil => {
                self.set_line();
                self.line.clear_line();
            },
            Tool::Rect => {
                self.elements.push(Elements::Rect(self.rect));
                proof {
                    assert(self.elements.deep_view() =~= old(self).elements.deep_view().push(
                        ElementsV::Rect(old(self)@.rect),
                    ));
                }
            },
            Tool::Ellipse => {
                self.elements.push(Elements::Ellipse(self.ellipse));
                proof {
                    assert(self.elements.deep_view() =~= old(self).elements.deep_view().push(
                        ElementsV::Ellipse(old(self)@.ellipse),
                    ));
                }
            },
            Tool::Rect_Custom => {
                self.rect_custom.rect_to_pixels(pos);
                self.set_rect_line();
                self.rect_custom.clear_line();
            },
            Tool::Rubber => {},
        }
        self.set_drawing(false);
        proof {
            assert(self@ =~~= old(self)@.release_spec(pos@));
        }
    }
}

} // verus!
