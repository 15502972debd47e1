use crate::elements::Tool;
use crate::model::{Settings, SettingsV};
use vstd::prelude::*;

verus! {

/// Toggle the shape palette open or closed; color and weight are untouched.
pub fn open_shapes(settings: &mut Settings)
    ensures
        final(settings)@ == (SettingsV { shapes: !old(settings)@.shapes, ..old(settings)@ }),
{
    if settings.get_shapes() {
        settings.set_shapes(false);
    } else {
        settings.set_shapes(true);
    }
}

/// The tool that clicking the palette button for `shape` selects while
/// `current` is selected: selecting a shape sets it, reselecting the same
/// shape clears the selection back to the pencil. At most one shape can
/// appear selected at any time.
pub open spec fn select_shape_spec(current: Tool, shape: Tool) -> Tool {
    if current == shape {
        Tool::Pencil
    } else {
        shape
    }
}

/// Apply one click on the shape palette button for `shape`.
pub fn select_shape(current: Tool, shape: Tool) -> (r: Tool)
    ensures
        r == select_shape_spec(current, shape),
{
    if current == shape {
        Tool::Pencil
    } else {
        shape
    }
}

/// Law: clicking a shape palette button twice, starting from any other
/// selection, returns the tool selection to the pencil.
pub proof fn lemma_shape_toggle_returns_to_pencil(current: Tool, shape: Tool)
    requires
        current != shape,
    ensures
        select_shape_spec(select_shape_spec(current, shape), shape) == Tool::Pencil,
{
}

} // verus!
