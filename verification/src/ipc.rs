//! What the compositor reports of its outputs, in plain values, and how a
//! report becomes the state of an output. Talking to the compositor is not
//! the library's work.

use vstd::prelude::*;
use crate::model::output::{OutputMode, OutputState, OutputTransform, Position, Size};

verus! {

/// A display mode as the compositor reports it: resolution in physical
/// pixels, refresh rate in thousandths of a hertz.
#[derive(Debug, Clone, Copy, PartialEq, Eq, Structural)]
pub struct ReportedMode {
    pub width: u16,
    pub height: u16,
    pub refresh_rate: u32,
    pub is_preferred: bool,
}

/// Where an output stands in the compositor's coordinate space.
#[derive(Debug, Clone, Copy, PartialEq, Eq, Structural)]
pub struct ReportedLogical {
    pub x: i32,
    pub y: i32,
    pub width: u32,
    pub height: u32,
    /// The scale factor in thousandths.
    pub scale_thousandths: u32,
    pub transform: OutputTransform,
}

/// An output as the compositor reports it.
#[derive(Debug)]
pub struct ReportedOutput {
    pub name: String,
    pub make: String,
    pub model: String,
    pub modes: Vec<ReportedMode>,
    /// The index of the current mode; absent where the output is disabled.
    pub current_mode: Option<usize>,
    /// Absent where the output is not mapped, for example where it is
    /// disabled.
    pub logical: Option<ReportedLogical>,
}

/// A reported mode as a mode of an output.
pub open spec fn mode_of(m: ReportedMode) -> OutputMode {
    OutputMode {
        width: m.width as u32,
        height: m.height as u32,
        refresh_millihertz: m.refresh_rate,
        is_preferred: m.is_preferred,
    }
}

/// The size of the current mode, or nothing by nothing where there is
/// none.
pub open spec fn physical_size_of(modes: Seq<ReportedMode>, current: Option<usize>) -> Size {
    match current {
        Some(i) => if i < modes.len() {
            Size { width: modes[i as int].width as u32, height: modes[i as int].height as u32 }
        } else {
            Size { width: 0, height: 0 }
        },
        None => Size { width: 0, height: 0 },
    }
}

/// Whether `state` is the state of an output that was reported as
/// `output`. A mapped output is enabled and stands where the compositor
/// says; one that is not mapped is disabled, at the origin, without size,
/// at scale 1 and untransformed. Whatever is reported is connected, and is
/// not known to be configured until the document was looked at.
pub open spec fn converted(output: ReportedOutput, state: OutputState) -> bool {
    &&& state.name == output.name
    &&& state.make == output.make
    &&& state.model == output.model
    &&& state.modes@ == output.modes@.map_values(|m: ReportedMode| mode_of(m))
    &&& state.current_mode_index == output.current_mode
    &&& state.physical_size == physical_size_of(output.modes@, output.current_mode)
    &&& state.connected
    &&& !state.configured
    &&& match output.logical {
        Some(l) => state.enabled && state.position == (Position { x: l.x, y: l.y })
            && state.logical_size == (Size { width: l.width, height: l.height })
            && state.scale_thousandths == l.scale_thousandths && state.transform == l.transform,
        None => !state.enabled && state.position == (Position { x: 0, y: 0 })
            && state.logical_size == (Size { width: 0, height: 0 }) && state.scale_thousandths
            == 1000 && state.transform == OutputTransform::Normal,
    }
}

/// Makes the state of an output of what the compositor reports of it.
pub fn convert_output(output: ReportedOutput) -> (r: OutputState)
    ensures
        converted(output, r),
{
    let mut modes: Vec<OutputMode> = Vec::new();
    let mut i: usize = 0;
    while i < output.modes.len()
        invariant
            i <= output.modes.len(),
            modes@ == output.modes@.map_values(|m: ReportedMode| mode_of(m)).take(i as int),
        decreases output.modes.len() - i,
    {
        let m = output.modes[i];
        modes.push(
            OutputMode {
                width: m.width as u32,
                height: m.height as u32,
                refresh_millihertz: m.refresh_rate,
                is_preferred: m.is_preferred,
            },
        );
        assert(modes@ =~= output.modes@.map_values(|m: ReportedMode| mode_of(m)).take(
            i as int + 1,
        ));
        i += 1;
    }
    assert(modes@ =~= output.modes@.map_values(|m: ReportedMode| mode_of(m)));
    let physical_size = match output.current_mode {
        Some(index) => if index < output.modes.len() {
            Size::new(output.modes[index].width as u32, output.modes[index].height as u32)
        } else {
            Size::new(0, 0)
        },
        None => Size::new(0, 0),
    };
    let (position, logical_size, scale_thousandths, transform, enabled) = match output.logical {
        Some(l) => (
            Position::new(l.x, l.y),
            Size::new(l.width, l.height),
            l.scale_thousandths,
            l.transform,
            true,
        ),
        None => (Position::new(0, 0), Size::new(0, 0), 1000, OutputTransform::Normal, false),
    };
    OutputState {
        name: output.name,
        modes,
        current_mode_index: output.current_mode,
        scale_thousandths,
        transform,
        position,
        logical_size,
        physical_size,
        enabled,
        connected: true,
        configured: false,
        make: output.make,
        model: output.model,
    }
}

} // verus!
