//! Choices made while bringing up the device and the swapchain, and the
//! window loop's decision to go on or stop.
use vstd::prelude::*;
use crate::vkconst::{
    format_b8g8r8_unorm, format_undefined, present_mode_fifo, present_mode_mailbox,
    queue_graphics, transform_identity,
};

verus! {

/// What a queue family of a physical device offers.
#[derive(Clone, Copy, PartialEq, Eq, Structural, Debug)]
pub struct QueueFamily {
    /// Raw queue capability flags.
    pub queue_flags: u32,
    /// Whether the family can present to the window's surface.
    pub surface_support: bool,
}

/// The family runs graphics work and presents to the surface.
pub open spec fn family_suitable(f: QueueFamily) -> bool {
    f.queue_flags & 1u32 == 1u32 && f.surface_support
}

/// No family of `fs` is suitable.
pub open spec fn none_suitable(fs: Seq<QueueFamily>) -> bool {
    forall|j: int| 0 <= j < fs.len() ==> !family_suitable(#[trigger] fs[j])
}

/// The first suitable family of `families`, if any.
pub fn first_suitable_family(families: &Vec<QueueFamily>) -> (r: Option<usize>)
    ensures
        match r {
            Some(i) => i < families@.len() && family_suitable(families@[i as int]) && forall|j: int|
                0 <= j < i ==> !family_suitable(#[trigger] families@[j]),
            None => none_suitable(families@),
        },
{
    let graphics = queue_graphics();
    let mut i: usize = 0;
    while i < families.len()
        invariant
            i <= families@.len(),
            graphics == 1,
            forall|j: int| 0 <= j < i ==> !family_suitable(#[trigger] families@[j]),
        decreases families@.len() - i,
    {
        let f = families[i];
        if f.queue_flags & graphics == graphics && f.surface_support {
            return Some(i);
        }
        i = i + 1;
    }
    None
}

/// Picks the physical device and queue family to render with: the first
/// device that has a suitable family, and its first such family.
pub fn select_queue_family(devices: &Vec<Vec<QueueFamily>>) -> (r: Option<(usize, usize)>)
    ensures
        match r {
            Some((d, i)) => {
                &&& d < devices@.len()
                &&& i < devices@[d as int]@.len()
                &&& family_suitable(devices@[d as int]@[i as int])
                &&& forall|j: int| 0 <= j < i ==> !family_suitable(#[trigger] devices@[d as int]@[j])
                &&& forall|e: int| 0 <= e < d ==> none_suitable(#[trigger] devices@[e]@)
            },
            None => forall|e: int| 0 <= e < devices@.len() ==> none_suitable(#[trigger] devices@[e]@),
        },
{
    let mut d: usize = 0;
    while d < devices.len()
        invariant
            d <= devices@.len(),
            forall|e: int| 0 <= e < d ==> none_suitable(#[trigger] devices@[e]@),
        decreases devices@.len() - d,
    {
        match first_suitable_family(&devices[d]) {
            Some(i) => {
                return Some((d, i));
            },
            None => {},
        }
        d = d + 1;
    }
    None
}

/// A surface format: raw format and colour-space values.
#[derive(Clone, Copy, PartialEq, Eq, Structural, Debug)]
pub struct SurfaceFormat {
    pub format: i32,
    pub color_space: i32,
}

/// The first format the surface offers; a surface that leaves the format
/// open (undefined) gets B8G8R8 unorm in its colour space. `None` when the
/// surface offers no format.
pub fn choose_surface_format(formats: &Vec<SurfaceFormat>) -> (r: Option<SurfaceFormat>)
    ensures
        formats@.len() == 0 <==> r.is_none(),
        formats@.len() > 0 ==> r.unwrap().color_space == formats@[0].color_space,
        formats@.len() > 0 ==> r.unwrap().format == (if formats@[0].format == 0 {
            30
        } else {
            formats@[0].format
        }),
{
    if formats.len() == 0 {
        return None;
    }
    let first = formats[0];
    if first.format == format_undefined() {
        Some(SurfaceFormat { format: format_b8g8r8_unorm(), color_space: first.color_space })
    } else {
        Some(first)
    }
}

/// One image more than the surface's minimum, within its maximum when it
/// has one (a maximum of 0 means none).
pub fn desired_image_count(min_image_count: u32, max_image_count: u32) -> (r: u32)
    requires
        min_image_count < u32::MAX,
    ensures
        r == (if max_image_count > 0 && min_image_count + 1 > max_image_count {
            max_image_count as int
        } else {
            min_image_count + 1
        }),
{
    let desired = min_image_count + 1;
    if max_image_count > 0 && desired > max_image_count {
        max_image_count
    } else {
        desired
    }
}

#[derive(Clone, Copy, PartialEq, Eq, Structural, Debug)]
pub struct Extent2D {
    pub width: u32,
    pub height: u32,
}

/// The surface's current extent, or the window's size when the surface
/// leaves it to the swapchain (a width of `u32::MAX`).
pub fn surface_resolution(current: Extent2D, window_width: u32, window_height: u32) -> (r: Extent2D)
    ensures
        current.width == u32::MAX ==> r.width == window_width && r.height == window_height,
        current.width != u32::MAX ==> r == current,
{
    if current.width == u32::MAX {
        Extent2D { width: window_width, height: window_height }
    } else {
        current
    }
}

/// The identity transform when the surface supports it, else its current
/// transform.
pub fn pre_transform(supported_transforms: u32, current_transform: u32) -> (r: u32)
    ensures
        r == (if supported_transforms & 1u32 == 1u32 {
            1u32
        } else {
            current_transform
        }),
{
    let identity = transform_identity();
    if supported_transforms & identity == identity {
        identity
    } else {
        current_transform
    }
}

/// Mailbox when the surface offers it, else FIFO, which every surface has.
pub fn choose_present_mode(modes: &Vec<i32>) -> (r: i32)
    ensures
        r == (if modes@.contains(1i32) {
            1i32
        } else {
            2i32
        }),
{
    let mailbox = present_mode_mailbox();
    let mut i: usize = 0;
    while i < modes.len()
        invariant
            i <= modes@.len(),
            mailbox == 1,
            forall|j: int| 0 <= j < i ==> modes@[j] != 1i32,
        decreases modes@.len() - i,
    {
        if modes[i] == mailbox {
            return mailbox;
        }
        i = i + 1;
    }
    present_mode_fifo()
}

/// What the window loop saw.
#[derive(Clone, Copy, PartialEq, Eq, Structural, Debug)]
pub enum LoopEvent {
    /// A key was pressed or released; `escape` tells whether it was Escape.
    KeyboardInput { escape: bool },
    CloseRequested,
    OtherWindowEvent,
    OtherEvent,
}

#[derive(Clone, Copy, PartialEq, Eq, Structural, Debug)]
pub enum ControlFlow {
    Continue,
    Break,
}

/// The loop stops on Escape and on a close request, and goes on otherwise.
pub fn control_flow(event: LoopEvent) -> (r: ControlFlow)
    ensures
        r == (match event {
            LoopEvent::KeyboardInput { escape } => if escape {
                ControlFlow::Break
            } else {
                ControlFlow::Continue
            },
            LoopEvent::CloseRequested => ControlFlow::Break,
            _ => ControlFlow::Continue,
        }),
{
    match event {
        LoopEvent::KeyboardInput { escape } => if escape {
            ControlFlow::Break
        } else {
            ControlFlow::Continue
        },
        LoopEvent::CloseRequested => ControlFlow::Break,
        _ => ControlFlow::Continue,
    }
}

} // verus!
