//! Screen geometry: points, sizes, monitors, and the arithmetic that centres
//! a window on a monitor.

use vstd::prelude::*;

verus! {

/// A point in absolute screen coordinates, as the operating system reports
/// the mouse cursor or the origin of a monitor.
#[derive(Clone, Copy, Debug, PartialEq, Eq, Structural)]
pub struct Point {
    pub x: i32,
    pub y: i32,
}

/// An extent in physical pixels.
#[derive(Clone, Copy, Debug, PartialEq, Eq, Structural)]
pub struct Size {
    pub width: u32,
    pub height: u32,
}

/// Where the top-left corner of a window is to be put. The coordinates are
/// wide enough to hold the centred position for every monitor and every
/// window size, so computing one never overflows.
#[derive(Clone, Copy, Debug, PartialEq, Eq, Structural)]
pub struct Placement {
    pub x: i64,
    pub y: i64,
}

/// The rectangle of one monitor: its origin and its physical size.
#[derive(Clone, Copy, Debug, PartialEq, Eq, Structural)]
pub struct Monitor {
    pub origin: Point,
    pub size: Size,
}

/// Size and position of a window after a geometry operation.
#[derive(Clone, Copy, Debug, PartialEq, Eq, Structural)]
pub struct Geometry {
    pub size: Size,
    pub position: Placement,
}

/// The coordinate that centres an extent of `window` pixels inside an extent
/// of `extent` pixels that starts at `origin`. The division is the floor
/// division of the integers, also where the window is the larger of the two.
pub open spec fn centered_coordinate(origin: int, extent: int, window: int) -> int {
    origin + (extent - window) / 2
}

/// The top-left corner that centres a window of size `window` on `monitor`.
pub open spec fn centered_placement(monitor: Monitor, window: Size) -> Placement {
    Placement {
        x: centered_coordinate(
            monitor.origin.x as int,
            monitor.size.width as int,
            window.width as int,
        ) as i64,
        y: centered_coordinate(
            monitor.origin.y as int,
            monitor.size.height as int,
            window.height as int,
        ) as i64,
    }
}

/// The first index at or after `start` whose monitor contains `p`, if any.
pub open spec fn first_containing_from(monitors: Seq<Monitor>, p: Point, start: int) -> Option<int>
    decreases monitors.len() - start,
{
    if start < 0 || start >= monitors.len() {
        None
    } else if monitors[start].spec_contains(p) {
        Some(start)
    } else {
        first_containing_from(monitors, p, start + 1)
    }
}

/// The index of the first monitor, in the order given, that contains `p`.
pub open spec fn first_containing(monitors: Seq<Monitor>, p: Point) -> Option<int> {
    first_containing_from(monitors, p, 0)
}

/// Where a window of size `window` goes when the cursor is at `mouse`: the
/// centre of the first monitor that contains the cursor. There is no
/// placement when the cursor, the window's size or such a monitor is missing.
pub open spec fn placement_under_mouse(
    mouse: Option<Point>,
    monitors: Seq<Monitor>,
    window: Option<Size>,
) -> Option<Placement> {
    match (mouse, window) {
        (Some(p), Some(w)) => match first_containing(monitors, p) {
            Some(i) => Some(centered_placement(monitors[i], w)),
            None => None,
        },
        _ => None,
    }
}

/// Centres `window` pixels within `extent` pixels starting at `origin`.
pub fn center_along(origin: i32, extent: u32, window: u32) -> (r: i64)
    ensures
        r == centered_coordinate(origin as int, extent as int, window as int),
{
    let slack: i64 = extent as i64 - window as i64;
    let half: i64 = if slack >= 0 {
        slack / 2
    } else {
        -((1 - slack) / 2)
    };
    origin as i64 + half
}

impl Monitor {
    /// Whether `p` lies in this monitor's rectangle: from the origin, which
    /// is inside, to the origin plus the size, which is outside.
    pub open spec fn spec_contains(&self, p: Point) -> bool {
        &&& self.origin.x <= p.x < self.origin.x + self.size.width
        &&& self.origin.y <= p.y < self.origin.y + self.size.height
    }

    #[verifier::when_used_as_spec(spec_contains)]
    pub fn contains(&self, p: Point) -> (r: bool)
        ensures
            r == self.spec_contains(p),
    {
        let px: i64 = p.x as i64;
        let py: i64 = p.y as i64;
        let left: i64 = self.origin.x as i64;
        let top: i64 = self.origin.y as i64;
        let right: i64 = left + self.size.width as i64;
        let bottom: i64 = top + self.size.height as i64;
        px >= left && px < right && py >= top && py < bottom
    }

    /// The top-left corner that centres a window of size `window` here.
    pub fn centered_origin(&self, window: Size) -> (r: Placement)
        ensures
            r == centered_placement(*self, window),
    {
        Placement {
            x: center_along(self.origin.x, self.size.width, window.width),
            y: center_along(self.origin.y, self.size.height, window.height),
        }
    }
}

/// A monitor before the first containing one does not contain the point, the
/// one found does, and where none is found no monitor from `start` on does.
pub proof fn lemma_first_containing_from(monitors: Seq<Monitor>, p: Point, start: int)
    requires
        0 <= start <= monitors.len(),
    ensures
        match first_containing_from(monitors, p, start) {
            Some(i) => {
                &&& start <= i < monitors.len()
                &&& monitors[i].spec_contains(p)
                &&& forall|j: int| start <= j < i ==> !(#[trigger] monitors[j]).spec_contains(p)
            },
            None => forall|j: int|
                start <= j < monitors.len() ==> !(#[trigger] monitors[j]).spec_contains(p),
        },
    decreases monitors.len() - start,
{
    if start < monitors.len() && !monitors[start].spec_contains(p) {
        lemma_first_containing_from(monitors, p, start + 1);
    }
}

/// Finds the first monitor, in the order given, whose rectangle contains `p`.
pub fn find_monitor(monitors: &Vec<Monitor>, p: Point) -> (r: Option<usize>)
    ensures
        match r {
            Some(i) => first_containing(monitors@, p) == Some(i as int),
            None => first_containing(monitors@, p).is_none(),
        },
        match r {
            Some(i) => {
                &&& i < monitors.len()
                &&& monitors[i as int].spec_contains(p)
                &&& forall|j: int| 0 <= j < i ==> !(#[trigger] monitors[j]).spec_contains(p)
            },
            None => forall|j: int|
                0 <= j < monitors.len() ==> !(#[trigger] monitors[j]).spec_contains(p),
        },
{
    let mut i: usize = 0;
    while i < monitors.len()
        invariant
            i <= monitors.len(),
            first_containing(monitors@, p) == first_containing_from(monitors@, p, i as int),
        decreases monitors.len() - i,
    {
        if monitors[i].contains(p) {
            proof {
                lemma_first_containing_from(monitors@, p, 0);
            }
            return Some(i);
        }
        i += 1;
    }
    proof {
        lemma_first_containing_from(monitors@, p, 0);
    }
    None
}

/// Decides where the window goes from what the desktop reports: the cursor,
/// the monitors in the order reported, and the window's outer size. `None`
/// means that the window stays where it is.
pub fn place_under_mouse(mouse: Option<Point>, monitors: &Vec<Monitor>, window: Option<Size>) -> (r:
    Option<Placement>)
    ensures
        r == placement_under_mouse(mouse, monitors@, window),
{
    match (mouse, window) {
        (Some(p), Some(w)) => match find_monitor(monitors, p) {
            Some(i) => Some(monitors[i].centered_origin(w)),
            None => None,
        },
        _ => None,
    }
}

/// The geometry after the window's height is set to `new_height` on
/// `monitor`: the width stays, and the window is centred on the monitor.
pub open spec fn resized_geometry(monitor: Monitor, current: Size, new_height: u32) -> Geometry {
    let size = Size { width: current.width, height: new_height };
    Geometry { size, position: centered_placement(monitor, size) }
}

/// The geometry of a window of size `current` once its height is set to
/// `new_height`, where `monitor` is the monitor that the window is on.
/// Without a monitor the window stays as it is, which `None` says.
pub fn resize_window(monitor: Option<Monitor>, current: Size, new_height: u32) -> (r: Option<
    Geometry,
>)
    ensures
        r == match monitor {
            Some(m) => Some(resized_geometry(m, current, new_height)),
            None => None,
        },
{
    match monitor {
        Some(m) => {
            let size = Size { width: current.width, height: new_height };
            Some(Geometry { size, position: m.centered_origin(size) })
        },
        None => None,
    }
}

/// The width of the window's default size, in logical pixels.
pub const DEFAULT_LOGICAL_WIDTH: u32 = 800;

/// The height of the window's default size, in logical pixels.
pub const DEFAULT_LOGICAL_HEIGHT: u32 = 150;

/// The geometry after the window takes the size `physical_default` on
/// `monitor`: that size, centred on the monitor.
pub open spec fn reset_geometry(monitor: Monitor, physical_default: Size) -> Geometry {
    Geometry { size: physical_default, position: centered_placement(monitor, physical_default) }
}

/// The geometry of a window that is put back to its default size, where
/// `physical_default` is that size in the physical pixels of `monitor`, the
/// monitor that the window is on. Without a monitor the window is not
/// moved, which `None` says.
pub fn reset_window(monitor: Option<Monitor>, physical_default: Size) -> (r: Option<Geometry>)
    ensures
        r == match monitor {
            Some(m) => Some(reset_geometry(m, physical_default)),
            None => None,
        },
{
    match monitor {
        Some(m) => Some(
            Geometry { size: physical_default, position: m.centered_origin(physical_default) },
        ),
        None => None,
    }
}

/// Where the cursor is inside a monitor and no monitor before it in the
/// order contains the cursor too, the window is centred on that monitor,
/// whatever the other monitors are.
pub proof fn lemma_placed_on_monitor_under_mouse(
    mouse: Point,
    monitors: Seq<Monitor>,
    k: int,
    window: Size,
)
    requires
        0 <= k < monitors.len(),
        monitors[k].spec_contains(mouse),
        forall|j: int| 0 <= j < k ==> !(#[trigger] monitors[j]).spec_contains(mouse),
    ensures
        placement_under_mouse(Some(mouse), monitors, Some(window)) == Some(
            centered_placement(monitors[k], window),
        ),
        centered_placement(monitors[k], window).x == monitors[k].origin.x + (monitors[k].size.width
            - window.width) / 2,
        centered_placement(monitors[k], window).y == monitors[k].origin.y + (
        monitors[k].size.height - window.height) / 2,
{
    lemma_first_containing_from(monitors, mouse, 0);
}

/// Where the cursor is unavailable, or lies outside every monitor, there is
/// no placement: the window stays where it is.
pub proof fn lemma_no_placement_without_monitor(
    mouse: Option<Point>,
    monitors: Seq<Monitor>,
    window: Option<Size>,
)
    requires
        mouse matches Some(p) ==> forall|j: int|
            0 <= j < monitors.len() ==> !(#[trigger] monitors[j]).spec_contains(p),
    ensures
        placement_under_mouse(mouse, monitors, window).is_none(),
{
    if let Some(p) = mouse {
        lemma_first_containing_from(monitors, p, 0);
    }
}

/// Resizing to a height that the window already has on the same monitor
/// changes nothing: a second resize gives the geometry of the first.
pub proof fn lemma_resize_idempotent(monitor: Monitor, current: Size, new_height: u32)
    ensures
        resized_geometry(monitor, resized_geometry(monitor, current, new_height).size, new_height)
            == resized_geometry(monitor, current, new_height),
        resized_geometry(monitor, current, new_height).size.width == current.width,
        resized_geometry(monitor, current, new_height).size.height == new_height,
        resized_geometry(monitor, current, new_height).position.y == monitor.origin.y + (
        monitor.size.height - new_height) / 2,
{
}

} // verus!
