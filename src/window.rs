use vstd::prelude::*;

verus! {

/// Distance kept between the top of the screen and the main window.
pub const TOP_OFFSET: i32 = 54;

/// Width the main window is given when its height changes.
pub const WINDOW_WIDTH: i32 = 700;

/// Half of `d`, rounded toward zero.
pub open spec fn half_toward_zero(d: int) -> int {
    if d >= 0 {
        d / 2
    } else {
        -((-d) / 2)
    }
}

fn half_offset(outer: u32, inner: u32) -> (r: i32)
    ensures
        r == half_toward_zero(outer - inner),
{
    let d: i64 = outer as i64 - inner as i64;
    if d >= 0 {
        (d / 2) as i32
    } else {
        (-((-d) / 2)) as i32
    }
}

/// Position that centres a window horizontally on a monitor, `y_offset`
/// from its top.
pub fn position_window_top_center(monitor_width: u32, window_width: u32, y_offset: i32) -> (r: (i32, i32))
    ensures
        r.0 == half_toward_zero(monitor_width - window_width),
        r.1 == y_offset,
{
    (half_offset(monitor_width, window_width), y_offset)
}

/// Position that centres a window on a monitor in both directions.
pub fn center_window_completely(monitor_width: u32, monitor_height: u32, window_width: u32, window_height: u32) -> (r: (
    i32,
    i32,
))
    ensures
        r.0 == half_toward_zero(monitor_width - window_width),
        r.1 == half_toward_zero(monitor_height - window_height),
{
    (half_offset(monitor_width, window_width), half_offset(monitor_height, window_height))
}

/// Horizontal position of a resized window: moved left so that its right
/// edge stays on screen, and never left of the screen.
pub open spec fn fitted_x(screen_width: int, x: int) -> int {
    let moved = if x + WINDOW_WIDTH > screen_width {
        screen_width - WINDOW_WIDTH
    } else {
        x
    };
    if moved < 0 {
        0
    } else {
        moved
    }
}

/// Vertical position of a resized window: moved up so that its bottom stays
/// on screen, but not above the top.
pub open spec fn fitted_y(screen_height: int, y: int, height: int) -> int {
    if y + height > screen_height {
        if screen_height - height < 0 {
            0
        } else {
            screen_height - height
        }
    } else {
        y
    }
}

/// Position and size a window takes.
#[derive(Clone, Copy, Debug, PartialEq, Eq, Structural)]
pub struct WindowPlacement {
    pub x: i32,
    pub y: i32,
    pub width: u32,
    pub height: u32,
}

/// Where a window at (`x`, `y`) goes, and the size it takes, when its height
/// is set to `height` on a screen of the given size: it becomes
/// `WINDOW_WIDTH` wide and is moved back onto the screen.
pub fn set_window_height(screen_width: u32, screen_height: u32, x: i32, y: i32, height: u32) -> (r:
    WindowPlacement)
    ensures
        r.x == fitted_x(screen_width as int, x as int),
        r.y == fitted_y(screen_height as int, y as int, height as int),
        r.width == WINDOW_WIDTH,
        r.height == height,
{
    let sw: i64 = screen_width as i64;
    let sh: i64 = screen_height as i64;
    let h: i64 = height as i64;
    let mut nx: i64 = x as i64;
    if nx + WINDOW_WIDTH as i64 > sw {
        nx = sw - WINDOW_WIDTH as i64;
    }
    if nx < 0 {
        nx = 0;
    }
    let mut ny: i64 = y as i64;
    if ny + h > sh {
        ny = sh - h;
        if ny < 0 {
            ny = 0;
        }
    }
    WindowPlacement { x: nx as i32, y: ny as i32, width: WINDOW_WIDTH as u32, height }
}

pub open spec fn label_views(labels: Seq<String>) -> Seq<Seq<char>> {
    labels.map_values(|l: String| l@)
}

/// `i` is the first position of `labels` that holds `label`.
pub open spec fn first_label_at(labels: Seq<Seq<char>>, label: Seq<char>, i: int) -> bool {
    &&& 0 <= i < labels.len()
    &&& labels[i] == label
    &&& forall|j: int| 0 <= j < i ==> labels[j] != label
}

pub open spec fn lacks_label(labels: Seq<Seq<char>>, label: Seq<char>) -> bool {
    forall|j: int| 0 <= j < labels.len() ==> labels[j] != label
}

fn find_label(labels: &Vec<String>, label: &String) -> (r: Option<usize>)
    ensures
        match r {
            Some(i) => first_label_at(label_views(labels@), label@, i as int),
            None => lacks_label(label_views(labels@), label@),
        },
{
    let mut i: usize = 0;
    while i < labels.len()
        invariant
            i <= labels@.len(),
            forall|j: int| 0 <= j < i ==> label_views(labels@)[j] != label@,
        decreases labels@.len() - i,
    {
        if labels[i] == *label {
            return Some(i);
        }
        i = i + 1;
    }
    None
}

/// Picks, among the labels of the open windows, the window that is placed
/// as the main one: the first labelled `main`, else the first labelled
/// `pluely`, else the first window; none when no window is open.
pub fn setup_main_window(labels: &Vec<String>) -> (r: Option<usize>)
    ensures
        r matches Some(i) ==> i < labels@.len(),
        r is None <==> labels@.len() == 0,
        !lacks_label(label_views(labels@), "main"@) ==> (r matches Some(i) && first_label_at(
            label_views(labels@),
            "main"@,
            i as int,
        )),
        lacks_label(label_views(labels@), "main"@) && !lacks_label(label_views(labels@), "pluely"@)
            ==> (r matches Some(i) && first_label_at(label_views(labels@), "pluely"@, i as int)),
        lacks_label(label_views(labels@), "main"@) && lacks_label(label_views(labels@), "pluely"@)
            && labels@.len() > 0 ==> r == Some(0usize),
{
    let main = String::from_str("main");
    let fallback = String::from_str("pluely");
    match find_label(labels, &main) {
        Some(i) => Some(i),
        None => match find_label(labels, &fallback) {
            Some(i) => Some(i),
            None => if labels.len() > 0 {
                Some(0)
            } else {
                None
            },
        },
    }
}

} // verus!
