//! The attributes a window is created with, and the rules that turn them
//! into what a windowing toolkit is given.
//!
//! Sizes and positions are whole logical pixels, the unit GTK takes them in.
use vstd::prelude::*;
use vstd::string::*;

verus! {

/// The bytes of an image file to use as a window icon.
pub struct Icon(pub Vec<u8>);

impl Icon {
    /// An icon from the bytes of an image file.
    pub fn from_bytes(bytes: Vec<u8>) -> (r: Icon)
        ensures
            r.0@ == bytes@,
    {
        Icon(bytes)
    }
}

/// How a window and its webview are set up when created.
pub struct Attributes {
    pub resizable: bool,
    pub title: String,
    pub maximized: bool,
    pub visible: bool,
    pub transparent: bool,
    pub decorations: bool,
    pub always_on_top: bool,
    pub width: i32,
    pub height: i32,
    pub min_width: Option<i32>,
    pub min_height: Option<i32>,
    pub max_width: Option<i32>,
    pub max_height: Option<i32>,
    pub x: Option<i32>,
    pub y: Option<i32>,
    pub fullscreen: bool,
    pub icon: Option<Icon>,
    pub skip_taskbar: bool,
    pub url: Option<String>,
    pub initialization_scripts: Vec<String>,
}

impl Default for Attributes {
    /// A visible, resizable, decorated 800 by 600 window titled `wry`, with
    /// no size limits, position, icon, URL or script.
    fn default() -> (r: Attributes)
        ensures
            r.resizable && r.visible && r.decorations,
            !r.maximized && !r.transparent && !r.always_on_top && !r.fullscreen && !r.skip_taskbar,
            r.title@ == "wry"@,
            r.width == 800 && r.height == 600,
            r.min_width is None && r.min_height is None,
            r.max_width is None && r.max_height is None,
            r.x is None && r.y is None,
            r.icon is None && r.url is None,
            r.initialization_scripts@.len() == 0,
    {
        Attributes {
            resizable: true,
            title: String::from_str("wry"),
            maximized: false,
            visible: true,
            transparent: false,
            decorations: true,
            always_on_top: false,
            width: 800,
            height: 600,
            min_width: None,
            min_height: None,
            max_width: None,
            max_height: None,
            x: None,
            y: None,
            fullscreen: false,
            icon: None,
            skip_taskbar: false,
            url: None,
            initialization_scripts: Vec::new(),
        }
    }
}

/// Size limits as GTK takes them: four bounds, of which only those that a
/// flag turns on apply.
pub struct GeometryHints {
    pub min_width: i32,
    pub min_height: i32,
    pub max_width: i32,
    pub max_height: i32,
    /// The minimum size applies.
    pub min_size: bool,
    /// The maximum size applies.
    pub max_size: bool,
}

/// A bound that was not given counts as 0.
pub open spec fn or_zero(v: Option<i32>) -> i32 {
    match v {
        Some(x) => x,
        None => 0,
    }
}

fn value_or_zero(v: Option<i32>) -> (r: i32)
    ensures
        r == or_zero(v),
{
    match v {
        Some(x) => x,
        None => 0,
    }
}

/// Both values when both were given.
pub open spec fn both(a: Option<i32>, b: Option<i32>) -> Option<(i32, i32)> {
    match (a, b) {
        (Some(x), Some(y)) => Some((x, y)),
        _ => None,
    }
}

fn pair_of(a: Option<i32>, b: Option<i32>) -> (r: Option<(i32, i32)>)
    ensures
        r == both(a, b),
{
    match (a, b) {
        (Some(x), Some(y)) => Some((x, y)),
        _ => None,
    }
}

impl GeometryHints {
    /// A minimum size alone, as a later change of the minimum sets it.
    pub fn min_only(min_width: i32, min_height: i32) -> (r: GeometryHints)
        ensures
            r.min_width == min_width && r.min_height == min_height,
            r.max_width == 0 && r.max_height == 0,
            r.min_size && !r.max_size,
    {
        GeometryHints { min_width, min_height, max_width: 0, max_height: 0, min_size: true, max_size: false }
    }

    /// A maximum size alone, as a later change of the maximum sets it.
    pub fn max_only(max_width: i32, max_height: i32) -> (r: GeometryHints)
        ensures
            r.min_width == 0 && r.min_height == 0,
            r.max_width == max_width && r.max_height == max_height,
            !r.min_size && r.max_size,
    {
        GeometryHints { min_width: 0, min_height: 0, max_width, max_height, min_size: false, max_size: true }
    }
}

/// How a new window is given its size.
pub enum SizeRequest {
    /// The size it opens with, which the user may change.
    Default { width: i32, height: i32 },
    /// The size it keeps.
    Fixed { width: i32, height: i32 },
}

impl Attributes {
    /// A resizable window opens with its size as a default; any other keeps
    /// it.
    pub fn size_request(&self) -> (r: SizeRequest)
        ensures
            r == if self.resizable {
                SizeRequest::Default { width: self.width, height: self.height }
            } else {
                SizeRequest::Fixed { width: self.width, height: self.height }
            },
    {
        if self.resizable {
            SizeRequest::Default { width: self.width, height: self.height }
        } else {
            SizeRequest::Fixed { width: self.width, height: self.height }
        }
    }

    /// The size limits a new GTK window gets: each bound as given or 0, the
    /// minimum in force when either minimum bound was given, and the maximum
    /// likewise.
    pub fn geometry_hints(&self) -> (r: GeometryHints)
        ensures
            r.min_width == or_zero(self.min_width),
            r.min_height == or_zero(self.min_height),
            r.max_width == or_zero(self.max_width),
            r.max_height == or_zero(self.max_height),
            r.min_size == (self.min_width is Some || self.min_height is Some),
            r.max_size == (self.max_width is Some || self.max_height is Some),
    {
        GeometryHints {
            min_width: value_or_zero(self.min_width),
            min_height: value_or_zero(self.min_height),
            max_width: value_or_zero(self.max_width),
            max_height: value_or_zero(self.max_height),
            min_size: self.min_width.is_some() || self.min_height.is_some(),
            max_size: self.max_width.is_some() || self.max_height.is_some(),
        }
    }

    /// The minimum inner size, which applies only when both of its bounds
    /// were given.
    pub fn min_inner_size(&self) -> (r: Option<(i32, i32)>)
        ensures
            r == both(self.min_width, self.min_height),
    {
        pair_of(self.min_width, self.min_height)
    }

    /// The maximum inner size, which applies only when both of its bounds
    /// were given.
    pub fn max_inner_size(&self) -> (r: Option<(i32, i32)>)
        ensures
            r == both(self.max_width, self.max_height),
    {
        pair_of(self.max_width, self.max_height)
    }

    /// The position of the window's outer frame, which is set only when both
    /// coordinates were given.
    pub fn outer_position(&self) -> (r: Option<(i32, i32)>)
        ensures
            r == both(self.x, self.y),
    {
        pair_of(self.x, self.y)
    }
}

} // verus!
