//! Where the window was last placed, and where it should go now: the stored
//! place where it still lies on its monitor, the bottom centre of a monitor
//! otherwise.

use vstd::prelude::*;
use vstd::string::*;
use crate::gif_manager::cache::{join_path, joined};

verus! {

/// The name of the file that holds the window state.
pub const CONFIG_FILE: &'static str = "window_state.json";

/// Pixels kept free below a window that is placed at the bottom of a monitor.
pub const BOTTOM_PADDING: i64 = 45;

/// The place of the window: the monitor it was on, and its position.
#[derive(Debug)]
pub struct WindowState {
    pub monitor_name: Option<String>,
    pub x: i32,
    pub y: i32,
}

/// The mathematical value of a `WindowState`.
pub struct WindowStateView {
    pub monitor_name: Option<Seq<char>>,
    pub x: i32,
    pub y: i32,
}

impl View for WindowState {
    type V = WindowStateView;

    open spec fn view(&self) -> WindowStateView {
        WindowStateView {
            monitor_name: match self.monitor_name {
                Some(name) => Some(name@),
                None => None,
            },
            x: self.x,
            y: self.y,
        }
    }
}

/// The state of a window that was never placed.
pub open spec fn unplaced() -> WindowStateView {
    WindowStateView { monitor_name: None, x: 0, y: 0 }
}

impl Default for WindowState {
    fn default() -> (state: WindowState)
        ensures
            state@ == unplaced(),
    {
        WindowState { monitor_name: None, x: 0, y: 0 }
    }
}

impl WindowState {
    /// A copy of this state.
    pub fn duplicate(&self) -> (state: WindowState)
        ensures
            state@ == self@,
    {
        WindowState {
            monitor_name: match &self.monitor_name {
                Some(name) => Some(name.clone()),
                None => None,
            },
            x: self.x,
            y: self.y,
        }
    }
}

/// What a monitor is, as far as placing a window goes.
#[derive(Debug)]
pub struct MonitorInfo {
    pub name: Option<String>,
    pub x: i32,
    pub y: i32,
    pub width: u32,
    pub height: u32,
    /// Whether the scale factor of the monitor is above zero.
    pub scale_positive: bool,
}

/// The mathematical value of a `MonitorInfo`.
pub struct MonitorView {
    pub name: Option<Seq<char>>,
    pub x: i32,
    pub y: i32,
    pub width: u32,
    pub height: u32,
    pub scale_positive: bool,
}

impl View for MonitorInfo {
    type V = MonitorView;

    open spec fn view(&self) -> MonitorView {
        MonitorView {
            name: match self.name {
                Some(name) => Some(name@),
                None => None,
            },
            x: self.x,
            y: self.y,
            width: self.width,
            height: self.height,
            scale_positive: self.scale_positive,
        }
    }
}

/// The monitors of a list, each by its mathematical value.
pub open spec fn monitor_views(monitors: Seq<MonitorInfo>) -> Seq<MonitorView> {
    Seq::new(monitors.len(), |i: int| monitors[i]@)
}

/// Whether a window of height `window_height` at `(x, y)` lies on the
/// monitor: its corner inside the monitor, and no lower than half its own
/// height above the bottom edge.
pub open spec fn position_valid(x: i32, y: i32, monitor: MonitorView, window_height: u32) -> bool {
    &&& x >= monitor.x
    &&& x < monitor.x + monitor.width
    &&& y >= monitor.y
    &&& y < monitor.y + monitor.height - window_height / 2
}

/// The coordinate nearest to `value`.
pub open spec fn nearest_coordinate(value: int) -> i32 {
    if value < i32::MIN {
        i32::MIN
    } else if value > i32::MAX {
        i32::MAX
    } else {
        value as i32
    }
}

/// The position that centres a window of the given size at the bottom of a
/// monitor, `BOTTOM_PADDING` pixels above its edge.
pub open spec fn bottom_center(monitor: MonitorView, window_width: u32, window_height: u32) -> (
    i32,
    i32,
) {
    (
        nearest_coordinate(monitor.x + monitor.width / 2 - window_width / 2),
        nearest_coordinate(monitor.y + monitor.height - window_height - BOTTOM_PADDING),
    )
}

/// The index of the first monitor from `from` on that is called `name`.
pub open spec fn first_named(monitors: Seq<MonitorView>, name: Seq<char>, from: int) -> Option<int>
    decreases monitors.len() - from,
{
    if from < 0 || from >= monitors.len() {
        None
    } else if monitors[from].name == Some(name) {
        Some(from)
    } else {
        first_named(monitors, name, from + 1)
    }
}

/// The index of the first monitor from `from` on whose scale factor is above
/// zero.
pub open spec fn first_usable(monitors: Seq<MonitorView>, from: int) -> Option<int>
    decreases monitors.len() - from,
{
    if from < 0 || from >= monitors.len() {
        None
    } else if monitors[from].scale_positive {
        Some(from)
    } else {
        first_usable(monitors, from + 1)
    }
}

/// The monitor a window falls back to: the first usable one, or the first.
pub open spec fn fallback_monitor(monitors: Seq<MonitorView>) -> MonitorView {
    match first_usable(monitors, 0) {
        Some(i) => monitors[i],
        None => monitors[0],
    }
}

/// Where the window goes: its stored position where the stored monitor is
/// there and the position still lies on it, else the bottom centre of the
/// fallback monitor.
pub open spec fn valid_position(
    state: WindowStateView,
    monitors: Seq<MonitorView>,
    window_width: u32,
    window_height: u32,
) -> (i32, i32) {
    if state.monitor_name is Some && first_named(monitors, state.monitor_name->0, 0) is Some
        && position_valid(
        state.x,
        state.y,
        monitors[first_named(monitors, state.monitor_name->0, 0)->0],
        window_height,
    ) {
        (state.x, state.y)
    } else {
        bottom_center(fallback_monitor(monitors), window_width, window_height)
    }
}

/// Finds the first monitor that is called `name`.
fn find_named(monitors: &Vec<MonitorInfo>, name: &str) -> (found: Option<usize>)
    ensures
        match found {
            Some(i) => i < monitors@.len() && first_named(monitor_views(monitors@), name@, 0)
                == Some(i as int),
            None => first_named(monitor_views(monitors@), name@, 0) is None,
        },
{
    let ghost views = monitor_views(monitors@);
    let n = monitors.len();
    let wanted = String::from_str(name);
    let mut i: usize = 0;
    while i < n
        invariant
            n == monitors@.len(),
            views == monitor_views(monitors@),
            wanted@ == name@,
            i <= n,
            first_named(views, name@, 0) == first_named(views, name@, i as int),
        decreases n - i,
    {
        assert(views[i as int] == monitors@[i as int]@);
        let found = match &monitors[i].name {
            Some(own) => *own == wanted,
            None => false,
        };
        if found {
            return Some(i);
        }
        i = i + 1;
    }
    None
}

/// Finds the first monitor whose scale factor is above zero.
fn find_usable(monitors: &Vec<MonitorInfo>) -> (found: Option<usize>)
    ensures
        match found {
            Some(i) => i < monitors@.len() && first_usable(monitor_views(monitors@), 0) == Some(
                i as int,
            ),
            None => first_usable(monitor_views(monitors@), 0) is None,
        },
{
    let ghost views = monitor_views(monitors@);
    let n = monitors.len();
    let mut i: usize = 0;
    while i < n
        invariant
            n == monitors@.len(),
            views == monitor_views(monitors@),
            i <= n,
            first_usable(views, 0) == first_usable(views, i as int),
        decreases n - i,
    {
        assert(views[i as int] == monitors@[i as int]@);
        if monitors[i].scale_positive {
            return Some(i);
        }
        i = i + 1;
    }
    None
}

fn to_coordinate(value: i64) -> (c: i32)
    ensures
        c == nearest_coordinate(value as int),
{
    if value < -2147483648 {
        -2147483648
    } else if value > 2147483647 {
        2147483647
    } else {
        value as i32
    }
}

/// What is to be written to disk: the state, the file, and the directory
/// that has to exist first.
#[derive(Debug)]
pub struct SaveRequest {
    pub data_dir: String,
    pub path: String,
    pub state: WindowState,
}

/// The mathematical value of a `ConfigManager`.
pub struct ConfigView {
    pub data_dir: Seq<char>,
    pub state: WindowStateView,
    /// Whether the state has changed since it was last written.
    pub dirty: bool,
}

/// Keeps the window state in memory and knows when it has to be written.
#[derive(Debug)]
pub struct ConfigManager {
    data_dir: String,
    state: WindowState,
    dirty: bool,
}

impl View for ConfigManager {
    type V = ConfigView;

    closed spec fn view(&self) -> ConfigView {
        ConfigView { data_dir: self.data_dir@, state: self.state@, dirty: self.dirty }
    }
}

impl ConfigManager {
    /// A manager for the directory `data_dir`, with the state of a window
    /// that was never placed. What is on disk is brought in with `load`.
    pub fn new(data_dir: String) -> (manager: ConfigManager)
        ensures
            manager@ == (ConfigView { data_dir: data_dir@, state: unplaced(), dirty: false }),
    {
        ConfigManager { data_dir, state: WindowState::default(), dirty: false }
    }

    pub fn get_state(&self) -> (state: WindowState)
        ensures
            state@ == self@.state,
    {
        self.state.duplicate()
    }

    /// Changes the state in memory and marks it as not yet written.
    pub fn update_state(&mut self, monitor_name: Option<String>, x: i32, y: i32)
        ensures
            final(self)@ == (ConfigView {
                state: (WindowState { monitor_name, x, y })@,
                dirty: true,
                ..old(self)@
            }),
    {
        self.state.monitor_name = monitor_name;
        self.state.x = x;
        self.state.y = y;
        self.dirty = true;
    }

    /// The file that holds the state.
    pub fn config_path(&self) -> (path: String)
        ensures
            path@ == joined(self@.data_dir, CONFIG_FILE@),
    {
        join_path(self.data_dir.as_str(), CONFIG_FILE)
    }

    /// Takes what the state file held: nothing where there is no file, the
    /// state where it could be read, the reason where it could not. Only a
    /// state that was read changes anything.
    pub fn load(&mut self, stored: Option<Result<WindowState, String>>) -> (result: Result<
        (),
        String,
    >)
        ensures
            match stored {
                None => result is Ok && final(self)@ == old(self)@,
                Some(Ok(state)) => result is Ok && final(self)@ == (ConfigView {
                    state: state@,
                    ..old(self)@
                }),
                Some(Err(reason)) => result == Err::<(), String>(reason) && final(self)@ == old(
                    self,
                )@,
            },
    {
        match stored {
            None => Ok(()),
            Some(Ok(state)) => {
                self.state = state;
                Ok(())
            },
            Some(Err(reason)) => Err(reason),
        }
    }

    /// What has to be written now: the state, where it has changed since it
    /// was last written, and nothing where it has not.
    pub fn save_to_disk(&self) -> (request: Option<SaveRequest>)
        ensures
            match request {
                Some(request) => self@.dirty && request.data_dir@ == self@.data_dir && request.path@
                    == joined(self@.data_dir, CONFIG_FILE@) && request.state@ == self@.state,
                None => !self@.dirty,
            },
    {
        if self.dirty {
            Some(
                SaveRequest {
                    data_dir: self.data_dir.clone(),
                    path: self.config_path(),
                    state: self.state.duplicate(),
                },
            )
        } else {
            None
        }
    }

    /// Takes how the writing asked for by `save_to_disk` went: once it has
    /// worked the state counts as written; a failure leaves it to be tried
    /// again.
    pub fn sync_to_disk(&mut self, written: bool)
        ensures
            final(self)@ == (ConfigView { dirty: old(self)@.dirty && !written, ..old(self)@ }),
    {
        if self.dirty && written {
            self.dirty = false;
        }
    }

    /// Whether a window of height `window_height` at `(x, y)` lies on `monitor`.
    pub fn is_position_valid(x: i32, y: i32, monitor: &MonitorInfo, window_height: u32) -> (valid:
        bool)
        ensures
            valid == position_valid(x, y, monitor@, window_height),
    {
        let left: i64 = monitor.x as i64;
        let top: i64 = monitor.y as i64;
        let right: i64 = left + monitor.width as i64;
        let bottom: i64 = top + monitor.height as i64 - (window_height / 2) as i64;
        x as i64 >= left && (x as i64) < right && y as i64 >= top && (y as i64) < bottom
    }

    /// The position that centres a window of the given size at the bottom
    /// of `monitor`.
    pub fn calculate_bottom_center(monitor: &MonitorInfo, window_width: u32, window_height: u32) -> (position:
        (i32, i32))
        ensures
            position == bottom_center(monitor@, window_width, window_height),
    {
        let x: i64 = monitor.x as i64 + (monitor.width / 2) as i64 - (window_width / 2) as i64;
        let y: i64 = monitor.y as i64 + monitor.height as i64 - window_height as i64
            - BOTTOM_PADDING;
        (to_coordinate(x), to_coordinate(y))
    }

    /// Where the window goes on these monitors, of which there is at least one.
    pub fn get_valid_position(
        &self,
        available_monitors: &Vec<MonitorInfo>,
        window_width: u32,
        window_height: u32,
    ) -> (position: (i32, i32))
        requires
            available_monitors@.len() > 0,
        ensures
            position == valid_position(
                self@.state,
                monitor_views(available_monitors@),
                window_width,
                window_height,
            ),
    {
        let target = match &self.state.monitor_name {
            Some(saved_name) => find_named(available_monitors, saved_name.as_str()),
            None => None,
        };
        if let Some(i) = target {
            let monitor = &available_monitors[i];
            if Self::is_position_valid(self.state.x, self.state.y, monitor, window_height) {
                return (self.state.x, self.state.y);
            }
        }
        let fallback = match find_usable(available_monitors) {
            Some(j) => j,
            None => 0,
        };
        Self::calculate_bottom_center(&available_monitors[fallback], window_width, window_height)
    }
}

} // verus!
