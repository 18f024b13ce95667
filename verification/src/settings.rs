use vstd::prelude::*;

verus! {

/// How the bridge reacts when the host loop reports a new screen size.
#[derive(Clone, Copy, Debug, PartialEq, Eq, Structural)]
pub enum ResizeMode {
    /// Ignore the new size.
    Nothing,
    /// Rescale the console grid with the cell size established at startup.
    Automatic,
    /// Hand the console and the resize event to a user callback, inside a
    /// take/restore ownership bracket run by the host-side driver.
    Callback,
}

/// The window options handed to the console library when the loop starts.
/// These mirror the options the console library accepts, as plain values, so
/// the bridge can read the startup screen and grid sizes from them.
#[derive(Debug)]
pub struct AppOptions {
    /// Console width in cells.
    pub console_width: u32,
    /// Console height in cells.
    pub console_height: u32,
    /// Window width in pixels.
    pub screen_width: u32,
    /// Window height in pixels.
    pub screen_height: u32,
    /// Window title.
    pub window_title: String,
    /// Path of the font the console renders with.
    pub font_path: String,
    /// Whether the frame rate is tied to the screen frequency.
    pub vsync: bool,
    /// Whether the window starts fullscreen.
    pub fullscreen: bool,
    /// Whether the mouse cursor is visible over the window.
    pub show_cursor: bool,
    /// Whether the window can be resized.
    pub resizable: bool,
    /// Whether clicks on the close button are reported as input instead of
    /// ending the process.
    pub intercept_close_request: bool,
    /// Upper bound on frames per second; 0 means unlimited.
    pub max_fps: usize,
}

pub open spec fn is_default_app_options(o: AppOptions) -> bool {
    &&& o.console_width == 80
    &&& o.console_height == 45
    &&& o.screen_width == 640
    &&& o.screen_height == 360
    &&& o.window_title@ == Seq::<char>::empty()
    &&& o.font_path@ == "terminal_8x8.png"@
    &&& o.vsync == true
    &&& o.fullscreen == false
    &&& o.show_cursor == true
    &&& o.resizable == true
    &&& o.intercept_close_request == false
    &&& o.max_fps == 0
}

impl Default for AppOptions {
    /// The console library's own defaults: an 80 x 45 grid drawn with 8 x 8
    /// pixel cells.
    fn default() -> (r: Self)
        ensures
            is_default_app_options(r),
    {
        AppOptions {
            console_width: 80,
            console_height: 45,
            screen_width: 640,
            screen_height: 360,
            window_title: String::new(),
            font_path: "terminal_8x8.png".to_owned(),
            vsync: true,
            fullscreen: false,
            show_cursor: true,
            resizable: true,
            intercept_close_request: false,
            max_fps: 0,
        }
    }
}

/// One-shot configuration read once when the host loop starts.
#[derive(Debug)]
pub struct DoryenSettings {
    /// The window options for the console library; `None` means its defaults.
    pub app_options: Option<AppOptions>,
    /// Which mouse buttons to poll input data for.
    /// Defaults to 0 (left), 1 (middle) and 2 (right).
    pub mouse_button_listeners: Vec<usize>,
    /// What to do when the host loop reports a new screen size.
    pub resize_mode: ResizeMode,
}

pub open spec fn is_default_settings(s: DoryenSettings) -> bool {
    &&& s.app_options is None
    &&& s.mouse_button_listeners@ == seq![0usize, 1usize, 2usize]
    &&& s.resize_mode == ResizeMode::Nothing
}

impl Default for DoryenSettings {
    fn default() -> (r: Self)
        ensures
            is_default_settings(r),
    {
        let mut listeners: Vec<usize> = Vec::new();
        listeners.push(0);
        listeners.push(1);
        listeners.push(2);
        proof {
            assert(listeners@ =~= seq![0usize, 1usize, 2usize]);
        }
        DoryenSettings {
            app_options: None,
            mouse_button_listeners: listeners,
            resize_mode: ResizeMode::Nothing,
        }
    }
}

impl DoryenSettings {
    /// Consume-and-reset: hand the current configuration to the caller and
    /// install the default in its place, so later readers never see stale,
    /// already-consumed values.
    pub fn consume(&mut self) -> (r: DoryenSettings)
        ensures
            r == *old(self),
            is_default_settings(*final(self)),
    {
        let mut next = DoryenSettings::default();
        core::mem::swap(self, &mut next);
        next
    }
}

} // verus!
