use vstd::prelude::*;

verus! {

use crate::console::con_height;
use crate::console::con_width;
use crate::console::new_console;
use crate::console::resize_console;
use crate::console::MAX_CONSOLE_DIM;
use crate::input::DoryenInput;
use crate::input::InputSnapshot;
use crate::render_system::after_render_pass;
use crate::render_system::drivers_due;
use crate::render_system::DoryenRenderSystems;
use crate::render_system::RenderSchedule;
use crate::render_system::RenderState;
use crate::render_system::RenderSystemHandle;
use crate::root_console::DoryenRootConsole;
use crate::settings::AppOptions;
use crate::settings::DoryenSettings;
use crate::settings::ResizeMode;
use crate::settings::is_default_settings;
use crate::DoryenAppBuilder;

/// A broken call protocol: the bridge's own invariants were violated by
/// incorrect wiring, not by external input.  The host-side driver treats any
/// of these as fatal and aborts the frame loop with a diagnostic; nothing
/// here is recovered from at runtime.
#[derive(Clone, Copy, Debug, PartialEq, Eq, Structural)]
pub enum ProtocolError {
    /// The console was taken while the bridge already held it.
    ConsoleAlreadyTaken,
    /// The console was restored while the host loop still owned it.
    ConsoleNotTaken,
    /// A render pass began while the schedule was already checked out.
    RenderScheduleTaken,
    /// A schedule was checked back in while the slot was already full.
    RenderScheduleNotTaken,
}

/// Last-measured frame rates, refreshed once per update call.
#[derive(Clone, Copy, Debug, PartialEq, Eq, Structural)]
pub struct FpsInfo {
    /// Instantaneous frames per second.
    pub current: u32,
    /// Rolling-average frames per second.
    pub average: u32,
}

/// One resize notification: the screen size before and after.
#[derive(Clone, Copy, Debug, PartialEq, Eq, Structural)]
pub struct ResizeEvent {
    /// Screen width before the resize, in pixels.
    pub previous_width: u32,
    /// Screen height before the resize, in pixels.
    pub previous_height: u32,
    /// Screen width after the resize, in pixels.
    pub new_width: u32,
    /// Screen height after the resize, in pixels.
    pub new_height: u32,
}

/// What one update tick asks of the host loop.
#[derive(Debug)]
pub struct UpdateOutcome {
    /// The font path to apply: the most recently queued request of this
    /// tick, if any was queued.
    pub font_path: Option<String>,
    /// Whether the loop must stop before the next frame.
    pub exit: bool,
}

/// One render pass's work order: the schedule checked out of its slot, and
/// the driver callbacks the pass must invoke before running it.
#[derive(Debug)]
pub struct RenderPass {
    /// The schedule, out of its slot until the pass checks it back in.
    pub schedule: RenderSchedule,
    /// The state-driver callbacks due this pass, in registration order.
    pub drivers: Vec<RenderSystemHandle>,
}

/// What the resize callback did, or asks the host-side driver to do.
#[derive(Clone, Copy, Debug, PartialEq, Eq, Structural)]
pub enum ResizeAction {
    /// The console grid was left as it was.
    Ignored,
    /// The console grid was rescaled to this size, in cells.
    Rescaled { width: u32, height: u32 },
    /// The host-side driver must run the user's resize callback, inside a
    /// take/restore ownership bracket — the only way arbitrary console
    /// mutation is safe.
    InvokeCallback,
}

/// One resize notification's result: the event to broadcast, and what the
/// configured policy did or asks for.
#[derive(Clone, Copy, Debug, PartialEq, Eq, Structural)]
pub struct ResizeOutcome {
    /// The event every subscriber system receives.
    pub event: ResizeEvent,
    /// What the policy did with the console grid.
    pub action: ResizeAction,
}

/// The frame driver for one host-loop frame: the bridge between the host
/// loop's update/render/resize callbacks and the host framework's systems.
/// It owns the bridge's resources outright — an explicit registry in place
/// of lookup-by-type — and moves the one root console between the host loop
/// and the resource slot by total swaps, so exactly one owner holds the real
/// console at every moment.
pub struct DoryenPluginEngine {
    /// The parked stand-in console while the host loop owns the real one;
    /// `None` for the duration of a phase in which the bridge holds it.
    pub swap_console: Option<doryen_rs::Console>,
    /// The slot through which systems reach the root console while held.
    pub root_console: DoryenRootConsole,
    /// What the settings registry shows after startup consumed it.
    pub settings: DoryenSettings,
    /// The translated input resource.
    pub input: DoryenInput,
    /// The slot holding the secondary render schedule.
    pub render_systems: DoryenRenderSystems,
    /// The state-driver bookkeeping for the render schedule.
    pub render_state: RenderState,
    /// Last-measured frame rates.
    pub fps: FpsInfo,
    /// Which mouse buttons to poll input data for.
    pub mouse_button_listeners: Vec<usize>,
    /// What to do when the host loop reports a new screen size.
    pub resize_mode: ResizeMode,
    /// Pixels per console cell horizontally, established at startup.
    pub cell_width: u32,
    /// Pixels per console cell vertically, established at startup.
    pub cell_height: u32,
    /// Last known screen size, in pixels.
    pub screen_size: (u32, u32),
}

impl DoryenPluginEngine {
    /// The host loop owns the real console; the bridge parks the stand-in.
    pub open spec fn console_idle(self) -> bool {
        self.swap_console is Some && self.root_console.0 is None
    }

    /// The bridge holds the real console; the host loop holds the stand-in.
    pub open spec fn console_held(self) -> bool {
        self.swap_console is None && self.root_console.0 is Some
    }

    /// The startup-time configuration the frame driver never rewrites.
    pub open spec fn same_config(self, other: Self) -> bool {
        &&& self.settings == other.settings
        &&& self.mouse_button_listeners == other.mouse_button_listeners
        &&& self.resize_mode == other.resize_mode
        &&& self.cell_width == other.cell_width
        &&& self.cell_height == other.cell_height
    }

    /// The engine and host console after a successful take, as one total
    /// swap: the host's real console moves into the resource slot, the
    /// parked stand-in moves out to the host.
    pub open spec fn spec_take(e: Self, host: doryen_rs::Console) -> (Self, doryen_rs::Console)
        recommends
            e.console_idle(),
    {
        (
            Self {
                swap_console: None,
                root_console: DoryenRootConsole(Some(host)),
                ..e
            },
            e.swap_console.unwrap(),
        )
    }

    /// The engine and host console after a successful restore: the real
    /// console leaves the resource slot for the host, the stand-in parks.
    pub open spec fn spec_restore(e: Self, host: doryen_rs::Console) -> (Self, doryen_rs::Console)
        recommends
            e.console_held(),
    {
        (
            Self {
                swap_console: Some(host),
                root_console: DoryenRootConsole(None),
                ..e
            },
            e.root_console.0.unwrap(),
        )
    }

    /// Swap the host loop's console into the bridge: after this, systems
    /// reach the real console through the resource slot, and the host loop
    /// holds the parked stand-in.  Taking while already held is a protocol
    /// violation: nothing moves, and in particular the console is neither
    /// duplicated nor dropped.
    pub fn take_root_console_ownership(&mut self, host_console: &mut doryen_rs::Console) -> (r:
        Result<(), ProtocolError>)
        ensures
            old(self).console_idle() ==> {
                &&& r is Ok
                &&& (*final(self), *final(host_console)) == Self::spec_take(
                    *old(self),
                    *old(host_console),
                )
            },
            !old(self).console_idle() ==> {
                &&& r == Err::<(), ProtocolError>(ProtocolError::ConsoleAlreadyTaken)
                &&& *final(self) == *old(self)
                &&& *final(host_console) == *old(host_console)
            },
    {
        match self.swap_console.take() {
            Some(mut parked) => {
                if self.root_console.0.is_some() {
                    self.swap_console = Some(parked);
                    Err(ProtocolError::ConsoleAlreadyTaken)
                } else {
                    core::mem::swap(host_console, &mut parked);
                    self.root_console.0 = Some(parked);
                    Ok(())
                }
            },
            None => Err(ProtocolError::ConsoleAlreadyTaken),
        }
    }

    /// Swap the console back to the host loop: the real console leaves the
    /// resource slot, the stand-in returns to its parking place.  Restoring
    /// while not held is a protocol violation: nothing moves.
    pub fn restore_root_console_ownership(&mut self, host_console: &mut doryen_rs::Console) -> (r:
        Result<(), ProtocolError>)
        ensures
            old(self).console_held() ==> {
                &&& r is Ok
                &&& (*final(self), *final(host_console)) == Self::spec_restore(
                    *old(self),
                    *old(host_console),
                )
            },
            !old(self).console_held() ==> {
                &&& r == Err::<(), ProtocolError>(ProtocolError::ConsoleNotTaken)
                &&& *final(self) == *old(self)
                &&& *final(host_console) == *old(host_console)
            },
    {
        match self.root_console.0.take() {
            Some(mut live) => {
                if self.swap_console.is_some() {
                    self.root_console.0 = Some(live);
                    Err(ProtocolError::ConsoleNotTaken)
                } else {
                    core::mem::swap(host_console, &mut live);
                    self.swap_console = Some(live);
                    Ok(())
                }
            },
            None => Err(ProtocolError::ConsoleNotTaken),
        }
    }

    /// One paired take and restore hands back exactly the engine state and
    /// host console it started from: a round trip of ownership leaves the
    /// console unchanged, bit for bit.
    pub proof fn lemma_ownership_round_trip(e: Self, host: doryen_rs::Console)
        requires
            e.console_idle(),
        ensures
            ({
                let (e1, h1) = Self::spec_take(e, host);
                let (e2, h2) = Self::spec_restore(e1, h1);
                e2 == e && h2 == host
            }),
    {
    }

    /// Any number of paired take/restore calls in a row leaves the engine
    /// state and the host console exactly as they were.
    pub open spec fn spec_take_restore_pairs(
        n: nat,
        e: Self,
        host: doryen_rs::Console,
    ) -> (Self, doryen_rs::Console)
        decreases n,
    {
        if n == 0 {
            (e, host)
        } else {
            let (e1, h1) = Self::spec_take(e, host);
            let (e2, h2) = Self::spec_restore(e1, h1);
            Self::spec_take_restore_pairs((n - 1) as nat, e2, h2)
        }
    }

    /// After an equal number of paired take/restore calls, the console is
    /// identical to its pre-sequence value, however many pairs ran.
    pub proof fn lemma_ownership_round_trips(n: nat, e: Self, host: doryen_rs::Console)
        requires
            e.console_idle(),
        ensures
            Self::spec_take_restore_pairs(n, e, host) == (e, host),
        decreases n,
    {
        if n > 0 {
            Self::lemma_ownership_round_trip(e, host);
            Self::lemma_ownership_round_trips((n - 1) as nat, e, host);
        }
    }

    /// Check the render schedule out of its slot, leaving the slot empty so
    /// a render-phase system cannot re-enter the schedule.
    pub fn take_doryen_render_schedule(&mut self) -> (r: Result<RenderSchedule, ProtocolError>)
        ensures
            final(self).same_config(*old(self)),
            final(self).swap_console == old(self).swap_console,
            final(self).root_console == old(self).root_console,
            final(self).input == old(self).input,
            final(self).render_state == old(self).render_state,
            final(self).fps == old(self).fps,
            final(self).screen_size == old(self).screen_size,
            old(self).render_systems.0 is Some ==> {
                &&& r == Ok::<RenderSchedule, ProtocolError>(old(self).render_systems.0.unwrap())
                &&& final(self).render_systems.0 is None
            },
            old(self).render_systems.0 is None ==> {
                &&& r == Err::<RenderSchedule, ProtocolError>(ProtocolError::RenderScheduleTaken)
                &&& *final(self) == *old(self)
            },
    {
        match self.render_systems.0.take() {
            Some(schedule) => Ok(schedule),
            None => Err(ProtocolError::RenderScheduleTaken),
        }
    }

    /// Check the render schedule back into its slot after a pass.
    pub fn restore_doryen_render_schedule(&mut self, schedule: RenderSchedule) -> (r: Result<
        (),
        ProtocolError,
    >)
        ensures
            final(self).same_config(*old(self)),
            final(self).swap_console == old(self).swap_console,
            final(self).root_console == old(self).root_console,
            final(self).input == old(self).input,
            final(self).render_state == old(self).render_state,
            final(self).fps == old(self).fps,
            final(self).screen_size == old(self).screen_size,
            old(self).render_systems.0 is None ==> {
                &&& r is Ok
                &&& final(self).render_systems.0 == Some(schedule)
            },
            old(self).render_systems.0 is Some ==> {
                &&& r == Err::<(), ProtocolError>(ProtocolError::RenderScheduleNotTaken)
                &&& *final(self) == *old(self)
            },
    {
        if self.render_systems.0.is_some() {
            Err(ProtocolError::RenderScheduleNotTaken)
        } else {
            self.render_systems.0 = Some(schedule);
            Ok(())
        }
    }

    /// The first half of one update tick, run before the host framework's
    /// primary pass: refresh the frame rates, translate the polled input
    /// into the input resource, and take console ownership so the primary
    /// pass's systems can reach the root console.
    pub fn update_begin(&mut self, host_console: &mut doryen_rs::Console, snapshot: InputSnapshot)
        -> (r: Result<(), ProtocolError>)
        ensures
            final(self).same_config(*old(self)),
            final(self).render_systems == old(self).render_systems,
            final(self).render_state == old(self).render_state,
            final(self).screen_size == old(self).screen_size,
            final(self).fps == (FpsInfo { current: snapshot.fps, average: snapshot.average_fps }),
            crate::input::translated_input(
                final(self).input,
                old(self).mouse_button_listeners@,
                snapshot,
            ),
            old(self).console_idle() ==> {
                &&& r is Ok
                &&& final(self).console_held()
                &&& final(self).root_console.0 == Some(*old(host_console))
                &&& *final(host_console) == old(self).swap_console.unwrap()
            },
            !old(self).console_idle() ==> {
                &&& r == Err::<(), ProtocolError>(ProtocolError::ConsoleAlreadyTaken)
                &&& final(self).swap_console == old(self).swap_console
                &&& final(self).root_console == old(self).root_console
                &&& *final(host_console) == *old(host_console)
            },
    {
        self.fps = FpsInfo { current: snapshot.fps, average: snapshot.average_fps };
        self.input.handle_input(&self.mouse_button_listeners, snapshot);
        self.take_root_console_ownership(host_console)
    }

    /// The second half of one update tick, run after the host framework's
    /// primary pass: restore console ownership to the host loop, pick the
    /// most recently queued font-path request — older requests from the same
    /// tick are discarded, last write wins — and reduce however many exit
    /// requests the primary pass queued to one stop signal.
    pub fn update_end(
        &mut self,
        host_console: &mut doryen_rs::Console,
        font_path_requests: &Vec<String>,
        exit_requests: usize,
    ) -> (r: Result<UpdateOutcome, ProtocolError>)
        ensures
            final(self).same_config(*old(self)),
            final(self).input == old(self).input,
            final(self).render_systems == old(self).render_systems,
            final(self).render_state == old(self).render_state,
            final(self).fps == old(self).fps,
            final(self).screen_size == old(self).screen_size,
            old(self).console_held() ==> {
                &&& r is Ok
                &&& (*final(self), *final(host_console)) == Self::spec_restore(
                    *old(self),
                    *old(host_console),
                )
                &&& r.unwrap().exit == (exit_requests > 0)
                &&& (font_path_requests@.len() == 0 ==> r.unwrap().font_path is None)
                &&& (font_path_requests@.len() > 0 ==> r.unwrap().font_path == Some(
                    font_path_requests@.last(),
                ))
            },
            !old(self).console_held() ==> {
                &&& r == Err::<UpdateOutcome, ProtocolError>(ProtocolError::ConsoleNotTaken)
                &&& *final(self) == *old(self)
                &&& *final(host_console) == *old(host_console)
            },
    {
        match self.restore_root_console_ownership(host_console) {
            Ok(()) => {
                let font_path = if font_path_requests.len() > 0 {
                    Some(font_path_requests[font_path_requests.len() - 1].clone())
                } else {
                    None
                };
                Ok(UpdateOutcome { font_path, exit: exit_requests > 0 })
            },
            Err(e) => Err(e),
        }
    }

    /// Start one render pass: take console ownership, check the schedule
    /// out of its slot, and decide which driver callbacks this pass must
    /// invoke — every registered one if the dirty flag was set since the
    /// previous pass, none otherwise — clearing the flag.
    pub fn render_begin(&mut self, host_console: &mut doryen_rs::Console) -> (r: Result<
        RenderPass,
        ProtocolError,
    >)
        ensures
            final(self).same_config(*old(self)),
            final(self).input == old(self).input,
            final(self).fps == old(self).fps,
            final(self).screen_size == old(self).screen_size,
            !old(self).console_idle() ==> {
                &&& r == Err::<RenderPass, ProtocolError>(ProtocolError::ConsoleAlreadyTaken)
                &&& *final(self) == *old(self)
                &&& *final(host_console) == *old(host_console)
            },
            old(self).console_idle() && old(self).render_systems.0 is None ==> {
                &&& r == Err::<RenderPass, ProtocolError>(ProtocolError::RenderScheduleTaken)
                &&& *final(self) == *old(self)
                &&& *final(host_console) == *old(host_console)
            },
            old(self).console_idle() && old(self).render_systems.0 is Some ==> {
                &&& r is Ok
                &&& r.unwrap().schedule == old(self).render_systems.0.unwrap()
                &&& r.unwrap().drivers@ == drivers_due(old(self).render_state)
                &&& final(self).render_systems.0 is None
                &&& final(self).render_state == after_render_pass(old(self).render_state)
                &&& final(self).console_held()
                &&& final(self).root_console.0 == Some(*old(host_console))
                &&& *final(host_console) == old(self).swap_console.unwrap()
            },
    {
        if self.swap_console.is_none() || self.root_console.0.is_some() {
            return Err(ProtocolError::ConsoleAlreadyTaken);
        }
        if self.render_systems.0.is_none() {
            return Err(ProtocolError::RenderScheduleTaken);
        }
        match self.take_root_console_ownership(host_console) {
            Ok(()) => {},
            Err(e) => {
                proof {
                    assert(false);
                }
                return Err(e);
            },
        }
        let schedule = match self.render_systems.0.take() {
            Some(s) => s,
            None => {
                proof {
                    assert(false);
                }
                return Err(ProtocolError::RenderScheduleTaken);
            },
        };
        let drivers = if self.render_state.dirty {
            copy_handles(&self.render_state.drivers)
        } else {
            Vec::new()
        };
        self.render_state.dirty = false;
        Ok(RenderPass { schedule, drivers })
    }

    /// Finish one render pass: check the schedule back into its slot and
    /// restore console ownership to the host loop.
    pub fn render_end(&mut self, host_console: &mut doryen_rs::Console, schedule: RenderSchedule)
        -> (r: Result<(), ProtocolError>)
        ensures
            final(self).same_config(*old(self)),
            final(self).input == old(self).input,
            final(self).render_state == old(self).render_state,
            final(self).fps == old(self).fps,
            final(self).screen_size == old(self).screen_size,
            old(self).render_systems.0 is Some ==> {
                &&& r == Err::<(), ProtocolError>(ProtocolError::RenderScheduleNotTaken)
                &&& *final(self) == *old(self)
                &&& *final(host_console) == *old(host_console)
            },
            old(self).render_systems.0 is None && !old(self).console_held() ==> {
                &&& r == Err::<(), ProtocolError>(ProtocolError::ConsoleNotTaken)
                &&& *final(self) == *old(self)
                &&& *final(host_console) == *old(host_console)
            },
            old(self).render_systems.0 is None && old(self).console_held() ==> {
                &&& r is Ok
                &&& final(self).render_systems.0 == Some(schedule)
                &&& final(self).console_idle()
                &&& final(self).swap_console == Some(*old(host_console))
                &&& *final(host_console) == old(self).root_console.0.unwrap()
            },
    {
        if self.render_systems.0.is_some() {
            return Err(ProtocolError::RenderScheduleNotTaken);
        }
        if self.swap_console.is_some() || self.root_console.0.is_none() {
            return Err(ProtocolError::ConsoleNotTaken);
        }
        self.render_systems.0 = Some(schedule);
        match self.restore_root_console_ownership(host_console) {
            Ok(()) => Ok(()),
            Err(e) => {
                proof {
                    assert(false);
                }
                Err(e)
            },
        }
    }
    /// The grid size the automatic policy rescales the console to: each new
    /// screen dimension divided by the per-cell pixel size established at
    /// startup.  Integer division, so a non-exact fit truncates.
    pub open spec fn auto_resized_grid(self, new_width: u32, new_height: u32) -> (u32, u32)
        recommends
            self.cell_width > 0,
            self.cell_height > 0,
    {
        ((new_width / self.cell_width) as u32, (new_height / self.cell_height) as u32)
    }

    /// Handle one resize notification from the host loop: record the new
    /// screen size, emit the event carrying the previous and the new size,
    /// and apply the configured policy — ignore it, rescale the console
    /// grid in place, or ask the host-side driver to run the user callback.
    pub fn resize(
        &mut self,
        host_console: &mut doryen_rs::Console,
        new_width: u32,
        new_height: u32,
    ) -> (r: ResizeOutcome)
        ensures
            final(self).same_config(*old(self)),
            final(self).swap_console == old(self).swap_console,
            final(self).root_console == old(self).root_console,
            final(self).input == old(self).input,
            final(self).render_systems == old(self).render_systems,
            final(self).render_state == old(self).render_state,
            final(self).fps == old(self).fps,
            final(self).screen_size == (new_width, new_height),
            r.event == (ResizeEvent {
                previous_width: old(self).screen_size.0,
                previous_height: old(self).screen_size.1,
                new_width,
                new_height,
            }),
            old(self).resize_mode == ResizeMode::Nothing ==> {
                &&& r.action == ResizeAction::Ignored
                &&& *final(host_console) == *old(host_console)
            },
            old(self).resize_mode == ResizeMode::Callback ==> {
                &&& r.action == ResizeAction::InvokeCallback
                &&& *final(host_console) == *old(host_console)
            },
            old(self).resize_mode == ResizeMode::Automatic ==> {
                let (grid_width, grid_height) = old(self).auto_resized_grid(
                    new_width,
                    new_height,
                );
                if old(self).cell_width > 0 && old(self).cell_height > 0 && grid_width
                    <= MAX_CONSOLE_DIM && grid_height <= MAX_CONSOLE_DIM {
                    &&& r.action == (ResizeAction::Rescaled {
                        width: grid_width,
                        height: grid_height,
                    })
                    &&& con_width(*final(host_console)) == grid_width
                    &&& con_height(*final(host_console)) == grid_height
                } else {
                    &&& r.action == ResizeAction::Ignored
                    &&& *final(host_console) == *old(host_console)
                }
            },
    {
        let previous_width = self.screen_size.0;
        let previous_height = self.screen_size.1;
        self.screen_size = (new_width, new_height);
        let event = ResizeEvent { previous_width, previous_height, new_width, new_height };
        match self.resize_mode {
            ResizeMode::Nothing => ResizeOutcome { event, action: ResizeAction::Ignored },
            ResizeMode::Callback => ResizeOutcome { event, action: ResizeAction::InvokeCallback },
            ResizeMode::Automatic => {
                if self.cell_width > 0 && self.cell_height > 0 {
                    let grid_width = new_width / self.cell_width;
                    let grid_height = new_height / self.cell_height;
                    if grid_width <= MAX_CONSOLE_DIM && grid_height <= MAX_CONSOLE_DIM {
                        resize_console(host_console, grid_width, grid_height);
                        ResizeOutcome {
                            event,
                            action: ResizeAction::Rescaled {
                                width: grid_width,
                                height: grid_height,
                            },
                        }
                    } else {
                        ResizeOutcome { event, action: ResizeAction::Ignored }
                    }
                } else {
                    ResizeOutcome { event, action: ResizeAction::Ignored }
                }
            },
        }
    }

    /// Consume the registry into a running frame driver, handing back the
    /// window options for the host loop to open its window with.  The
    /// settings are read once, here: the engine keeps the consumed listener
    /// list and resize policy, the per-cell pixel sizes the automatic
    /// policy will scale with, and a fresh 1 x 1 parked stand-in console;
    /// the settings slot itself is left holding the default again.
    pub fn new(app: DoryenAppBuilder) -> (r: (DoryenPluginEngine, AppOptions))
        ensures
            ({
                let (engine, options) = r;
                &&& (app.settings.app_options is Some ==> options == app.settings.app_options.unwrap())
                &&& (app.settings.app_options is None ==> crate::settings::is_default_app_options(
                    options,
                ))
                &&& engine.mouse_button_listeners == app.settings.mouse_button_listeners
                &&& engine.resize_mode == app.settings.resize_mode
                &&& is_default_settings(engine.settings)
                &&& engine.swap_console is Some
                &&& (app.root_console.0 is None ==> engine.console_idle())
                &&& con_width(engine.swap_console.unwrap()) == 1
                &&& con_height(engine.swap_console.unwrap()) == 1
                &&& engine.root_console == app.root_console
                &&& engine.input == app.input
                &&& engine.render_systems == app.render_systems
                &&& engine.render_state == app.render_state
                &&& engine.cell_width == (if options.console_width > 0 {
                    options.screen_width / options.console_width
                } else {
                    0u32
                })
                &&& engine.cell_height == (if options.console_height > 0 {
                    options.screen_height / options.console_height
                } else {
                    0u32
                })
                &&& engine.screen_size == (options.screen_width, options.screen_height)
                &&& engine.fps == (FpsInfo { current: 0, average: 0 })
            }),
    {
        let DoryenAppBuilder { mut settings, root_console, input, render_systems, render_state } =
            app;
        let consumed = settings.consume();
        let options = match consumed.app_options {
            Some(o) => o,
            None => AppOptions::default(),
        };
        let cell_width = if options.console_width > 0 {
            options.screen_width / options.console_width
        } else {
            0
        };
        let cell_height = if options.console_height > 0 {
            options.screen_height / options.console_height
        } else {
            0
        };
        let engine = DoryenPluginEngine {
            swap_console: Some(new_console(1, 1)),
            root_console,
            settings,
            input,
            render_systems,
            render_state,
            fps: FpsInfo { current: 0, average: 0 },
            mouse_button_listeners: consumed.mouse_button_listeners,
            resize_mode: consumed.resize_mode,
            cell_width,
            cell_height,
            screen_size: (options.screen_width, options.screen_height),
        };
        (engine, options)
    }
}

fn copy_handles(src: &Vec<RenderSystemHandle>) -> (r: Vec<RenderSystemHandle>)
    ensures
        r@ == src@,
{
    let mut r: Vec<RenderSystemHandle> = Vec::new();
    crate::render_system::push_all(&mut r, src);
    proof {
        assert(r@ =~= src@);
    }
    r
}

} // verus!
