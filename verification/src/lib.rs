use vstd::prelude::*;

pub mod console;
pub mod engine;
pub mod input;
pub mod render_system;
pub mod root_console;
pub mod settings;

pub use input::DoryenInput;
pub use render_system::RenderStage;
pub use render_system::RenderSystemExtensions;
pub use root_console::DoryenRootConsole;
pub use settings::DoryenSettings;

verus! {

use crate::input::is_cleared_input;
use crate::render_system::DoryenRenderSystems;
use crate::render_system::RenderState;
use crate::render_system::is_initial_render_state;
use crate::render_system::is_initial_render_systems;

/// The explicit resource registry the bridge is wired through: every
/// resource the plugin owns, held by name instead of looked up by type in
/// the host framework's registry.  The host-side driver keeps this alongside
/// the host framework's own world and mirrors values across as plain data.
pub struct DoryenAppBuilder {
    /// The one-shot configuration, consumed when the loop starts.
    pub settings: DoryenSettings,
    /// The slot through which systems reach the root console.
    pub root_console: DoryenRootConsole,
    /// The translated input resource.
    pub input: DoryenInput,
    /// The slot holding the secondary render schedule.
    pub render_systems: DoryenRenderSystems,
    /// The state-driver bookkeeping for the render schedule.
    pub render_state: RenderState,
}

impl DoryenAppBuilder {
    /// A registry with default settings and every plugin resource in its
    /// startup state.
    pub fn new() -> (r: DoryenAppBuilder)
        ensures
            crate::settings::is_default_settings(r.settings),
            r.root_console.0 is None,
            is_cleared_input(r.input),
            is_initial_render_systems(r.render_systems),
            is_initial_render_state(r.render_state),
    {
        DoryenAppBuilder {
            settings: DoryenSettings::default(),
            root_console: DoryenRootConsole::default(),
            input: DoryenInput::default(),
            render_systems: DoryenRenderSystems::default(),
            render_state: RenderState::default(),
        }
    }
}

/// The plugin: wires the bridge's resources into the registry, leaving any
/// settings the user placed there untouched.  The host-side driver then
/// hands the registry to the frame driver when the loop starts.
#[derive(Default)]
pub struct DoryenPlugin;

impl DoryenPlugin {
    /// Put every resource the bridge needs in its startup state.
    pub fn build(&self, app: &mut DoryenAppBuilder)
        ensures
            final(app).settings == old(app).settings,
            final(app).root_console.0 is None,
            is_cleared_input(final(app).input),
            is_initial_render_systems(final(app).render_systems),
            is_initial_render_state(final(app).render_state),
    {
        app.root_console = DoryenRootConsole::default();
        app.input = DoryenInput::default();
        app.render_systems = DoryenRenderSystems::default();
        app.render_state = RenderState::default();
    }
}

} // verus!
