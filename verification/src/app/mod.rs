//! The application: its configuration, and the frame driver that turns the
//! signals of the window system into actions.

pub mod driver;
pub mod laws;
pub mod teardown;

pub use driver::AppState;

use vstd::prelude::*;

verus! {

/// Application state handed to click handlers.
pub struct State {
    pub count: i32,
}

impl State {
    /// A state with the given count.
    pub fn new(count: i32) -> (state: Self)
        ensures
            state.count == count,
    {
        Self { count }
    }
}

/// What an application is configured with, as plain values.
pub struct AppConfig {
    pub script_path: Option<Seq<char>>,
    pub use_cpu: bool,
}

/// The view of an optional path.
pub open spec fn path_view(path: Option<String>) -> Option<Seq<char>> {
    match path {
        Some(p) => Some(p@),
        None => None,
    }
}

/// Configuration of an application, built step by step.
pub struct App {
    script_path: Option<String>,
    use_cpu: bool,
}

impl View for App {
    type V = AppConfig;

    closed spec fn view(&self) -> AppConfig {
        AppConfig { script_path: path_view(self.script_path), use_cpu: self.use_cpu }
    }
}

impl App {
    /// An application without a script that renders on the GPU.
    pub fn new() -> (app: Self)
        ensures
            app@ == (AppConfig { script_path: None, use_cpu: false }),
    {
        Self { script_path: None, use_cpu: false }
    }

    /// Chooses between the CPU fallback and the GPU for rasterising.
    pub fn with_use_cpu(self, use_cpu: bool) -> (app: Self)
        ensures
            app@ == (AppConfig { use_cpu, ..self@ }),
    {
        Self { script_path: self.script_path, use_cpu }
    }

    /// Sets the path of the script.
    pub fn with_script(self, path: &str) -> (app: Self)
        ensures
            app@ == (AppConfig { script_path: Some(path@), ..self@ }),
    {
        Self { script_path: Some(path.to_owned()), use_cpu: self.use_cpu }
    }

    /// Whether rasterising runs on the CPU.
    pub fn use_cpu(&self) -> (use_cpu: bool)
        ensures
            use_cpu == self@.use_cpu,
    {
        self.use_cpu
    }

    /// The path of the script.
    pub fn script_path(&self) -> (path: Option<&String>)
        ensures
            path_view_ref(path) == self@.script_path,
    {
        self.script_path.as_ref()
    }

    /// Starts the application: hands its configuration to a frame driver
    /// that has seen no signal yet. The event loop feeds that driver.
    pub fn run(self) -> (driver: AppState)
        ensures
            driver@ == driver::DriverModel::initial(self@.script_path, self@.use_cpu),
            driver@.wf(),
    {
        AppState::new(self.script_path, self.use_cpu)
    }
}

/// The view of an optional borrowed path.
pub open spec fn path_view_ref(path: Option<&String>) -> Option<Seq<char>> {
    match path {
        Some(p) => Some(p@),
        None => None,
    }
}

} // verus!
