//! State shown to observers, and the events that carry it.
use vstd::prelude::*;

verus! {

/// The supervised engine's lifecycle state.
#[derive(Debug, Clone, Copy, PartialEq, Eq)]
pub enum CoreStatus {
    Started,
    Restarting,
    Stopped,
}

impl CoreStatus {
    /// The status's name.
    pub fn as_str(&self) -> (r: &'static str)
        ensures
            r@ == match self {
                CoreStatus::Started => "Started"@,
                CoreStatus::Restarting => "Restarting"@,
                CoreStatus::Stopped => "Stopped"@,
            },
    {
        match self {
            CoreStatus::Started => "Started",
            CoreStatus::Restarting => "Restarting",
            CoreStatus::Stopped => "Stopped",
        }
    }
}

/// Global state of the user interface.
#[derive(Debug, Clone, PartialEq)]
pub struct UI {
    /// Engine status.
    pub core_status: CoreStatus,
    /// Engine version.
    pub core_version: String,
    /// Whether the main window is visible.
    pub main_visible: bool,
}

impl Default for UI {
    fn default() -> (r: Self)
        ensures
            r.core_status == CoreStatus::Stopped,
            r.core_version@.len() == 0,
            r.main_visible,
    {
        UI { core_status: CoreStatus::Stopped, core_version: String::new(), main_visible: true }
    }
}

/// Events pushed to observers.
#[derive(Debug, Clone, Copy, PartialEq, Eq)]
pub enum RUAEvents {
    UpdateRuaConfig,
    UpdateCoreConfig,
    UpdateUI,
    SpeedTest,
    EmitLog,
}

/// The name each event is published under.
pub open spec fn event_name(e: RUAEvents) -> Seq<char> {
    match e {
        RUAEvents::UpdateRuaConfig => "rua://update-rua-config"@,
        RUAEvents::UpdateCoreConfig => "rua://update-core-config"@,
        RUAEvents::UpdateUI => "rua://update-ui"@,
        RUAEvents::SpeedTest => "rua://speed-test"@,
        RUAEvents::EmitLog => "rua://emit-log"@,
    }
}

impl RUAEvents {
    /// The name this event is published under.
    pub fn as_str(&self) -> (r: &'static str)
        ensures
            r@ == event_name(*self),
    {
        match self {
            RUAEvents::UpdateRuaConfig => "rua://update-rua-config",
            RUAEvents::UpdateCoreConfig => "rua://update-core-config",
            RUAEvents::UpdateUI => "rua://update-ui",
            RUAEvents::SpeedTest => "rua://speed-test",
            RUAEvents::EmitLog => "rua://emit-log",
        }
    }
}

/// Progress of a node's speed test, as shown to observers.
#[derive(Debug, Clone, PartialEq)]
pub struct SpeedTestPayload<'a> {
    pub id: &'a str,
    pub loading: bool,
}

} // verus!
