//! The messages every mutation goes through, and the decisions of the single
//! consumer that handles them one at a time.
use vstd::prelude::*;
use crate::ui::{CoreStatus, RUAEvents, UI};

verus! {

/// A request to the coordinator.
#[derive(Debug, Clone, PartialEq)]
pub enum ConfigMsg {
    /// The engine's status changed.
    CoreStatus(CoreStatus),
    /// Restart the engine and tell observers.
    RestartCore,
    /// A log line for observers.
    EmitLog(String),
    /// Push both configurations to observers.
    EmitConfig,
    /// Test the speed of these nodes, one after the other.
    SpeedTest(Vec<String>),
}

/// What the coordinator asks its runtime to do, in order.
#[derive(Debug, Clone, PartialEq)]
pub enum Effect {
    /// Publish an event with the current state it names.
    Emit(RUAEvents),
    /// Publish a log line.
    EmitLog(String),
    /// Restart the engine, then report the outcome with `restart_finished`.
    Restart,
    /// Run a speed test of the node with this id.
    SpeedTest(String),
}

/// How a requested restart ended.
#[derive(Debug, Clone, Copy, PartialEq, Eq)]
pub enum RestartOutcome {
    /// The running process was killed and a new one spawned.
    Respawned,
    /// No process was running, so nothing was done.
    NoProcess,
    /// Killing or spawning failed.
    Failed,
}

/// The consumer's state: what observers see, whether log lines are
/// forwarded to them, and the status the engine had when the restart in
/// progress was requested.
#[derive(Debug, Clone, PartialEq)]
pub struct Coordinator {
    pub ui: UI,
    pub logging: bool,
    pub before_restart: CoreStatus,
}

/// One speed-test request per node id, in the order given.
pub open spec fn speed_test_effects(ids: Seq<String>) -> Seq<Effect> {
    ids.map_values(|id: String| Effect::SpeedTest(id))
}

/// Events that tell observers about a finished restart.
pub open spec fn restart_report() -> Seq<Effect> {
    seq![
        Effect::Emit(RUAEvents::UpdateUI),
        Effect::Emit(RUAEvents::UpdateCoreConfig),
        Effect::Emit(RUAEvents::UpdateRuaConfig),
    ]
}

impl Coordinator {
    /// A consumer starting from `ui`.
    pub fn new(ui: UI, logging: bool) -> (r: Coordinator)
        ensures
            r == (Coordinator { ui, logging, before_restart: ui.core_status }),
    {
        let before_restart = ui.core_status;
        Coordinator { ui, logging, before_restart }
    }

    /// Turns forwarding of log lines on or off.
    pub fn set_logging(&mut self, enable: bool)
        ensures
            *final(self) == (Coordinator { logging: enable, ..*old(self) }),
    {
        self.logging = enable;
    }

    /// Handles one message and says what to do about it.
    pub fn handle(&mut self, msg: ConfigMsg) -> (r: Vec<Effect>)
        ensures
            match msg {
                ConfigMsg::CoreStatus(s) => *final(self) == (Coordinator {
                    ui: (UI { core_status: s, ..old(self).ui }),
                    ..*old(self)
                }) && r@ == seq![Effect::Emit(RUAEvents::UpdateUI)],
                ConfigMsg::RestartCore => *final(self) == (Coordinator {
                    ui: (UI { core_status: CoreStatus::Restarting, ..old(self).ui }),
                    before_restart: old(self).ui.core_status,
                    ..*old(self)
                }) && r@ == seq![Effect::Emit(RUAEvents::UpdateUI), Effect::Restart],
                ConfigMsg::EmitLog(line) => *final(self) == *old(self) && r@ == if old(self).logging {
                    seq![Effect::EmitLog(line)]
                } else {
                    Seq::empty()
                },
                ConfigMsg::EmitConfig => *final(self) == *old(self) && r@ == seq![
                    Effect::Emit(RUAEvents::UpdateRuaConfig),
                    Effect::Emit(RUAEvents::UpdateCoreConfig),
                ],
                ConfigMsg::SpeedTest(ids) => *final(self) == *old(self) && r@ == speed_test_effects(
                    ids@,
                ),
            },
    {
        match msg {
            ConfigMsg::CoreStatus(s) => {
                self.ui.core_status = s;
                vec![Effect::Emit(RUAEvents::UpdateUI)]
            },
            ConfigMsg::RestartCore => {
                self.before_restart = self.ui.core_status;
                self.ui.core_status = CoreStatus::Restarting;
                vec![Effect::Emit(RUAEvents::UpdateUI), Effect::Restart]
            },
            ConfigMsg::EmitLog(line) => {
                if self.logging {
                    vec![Effect::EmitLog(line)]
                } else {
                    Vec::new()
                }
            },
            ConfigMsg::EmitConfig => {
                vec![Effect::Emit(RUAEvents::UpdateRuaConfig), Effect::Emit(RUAEvents::UpdateCoreConfig)]
            },
            ConfigMsg::SpeedTest(ids) => speed_tests(ids),
        }
    }

    /// Records how a restart ended: started again, stopped, or, when there
    /// was no process to restart, back to the status before the request.
    pub fn restart_finished(&mut self, outcome: RestartOutcome) -> (r: Vec<Effect>)
        ensures
            *final(self) == (Coordinator {
                ui: (UI {
                    core_status: match outcome {
                        RestartOutcome::Respawned => CoreStatus::Started,
                        RestartOutcome::NoProcess => old(self).before_restart,
                        RestartOutcome::Failed => CoreStatus::Stopped,
                    },
                    ..old(self).ui
                }),
                ..*old(self)
            }),
            r@ == restart_report(),
    {
        self.ui.core_status = match outcome {
            RestartOutcome::Respawned => CoreStatus::Started,
            RestartOutcome::NoProcess => self.before_restart,
            RestartOutcome::Failed => CoreStatus::Stopped,
        };
        vec![
            Effect::Emit(RUAEvents::UpdateUI),
            Effect::Emit(RUAEvents::UpdateCoreConfig),
            Effect::Emit(RUAEvents::UpdateRuaConfig),
        ]
    }
}

/// One speed-test request per id, keeping their order.
fn speed_tests(ids: Vec<String>) -> (r: Vec<Effect>)
    ensures
        r@ == speed_test_effects(ids@),
{
    let ghost all = ids@;
    let mut rest = ids;
    let mut out: Vec<Effect> = Vec::new();
    while rest.len() > 0
        invariant
            out@.len() + rest@.len() == all.len(),
            out@ == speed_test_effects(all.subrange(0, out@.len() as int)),
            rest@ == all.subrange(out@.len() as int, all.len() as int),
        decreases rest@.len(),
    {
        let id = rest.remove(0);
        let ghost done = out@.len();
        out.push(Effect::SpeedTest(id));
        assert(all.subrange(0, done as int + 1) == all.subrange(0, done as int).push(id));
        assert(rest@ =~= all.subrange(out@.len() as int, all.len() as int));
        assert(out@ =~= speed_test_effects(all.subrange(0, out@.len() as int)));
    }
    assert(all.subrange(0, all.len() as int) =~= all);
    out
}

/// A restart requested while no process runs leaves the status as it was:
/// handling the request and then its no-op outcome gives back the state
/// the consumer started from, apart from the remembered status.
pub proof fn lemma_restart_without_process_keeps_status(c0: Coordinator, c1: Coordinator, c2: Coordinator)
    requires
        c1 == (Coordinator {
            ui: (UI { core_status: CoreStatus::Restarting, ..c0.ui }),
            before_restart: c0.ui.core_status,
            ..c0
        }),
        c2 == (Coordinator {
            ui: (UI { core_status: c1.before_restart, ..c1.ui }),
            ..c1
        }),
    ensures
        c2.ui == c0.ui,
        c2.logging == c0.logging,
{
}

} // verus!
