//! Scripted demo / auto-play engagement sequence.
use vstd::prelude::*;

use crate::log::{LogKind, LogKindView};
use crate::options::{
    IffStatus, OptionsState, SpectralProfile, SystemMode, TargetProfile, TargetSelect,
    WeaponStatus,
};
use crate::state::{AppModel, AppState, Screen};

verus! {

/// One step in the demo timeline.
#[derive(Debug, Clone, Copy)]
pub enum DemoStep {
    Wait { ticks: u32 },
    SelectSentry { index: usize },
    SetScreen { screen: Screen },
    SetMode { mode: SystemMode },
    SetWeapon { status: WeaponStatus },
    SetIff { status: IffStatus },
    SetProfile { profile: TargetProfile, spectral: SpectralProfile, select: TargetSelect },
    Fire { times: u16 },
    Log { message: &'static str },
    Done,
}

/// The built-in perimeter defense script, step by step.
pub open spec fn spec_default_script() -> Seq<DemoStep> {
    seq![
        DemoStep::Log { message: "PERIMETER DEFENSE SEQUENCE INIT" },
        DemoStep::Wait { ticks: 8 },
        DemoStep::SelectSentry { index: 0 },
        DemoStep::SetScreen { screen: Screen::Options },
        DemoStep::SetMode { mode: SystemMode::AutoRemote },
        DemoStep::SetProfile { profile: TargetProfile::Hard, spectral: SpectralProfile::Bio, select: TargetSelect::MultiSpec },
        DemoStep::SetIff { status: IffStatus::Search },
        DemoStep::SetWeapon { status: WeaponStatus::Armed },
        DemoStep::Wait { ticks: 6 },
        DemoStep::SelectSentry { index: 1 },
        DemoStep::SetMode { mode: SystemMode::AutoRemote },
        DemoStep::SetWeapon { status: WeaponStatus::Armed },
        DemoStep::Wait { ticks: 4 },
        DemoStep::SelectSentry { index: 2 },
        DemoStep::SetWeapon { status: WeaponStatus::Armed },
        DemoStep::SelectSentry { index: 3 },
        DemoStep::SetWeapon { status: WeaponStatus::Armed },
        DemoStep::Log { message: "ALL UNITS ARMED — LINK NOMINAL" },
        DemoStep::Wait { ticks: 8 },
        DemoStep::SelectSentry { index: 0 },
        DemoStep::SetIff { status: IffStatus::Engaged },
        DemoStep::SetScreen { screen: Screen::Fire },
        DemoStep::Log { message: "CONTACT BEARING 000 — MULTIPLE" },
        DemoStep::Wait { ticks: 4 },
        DemoStep::Fire { times: 12 },
        DemoStep::Wait { ticks: 3 },
        DemoStep::SelectSentry { index: 1 },
        DemoStep::SetIff { status: IffStatus::Engaged },
        DemoStep::Fire { times: 18 },
        DemoStep::Wait { ticks: 3 },
        DemoStep::SelectSentry { index: 2 },
        DemoStep::Fire { times: 8 },
        DemoStep::SelectSentry { index: 3 },
        DemoStep::Fire { times: 10 },
        DemoStep::Wait { ticks: 6 },
        DemoStep::SelectSentry { index: 0 },
        DemoStep::Log { message: "SECTOR CLEAR — RESUME SEARCH" },
        DemoStep::SetIff { status: IffStatus::Search },
        DemoStep::SetScreen { screen: Screen::Options },
        DemoStep::Wait { ticks: 10 },
        DemoStep::Done,
    ]
}

/// Built-in perimeter defense demo (inspired by Hadley's Hope corridor scene).
pub fn default_script() -> (r: Vec<DemoStep>)
    ensures
        r@ == spec_default_script(),
{
    let r = vec![
        DemoStep::Log { message: "PERIMETER DEFENSE SEQUENCE INIT" },
        DemoStep::Wait { ticks: 8 },
        DemoStep::SelectSentry { index: 0 },
        DemoStep::SetScreen { screen: Screen::Options },
        DemoStep::SetMode { mode: SystemMode::AutoRemote },
        DemoStep::SetProfile { profile: TargetProfile::Hard, spectral: SpectralProfile::Bio, select: TargetSelect::MultiSpec },
        DemoStep::SetIff { status: IffStatus::Search },
        DemoStep::SetWeapon { status: WeaponStatus::Armed },
        DemoStep::Wait { ticks: 6 },
        DemoStep::SelectSentry { index: 1 },
        DemoStep::SetMode { mode: SystemMode::AutoRemote },
        DemoStep::SetWeapon { status: WeaponStatus::Armed },
        DemoStep::Wait { ticks: 4 },
        DemoStep::SelectSentry { index: 2 },
        DemoStep::SetWeapon { status: WeaponStatus::Armed },
        DemoStep::SelectSentry { index: 3 },
        DemoStep::SetWeapon { status: WeaponStatus::Armed },
        DemoStep::Log { message: "ALL UNITS ARMED — LINK NOMINAL" },
        DemoStep::Wait { ticks: 8 },
        DemoStep::SelectSentry { index: 0 },
        DemoStep::SetIff { status: IffStatus::Engaged },
        DemoStep::SetScreen { screen: Screen::Fire },
        DemoStep::Log { message: "CONTACT BEARING 000 — MULTIPLE" },
        DemoStep::Wait { ticks: 4 },
        DemoStep::Fire { times: 12 },
        DemoStep::Wait { ticks: 3 },
        DemoStep::SelectSentry { index: 1 },
        DemoStep::SetIff { status: IffStatus::Engaged },
        DemoStep::Fire { times: 18 },
        DemoStep::Wait { ticks: 3 },
        DemoStep::SelectSentry { index: 2 },
        DemoStep::Fire { times: 8 },
        DemoStep::SelectSentry { index: 3 },
        DemoStep::Fire { times: 10 },
        DemoStep::Wait { ticks: 6 },
        DemoStep::SelectSentry { index: 0 },
        DemoStep::Log { message: "SECTOR CLEAR — RESUME SEARCH" },
        DemoStep::SetIff { status: IffStatus::Search },
        DemoStep::SetScreen { screen: Screen::Options },
        DemoStep::Wait { ticks: 10 },
        DemoStep::Done,
    ];
    assert(r@ =~= spec_default_script());
    r
}

/// A demo player as the console reasons about it.
pub struct DemoModel {
    pub steps: Seq<DemoStep>,
    pub index: nat,
    pub wait_remaining: u32,
    pub fire_remaining: u16,
    pub active: bool,
}

impl DemoModel {
    pub open spec fn wf(self) -> bool {
        self.index <= self.steps.len()
    }

    pub open spec fn spec_new(steps: Seq<DemoStep>) -> DemoModel {
        DemoModel { steps, index: 0, wait_remaining: 0, fire_remaining: 0, active: false }
    }

    pub open spec fn default_demo() -> DemoModel {
        DemoModel::spec_new(spec_default_script())
    }

    /// Rewound to the first step and running.
    pub open spec fn started(self) -> DemoModel {
        DemoModel { index: 0, wait_remaining: 0, fire_remaining: 0, active: true, ..self }
    }

    /// Halted, with nothing left to wait for or fire.
    pub open spec fn stopped(self) -> DemoModel {
        DemoModel { active: false, fire_remaining: 0, wait_remaining: 0, ..self }
    }

    /// Log sequence numbers one tick may use up: at most two per remaining
    /// step, plus the closing line.
    pub open spec fn room_needed(self) -> int {
        2 * (self.steps.len() - self.index) + 2
    }

    /// The effect of a step that takes no time: selecting a sentry, changing
    /// the screen or the active sentry's options (arming is logged), or a log
    /// line. Timed steps (waits, bursts, the end) leave the console alone here.
    pub open spec fn instant(step: DemoStep, m: AppModel) -> AppModel {
        let o = m.active().options;
        match step {
            DemoStep::SelectSentry { index } => m.select_sentry(index),
            DemoStep::SetScreen { screen } => m.set_screen(screen),
            DemoStep::SetMode { mode } => m.with_active_options(OptionsState { system_mode: mode, ..o }),
            DemoStep::SetWeapon { status } => {
                let m1 = m.with_active_options(OptionsState { weapon_status: status, ..o });
                match status {
                    WeaponStatus::Armed => m1.push(LogKindView::Armed { sentry: m.active().id }),
                    WeaponStatus::Safe => m1.push(LogKindView::Safe { sentry: m.active().id }),
                }
            },
            DemoStep::SetIff { status } => m.with_active_options(OptionsState { iff_status: status, ..o }),
            DemoStep::SetProfile { profile, spectral, select } => m.with_active_options(
                OptionsState {
                    target_profile: profile,
                    spectral_profile: spectral,
                    target_select: select,
                    ..o
                },
            ),
            DemoStep::Log { message } => m.push(LogKindView::Demo { message: message@ }),
            _ => m,
        }
    }

    /// Runs steps from `index` until one takes time (a wait or a burst) or the
    /// script ends; steps that only change settings or log run at once.
    pub open spec fn run(self, m: AppModel) -> (DemoModel, AppModel, bool)
        decreases self.steps.len() - self.index,
    {
        if self.index >= self.steps.len() {
            (
                DemoModel { active: false, ..self },
                m.push(LogKindView::Demo { message: "SEQUENCE COMPLETE"@ }),
                false,
            )
        } else {
            let d = DemoModel { index: self.index + 1, ..self };
            match self.steps[self.index as int] {
                DemoStep::Wait { ticks } => (
                    DemoModel {
                        wait_remaining: if ticks > 0 {
                            (ticks - 1) as u32
                        } else {
                            0
                        },
                        ..d
                    },
                    m,
                    true,
                ),
                DemoStep::Fire { times } => (
                    DemoModel {
                        fire_remaining: if times > 0 {
                            (times - 1) as u16
                        } else {
                            0
                        },
                        ..d
                    },
                    m.fire().0,
                    true,
                ),
                DemoStep::Done => (
                    DemoModel { active: false, ..d },
                    m.push(LogKindView::Demo { message: "SEQUENCE COMPLETE"@ }),
                    false,
                ),
                step => d.run(Self::instant(step, m)),
            }
        }
    }

    /// One demo tick: nothing when stopped; otherwise a pending wait counts
    /// down, else a pending burst fires one more round, else the script runs
    /// on to its next timed step. Returns whether the demo is still running.
    pub open spec fn tick(self, m: AppModel) -> (DemoModel, AppModel, bool) {
        if !self.active {
            (self, m, false)
        } else if self.wait_remaining > 0 {
            (DemoModel { wait_remaining: (self.wait_remaining - 1) as u32, ..self }, m, true)
        } else if self.fire_remaining > 0 {
            (DemoModel { fire_remaining: (self.fire_remaining - 1) as u16, ..self }, m.fire().0, true)
        } else {
            self.run(m)
        }
    }

    /// How far an active demo is from finishing: steps left, then ticks left
    /// in the current wait or burst.
    pub open spec fn progress(self) -> (int, int) {
        (self.steps.len() - self.index, self.wait_remaining + self.fire_remaining)
    }
}

#[derive(Debug, Clone)]
pub struct DemoPlayer {
    steps: Vec<DemoStep>,
    index: usize,
    wait_remaining: u32,
    fire_remaining: u16,
    active: bool,
}

impl View for DemoPlayer {
    type V = DemoModel;

    closed spec fn view(&self) -> DemoModel {
        DemoModel {
            steps: self.steps@,
            index: self.index as nat,
            wait_remaining: self.wait_remaining,
            fire_remaining: self.fire_remaining,
            active: self.active,
        }
    }
}

impl Default for DemoPlayer {
    fn default() -> (r: Self)
        ensures
            r@ == DemoModel::default_demo(),
    {
        Self::default_demo()
    }
}

/// Performs a step that takes no time on the console.
fn apply_instant_step(state: &mut AppState, step: DemoStep)
    requires
        old(state)@.ready(2),
    ensures
        final(state)@ == DemoModel::instant(step, old(state)@),
        final(state)@.wf(),
{
    match step {
        DemoStep::SelectSentry { index } => {
            state.select_sentry(index);
        },
        DemoStep::SetScreen { screen } => {
            state.set_screen(screen);
        },
        DemoStep::SetMode { mode } => {
            if let Some(s) = state.active_sentry_mut() {
                s.options.system_mode = mode;
            }
        },
        DemoStep::SetWeapon { status } => {
            let id = state.active_sentry().id;
            if let Some(s) = state.active_sentry_mut() {
                s.options.weapon_status = status;
            }
            match status {
                WeaponStatus::Armed => state.log.push(LogKind::Armed { sentry: id }),
                WeaponStatus::Safe => state.log.push(LogKind::Safe { sentry: id }),
            }
        },
        DemoStep::SetIff { status } => {
            if let Some(s) = state.active_sentry_mut() {
                s.options.iff_status = status;
            }
        },
        DemoStep::SetProfile { profile, spectral, select } => {
            if let Some(s) = state.active_sentry_mut() {
                s.options.target_profile = profile;
                s.options.spectral_profile = spectral;
                s.options.target_select = select;
            }
        },
        DemoStep::Log { message } => {
            state.log.push(LogKind::Demo { message: message.to_string() });
        },
        _ => {},
    }
}

impl DemoPlayer {
    pub fn new(steps: Vec<DemoStep>) -> (r: Self)
        ensures
            r@ == DemoModel::spec_new(steps@),
    {
        Self { steps, index: 0, wait_remaining: 0, fire_remaining: 0, active: false }
    }

    pub fn default_demo() -> (r: Self)
        ensures
            r@ == DemoModel::default_demo(),
    {
        Self::new(default_script())
    }

    pub fn is_active(&self) -> (r: bool)
        ensures
            r == self@.active,
    {
        self.active
    }

    pub fn start(&mut self)
        ensures
            final(self)@ == old(self)@.started(),
    {
        self.index = 0;
        self.wait_remaining = 0;
        self.fire_remaining = 0;
        self.active = true;
    }

    pub fn stop(&mut self)
        ensures
            final(self)@ == old(self)@.stopped(),
    {
        self.active = false;
        self.fire_remaining = 0;
        self.wait_remaining = 0;
    }

    /// Log sequence numbers one tick may use up (see `DemoModel::room_needed`).
    pub fn room_needed(&self) -> (r: u128)
        ensures
            self@.index <= self@.steps.len() ==> r == self@.room_needed(),
    {
        let left: usize = if self.index <= self.steps.len() {
            self.steps.len() - self.index
        } else {
            0
        };
        2 * (left as u128) + 2
    }

    /// Advance one tick. Returns true if still running.
    pub fn tick(&mut self, state: &mut AppState) -> (r: bool)
        requires
            old(self)@.wf(),
            old(state)@.ready(old(self)@.room_needed()),
        ensures
            (final(self)@, final(state)@, r) == old(self)@.tick(old(state)@),
            final(self)@.wf(),
            final(state)@.wf(),
    {
        if !self.active {
            return false;
        }
        if self.wait_remaining > 0 {
            self.wait_remaining -= 1;
            return true;
        }
        if self.fire_remaining > 0 {
            state.fire();
            self.fire_remaining -= 1;
            return true;
        }
        let ghost target = old(self)@.run(old(state)@);
        loop
            invariant
                self@.wf(),
                self@.active,
                self@.wait_remaining == 0,
                self@.fire_remaining == 0,
                state@.ready(self@.room_needed()),
                self@.run(state@) == target,
                target == old(self)@.tick(old(state)@),
            decreases self@.steps.len() - self@.index,
        {
            if self.index >= self.steps.len() {
                self.active = false;
                state.log.push(LogKind::Demo { message: "SEQUENCE COMPLETE".to_string() });
                return false;
            }
            let step = self.steps[self.index];
            self.index += 1;
            match step {
                DemoStep::Wait { ticks } => {
                    self.wait_remaining = ticks.saturating_sub(1);
                    return true;
                },
                DemoStep::Fire { times } => {
                    self.fire_remaining = times.saturating_sub(1);
                    state.fire();
                    return true;
                },
                DemoStep::Done => {
                    self.active = false;
                    state.log.push(LogKind::Demo { message: "SEQUENCE COMPLETE".to_string() });
                    return false;
                },
                _ => {
                    apply_instant_step(state, step);
                },
            }
        }
    }
}


/// What a demo step that takes no time does to the console: a SetMode,
/// SetWeapon, SetIff or SetProfile step sets exactly the named options of the
/// active sentry and nothing else of any sentry; SelectSentry makes unit
/// `index` active when there is one; SetScreen shows the named screen.
pub proof fn lemma_instant_step_effects(m: AppModel, step: DemoStep)
    requires
        m.wf(),
    ensures
        ({
            let r = DemoModel::instant(step, m);
            let s = m.active();
            let o = s.options;
            let ro = r.active().options;
            let options_step = step is SetMode || step is SetWeapon || step is SetIff
                || step is SetProfile;
            &&& options_step ==> {
                &&& r.active_index == m.active_index
                &&& r.screen == m.screen
                &&& r.bank.len() == m.bank.len()
                &&& r.active().id == s.id
                &&& r.active().fire == s.fire
                &&& r.active().online == s.online
                &&& r.active().link_ok == s.link_ok
                &&& ro.focus == o.focus
                &&& ro.test_routine == o.test_routine
                &&& forall|i: int|
                    0 <= i < m.bank.len() && i != m.active_index ==> #[trigger] r.bank[i]
                        == m.bank[i]
            }
            &&& step matches DemoStep::SetMode { mode } ==> {
                &&& ro.system_mode == mode
                &&& ro.weapon_status == o.weapon_status
                &&& ro.iff_status == o.iff_status
                &&& ro.target_profile == o.target_profile
                &&& ro.spectral_profile == o.spectral_profile
                &&& ro.target_select == o.target_select
            }
            &&& step matches DemoStep::SetWeapon { status } ==> {
                &&& ro.weapon_status == status
                &&& ro.system_mode == o.system_mode
                &&& ro.iff_status == o.iff_status
                &&& ro.target_profile == o.target_profile
                &&& ro.spectral_profile == o.spectral_profile
                &&& ro.target_select == o.target_select
            }
            &&& step matches DemoStep::SetIff { status } ==> {
                &&& ro.iff_status == status
                &&& ro.system_mode == o.system_mode
                &&& ro.weapon_status == o.weapon_status
                &&& ro.target_profile == o.target_profile
                &&& ro.spectral_profile == o.spectral_profile
                &&& ro.target_select == o.target_select
            }
            &&& step matches DemoStep::SetProfile { profile, spectral, select } ==> {
                &&& ro.target_profile == profile
                &&& ro.spectral_profile == spectral
                &&& ro.target_select == select
                &&& ro.system_mode == o.system_mode
                &&& ro.weapon_status == o.weapon_status
                &&& ro.iff_status == o.iff_status
            }
            &&& step matches DemoStep::SelectSentry { index } ==> {
                &&& r.bank == m.bank
                &&& r.screen == m.screen
                &&& r.active_index == if index < m.bank.len() {
                    index
                } else {
                    m.active_index
                }
            }
            &&& step matches DemoStep::SetScreen { screen } ==> r.screen == screen && r.bank
                == m.bank
        }),
{
}

} // verus!
