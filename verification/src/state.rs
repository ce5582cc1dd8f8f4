//! Top-level application state machine.
use vstd::prelude::*;

use crate::config::Config;
use crate::demo::{DemoModel, DemoPlayer};
use crate::fire::{lemma_tick_cools, lemma_fire_laws, FireTelemetry};
use crate::log::{EventLog, LogKind, LogKindView, LogModel};
use crate::options::{
    IffStatus, MenuSection, OptionsState, SpectralProfile, SystemMode, TargetProfile,
    TargetSelect, TestRoutine, WeaponStatus,
};
use crate::sentry::{Sentry, SentryBank, SENTRY_COUNT};
use crate::text::{decimal, push_decimal};

verus! {

broadcast use crate::sentry::SentryBank::lemma_len;

#[derive(Debug, Clone, Copy, PartialEq, Eq, Structural)]
pub enum Screen {
    Options,
    Fire,
    Boot,
}

impl Default for Screen {
    fn default() -> (r: Self)
        ensures
            r == Screen::Options,
    {
        Screen::Options
    }
}

impl Screen {
    pub open spec fn spec_label(self) -> Seq<char> {
        match self {
            Screen::Options => "OPTIONS"@,
            Screen::Fire => "FIRING PANEL"@,
            Screen::Boot => "BOOT"@,
        }
    }

    pub fn label(self) -> (r: &'static str)
        ensures
            r@ == self.spec_label(),
    {
        match self {
            Screen::Options => "OPTIONS",
            Screen::Fire => "FIRING PANEL",
            Screen::Boot => "BOOT",
        }
    }
}

/// Cap queued fire SFX so a lagging UI does not explode with overlapping bursts.
pub const MAX_PENDING_FIRE_SFX: u32 = 6;

/// Ticks the POST splash lasts.
pub const BOOT_TICKS: u32 = 40;

#[derive(Debug)]
pub struct AppState {
    pub screen: Screen,
    pub active_index: usize,
    pub bank: SentryBank,
    pub log: EventLog,
    pub config: Config,
    pub demo: DemoPlayer,
    pub boot_ticks_remaining: u32,
    pub should_quit: bool,
    /// Fire sound requests for the UI to drain (demo + manual fire).
    pub pending_fire_sfx: u32,
}

/// The console as the rest of the library reasons about it.
pub struct AppModel {
    pub screen: Screen,
    pub active_index: usize,
    pub bank: Seq<Sentry>,
    pub log: LogModel,
    pub config: Config,
    pub demo: DemoModel,
    pub boot_ticks_remaining: u32,
    pub should_quit: bool,
    pub pending_fire_sfx: u32,
}

impl View for AppState {
    type V = AppModel;

    open spec fn view(&self) -> AppModel {
        AppModel {
            screen: self.screen,
            active_index: self.active_index,
            bank: self.bank@,
            log: self.log@,
            config: self.config,
            demo: self.demo@,
            boot_ticks_remaining: self.boot_ticks_remaining,
            should_quit: self.should_quit,
            pending_fire_sfx: self.pending_fire_sfx,
        }
    }
}

pub open spec fn sentry_text(id: u8, suffix: Seq<char>) -> Seq<char> {
    "SENTRY-"@ + decimal(id as nat) + suffix
}

impl AppModel {
    /// The invariant every operation keeps: a valid active sentry, a
    /// well-formed log, in-range animation counters on every drum, and at
    /// most `MAX_PENDING_FIRE_SFX` queued sounds.
    pub open spec fn wf(self) -> bool {
        &&& self.active_index < SENTRY_COUNT
        &&& self.bank.len() == SENTRY_COUNT
        &&& self.log.wf()
        &&& forall|i: int| 0 <= i < SENTRY_COUNT ==> (#[trigger] self.bank[i]).fire.inv()
        &&& self.pending_fire_sfx <= MAX_PENDING_FIRE_SFX
        &&& self.demo.wf()
    }

    /// The invariant plus room for `k` more log sequence numbers.
    pub open spec fn ready(self, k: int) -> bool {
        &&& self.wf()
        &&& self.log.room() >= k
    }

    pub open spec fn active(self) -> Sentry {
        self.bank[self.active_index as int]
    }

    pub open spec fn with_active(self, s: Sentry) -> AppModel {
        AppModel { bank: self.bank.update(self.active_index as int, s), ..self }
    }

    pub open spec fn with_active_options(self, o: OptionsState) -> AppModel {
        self.with_active(Sentry { options: o, ..self.active() })
    }

    pub open spec fn push(self, kind: LogKindView) -> AppModel {
        AppModel { log: self.log.push(kind), ..self }
    }

    pub open spec fn push_info(self, message: Seq<char>) -> AppModel {
        self.push(LogKindView::Info { message })
    }

    pub open spec fn select_sentry(self, index: usize) -> AppModel {
        if index < SENTRY_COUNT && index != self.active_index {
            let m = AppModel { active_index: index, ..self };
            m.push(LogKindView::SentrySelect { id: m.active().id })
        } else {
            self
        }
    }

    /// Index of the first unit carrying `id` at or after `from`.
    pub open spec fn first_with_id(self, id: u8, from: int) -> Option<usize>
        decreases SENTRY_COUNT - from,
    {
        if from < 0 || from >= SENTRY_COUNT {
            None
        } else if self.bank[from].id == id {
            Some(from as usize)
        } else {
            self.first_with_id(id, from + 1)
        }
    }

    pub open spec fn select_sentry_by_id(self, id: u8) -> AppModel {
        match self.first_with_id(id, 0) {
            Some(i) => self.select_sentry(i),
            None => self,
        }
    }

    pub open spec fn set_screen(self, screen: Screen) -> AppModel {
        if self.screen == screen {
            self
        } else {
            let m = AppModel {
                screen,
                boot_ticks_remaining: if self.screen == Screen::Boot && screen != Screen::Boot {
                    0
                } else {
                    self.boot_ticks_remaining
                },
                ..self
            };
            if screen != Screen::Boot {
                m.push(LogKindView::ScreenChange { to: screen.spec_label() })
            } else {
                m
            }
        }
    }

    pub open spec fn start_demo(self) -> AppModel {
        AppModel { demo: DemoModel::default_demo().started(), ..self }.push(
            LogKindView::Demo { message: "AUTO-PLAY ENGAGED"@ },
        )
    }

    pub open spec fn stop_demo(self) -> AppModel {
        if self.demo.active {
            AppModel { demo: self.demo.stopped(), ..self }.push(
                LogKindView::Demo { message: "AUTO-PLAY ABORTED"@ },
            )
        } else {
            self
        }
    }

    pub open spec fn toggle_demo(self) -> AppModel {
        if self.demo.active {
            self.stop_demo()
        } else {
            self.start_demo()
        }
    }

    /// Leaving the POST splash: Options is shown, and the demo starts if it
    /// was asked for at startup.
    pub open spec fn leave_boot(self) -> AppModel {
        let m = AppModel { boot_ticks_remaining: 0, screen: Screen::Options, ..self }.push(
            LogKindView::ScreenChange { to: Screen::Options.spec_label() },
        );
        if self.config.demo_on_start {
            m.start_demo()
        } else {
            m
        }
    }

    pub open spec fn skip_boot(self) -> AppModel {
        if self.screen == Screen::Boot {
            self.leave_boot()
        } else {
            self
        }
    }

    pub open spec fn toggle_fire_panel(self) -> AppModel {
        match self.screen {
            Screen::Options => self.set_screen(Screen::Fire),
            Screen::Fire => self.set_screen(Screen::Options),
            Screen::Boot => self.skip_boot(),
        }
    }

    pub open spec fn quit(self) -> AppModel {
        AppModel { should_quit: true, ..self }
    }

    /// Log lines for each option that differs between `before` and `after`,
    /// in panel order; the weapon switch is logged as ARMED / SAFE for the
    /// active sentry.
    pub open spec fn log_option_delta(self, before: OptionsState, after: OptionsState) -> AppModel {
        let id = self.active().id;
        let m1 = if before.system_mode != after.system_mode {
            self.push(
                LogKindView::OptionChange {
                    section: MenuSection::SystemMode.spec_label(),
                    value: after.system_mode.spec_label(),
                },
            )
        } else {
            self
        };
        let m2 = if before.weapon_status != after.weapon_status {
            match after.weapon_status {
                WeaponStatus::Armed => m1.push(LogKindView::Armed { sentry: id }),
                WeaponStatus::Safe => m1.push(LogKindView::Safe { sentry: id }),
            }
        } else {
            m1
        };
        let m3 = if before.iff_status != after.iff_status {
            m2.push(
                LogKindView::OptionChange {
                    section: MenuSection::IffStatus.spec_label(),
                    value: after.iff_status.spec_label(),
                },
            )
        } else {
            m2
        };
        let m4 = if before.test_routine != after.test_routine {
            m3.push(
                LogKindView::OptionChange {
                    section: MenuSection::TestRoutine.spec_label(),
                    value: after.test_routine.spec_label(),
                },
            )
        } else {
            m3
        };
        let m5 = if before.target_profile != after.target_profile {
            m4.push(
                LogKindView::OptionChange {
                    section: MenuSection::TargetProfile.spec_label(),
                    value: after.target_profile.spec_label(),
                },
            )
        } else {
            m4
        };
        let m6 = if before.spectral_profile != after.spectral_profile {
            m5.push(
                LogKindView::OptionChange {
                    section: MenuSection::SpectralProfile.spec_label(),
                    value: after.spectral_profile.spec_label(),
                },
            )
        } else {
            m5
        };
        if before.target_select != after.target_select {
            m6.push(
                LogKindView::OptionChange {
                    section: MenuSection::TargetSelect.spec_label(),
                    value: after.target_select.spec_label(),
                },
            )
        } else {
            m6
        }
    }

    /// Applies `after` to the active sentry's options and logs what changed.
    pub open spec fn change_options(self, after: OptionsState) -> AppModel {
        self.with_active_options(after).log_option_delta(self.active().options, after)
    }

    pub open spec fn focus_next_section(self) -> AppModel {
        let o = self.active().options;
        self.with_active_options(OptionsState { focus: o.focus.spec_next(), ..o })
    }

    pub open spec fn focus_prev_section(self) -> AppModel {
        let o = self.active().options;
        self.with_active_options(OptionsState { focus: o.focus.spec_prev(), ..o })
    }

    pub open spec fn select_up(self) -> AppModel {
        self.change_options(self.active().options.spec_select_up())
    }

    pub open spec fn select_down(self) -> AppModel {
        self.change_options(self.active().options.spec_select_down())
    }

    pub open spec fn toggle_arm(self) -> AppModel {
        let o = self.active().options;
        let w = match o.weapon_status {
            WeaponStatus::Safe => WeaponStatus::Armed,
            WeaponStatus::Armed => WeaponStatus::Safe,
        };
        self.change_options(OptionsState { weapon_status: w, ..o })
    }

    /// A fire request on the active sentry. An offline unit, a faulted
    /// datalink, or a SAFE weapon refuses with a log line and spends nothing.
    /// Otherwise the drum fires: a spent round is logged (with CRITICAL when
    /// this shot crossed the threshold) and queues a sound when sound is on;
    /// an empty drum is logged as such.
    pub open spec fn fire(self) -> (AppModel, bool) {
        let s = self.active();
        let id = s.id;
        if !s.online {
            (self.push_info(sentry_text(id, " OFFLINE"@)), false)
        } else if !s.link_ok {
            (self.push_info(sentry_text(id, " LINK DOWN"@)), false)
        } else if !s.spec_is_armed() {
            (self.push_info(sentry_text(id, " CANNOT FIRE — SAFE"@)), false)
        } else {
            let (f, fired) = s.fire.spec_fire();
            let m = self.with_active(Sentry { fire: f, ..s });
            if fired {
                let m1 = m.push(
                    LogKindView::Fire {
                        sentry: id,
                        rounds_left: f.rounds,
                        profile: s.options.target_profile.spec_label(),
                        spectral: s.options.spectral_profile.spec_label(),
                    },
                );
                let m2 = if f.critical && !s.fire.critical {
                    m1.push(LogKindView::Critical { sentry: id, rounds: f.rounds })
                } else {
                    m1
                };
                let m3 = if self.config.sound {
                    AppModel {
                        pending_fire_sfx: if m2.pending_fire_sfx + 1 < MAX_PENDING_FIRE_SFX {
                            (m2.pending_fire_sfx + 1) as u32
                        } else {
                            MAX_PENDING_FIRE_SFX
                        },
                        ..m2
                    }
                } else {
                    m2
                };
                (m3, true)
            } else {
                (m.push(LogKindView::Empty { sentry: id }), false)
            }
        }
    }

    pub open spec fn take_fire_sfx(self) -> (AppModel, u32) {
        (AppModel { pending_fire_sfx: 0, ..self }, self.pending_fire_sfx)
    }

    pub open spec fn toggle_sound(self) -> AppModel {
        let sound = !self.config.sound;
        let m = AppModel {
            config: Config { sound, ..self.config },
            pending_fire_sfx: if sound {
                self.pending_fire_sfx
            } else {
                0
            },
            ..self
        };
        m.push_info(
            if sound {
                "AUDIO ONLINE"@
            } else {
                "AUDIO MUTED"@
            },
        )
    }

    pub open spec fn reload(self) -> AppModel {
        let rounds = self.config.starting_rounds;
        let s = self.active();
        self.with_active(Sentry { fire: FireTelemetry::spec_new(rounds), ..s }).push_info(
            sentry_text(s.id, " RELOADED — "@ + decimal(rounds as nat) + " RDS"@),
        )
    }

    /// Every drum advanced by one idle tick: blink, cool-down, spin-down.
    pub open spec fn tick_drums(self) -> AppModel {
        AppModel {
            bank: self.bank.map_values(
                |s: Sentry| Sentry { fire: s.fire.spec_tick(), ..s },
            ),
            ..self
        }
    }

    /// One periodic tick. During POST the countdown runs and the splash ends
    /// when it reaches zero. Otherwise an active demo advances one step, then
    /// every drum ticks: the CRITICAL blink animates, the barrel cools and
    /// R(M) spins down.
    pub open spec fn tick(self) -> AppModel {
        if self.screen == Screen::Boot {
            let left: u32 = if self.boot_ticks_remaining > 0 {
                (self.boot_ticks_remaining - 1) as u32
            } else {
                0
            };
            let m = AppModel { boot_ticks_remaining: left, ..self };
            if left == 0 {
                m.leave_boot()
            } else {
                m
            }
        } else {
            let m = if self.demo.active {
                let (d, after, _) = self.demo.tick(self);
                AppModel { demo: d, ..after }
            } else {
                self
            };
            m.tick_drums()
        }
    }
}

impl AppState {
    /// A fresh console: validated config, one BOOT log line, four full units,
    /// sentry 1 active, and either the POST splash or (without it) Options —
    /// with the demo already running when asked for and there is no splash.
    pub open spec fn spec_new(config: Config) -> AppModel {
        let c = config.spec_validate();
        let log = LogModel {
            entries: Seq::empty(),
            capacity: c.log_capacity as nat,
            next_seq: 0,
        }.push(LogKindView::Boot);
        let m = AppModel {
            screen: if c.show_boot {
                Screen::Boot
            } else {
                Screen::Options
            },
            active_index: 0,
            bank: SentryBank::spec_new(c.starting_rounds),
            log,
            config: c,
            demo: DemoModel::default_demo(),
            boot_ticks_remaining: if c.show_boot {
                BOOT_TICKS
            } else {
                0
            },
            should_quit: false,
            pending_fire_sfx: 0,
        };
        if c.demo_on_start && !c.show_boot {
            m.start_demo()
        } else {
            m
        }
    }

    pub fn new(config: Config) -> (r: Self)
        ensures
            r@ == Self::spec_new(config),
            r@.wf(),
    {
        let config = config.validate();
        let mut log = EventLog::new(config.log_capacity);
        log.push(LogKind::Boot);
        let boot_ticks: u32 = if config.show_boot {
            BOOT_TICKS
        } else {
            0
        };
        let screen = if config.show_boot {
            Screen::Boot
        } else {
            Screen::Options
        };
        let mut state = Self {
            screen,
            active_index: 0,
            bank: SentryBank::new(config.starting_rounds),
            log,
            config,
            demo: DemoPlayer::default_demo(),
            boot_ticks_remaining: boot_ticks,
            should_quit: false,
            pending_fire_sfx: 0,
        };
        if state.config.demo_on_start && !state.config.show_boot {
            state.start_demo();
        }
        state
    }

    pub fn active_sentry(&self) -> (r: &Sentry)
        requires
            self@.wf(),
        ensures
            *r == self@.active(),
    {
        self.bank.get(self.active_index).unwrap()
    }

    pub fn active_sentry_mut(&mut self) -> (r: Option<&mut Sentry>)
        ensures
            old(self)@.active_index < SENTRY_COUNT ==> (r matches Some(s) && *s == old(self)@.active()
                && final(self)@ == old(self)@.with_active(*final(s))),
            old(self)@.active_index >= SENTRY_COUNT ==> r is None && final(self)@ == old(self)@,
    {
        self.bank.get_mut(self.active_index)
    }

    pub fn select_sentry(&mut self, index: usize)
        requires
            old(self)@.ready(1),
        ensures
            final(self)@ == old(self)@.select_sentry(index),
            final(self)@.wf(),
    {
        if index < SENTRY_COUNT && index != self.active_index {
            self.active_index = index;
            let id = self.active_sentry().id;
            self.log.push(LogKind::SentrySelect { id });
        }
    }

    pub fn select_sentry_by_id(&mut self, id: u8)
        requires
            old(self)@.ready(1),
        ensures
            final(self)@ == old(self)@.select_sentry_by_id(id),
            final(self)@.wf(),
    {
        let mut i: usize = 0;
        while i < SENTRY_COUNT
            invariant
                i <= SENTRY_COUNT,
                old(self)@.ready(1),
                self@ == old(self)@,
                self@.first_with_id(id, 0) == self@.first_with_id(id, i as int),
            decreases SENTRY_COUNT - i,
        {
            if self.bank.get(i).unwrap().id == id {
                self.select_sentry(i);
                return;
            }
            i = i + 1;
        }
    }

    pub fn set_screen(&mut self, screen: Screen)
        requires
            old(self)@.ready(1),
        ensures
            final(self)@ == old(self)@.set_screen(screen),
            final(self)@.wf(),
    {
        if self.screen == screen {
            return;
        }
        // Leaving boot only via tick/skip.
        if self.screen == Screen::Boot && screen != Screen::Boot {
            self.boot_ticks_remaining = 0;
        }
        self.screen = screen;
        if screen != Screen::Boot {
            self.log.push(LogKind::ScreenChange { to: screen.label().to_string() });
        }
    }

    pub fn toggle_fire_panel(&mut self)
        requires
            old(self)@.ready(2),
        ensures
            final(self)@ == old(self)@.toggle_fire_panel(),
            final(self)@.wf(),
    {
        match self.screen {
            Screen::Options => self.set_screen(Screen::Fire),
            Screen::Fire => self.set_screen(Screen::Options),
            Screen::Boot => self.skip_boot(),
        }
    }

    pub fn skip_boot(&mut self)
        requires
            old(self)@.ready(2),
        ensures
            final(self)@ == old(self)@.skip_boot(),
            final(self)@.wf(),
    {
        if self.screen == Screen::Boot {
            self.leave_boot();
        }
    }

    fn leave_boot(&mut self)
        requires
            old(self)@.ready(2),
        ensures
            final(self)@ == old(self)@.leave_boot(),
            final(self)@.wf(),
    {
        self.boot_ticks_remaining = 0;
        self.screen = Screen::Options;
        self.log.push(LogKind::ScreenChange { to: Screen::Options.label().to_string() });
        if self.config.demo_on_start {
            self.start_demo();
        }
    }

    pub fn quit(&mut self)
        ensures
            final(self)@ == old(self)@.quit(),
    {
        self.should_quit = true;
    }

    // --- Options navigation (active sentry) ---
    pub fn focus_next_section(&mut self)
        requires
            old(self)@.wf(),
        ensures
            final(self)@ == old(self)@.focus_next_section(),
            final(self)@.wf(),
    {
        if let Some(s) = self.active_sentry_mut() {
            s.options.focus_next_section();
        }
    }

    pub fn focus_prev_section(&mut self)
        requires
            old(self)@.wf(),
        ensures
            final(self)@ == old(self)@.focus_prev_section(),
            final(self)@.wf(),
    {
        if let Some(s) = self.active_sentry_mut() {
            s.options.focus_prev_section();
        }
    }

    pub fn select_up(&mut self)
        requires
            old(self)@.ready(7),
        ensures
            final(self)@ == old(self)@.select_up(),
            final(self)@.wf(),
    {
        let before = self.active_sentry().options;
        if let Some(s) = self.active_sentry_mut() {
            s.options.select_up();
        }
        let after = self.active_sentry().options;
        self.log_option_delta(before, after);
    }

    pub fn select_down(&mut self)
        requires
            old(self)@.ready(7),
        ensures
            final(self)@ == old(self)@.select_down(),
            final(self)@.wf(),
    {
        let before = self.active_sentry().options;
        if let Some(s) = self.active_sentry_mut() {
            s.options.select_down();
        }
        let after = self.active_sentry().options;
        self.log_option_delta(before, after);
    }

    /// Toggle SAFE / ARMED on the active sentry and log via `log_option_delta`.
    pub fn toggle_arm(&mut self)
        requires
            old(self)@.ready(7),
        ensures
            final(self)@ == old(self)@.toggle_arm(),
            final(self)@.wf(),
    {
        let before = self.active_sentry().options;
        if let Some(s) = self.active_sentry_mut() {
            s.options.weapon_status = match s.options.weapon_status {
                WeaponStatus::Safe => WeaponStatus::Armed,
                WeaponStatus::Armed => WeaponStatus::Safe,
            };
        }
        let after = self.active_sentry().options;
        self.log_option_delta(before, after);
    }

    fn push_option_change(&mut self, section: MenuSection, value: &str)
        requires
            old(self)@.ready(1),
        ensures
            final(self)@ == old(self)@.push(
                LogKindView::OptionChange { section: section.spec_label(), value: value@ },
            ),
            final(self)@.wf(),
    {
        self.log.push(
            LogKind::OptionChange {
                section: section.label().to_string(),
                value: value.to_string(),
            },
        );
    }

    fn log_option_delta(&mut self, before: OptionsState, after: OptionsState)
        requires
            old(self)@.ready(7),
        ensures
            final(self)@ == old(self)@.log_option_delta(before, after),
            final(self)@.wf(),
    {
        let ghost m0 = self@;
        if before.system_mode != after.system_mode {
            self.push_option_change(MenuSection::SystemMode, after.system_mode.label());
        }
        let ghost m1 = self@;
        if before.weapon_status != after.weapon_status {
            let id = self.active_sentry().id;
            match after.weapon_status {
                WeaponStatus::Armed => self.log.push(LogKind::Armed { sentry: id }),
                WeaponStatus::Safe => self.log.push(LogKind::Safe { sentry: id }),
            }
        }
        if before.iff_status != after.iff_status {
            self.push_option_change(MenuSection::IffStatus, after.iff_status.label());
        }
        if before.test_routine != after.test_routine {
            self.push_option_change(MenuSection::TestRoutine, after.test_routine.label());
        }
        if before.target_profile != after.target_profile {
            self.push_option_change(MenuSection::TargetProfile, after.target_profile.label());
        }
        if before.spectral_profile != after.spectral_profile {
            self.push_option_change(MenuSection::SpectralProfile, after.spectral_profile.label());
        }
        if before.target_select != after.target_select {
            self.push_option_change(MenuSection::TargetSelect, after.target_select.label());
        }
    }

    fn push_sentry_info(&mut self, id: u8, suffix: &str)
        requires
            old(self)@.ready(1),
        ensures
            final(self)@ == old(self)@.push_info(sentry_text(id, suffix@)),
            final(self)@.wf(),
    {
        let mut msg = String::new();
        msg.append("SENTRY-");
        push_decimal(&mut msg, id as u64);
        msg.append(suffix);
        assert(msg@ =~= sentry_text(id, suffix@));
        self.log.push_info(msg.as_str());
    }

    // --- Fire ---
    /// Fire the active sentry if armed, online and linked.
    pub fn fire(&mut self) -> (r: bool)
        requires
            old(self)@.ready(2),
        ensures
            (final(self)@, r) == old(self)@.fire(),
            final(self)@.wf(),
    {
        let id = self.active_sentry().id;
        let armed = self.active_sentry().is_armed();
        let online = self.active_sentry().online;
        let link_ok = self.active_sentry().link_ok;
        let profile = self.active_sentry().options.target_profile;
        let spectral = self.active_sentry().options.spectral_profile;
        let was_critical = self.active_sentry().fire.critical;

        if !online {
            self.push_sentry_info(id, " OFFLINE");
            return false;
        }
        if !link_ok {
            self.push_sentry_info(id, " LINK DOWN");
            return false;
        }
        if !armed {
            self.push_sentry_info(id, " CANNOT FIRE — SAFE");
            return false;
        }

        let fired = {
            let s = self.active_sentry_mut().unwrap();
            s.fire.fire()
        };

        let rounds = self.active_sentry().fire.rounds;
        let critical = self.active_sentry().fire.critical;

        if fired {
            self.log.push(
                LogKind::Fire {
                    sentry: id,
                    rounds_left: rounds,
                    profile: profile.label().to_string(),
                    spectral: spectral.label().to_string(),
                },
            );
            if critical && !was_critical {
                self.log.push(LogKind::Critical { sentry: id, rounds });
            }
            if self.config.sound {
                let raised = self.pending_fire_sfx + 1;
                self.pending_fire_sfx = if raised < MAX_PENDING_FIRE_SFX {
                    raised
                } else {
                    MAX_PENDING_FIRE_SFX
                };
            }
        } else {
            self.log.push(LogKind::Empty { sentry: id });
        }
        fired
    }

    /// Drain queued fire SFX counts for the audio frontend (0 if muted/none).
    pub fn take_fire_sfx(&mut self) -> (r: u32)
        ensures
            (final(self)@, r) == old(self)@.take_fire_sfx(),
            old(self)@.wf() ==> final(self)@.wf(),
    {
        let n = self.pending_fire_sfx;
        self.pending_fire_sfx = 0;
        n
    }

    /// Toggle sound on/off (clears any queued SFX when muting).
    pub fn toggle_sound(&mut self)
        requires
            old(self)@.ready(1),
        ensures
            final(self)@ == old(self)@.toggle_sound(),
            final(self)@.wf(),
    {
        self.config.sound = !self.config.sound;
        if !self.config.sound {
            self.pending_fire_sfx = 0;
        }
        self.log.push_info(
            if self.config.sound {
                "AUDIO ONLINE"
            } else {
                "AUDIO MUTED"
            },
        );
    }

    /// Reload active sentry drum to configured starting rounds.
    pub fn reload(&mut self)
        requires
            old(self)@.ready(1),
        ensures
            final(self)@ == old(self)@.reload(),
            final(self)@.wf(),
    {
        let rounds = self.config.starting_rounds;
        if let Some(s) = self.active_sentry_mut() {
            let id = s.id;
            s.fire.reset(rounds);
            let mut msg = String::new();
            msg.append("SENTRY-");
            push_decimal(&mut msg, id as u64);
            msg.append(" RELOADED — ");
            push_decimal(&mut msg, rounds as u64);
            msg.append(" RDS");
            assert(msg@ =~= sentry_text(id, " RELOADED — "@ + decimal(rounds as nat) + " RDS"@));
            self.log.push_info(msg.as_str());
        }
    }

    // --- Demo ---
    pub fn start_demo(&mut self)
        requires
            old(self)@.ready(1),
        ensures
            final(self)@ == old(self)@.start_demo(),
            final(self)@.wf(),
    {
        self.demo = DemoPlayer::default_demo();
        self.demo.start();
        self.log.push(LogKind::Demo { message: "AUTO-PLAY ENGAGED".to_string() });
    }

    pub fn stop_demo(&mut self)
        requires
            old(self)@.ready(1),
        ensures
            final(self)@ == old(self)@.stop_demo(),
            final(self)@.wf(),
    {
        if self.demo.is_active() {
            self.demo.stop();
            self.log.push(LogKind::Demo { message: "AUTO-PLAY ABORTED".to_string() });
        }
    }

    pub fn toggle_demo(&mut self)
        requires
            old(self)@.ready(1),
        ensures
            final(self)@ == old(self)@.toggle_demo(),
            final(self)@.wf(),
    {
        if self.demo.is_active() {
            self.stop_demo();
        } else {
            self.start_demo();
        }
    }

    // --- Tick ---
    /// Periodic tick: boot countdown, demo, CRITICAL blink, barrel cool-down /
    /// R(M) decay.
    pub fn tick(&mut self)
        requires
            old(self)@.ready(old(self)@.demo.room_needed() + 2),
        ensures
            final(self)@ == old(self)@.tick(),
            final(self)@.wf(),
    {
        if self.screen == Screen::Boot {
            if self.boot_ticks_remaining > 0 {
                self.boot_ticks_remaining -= 1;
            }
            if self.boot_ticks_remaining == 0 {
                self.leave_boot();
            }
            return;
        }

        if self.demo.is_active() {
            // Avoid double-borrow of `self` and `self.demo`.
            let ghost before = self@;
            let mut demo = DemoPlayer::new(Vec::new());
            std::mem::swap(&mut demo, &mut self.demo);
            proof {
                lemma_demo_tick_frame(before.demo, before, self@.demo);
            }
            demo.tick(self);
            std::mem::swap(&mut demo, &mut self.demo);
        }

        let ghost start = self@;
        let mut i: usize = 0;
        assert(start.bank =~= Seq::new(
            SENTRY_COUNT as nat,
            |j: int|
                if j < 0 {
                    Sentry { fire: start.bank[j].fire.spec_tick(), ..start.bank[j] }
                } else {
                    start.bank[j]
                },
        ));
        while i < SENTRY_COUNT
            invariant
                i <= SENTRY_COUNT,
                start.wf(),
                self@ == (AppModel {
                    bank: Seq::new(
                        SENTRY_COUNT as nat,
                        |j: int|
                            if j < i {
                                Sentry { fire: start.bank[j].fire.spec_tick(), ..start.bank[j] }
                            } else {
                                start.bank[j]
                            },
                    ),
                    ..start
                }),
            decreases SENTRY_COUNT - i,
        {
            // Heat/R(M) rise on fire(); cool and spin down while idle.
            if let Some(s) = self.bank.get_mut(i) {
                s.fire.tick();
            }
            i = i + 1;
            assert(self@.bank =~= Seq::new(
                SENTRY_COUNT as nat,
                |j: int|
                    if j < i {
                        Sentry { fire: start.bank[j].fire.spec_tick(), ..start.bank[j] }
                    } else {
                        start.bank[j]
                    },
            ));
        }
        assert(self@.bank =~= start.tick_drums().bank);
    }

    pub fn options(&self) -> (r: &OptionsState)
        requires
            self@.wf(),
        ensures
            *r == self@.active().options,
    {
        &self.active_sentry().options
    }

    pub fn fire_telemetry(&self) -> (r: &FireTelemetry)
        requires
            self@.wf(),
        ensures
            *r == self@.active().fire,
    {
        &self.active_sentry().fire
    }
}


/// A fire request spends a round exactly when the active sentry is online,
/// linked, armed and has rounds left; then exactly one round leaves its drum.
/// A refused request never touches any drum's round count, and no other
/// sentry is affected either way. The queued-sound count never exceeds its cap.
pub proof fn lemma_fire_outcome(m: AppModel)
    requires
        m.ready(2),
    ensures
        m.fire().1 == (m.active().online && m.active().link_ok && m.active().spec_is_armed()
            && m.active().fire.rounds > 0),
        m.fire().1 ==> m.fire().0.active().fire.rounds == m.active().fire.rounds - 1,
        !m.fire().1 ==> m.fire().0.active().fire.rounds == m.active().fire.rounds,
        forall|j: int|
            0 <= j < SENTRY_COUNT && j != m.active_index ==> #[trigger] m.fire().0.bank[j]
                == m.bank[j],
        m.fire().0.active_index == m.active_index,
        m.fire().0.pending_fire_sfx <= MAX_PENDING_FIRE_SFX,
        m.fire().0.wf(),
{
    lemma_fire_laws(m.active().fire);
}

/// Draining the queued fire sounds twice in a row yields nothing the second
/// time.
pub proof fn lemma_take_fire_sfx_drains(m: AppModel)
    ensures
        m.take_fire_sfx().0.take_fire_sfx().1 == 0,
        m.take_fire_sfx().0.pending_fire_sfx == 0,
{
}

/// Toggling SAFE / ARMED twice restores every sentry's options.
pub proof fn lemma_toggle_arm_twice(m: AppModel)
    requires
        m.wf(),
    ensures
        m.toggle_arm().toggle_arm().bank == m.bank,
        m.toggle_arm().active().spec_is_armed() == !m.active().spec_is_armed(),
{
    assert(m.toggle_arm().toggle_arm().bank =~= m.bank);
}

/// Muting clears the sound queue, and toggling twice restores the preference
/// without ever changing it otherwise.
pub proof fn lemma_toggle_sound(m: AppModel)
    ensures
        m.toggle_sound().config.sound == !m.config.sound,
        !m.toggle_sound().config.sound ==> m.toggle_sound().pending_fire_sfx == 0,
        m.toggle_sound().toggle_sound().config == m.config,
{
}

/// Selecting a sentry out of range changes nothing; in range it becomes the
/// active one.
pub proof fn lemma_select_sentry(m: AppModel, index: usize)
    ensures
        index >= SENTRY_COUNT ==> m.select_sentry(index) == m,
        index < SENTRY_COUNT ==> m.select_sentry(index).active_index == index,
        m.select_sentry(index).bank == m.bank,
{
}

/// Asking for the screen already shown changes nothing (in particular, logs
/// nothing); asking twice is the same as asking once.
pub proof fn lemma_set_screen_idempotent(m: AppModel, screen: Screen)
    ensures
        m.screen == screen ==> m.set_screen(screen) == m,
        m.set_screen(screen).screen == screen,
        m.set_screen(screen).set_screen(screen) == m.set_screen(screen),
{
}

/// From Options, the fire-panel toggle shows the firing panel, and a second
/// toggle returns to Options.
pub proof fn lemma_toggle_fire_panel_twice(m: AppModel)
    requires
        m.screen == Screen::Options,
    ensures
        m.toggle_fire_panel().screen == Screen::Fire,
        m.toggle_fire_panel().toggle_fire_panel().screen == Screen::Options,
{
}

/// Reloading gives the active sentry a fresh drum of the configured size.
pub proof fn lemma_reload(m: AppModel)
    requires
        m.wf(),
    ensures
        m.reload().active().fire == FireTelemetry::spec_new(m.config.starting_rounds),
        m.reload().active().fire.rounds == m.config.starting_rounds,
{
}

/// The console after `n` ticks.
pub open spec fn tick_times(m: AppModel, n: nat) -> AppModel
    decreases n,
{
    if n == 0 {
        m
    } else {
        tick_times(m.tick(), (n - 1) as nat)
    }
}

/// During POST the splash stays up while the countdown runs, and after
/// exactly as many ticks as remained the console shows Options.
pub proof fn lemma_boot_countdown(m: AppModel, n: nat)
    requires
        m.screen == Screen::Boot,
        m.boot_ticks_remaining == n,
        n >= 1,
    ensures
        tick_times(m, n).screen == Screen::Options,
        tick_times(m, n).boot_ticks_remaining == 0,
        forall|k: nat| k < n ==> (#[trigger] tick_times(m, k)).screen == Screen::Boot,
    decreases n,
{
    if n == 1 {
        assert(tick_times(m.tick(), 0) == m.tick());
        assert forall|k: nat| k < n implies (#[trigger] tick_times(m, k)).screen == Screen::Boot by {
            assert(k == 0);
        }
    } else {
        let m1 = m.tick();
        assert(m1.screen == Screen::Boot && m1.boot_ticks_remaining == n - 1);
        lemma_boot_countdown(m1, (n - 1) as nat);
        assert forall|k: nat| k < n implies (#[trigger] tick_times(m, k)).screen == Screen::Boot by {
            if k > 0 {
                assert(tick_times(m, k) == tick_times(m1, (k - 1) as nat));
            }
        }
    }
}

/// Past the POST splash with no demo running, a tick keeps the console valid,
/// leaves the screen, the demo and every drum's round count alone, never heats
/// a barrel or speeds up a rate, and lowers each temperature and R(M) by one
/// while it is above zero.
pub proof fn lemma_idle_tick_cools(m: AppModel)
    requires
        m.wf(),
        m.screen != Screen::Boot,
        !m.demo.active,
    ensures
        m.tick().wf(),
        m.tick().screen == m.screen,
        m.tick().demo == m.demo,
        forall|i: int|
            0 <= i < SENTRY_COUNT ==> {
                let before = m.bank[i].fire;
                let after = (#[trigger] m.tick().bank[i]).fire;
                &&& after.rounds == before.rounds
                &&& after.temperature <= before.temperature
                &&& after.rm <= before.rm
                &&& before.temperature > 0 ==> after.temperature == before.temperature - 1
                &&& before.rm > 0 ==> after.rm == before.rm - 1
                &&& before.temperature == 0 ==> after.temperature == 0
                &&& before.rm == 0 ==> after.rm == 0
            },
{
    assert forall|i: int| 0 <= i < SENTRY_COUNT implies (#[trigger] m.tick().bank[i]).fire.inv() by {
        lemma_tick_cools(m.bank[i].fire);
    }
}

/// Left idle (past the splash, no demo), every barrel cools and every rate
/// spins down one step per tick until it reaches zero, while no round is
/// spent: after `n` ticks each temperature and R(M) is its old value less
/// `n`, or zero.
pub proof fn lemma_idle_ticks_cool_down(m: AppModel, n: nat)
    requires
        m.wf(),
        m.screen != Screen::Boot,
        !m.demo.active,
    ensures
        tick_times(m, n).wf(),
        tick_times(m, n).screen == m.screen,
        forall|i: int|
            0 <= i < SENTRY_COUNT ==> {
                let before = m.bank[i].fire;
                let after = (#[trigger] tick_times(m, n).bank[i]).fire;
                &&& after.rounds == before.rounds
                &&& after.temperature == if before.temperature >= n {
                    before.temperature - n
                } else {
                    0
                }
                &&& after.rm == if before.rm >= n {
                    before.rm - n
                } else {
                    0
                }
            },
    decreases n,
{
    if n > 0 {
        lemma_idle_tick_cools(m);
        let m1 = m.tick();
        lemma_idle_ticks_cool_down(m1, (n - 1) as nat);
        assert(tick_times(m, n) == tick_times(m1, (n - 1) as nat));
        assert forall|i: int| 0 <= i < SENTRY_COUNT implies {
            let before = m.bank[i].fire;
            let after = (#[trigger] tick_times(m, n).bank[i]).fire;
            &&& after.rounds == before.rounds
            &&& after.temperature == if before.temperature >= n {
                before.temperature - n
            } else {
                0
            }
            &&& after.rm == if before.rm >= n {
                before.rm - n
            } else {
                0
            }
        } by {
            assert(m1.bank[i] == m1.bank[i]);
            assert(tick_times(m1, (n - 1) as nat).bank[i] == tick_times(m1, (n - 1) as nat).bank[i]);
        }
    }
}

/// Running the script either stops the demo or moves it past at least one
/// step, and the demo player never changes its script.
proof fn lemma_run_progress(d: DemoModel, m: AppModel)
    requires
        d.wf(),
    ensures
        !d.run(m).0.active || d.run(m).0.index > d.index,
        d.run(m).0.steps == d.steps,
        d.run(m).0.wf(),
        d.run(m).2 == d.run(m).0.active || !d.active,
    decreases d.steps.len() - d.index,
{
    if d.index < d.steps.len() {
        let d1 = DemoModel { index: d.index + 1, ..d };
        let step = d.steps[d.index as int];
        lemma_run_progress(d1, DemoModel::instant(step, m));
    }
}

/// Every tick of a running demo either ends it or strictly decreases its
/// progress measure (steps left, then ticks left in the current wait or
/// burst), so a running demo always completes; the tick reports whether the
/// demo is still running.
pub proof fn lemma_demo_tick_progress(d: DemoModel, m: AppModel)
    requires
        d.wf(),
        d.active,
    ensures
        d.tick(m).2 == d.tick(m).0.active,
        d.tick(m).0.wf(),
        d.tick(m).0.steps == d.steps,
        !d.tick(m).0.active || d.tick(m).0.progress().0 < d.progress().0 || (
        d.tick(m).0.progress().0 == d.progress().0 && d.tick(m).0.progress().1 < d.progress().1),
{
    lemma_run_progress(d, m);
}

/// A demo tick never looks at, nor changes, the console's own demo player:
/// running it on a console whose player was swapped out gives the same result.
#[verifier::rlimit(30)]
proof fn lemma_demo_run_frame(d: DemoModel, m: AppModel, x: DemoModel)
    ensures
        d.run(AppModel { demo: x, ..m }) == (
            d.run(m).0,
            AppModel { demo: x, ..d.run(m).1 },
            d.run(m).2,
        ),
    decreases d.steps.len() - d.index,
{
    if d.index < d.steps.len() {
        let d1 = DemoModel { index: d.index + 1, ..d };
        let step = d.steps[d.index as int];
        assert(DemoModel::instant(step, AppModel { demo: x, ..m }) == AppModel {
            demo: x,
            ..DemoModel::instant(step, m)
        });
        lemma_demo_run_frame(d1, DemoModel::instant(step, m), x);
    }
}

proof fn lemma_demo_tick_frame(d: DemoModel, m: AppModel, x: DemoModel)
    ensures
        d.tick(AppModel { demo: x, ..m }) == (
            d.tick(m).0,
            AppModel { demo: x, ..d.tick(m).1 },
            d.tick(m).2,
        ),
{
    lemma_demo_run_frame(d, m, x);
}

} // verus!
