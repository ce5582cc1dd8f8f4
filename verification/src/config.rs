//! Runtime configuration for the console.
use vstd::prelude::*;

use crate::fire::DEFAULT_ROUNDS;
use crate::text::{ascii_lower, lower_eq};

verus! {

/// Release version, shown in window titles and the web chrome.
pub const VERSION: &'static str = "0.2.0";

/// On-screen color scheme.
///
/// `Yellow` matches the monochrome yellow of the GRiD screen on the film prop
/// and is the default.
#[derive(Debug, Clone, Copy, PartialEq, Eq, Structural)]
pub enum Theme {
    /// Film / GRiD prop yellow on black (default).
    Yellow,
    /// Classic green phosphor.
    Phosphor,
    /// Warm amber CRT.
    Amber,
    /// White-on-black mono.
    Mono,
}

impl Default for Theme {
    fn default() -> (r: Self)
        ensures
            r == Theme::Yellow,
    {
        Theme::Yellow
    }
}

impl Theme {
    pub const ALL: [Theme; 4] = [Theme::Yellow, Theme::Phosphor, Theme::Amber, Theme::Mono];

    pub open spec fn spec_as_str(self) -> Seq<char> {
        match self {
            Theme::Yellow => "yellow"@,
            Theme::Phosphor => "phosphor"@,
            Theme::Amber => "amber"@,
            Theme::Mono => "mono"@,
        }
    }

    /// Theme names are matched ignoring ASCII case, with a few aliases each.
    pub open spec fn spec_parse(s: Seq<char>) -> Option<Theme> {
        let l = ascii_lower(s);
        if l == "yellow"@ || l == "grid"@ || l == "original"@ || l == "film"@ || l == "prop"@ {
            Some(Theme::Yellow)
        } else if l == "phosphor"@ || l == "green"@ {
            Some(Theme::Phosphor)
        } else if l == "amber"@ || l == "orange"@ {
            Some(Theme::Amber)
        } else if l == "mono"@ || l == "white"@ {
            Some(Theme::Mono)
        } else {
            None
        }
    }

    /// The theme after this one in `ALL`, wrapping back to the first.
    pub open spec fn spec_next(self) -> Theme {
        match self {
            Theme::Yellow => Theme::Phosphor,
            Theme::Phosphor => Theme::Amber,
            Theme::Amber => Theme::Mono,
            Theme::Mono => Theme::Yellow,
        }
    }

    /// Lit-pixel color as `[r, g, b, a]`.
    pub open spec fn spec_on_rgba(self) -> [u8; 4] {
        match self {
            Theme::Yellow => [0xffu8, 0xeeu8, 0x00u8, 0xffu8],
            Theme::Phosphor => [0x50u8, 0xfau8, 0x7bu8, 0xffu8],
            Theme::Amber => [0xffu8, 0xb0u8, 0x00u8, 0xffu8],
            Theme::Mono => [0xe0u8, 0xe0u8, 0xe0u8, 0xffu8],
        }
    }

    pub fn as_str(self) -> (r: &'static str)
        ensures
            r@ == self.spec_as_str(),
    {
        match self {
            Theme::Yellow => "yellow",
            Theme::Phosphor => "phosphor",
            Theme::Amber => "amber",
            Theme::Mono => "mono",
        }
    }

    pub fn parse(s: &str) -> (r: Option<Self>)
        ensures
            r == Self::spec_parse(s@),
    {
        if lower_eq(s, "yellow") || lower_eq(s, "grid") || lower_eq(s, "original") || lower_eq(
            s,
            "film",
        ) || lower_eq(s, "prop") {
            Some(Theme::Yellow)
        } else if lower_eq(s, "phosphor") || lower_eq(s, "green") {
            Some(Theme::Phosphor)
        } else if lower_eq(s, "amber") || lower_eq(s, "orange") {
            Some(Theme::Amber)
        } else if lower_eq(s, "mono") || lower_eq(s, "white") {
            Some(Theme::Mono)
        } else {
            None
        }
    }

    pub fn next(self) -> (r: Self)
        ensures
            r == self.spec_next(),
    {
        let i: usize = match self {
            Theme::Yellow => 0,
            Theme::Phosphor => 1,
            Theme::Amber => 2,
            Theme::Mono => 3,
        };
        Self::ALL[(i + 1) % 4]
    }

    /// Phosphor-on RGB+A for canvas / Web Audio frontends.
    pub fn on_rgba(self) -> (r: [u8; 4])
        ensures
            r == self.spec_on_rgba(),
    {
        match self {
            Theme::Yellow => [0xff, 0xee, 0x00, 0xff],
            Theme::Phosphor => [0x50, 0xfa, 0x7b, 0xff],
            Theme::Amber => [0xff, 0xb0, 0x00, 0xff],
            Theme::Mono => [0xe0, 0xe0, 0xe0, 0xff],
        }
    }

    pub fn off_rgba(self) -> (r: [u8; 4])
        ensures
            r == [0x00u8, 0x00u8, 0x00u8, 0xffu8],
    {
        [0x00, 0x00, 0x00, 0xff]
    }

    /// 0x00RRGGBB for minifb.
    pub fn on_rgb_u32(self) -> (r: u32)
        ensures
            r == self.spec_on_rgba()[0] * 0x10000 + self.spec_on_rgba()[1] * 0x100
                + self.spec_on_rgba()[2],
    {
        let c = self.on_rgba();
        let r = c[0];
        let g = c[1];
        let b = c[2];
        let v = (u32::from(r) << 16) | (u32::from(g) << 8) | u32::from(b);
        assert(v == r * 0x10000 + g * 0x100 + b) by (bit_vector)
            requires
                v == ((r as u32) << 16u32) | ((g as u32) << 8u32) | (b as u32),
        ;
        v
    }

    pub fn off_rgb_u32(self) -> (r: u32)
        ensures
            r == 0,
    {
        0
    }
}

#[derive(Debug, Clone, Copy, PartialEq, Eq, Structural)]
pub struct Config {
    pub theme: Theme,
    /// UI tick rate in milliseconds (blink / demo).
    pub tick_ms: u64,
    pub starting_rounds: u16,
    pub show_boot: bool,
    pub demo_on_start: bool,
    pub log_capacity: usize,
    /// Play fire SFX when a round is expended (frontends may still mute).
    pub sound: bool,
}

impl Default for Config {
    fn default() -> (r: Self)
        ensures
            r == Config::spec_default(),
    {
        Self {
            theme: Theme::Yellow,
            tick_ms: 80,
            starting_rounds: DEFAULT_ROUNDS,
            show_boot: true,
            demo_on_start: false,
            log_capacity: 64,
            sound: false,
        }
    }
}

impl Config {
    /// Yellow, 80 ms ticks, a 500-round drum, POST splash on, no demo, 64 log
    /// lines, and fire SFX muted.
    pub open spec fn spec_default() -> Config {
        Config {
            theme: Theme::Yellow,
            tick_ms: 80,
            starting_rounds: DEFAULT_ROUNDS,
            show_boot: true,
            demo_on_start: false,
            log_capacity: 64,
            sound: false,
        }
    }

    /// Tick clamped to 16..=1000 ms, at least 8 log lines, at most 999 rounds.
    pub open spec fn spec_validate(self) -> Config {
        Config {
            tick_ms: if self.tick_ms < 16 {
                16
            } else if self.tick_ms > 1000 {
                1000
            } else {
                self.tick_ms
            },
            log_capacity: if self.log_capacity < 8 {
                8
            } else {
                self.log_capacity
            },
            starting_rounds: if self.starting_rounds > 999 {
                999
            } else {
                self.starting_rounds
            },
            ..self
        }
    }

    /// The ranges that `validate` establishes.
    pub open spec fn is_valid(self) -> bool {
        &&& 16 <= self.tick_ms <= 1000
        &&& self.log_capacity >= 8
        &&& self.starting_rounds <= 999
    }

    pub fn validate(self) -> (r: Self)
        ensures
            r == self.spec_validate(),
            r.is_valid(),
    {
        let mut c = self;
        c.tick_ms = if c.tick_ms < 16 {
            16
        } else if c.tick_ms > 1000 {
            1000
        } else {
            c.tick_ms
        };
        if c.log_capacity < 8 {
            c.log_capacity = 8;
        }
        if c.starting_rounds > 999 {
            c.starting_rounds = 999;
        }
        c
    }
}

/// CLI overrides for native frontends (TUI / pixel).
///
/// `theme` is `None` unless `-t/--theme` was passed, so a config-file theme is
/// not overwritten by clap's yellow default.
#[derive(Debug, Clone)]
pub struct NativeCli {
    pub theme: Option<String>,
    pub rounds: Option<u16>,
    pub tick_ms: Option<u64>,
    pub no_boot: bool,
    pub demo: bool,
    pub mute: bool,
    /// Explicit config file path (`-c/--config`).
    pub config: Option<String>,
    /// Do not read or write the saved console session.
    pub no_save_session: bool,
}

impl Default for NativeCli {
    fn default() -> (r: Self)
        ensures
            r.theme is None,
            r.rounds is None,
            r.tick_ms is None,
            !r.no_boot,
            !r.demo,
            !r.mute,
            r.config is None,
            !r.no_save_session,
    {
        NativeCli {
            theme: None,
            rounds: None,
            tick_ms: None,
            no_boot: false,
            demo: false,
            mute: false,
            config: None,
            no_save_session: false,
        }
    }
}

impl NativeCli {
    /// No theme flag was passed, or the one passed names a known theme.
    pub open spec fn theme_ok(self) -> bool {
        match self.theme {
            Some(t) => Theme::spec_parse(t@) is Some,
            None => true,
        }
    }

    /// `c` with every flag that was actually passed applied on top.
    pub open spec fn spec_override(self, c: Config) -> Config {
        Config {
            theme: match self.theme {
                Some(t) => match Theme::spec_parse(t@) {
                    Some(th) => th,
                    None => c.theme,
                },
                None => c.theme,
            },
            starting_rounds: match self.rounds {
                Some(r) => r,
                None => c.starting_rounds,
            },
            tick_ms: match self.tick_ms {
                Some(t) => t,
                None => c.tick_ms,
            },
            show_boot: if self.no_boot {
                false
            } else {
                c.show_boot
            },
            demo_on_start: if self.demo {
                true
            } else {
                c.demo_on_start
            },
            sound: if self.mute {
                false
            } else {
                c.sound
            },
            ..c
        }
    }
}

/// Why a native configuration could not be assembled. File errors carry the
/// path and the underlying error's message.
#[derive(Debug, Clone)]
pub enum ConfigLoadError {
    Read { path: String, source: String },
    Parse { path: String, source: String },
    UnknownTheme(String),
}

impl ConfigLoadError {
    pub open spec fn spec_message(self) -> Seq<char> {
        match self {
            ConfigLoadError::Read { path, source } => "failed to read config "@ + path@ + ": "@
                + source@,
            ConfigLoadError::Parse { path, source } => "failed to parse config "@ + path@ + ": "@
                + source@,
            ConfigLoadError::UnknownTheme(t) => "unknown theme '"@ + t@
                + "': use yellow, phosphor, amber, or mono"@,
        }
    }

    /// The operator-facing message.
    pub fn to_string(&self) -> (r: String)
        ensures
            r@ == self.spec_message(),
    {
        let mut s = String::new();
        match self {
            ConfigLoadError::Read { path, source } => {
                s.append("failed to read config ");
                s.append(path.as_str());
                s.append(": ");
                s.append(source.as_str());
            },
            ConfigLoadError::Parse { path, source } => {
                s.append("failed to parse config ");
                s.append(path.as_str());
                s.append(": ");
                s.append(source.as_str());
            },
            ConfigLoadError::UnknownTheme(t) => {
                s.append("unknown theme '");
                s.append(t.as_str());
                s.append("': use yellow, phosphor, amber, or mono");
            },
        }
        assert(s@ =~= self.spec_message());
        s
    }
}

/// Applies the CLI flags that were passed on top of `config`. An unknown
/// theme name is an error and leaves `config` untouched.
pub fn apply_cli_overrides(config: &mut Config, cli: &NativeCli) -> (r: Result<(), ConfigLoadError>)
    ensures
        r is Ok <==> cli.theme_ok(),
        r is Ok ==> *final(config) == cli.spec_override(*old(config)),
        r is Err ==> *final(config) == *old(config),
        match r {
            Err(ConfigLoadError::UnknownTheme(name)) => name@ == cli.theme.unwrap()@,
            Err(_) => false,
            Ok(_) => true,
        },
{
    if let Some(theme) = &cli.theme {
        match Theme::parse(theme.as_str()) {
            Some(t) => config.theme = t,
            None => return Err(ConfigLoadError::UnknownTheme(theme.clone())),
        }
    }
    if let Some(r) = cli.rounds {
        config.starting_rounds = r;
    }
    if let Some(t) = cli.tick_ms {
        config.tick_ms = t;
    }
    if cli.no_boot {
        config.show_boot = false;
    }
    if cli.demo {
        config.demo_on_start = true;
    }
    if cli.mute {
        config.sound = false;
    }
    Ok(())
}

/// Assembles the native configuration from what the config file gave (or the
/// defaults when there is none), the CLI flags, and validation.
pub fn load_native_config(file_config: Config, cli: &NativeCli) -> (r: Result<Config, ConfigLoadError>)
    ensures
        r is Ok <==> cli.theme_ok(),
        match r {
            Ok(c) => c == cli.spec_override(file_config).spec_validate(),
            Err(ConfigLoadError::UnknownTheme(name)) => name@ == cli.theme.unwrap()@,
            Err(_) => false,
        },
{
    let mut config = file_config;
    match apply_cli_overrides(&mut config, cli) {
        Ok(()) => Ok(config.validate()),
        Err(e) => Err(e),
    }
}

/// Validation is idempotent, always lands in range, and leaves an already
/// valid configuration unchanged.
pub proof fn lemma_validate_laws(c: Config)
    ensures
        c.spec_validate().is_valid(),
        c.spec_validate().spec_validate() == c.spec_validate(),
        c.is_valid() ==> c.spec_validate() == c,
        c.spec_validate().theme == c.theme,
        c.spec_validate().show_boot == c.show_boot,
        c.spec_validate().demo_on_start == c.demo_on_start,
        c.spec_validate().sound == c.sound,
{
}

/// Every theme's name parses back to the theme itself.
pub proof fn lemma_parse_as_str(t: Theme)
    ensures
        Theme::spec_parse(t.spec_as_str()) == Some(t),
{
    reveal_strlit("yellow");
    reveal_strlit("phosphor");
    reveal_strlit("amber");
    reveal_strlit("mono");
    reveal_strlit("grid");
    reveal_strlit("original");
    reveal_strlit("film");
    reveal_strlit("prop");
    reveal_strlit("green");
    reveal_strlit("orange");
    reveal_strlit("white");
    let s = t.spec_as_str();
    assert(ascii_lower(s) =~= s);
    match t {
        Theme::Yellow => {},
        Theme::Phosphor => {
            assert(s != "yellow"@);
            assert(s[0] != "grid"@[0]);
            assert(s[0] != "original"@[0]);
            assert(s[0] != "film"@[0]);
            assert(s[1] != "prop"@[1]);
        },
        Theme::Amber => {
            assert(s.len() != "yellow"@.len());
            assert(s[0] != "grid"@[0]);
            assert(s.len() != "original"@.len());
            assert(s.len() != "film"@.len());
            assert(s.len() != "prop"@.len());
            assert(s.len() != "phosphor"@.len());
            assert(s[0] != "green"@[0]);
        },
        Theme::Mono => {
            assert(s.len() != "yellow"@.len());
            assert(s[0] != "grid"@[0]);
            assert(s.len() != "original"@.len());
            assert(s[0] != "film"@[0]);
            assert(s[0] != "prop"@[0]);
            assert(s.len() != "phosphor"@.len());
            assert(s.len() != "green"@.len());
            assert(s.len() != "amber"@.len());
            assert(s.len() != "orange"@.len());
        },
    }
}

/// Four presses of the theme key visit every theme once and come back.
pub proof fn lemma_theme_next_cycles(t: Theme)
    ensures
        t.spec_next().spec_next().spec_next().spec_next() == t,
        t.spec_next() != t,
        t.spec_next().spec_next() != t,
        t.spec_next().spec_next().spec_next() != t,
{
}

} // verus!
