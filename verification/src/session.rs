//! Saved console session for the native frontends.
//!
//! The console remembers how it was left — theme, sound, and weapon / IFF /
//! system mode — in one small file under the platform config dir, written on a
//! clean exit, separate from the config file the operator hand-writes. Saved
//! state never rewrites their config.
//!
//! Precedence: **CLI flag → saved session → config file → built-in defaults.**
use vstd::prelude::*;

use crate::config::{apply_cli_overrides, lemma_parse_as_str, Config, ConfigLoadError, NativeCli, Theme};
use crate::options::{lemma_wire_name_roundtrip, IffStatus, OptionsState, SystemMode, WeaponStatus};
use crate::sentry::{Sentry, SENTRY_COUNT};
use crate::state::{AppModel, AppState};
use crate::text::str_eq;

verus! {

broadcast use crate::sentry::SentryBank::lemma_len;

/// What a console remembers between runs. Deliberately small: look and switch
/// positions, never simulation state (rounds, damage, demo progress).
///
/// Every field is optional because a field the session does not carry must fall
/// through to the config file rather than stamping a default over it.
#[derive(Debug, Clone, Copy, PartialEq, Eq, Structural)]
pub struct SessionPrefs {
    pub theme: Option<Theme>,
    pub sound: Option<bool>,
    pub system_mode: Option<SystemMode>,
    pub weapon_status: Option<WeaponStatus>,
    pub iff_status: Option<IffStatus>,
}

impl Default for SessionPrefs {
    fn default() -> (r: Self)
        ensures
            r == SessionPrefs::spec_empty(),
    {
        SessionPrefs {
            theme: None,
            sound: None,
            system_mode: None,
            weapon_status: None,
            iff_status: None,
        }
    }
}

/// A top-level TOML value as far as a saved session reads it.
#[derive(Debug, Clone)]
pub enum TomlScalar {
    Str(String),
    Bool(bool),
    Other,
}

pub enum TomlScalarView {
    Str(Seq<char>),
    Bool(bool),
    Other,
}

impl View for TomlScalar {
    type V = TomlScalarView;

    open spec fn view(&self) -> TomlScalarView {
        match self {
            TomlScalar::Str(s) => TomlScalarView::Str(s@),
            TomlScalar::Bool(b) => TomlScalarView::Bool(*b),
            TomlScalar::Other => TomlScalarView::Other,
        }
    }
}

pub open spec fn entries_view(es: Seq<(String, TomlScalar)>) -> Seq<(Seq<char>, TomlScalarView)> {
    es.map_values(|e: (String, TomlScalar)| (e.0@, e.1@))
}

/// The top-level key/value pairs of `text` read as a TOML document, or `None`
/// when it is not valid TOML.
pub uninterp spec fn toml_table(text: Seq<char>) -> Option<Seq<(Seq<char>, TomlScalarView)>>;

/// Wraps `toml::from_str::<toml::Value>` followed by `Value::as_table`: the
/// document's top-level entries in the table's key order, each value reduced
/// to a string, a boolean, or anything else. The result is named by
/// `toml_table` and depends on the text alone; nothing more is claimed about
/// TOML parsing (in particular not how a given text parses).
#[verifier::external_body]
fn parse_toml_table(text: &str) -> (r: Option<Vec<(String, TomlScalar)>>)
    ensures
        match r {
            Some(es) => toml_table(text@) == Some(entries_view(es@)),
            None => toml_table(text@) is None,
        },
{
    let value: toml::Value = toml::from_str(text).ok()?;
    let table = value.as_table()?;
    Some(table.iter().map(|(k, v)| (k.clone(), match v {
        toml::Value::String(s) => TomlScalar::Str(s.clone()),
        toml::Value::Boolean(b) => TomlScalar::Bool(*b),
        toml::Value::Integer(_) | toml::Value::Float(_) => TomlScalar::Other,
        toml::Value::Datetime(_) | toml::Value::Array(_) | toml::Value::Table(_) => TomlScalar::Other,
    })).collect())
}

/// The first value stored under `key`.
pub open spec fn lookup(es: Seq<(Seq<char>, TomlScalarView)>, key: Seq<char>) -> Option<
    TomlScalarView,
>
    decreases es.len(),
{
    if es.len() == 0 {
        None
    } else if es[0].0 == key {
        Some(es[0].1)
    } else {
        lookup(es.drop_first(), key)
    }
}

pub open spec fn lookup_str(es: Seq<(Seq<char>, TomlScalarView)>, key: Seq<char>) -> Option<Seq<char>> {
    match lookup(es, key) {
        Some(TomlScalarView::Str(s)) => Some(s),
        _ => None,
    }
}

pub open spec fn bool_text(b: bool) -> Seq<char> {
    if b {
        "true"@
    } else {
        "false"@
    }
}

/// `prefix` (the key, ` = ` and an opening quote), the value, and a closing
/// quote ending the line.
pub open spec fn quoted_line(prefix: Seq<char>, value: Seq<char>) -> Seq<char> {
    prefix + value + "\"\n"@
}

impl SessionPrefs {
    pub open spec fn spec_empty() -> SessionPrefs {
        SessionPrefs {
            theme: None,
            sound: None,
            system_mode: None,
            weapon_status: None,
            iff_status: None,
        }
    }

    /// A header comment, then one line per field that is present: the theme
    /// name, the sound flag, and the three switch positions by saved name.
    pub open spec fn spec_to_toml(self) -> Seq<char> {
        "# Written by ua571 on exit. Hand edits belong in config.toml.\n"@ + self.theme_line()
            + self.sound_line() + self.system_mode_line() + self.weapon_status_line()
            + self.iff_status_line()
    }

    pub open spec fn theme_line(self) -> Seq<char> {
        match self.theme {
            Some(t) => quoted_line("theme = \""@, t.spec_as_str()),
            None => Seq::empty(),
        }
    }

    pub open spec fn sound_line(self) -> Seq<char> {
        match self.sound {
            Some(b) => "sound = "@ + bool_text(b) + "\n"@,
            None => Seq::empty(),
        }
    }

    pub open spec fn system_mode_line(self) -> Seq<char> {
        match self.system_mode {
            Some(m) => quoted_line("system_mode = \""@, m.spec_wire_name()),
            None => Seq::empty(),
        }
    }

    pub open spec fn weapon_status_line(self) -> Seq<char> {
        match self.weapon_status {
            Some(w) => quoted_line("weapon_status = \""@, w.spec_wire_name()),
            None => Seq::empty(),
        }
    }

    pub open spec fn iff_status_line(self) -> Seq<char> {
        match self.iff_status {
            Some(i) => quoted_line("iff_status = \""@, i.spec_wire_name()),
            None => Seq::empty(),
        }
    }

    /// Field by field: a theme is kept only when its name is known; sound only
    /// when it is a boolean; a switch position whenever it is a string (unknown
    /// names fall back to that switch's default).
    pub open spec fn spec_from_entries(es: Seq<(Seq<char>, TomlScalarView)>) -> SessionPrefs {
        SessionPrefs {
            theme: match lookup_str(es, "theme"@) {
                Some(s) => Theme::spec_parse(s),
                None => None,
            },
            sound: match lookup(es, "sound"@) {
                Some(TomlScalarView::Bool(b)) => Some(b),
                _ => None,
            },
            system_mode: match lookup_str(es, "system_mode"@) {
                Some(s) => Some(SystemMode::spec_parse_wire_name(s)),
                None => None,
            },
            weapon_status: match lookup_str(es, "weapon_status"@) {
                Some(s) => Some(WeaponStatus::spec_parse_wire_name(s)),
                None => None,
            },
            iff_status: match lookup_str(es, "iff_status"@) {
                Some(s) => Some(IffStatus::spec_parse_wire_name(s)),
                None => None,
            },
        }
    }

    /// Serializes to TOML by hand: the wire names have to match what the web
    /// frontend stores.
    pub fn to_toml(&self) -> (r: String)
        ensures
            r@ == self.spec_to_toml(),
    {
        let mut out = String::new();
        out.append("# Written by ua571 on exit. Hand edits belong in config.toml.\n");
        let ghost header = out@;
        if let Some(theme) = self.theme {
            push_quoted_line(&mut out, "theme = \"", theme.as_str());
        }
        let ghost after_theme = out@;
        if let Some(sound) = self.sound {
            out.append("sound = ");
            out.append(
                if sound {
                    "true"
                } else {
                    "false"
                },
            );
            out.append("\n");
            assert(out@ =~= after_theme + self.sound_line());
        }
        if let Some(mode) = self.system_mode {
            push_quoted_line(&mut out, "system_mode = \"", mode.wire_name());
        }
        if let Some(weapon) = self.weapon_status {
            push_quoted_line(&mut out, "weapon_status = \"", weapon.wire_name());
        }
        if let Some(iff) = self.iff_status {
            push_quoted_line(&mut out, "iff_status = \"", iff.wire_name());
        }
        assert(out@ =~= header + self.theme_line() + self.sound_line() + self.system_mode_line()
            + self.weapon_status_line() + self.iff_status_line());
        out
    }

    /// Reads the session fields out of a parsed TOML table.
    pub fn from_entries(es: &Vec<(String, TomlScalar)>) -> (r: Self)
        ensures
            r == Self::spec_from_entries(entries_view(es@)),
    {
        let theme = match find_entry(es, "theme") {
            Some(TomlScalar::Str(s)) => Theme::parse(s.as_str()),
            _ => None,
        };
        let sound = match find_entry(es, "sound") {
            Some(TomlScalar::Bool(b)) => Some(*b),
            _ => None,
        };
        let system_mode = match find_entry(es, "system_mode") {
            Some(TomlScalar::Str(s)) => Some(SystemMode::parse_wire_name(s.as_str())),
            _ => None,
        };
        let weapon_status = match find_entry(es, "weapon_status") {
            Some(TomlScalar::Str(s)) => Some(WeaponStatus::parse_wire_name(s.as_str())),
            _ => None,
        };
        let iff_status = match find_entry(es, "iff_status") {
            Some(TomlScalar::Str(s)) => Some(IffStatus::parse_wire_name(s.as_str())),
            _ => None,
        };
        Self { theme, sound, system_mode, weapon_status, iff_status }
    }

    /// Parses a saved session. Any field that is missing, misspelled, or the
    /// wrong type falls back to its default — a partially-broken file degrades
    /// field by field instead of taking the console down with it. Text that is
    /// not TOML reads as no session.
    pub fn from_toml(text: &str) -> (r: Option<Self>)
        ensures
            r == match toml_table(text@) {
                Some(es) => Some(Self::spec_from_entries(es)),
                None => None,
            },
    {
        match parse_toml_table(text) {
            Some(es) => Some(Self::from_entries(&es)),
            None => None,
        }
    }
}

/// Appends `prefix`, `value` and a closing quote with the line's end.
fn push_quoted_line(out: &mut String, prefix: &str, value: &str)
    ensures
        final(out)@ == old(out)@ + quoted_line(prefix@, value@),
{
    out.append(prefix);
    out.append(value);
    out.append("\"\n");
    assert(out@ =~= old(out)@ + quoted_line(prefix@, value@));
}

/// The value stored under `key` in the first entry that carries it.
fn find_entry<'a>(es: &'a Vec<(String, TomlScalar)>, key: &str) -> (r: Option<&'a TomlScalar>)
    ensures
        match r {
            Some(v) => lookup(entries_view(es@), key@) == Some(v@),
            None => lookup(entries_view(es@), key@) is None,
        },
{
    let mut i: usize = 0;
    assert(entries_view(es@).skip(0) =~= entries_view(es@));
    while i < es.len()
        invariant
            i <= es@.len(),
            lookup(entries_view(es@), key@) == lookup(entries_view(es@).skip(i as int), key@),
        decreases es@.len() - i,
    {
        let ghost rest = entries_view(es@).skip(i as int);
        assert(rest.drop_first() =~= entries_view(es@).skip(i + 1));
        assert(rest[0] == (es@[i as int].0@, es@[i as int].1@));
        if str_eq(es[i].0.as_str(), key) {
            return Some(&es[i].1);
        }
        i = i + 1;
    }
    None
}

/// What the native frontend found where the saved session lives.
#[derive(Debug, Clone, Copy)]
pub enum SessionFile {
    /// No file there: silent.
    Missing,
    /// A file that could not be read or parsed: ignored with a notice.
    Unreadable,
    /// A session that was read.
    Loaded(SessionPrefs),
}

/// Everything a native frontend needs at startup: the resolved config, the
/// Options-panel positions to restore, where to write on exit, and one line to
/// say what happened.
#[derive(Debug, Clone)]
pub struct NativeStartup {
    pub config: Config,
    pub system_mode: Option<SystemMode>,
    pub weapon_status: Option<WeaponStatus>,
    pub iff_status: Option<IffStatus>,
    /// `None` when saving is disabled (`--no-save-session`) or no config dir exists.
    pub session_path: Option<String>,
    /// Status-line / log line, in the voice of the existing theme-cycle logging.
    pub notice: Option<String>,
}

/// The config file's settings with the saved session's theme and sound on top.
pub open spec fn with_session(config: Config, session: Option<SessionPrefs>) -> Config {
    match session {
        Some(p) => Config {
            theme: match p.theme {
                Some(t) => t,
                None => config.theme,
            },
            sound: match p.sound {
                Some(b) => b,
                None => config.sound,
            },
            ..config
        },
        None => config,
    }
}

/// The precedence chain itself, free of the filesystem so each rung is testable:
/// config file (already loaded) → saved session → CLI flags → clamp.
pub fn compose_config(config: Config, session: Option<&SessionPrefs>, cli: &NativeCli) -> (r:
    Result<Config, ConfigLoadError>)
    ensures
        r is Ok <==> cli.theme_ok(),
        match r {
            Ok(c) => c == cli.spec_override(
                with_session(
                    config,
                    match session {
                        Some(p) => Some(*p),
                        None => None,
                    },
                ),
            ).spec_validate(),
            Err(ConfigLoadError::UnknownTheme(name)) => name@ == cli.theme.unwrap()@,
            Err(_) => false,
        },
{
    let mut config = config;
    if let Some(prefs) = session {
        if let Some(theme) = prefs.theme {
            config.theme = theme;
        }
        if let Some(sound) = prefs.sound {
            config.sound = sound;
        }
    }
    // The CLI always wins, and only for flags actually passed.
    match apply_cli_overrides(&mut config, cli) {
        Ok(()) => Ok(config.validate()),
        Err(e) => Err(e),
    }
}

/// Where the session is kept this run: nowhere when saving is disabled,
/// otherwise the platform location (if the platform has one).
pub fn session_path_for(cli: &NativeCli, default_path: Option<String>) -> (r: Option<String>)
    ensures
        cli.no_save_session ==> r is None,
        !cli.no_save_session ==> r == default_path,
{
    if cli.no_save_session {
        None
    } else {
        default_path
    }
}

/// The session taken into account: only one that was read from the path in use.
pub open spec fn session_used(session_path: Option<String>, found: SessionFile) -> Option<SessionPrefs> {
    match (session_path, found) {
        (Some(_), SessionFile::Loaded(p)) => Some(p),
        _ => None,
    }
}

/// Resolves startup state with the full precedence chain:
/// **CLI flag → saved session → config file → built-in defaults.**
///
/// `session_path` comes from [`session_path_for`] and `found` is what the
/// frontend found there. A missing session file is silent; an unreadable or
/// unparsable one is ignored with a notice, never a failed boot.
pub fn load_native_startup(
    cli: &NativeCli,
    file_config: Config,
    session_path: Option<String>,
    found: SessionFile,
) -> (r: Result<NativeStartup, ConfigLoadError>)
    ensures
        r is Ok <==> cli.theme_ok(),
        match r {
            Ok(st) => {
                let used = session_used(session_path, found);
                &&& st.config == cli.spec_override(with_session(file_config, used)).spec_validate()
                &&& st.system_mode == match used {
                    Some(p) => p.system_mode,
                    None => None,
                }
                &&& st.weapon_status == match used {
                    Some(p) => p.weapon_status,
                    None => None,
                }
                &&& st.iff_status == match used {
                    Some(p) => p.iff_status,
                    None => None,
                }
                &&& st.session_path == session_path
                &&& match (session_path, found) {
                    (Some(path), SessionFile::Loaded(_)) => st.notice matches Some(n) && n@
                        == "SESSION RESTORED FROM "@ + path@,
                    (Some(path), SessionFile::Unreadable) => st.notice matches Some(n) && n@
                        == "SESSION FILE IGNORED (UNREADABLE): "@ + path@,
                    _ => st.notice is None,
                }
            },
            Err(ConfigLoadError::UnknownTheme(name)) => name@ == cli.theme.unwrap()@,
            Err(_) => false,
        },
{
    let (session, notice): (Option<SessionPrefs>, Option<String>) = match &session_path {
        Some(path) => match found {
            SessionFile::Loaded(prefs) => {
                let mut note = String::new();
                note.append("SESSION RESTORED FROM ");
                note.append(path.as_str());
                (Some(prefs), Some(note))
            },
            SessionFile::Unreadable => {
                let mut note = String::new();
                note.append("SESSION FILE IGNORED (UNREADABLE): ");
                note.append(path.as_str());
                (None, Some(note))
            },
            SessionFile::Missing => (None, None),
        },
        None => (None, None),
    };
    let config = match &session {
        Some(p) => compose_config(file_config, Some(p), cli),
        None => compose_config(file_config, None, cli),
    };
    let config = match config {
        Ok(c) => c,
        Err(e) => return Err(e),
    };
    let (system_mode, weapon_status, iff_status) = match session {
        Some(p) => (p.system_mode, p.weapon_status, p.iff_status),
        None => (None, None, None),
    };
    Ok(NativeStartup { config, system_mode, weapon_status, iff_status, session_path, notice })
}

impl NativeStartup {
    /// Every sentry's options with the restored switch positions applied.
    pub open spec fn restored(self, o: OptionsState) -> OptionsState {
        OptionsState {
            system_mode: match self.system_mode {
                Some(m) => m,
                None => o.system_mode,
            },
            weapon_status: match self.weapon_status {
                Some(w) => w,
                None => o.weapon_status,
            },
            iff_status: match self.iff_status {
                Some(i) => i,
                None => o.iff_status,
            },
            ..o
        }
    }

    pub open spec fn spec_apply(self, m: AppModel) -> AppModel {
        let m1 = AppModel {
            bank: m.bank.map_values(|s: Sentry| Sentry { options: self.restored(s.options), ..s }),
            ..m
        };
        match self.notice {
            Some(n) => m1.push_info(n@),
            None => m1,
        }
    }

    /// Applies the restored Options-panel positions to every sentry and logs the
    /// notice once.
    pub fn apply(&self, state: &mut AppState)
        requires
            old(state)@.ready(1),
        ensures
            final(state)@ == self.spec_apply(old(state)@),
            final(state)@.wf(),
    {
        let ghost start = state@;
        let mut i: usize = 0;
        assert(start.bank =~= Seq::new(
            SENTRY_COUNT as nat,
            |j: int|
                if j < 0 {
                    Sentry { options: self.restored(start.bank[j].options), ..start.bank[j] }
                } else {
                    start.bank[j]
                },
        ));
        while i < SENTRY_COUNT
            invariant
                i <= SENTRY_COUNT,
                start.ready(1),
                state@ == (AppModel {
                    bank: Seq::new(
                        SENTRY_COUNT as nat,
                        |j: int|
                            if j < i {
                                Sentry {
                                    options: self.restored(start.bank[j].options),
                                    ..start.bank[j]
                                }
                            } else {
                                start.bank[j]
                            },
                    ),
                    ..start
                }),
            decreases SENTRY_COUNT - i,
        {
            if let Some(sentry) = state.bank.get_mut(i) {
                if let Some(mode) = self.system_mode {
                    sentry.options.system_mode = mode;
                }
                if let Some(weapon) = self.weapon_status {
                    sentry.options.weapon_status = weapon;
                }
                if let Some(iff) = self.iff_status {
                    sentry.options.iff_status = iff;
                }
            }
            i = i + 1;
            assert(state@.bank =~= Seq::new(
                SENTRY_COUNT as nat,
                |j: int|
                    if j < i {
                        Sentry { options: self.restored(start.bank[j].options), ..start.bank[j] }
                    } else {
                        start.bank[j]
                    },
            ));
        }
        assert(state@.bank =~= start.bank.map_values(
            |s: Sentry| Sentry { options: self.restored(s.options), ..s },
        ));
        if let Some(notice) = &self.notice {
            state.log.push_info(notice.as_str());
        }
    }

    /// What to write on a clean exit: nothing when saving is off, otherwise the
    /// current theme and sound and the active sentry's switch positions.
    pub fn exit_prefs(&self, state: &AppState) -> (r: Option<SessionPrefs>)
        requires
            state@.wf(),
        ensures
            self.session_path is None ==> r is None,
            self.session_path is Some ==> r == Some(
                SessionPrefs {
                    theme: Some(state.config.theme),
                    sound: Some(state.config.sound),
                    system_mode: Some(state@.active().options.system_mode),
                    weapon_status: Some(state@.active().options.weapon_status),
                    iff_status: Some(state@.active().options.iff_status),
                },
            ),
    {
        if self.session_path.is_none() {
            return None;
        }
        let options = state.active_sentry().options;
        Some(
            SessionPrefs {
                theme: Some(state.config.theme),
                sound: Some(state.config.sound),
                system_mode: Some(options.system_mode),
                weapon_status: Some(options.weapon_status),
                iff_status: Some(options.iff_status),
            },
        )
    }
}

/// The CLI beats the saved session, which beats the config file: a passed
/// theme or mute flag always wins; otherwise a saved theme or sound wins;
/// otherwise the file's value stands. Validation clamps the result either way.
pub proof fn lemma_precedence(config: Config, session: SessionPrefs, cli: NativeCli)
    requires
        cli.theme_ok(),
    ensures
        ({
            let c = cli.spec_override(with_session(config, Some(session))).spec_validate();
            &&& c.theme == match cli.theme {
                Some(t) => Theme::spec_parse(t@).unwrap(),
                None => match session.theme {
                    Some(st) => st,
                    None => config.theme,
                },
            }
            &&& c.sound == if cli.mute {
                false
            } else {
                match session.sound {
                    Some(b) => b,
                    None => config.sound,
                }
            }
            &&& c.is_valid()
        }),
{
}

/// The entries a present field writes: one key/value pair, or none.
pub open spec fn field_entry(key: Seq<char>, value: Option<TomlScalarView>) -> Seq<
    (Seq<char>, TomlScalarView),
> {
    match value {
        Some(v) => seq![(key, v)],
        None => Seq::empty(),
    }
}

impl SessionPrefs {
    /// The table the saved text writes down: one key per present field, in
    /// writing order, the theme by name, sound as a boolean, and the switch
    /// positions by saved name.
    pub open spec fn spec_table(self) -> Seq<(Seq<char>, TomlScalarView)> {
        field_entry(
            "theme"@,
            match self.theme {
                Some(t) => Some(TomlScalarView::Str(t.spec_as_str())),
                None => None,
            },
        ) + field_entry(
            "sound"@,
            match self.sound {
                Some(b) => Some(TomlScalarView::Bool(b)),
                None => None,
            },
        ) + field_entry(
            "system_mode"@,
            match self.system_mode {
                Some(m) => Some(TomlScalarView::Str(m.spec_wire_name())),
                None => None,
            },
        ) + field_entry(
            "weapon_status"@,
            match self.weapon_status {
                Some(w) => Some(TomlScalarView::Str(w.spec_wire_name())),
                None => None,
            },
        ) + field_entry(
            "iff_status"@,
            match self.iff_status {
                Some(i) => Some(TomlScalarView::Str(i.spec_wire_name())),
                None => None,
            },
        )
    }
}

/// Looking a key up in two tables placed one after the other.
proof fn lemma_lookup_concat(
    a: Seq<(Seq<char>, TomlScalarView)>,
    b: Seq<(Seq<char>, TomlScalarView)>,
    key: Seq<char>,
)
    ensures
        lookup(a + b, key) == match lookup(a, key) {
            Some(v) => Some(v),
            None => lookup(b, key),
        },
    decreases a.len(),
{
    if a.len() > 0 {
        assert((a + b).drop_first() =~= a.drop_first() + b);
        lemma_lookup_concat(a.drop_first(), b, key);
    } else {
        assert(a + b =~= b);
    }
}

/// A present field answers its own key and no other.
proof fn lemma_lookup_field(key: Seq<char>, value: Option<TomlScalarView>, k: Seq<char>)
    ensures
        lookup(field_entry(key, value), k) == if k == key {
            value
        } else {
            None
        },
{
    let e = field_entry(key, value);
    if let Some(v) = value {
        assert(e[0] == (key, v));
        assert(e.drop_first() =~= Seq::<(Seq<char>, TomlScalarView)>::empty());
        assert(lookup(e.drop_first(), k) is None);
    } else {
        assert(e.len() == 0);
    }
}

/// In the whole table, a key is answered by its field.
proof fn lemma_lookup_table(p: SessionPrefs, k: Seq<char>)
    ensures
        lookup(p.spec_table(), k) == if k == "theme"@ {
            match p.theme {
                Some(t) => Some(TomlScalarView::Str(t.spec_as_str())),
                None => None,
            }
        } else if k == "sound"@ {
            match p.sound {
                Some(b) => Some(TomlScalarView::Bool(b)),
                None => None,
            }
        } else if k == "system_mode"@ {
            match p.system_mode {
                Some(m) => Some(TomlScalarView::Str(m.spec_wire_name())),
                None => None,
            }
        } else if k == "weapon_status"@ {
            match p.weapon_status {
                Some(w) => Some(TomlScalarView::Str(w.spec_wire_name())),
                None => None,
            }
        } else if k == "iff_status"@ {
            match p.iff_status {
                Some(i) => Some(TomlScalarView::Str(i.spec_wire_name())),
                None => None,
            }
        } else {
            None
        },
{
    let v1 = match p.theme {
        Some(t) => Some(TomlScalarView::Str(t.spec_as_str())),
        None => None,
    };
    let v2 = match p.sound {
        Some(b) => Some(TomlScalarView::Bool(b)),
        None => None,
    };
    let v3 = match p.system_mode {
        Some(m) => Some(TomlScalarView::Str(m.spec_wire_name())),
        None => None,
    };
    let v4 = match p.weapon_status {
        Some(w) => Some(TomlScalarView::Str(w.spec_wire_name())),
        None => None,
    };
    let v5 = match p.iff_status {
        Some(i) => Some(TomlScalarView::Str(i.spec_wire_name())),
        None => None,
    };
    let e1 = field_entry("theme"@, v1);
    let e2 = field_entry("sound"@, v2);
    let e3 = field_entry("system_mode"@, v3);
    let e4 = field_entry("weapon_status"@, v4);
    let e5 = field_entry("iff_status"@, v5);
    assert(p.spec_table() == e1 + e2 + e3 + e4 + e5);
    lemma_lookup_concat(e1 + e2 + e3 + e4, e5, k);
    lemma_lookup_concat(e1 + e2 + e3, e4, k);
    lemma_lookup_concat(e1 + e2, e3, k);
    lemma_lookup_concat(e1, e2, k);
    lemma_lookup_field("theme"@, v1, k);
    lemma_lookup_field("sound"@, v2, k);
    lemma_lookup_field("system_mode"@, v3, k);
    lemma_lookup_field("weapon_status"@, v4, k);
    lemma_lookup_field("iff_status"@, v5, k);
    lemma_keys_distinct();
}

/// The five session keys are different strings.
proof fn lemma_keys_distinct()
    ensures
        "theme"@ != "sound"@,
        "theme"@ != "system_mode"@,
        "theme"@ != "weapon_status"@,
        "theme"@ != "iff_status"@,
        "sound"@ != "system_mode"@,
        "sound"@ != "weapon_status"@,
        "sound"@ != "iff_status"@,
        "system_mode"@ != "weapon_status"@,
        "system_mode"@ != "iff_status"@,
        "weapon_status"@ != "iff_status"@,
{
    reveal_strlit("theme");
    reveal_strlit("sound");
    reveal_strlit("system_mode");
    reveal_strlit("weapon_status");
    reveal_strlit("iff_status");
    assert("theme"@[0] != "sound"@[0]);
    assert("theme"@.len() != "system_mode"@.len());
    assert("theme"@.len() != "weapon_status"@.len());
    assert("theme"@.len() != "iff_status"@.len());
    assert("sound"@.len() != "system_mode"@.len());
    assert("sound"@.len() != "weapon_status"@.len());
    assert("sound"@.len() != "iff_status"@.len());
    assert("system_mode"@.len() != "weapon_status"@.len());
    assert("system_mode"@.len() != "iff_status"@.len());
    assert("weapon_status"@.len() != "iff_status"@.len());
}

/// What a session writes is what it reads back: the table its text writes
/// down (see `spec_table`) reads as the same preferences, field by field.
pub proof fn lemma_table_round_trip(p: SessionPrefs)
    ensures
        SessionPrefs::spec_from_entries(p.spec_table()) == p,
{
    lemma_wire_name_roundtrip();
    if let Some(t) = p.theme {
        lemma_parse_as_str(t);
    }
    lemma_lookup_table(p, "theme"@);
    lemma_lookup_table(p, "sound"@);
    lemma_lookup_table(p, "system_mode"@);
    lemma_lookup_table(p, "weapon_status"@);
    lemma_lookup_table(p, "iff_status"@);
    lemma_keys_distinct();
}

} // verus!
