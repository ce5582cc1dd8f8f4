//! The text of the terminal console's panels: sentry bar, section titles and
//! option rows, the firing panel's readouts, the help line and log lines.
use vstd::prelude::*;

use crate::fire::FireTelemetry;
use crate::log::LogKind;
use crate::options::MenuSection;
use crate::sentry::Sentry;
use crate::state::Screen;
use crate::text::{decimal, push_decimal};

verus! {

/// One unit in the sentry bar: ` S<id>:ARMED <rounds>rds ` or `…:SAFE…`.
pub open spec fn spec_sentry_bar_label(s: Sentry) -> Seq<char> {
    " S"@ + decimal(s.id as nat) + ":"@ + (if s.spec_is_armed() {
        "ARMED"@
    } else {
        "SAFE"@
    }) + " "@ + decimal(s.fire.rounds as nat) + "rds "@
}

pub fn sentry_bar_label(s: &Sentry) -> (r: String)
    ensures
        r@ == spec_sentry_bar_label(*s),
{
    let mut t = String::new();
    t.append(" S");
    push_decimal(&mut t, s.id as u64);
    t.append(":");
    t.append(
        if s.is_armed() {
            "ARMED"
        } else {
            "SAFE"
        },
    );
    t.append(" ");
    push_decimal(&mut t, s.fire.rounds as u64);
    t.append("rds ");
    t
}

/// The active unit's mode, IFF status and link after the sentry bar.
pub open spec fn spec_sentry_bar_status(s: Sentry) -> Seq<char> {
    "│ "@ + s.options.system_mode.spec_label() + " │ "@ + s.options.iff_status.spec_label()
        + " │ LINK "@ + (if s.link_ok {
        "OK"@
    } else {
        "DOWN"@
    })
}

pub fn sentry_bar_status(s: &Sentry) -> (r: String)
    ensures
        r@ == spec_sentry_bar_status(*s),
{
    let mut t = String::new();
    t.append("│ ");
    t.append(s.options.system_mode.label());
    t.append(" │ ");
    t.append(s.options.iff_status.label());
    t.append(" │ LINK ");
    t.append(
        if s.link_ok {
            "OK"
        } else {
            "DOWN"
        },
    );
    t
}

/// The key help line: firing keys on the firing panel, navigation elsewhere.
pub fn help_text(screen: Screen) -> (r: &'static str)
    ensures
        r@ == if screen == Screen::Fire {
            "Enter/Space fire  o options  a arm/safe  r reload  1-4 sentry  d demo  t theme  q quit"@
        } else {
            "←→ section  ↑↓ select  f fire panel  a arm/safe  1-4 sentry  d demo  t theme  q quit"@
        },
{
    match screen {
        Screen::Fire => {
            "Enter/Space fire  o options  a arm/safe  r reload  1-4 sentry  d demo  t theme  q quit"
        },
        _ => "←→ section  ↑↓ select  f fire panel  a arm/safe  1-4 sentry  d demo  t theme  q quit",
    }
}

/// A section's title, marked with `▶` when it has the focus.
pub fn section_title(section: MenuSection, focused: bool) -> (r: String)
    ensures
        r@ == if focused {
            "▶ "@ + section.spec_label() + " "@
        } else {
            " "@ + section.spec_label() + " "@
        },
{
    let mut t = String::new();
    if focused {
        t.append("▶ ");
    } else {
        t.append(" ");
    }
    t.append(section.label());
    t.append(" ");
    t
}

/// One option row, the selected one marked with `►`.
pub fn option_line(label: &str, selected: bool) -> (r: String)
    ensures
        r@ == " "@ + (if selected {
            "►"@
        } else {
            " "@
        }) + " "@ + label@ + " "@,
{
    let mut t = String::new();
    t.append(" ");
    t.append(
        if selected {
            "►"
        } else {
            " "
        },
    );
    t.append(" ");
    t.append(label);
    t.append(" ");
    t
}

/// The STATUS box: a blinking CRITICAL while critical, NOMINAL otherwise.
pub fn critical_text(fire: &FireTelemetry) -> (r: &'static str)
    ensures
        r@ == if fire.critical {
            if fire.critical_blink {
                "  CRITICAL  "@
            } else {
                "            "@
            }
        } else {
            "  NOMINAL   "@
        },
{
    if fire.critical {
        if fire.critical_blink {
            "  CRITICAL  "
        } else {
            "            "
        }
    } else {
        "  NOMINAL   "
    }
}

/// Rounds right-aligned in three columns.
pub open spec fn spec_rounds_text(rounds: u16) -> Seq<char> {
    (if rounds < 10 {
        "  "@
    } else if rounds < 100 {
        " "@
    } else {
        Seq::empty()
    }) + decimal(rounds as nat)
}

pub fn rounds_text(rounds: u16) -> (r: String)
    ensures
        r@ == spec_rounds_text(rounds),
{
    let mut t = String::new();
    if rounds < 10 {
        t.append("  ");
    } else if rounds < 100 {
        t.append(" ");
    }
    let ghost pad = t@;
    push_decimal(&mut t, rounds as u64);
    assert(t@ =~= spec_rounds_text(rounds)) by {
        if rounds >= 100 {
            assert(pad =~= Seq::<char>::empty());
        }
    }
    t
}

/// The temperature readout in degrees.
pub fn temperature_label(temperature: u8) -> (r: String)
    ensures
        r@ == decimal(temperature as nat) + "°"@,
{
    let mut t = String::new();
    push_decimal(&mut t, temperature as u64);
    t.append("°");
    assert(t@ =~= decimal(temperature as nat) + "°"@);
    t
}

/// The rate readout in rounds per minute.
pub fn rate_label(rm: u8) -> (r: String)
    ensures
        r@ == decimal(rm as nat) + " rpm"@,
{
    let mut t = String::new();
    push_decimal(&mut t, rm as u64);
    t.append(" rpm");
    assert(t@ =~= decimal(rm as nat) + " rpm"@);
    t
}

/// The temperature gauge turns to the alert colour from 80° up.
pub fn temperature_alert(temperature: u8) -> (r: bool)
    ensures
        r == (temperature >= 80),
{
    temperature >= 80
}

/// One line of the event log panel.
pub fn log_line(kind: &LogKind) -> (r: String)
    ensures
        r@ == "› "@ + kind@.text(),
{
    let mut t = String::new();
    t.append("› ");
    let text = kind.to_string();
    t.append(text.as_str());
    t
}

} // verus!
