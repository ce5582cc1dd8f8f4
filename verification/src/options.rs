//! Configuration options matching the UA 571-C options panel sections.
use vstd::prelude::*;

use crate::text::str_eq;

verus! {

/// Which options-panel section currently has focus.
#[derive(Debug, Clone, Copy, PartialEq, Eq, Hash, Structural)]
pub enum MenuSection {
    SystemMode,
    WeaponStatus,
    IffStatus,
    TestRoutine,
    TargetProfile,
    SpectralProfile,
    TargetSelect,
}

impl Default for MenuSection {
    fn default() -> (r: Self)
        ensures
            r == MenuSection::SystemMode,
    {
        MenuSection::SystemMode
    }
}

impl MenuSection {
    pub const ALL: [MenuSection; 7] = [
        MenuSection::SystemMode,
        MenuSection::WeaponStatus,
        MenuSection::IffStatus,
        MenuSection::TestRoutine,
        MenuSection::TargetProfile,
        MenuSection::SpectralProfile,
        MenuSection::TargetSelect,
    ];

    /// Position of the section on the panel: the top row left to right, then the bottom row.
    pub open spec fn spec_index(self) -> int {
        match self {
            MenuSection::SystemMode => 0,
            MenuSection::WeaponStatus => 1,
            MenuSection::IffStatus => 2,
            MenuSection::TestRoutine => 3,
            MenuSection::TargetProfile => 4,
            MenuSection::SpectralProfile => 5,
            MenuSection::TargetSelect => 6,
        }
    }

    pub open spec fn spec_from_index(i: int) -> Option<Self> {
        if i == 0 {
            Some(MenuSection::SystemMode)
        } else if i == 1 {
            Some(MenuSection::WeaponStatus)
        } else if i == 2 {
            Some(MenuSection::IffStatus)
        } else if i == 3 {
            Some(MenuSection::TestRoutine)
        } else if i == 4 {
            Some(MenuSection::TargetProfile)
        } else if i == 5 {
            Some(MenuSection::SpectralProfile)
        } else if i == 6 {
            Some(MenuSection::TargetSelect)
        } else {
            None
        }
    }

    pub open spec fn spec_label(self) -> Seq<char> {
        match self {
            MenuSection::SystemMode => "SYSTEM MODE"@,
            MenuSection::WeaponStatus => "WEAPON STATUS"@,
            MenuSection::IffStatus => "IFF STATUS"@,
            MenuSection::TestRoutine => "TEST ROUTINE"@,
            MenuSection::TargetProfile => "TARGET PROFILE"@,
            MenuSection::SpectralProfile => "SPECTRAL PROFILE"@,
            MenuSection::TargetSelect => "TARGET SELECT"@,
        }
    }

    pub open spec fn spec_short_label(self) -> Seq<char> {
        match self {
            MenuSection::SystemMode => "SYSTEM"@,
            MenuSection::WeaponStatus => "WEAPON"@,
            MenuSection::IffStatus => "IFF"@,
            MenuSection::TestRoutine => "TEST"@,
            MenuSection::TargetProfile => "TARGET"@,
            MenuSection::SpectralProfile => "SPECTRAL"@,
            MenuSection::TargetSelect => "SELECT"@,
        }
    }

    /// The section to the right, wrapping from the last back to the first.
    pub open spec fn spec_next(self) -> Self {
        Self::spec_from_index((self.spec_index() + 1) % 7).unwrap()
    }

    /// The section to the left, wrapping from the first to the last.
    pub open spec fn spec_prev(self) -> Self {
        if self.spec_index() == 0 {
            Self::spec_from_index(6).unwrap()
        } else {
            Self::spec_from_index(self.spec_index() - 1).unwrap()
        }
    }

    /// How many options the section offers.
    pub open spec fn spec_option_count(self) -> int {
        match self {
            MenuSection::SystemMode => SystemMode::spec_count(),
            MenuSection::WeaponStatus => WeaponStatus::spec_count(),
            MenuSection::IffStatus => IffStatus::spec_count(),
            MenuSection::TestRoutine => TestRoutine::spec_count(),
            MenuSection::TargetProfile => TargetProfile::spec_count(),
            MenuSection::SpectralProfile => SpectralProfile::spec_count(),
            MenuSection::TargetSelect => TargetSelect::spec_count(),
        }
    }

    pub fn index(self) -> (r: usize)
        ensures
            r == self.spec_index(),
    {
        match self {
            MenuSection::SystemMode => 0,
            MenuSection::WeaponStatus => 1,
            MenuSection::IffStatus => 2,
            MenuSection::TestRoutine => 3,
            MenuSection::TargetProfile => 4,
            MenuSection::SpectralProfile => 5,
            MenuSection::TargetSelect => 6,
        }
    }

    pub fn from_index(i: usize) -> (r: Option<Self>)
        ensures
            r == Self::spec_from_index(i as int),
    {
        if i < 7 {
            Some(Self::ALL[i])
        } else {
            None
        }
    }

    pub fn label(self) -> (r: &'static str)
        ensures
            r@ == self.spec_label(),
    {
        match self {
            MenuSection::SystemMode => "SYSTEM MODE",
            MenuSection::WeaponStatus => "WEAPON STATUS",
            MenuSection::IffStatus => "IFF STATUS",
            MenuSection::TestRoutine => "TEST ROUTINE",
            MenuSection::TargetProfile => "TARGET PROFILE",
            MenuSection::SpectralProfile => "SPECTRAL PROFILE",
            MenuSection::TargetSelect => "TARGET SELECT",
        }
    }

    pub fn short_label(self) -> (r: &'static str)
        ensures
            r@ == self.spec_short_label(),
    {
        match self {
            MenuSection::SystemMode => "SYSTEM",
            MenuSection::WeaponStatus => "WEAPON",
            MenuSection::IffStatus => "IFF",
            MenuSection::TestRoutine => "TEST",
            MenuSection::TargetProfile => "TARGET",
            MenuSection::SpectralProfile => "SPECTRAL",
            MenuSection::TargetSelect => "SELECT",
        }
    }

    pub fn next(self) -> (r: Self)
        ensures
            r == self.spec_next(),
    {
        let i: usize = (self.index() + 1) % 7;
        Self::ALL[i]
    }

    pub fn prev(self) -> (r: Self)
        ensures
            r == self.spec_prev(),
    {
        let i: usize = if self.index() == 0 {
            7 - 1
        } else {
            self.index() - 1
        };
        Self::ALL[i]
    }

    pub fn option_count(self) -> (r: usize)
        ensures
            r == self.spec_option_count(),
    {
        match self {
            MenuSection::SystemMode => SystemMode::ALL.len(),
            MenuSection::WeaponStatus => WeaponStatus::ALL.len(),
            MenuSection::IffStatus => IffStatus::ALL.len(),
            MenuSection::TestRoutine => TestRoutine::ALL.len(),
            MenuSection::TargetProfile => TargetProfile::ALL.len(),
            MenuSection::SpectralProfile => SpectralProfile::ALL.len(),
            MenuSection::TargetSelect => TargetSelect::ALL.len(),
        }
    }
}

/// Operating mode of the sentry's targeting loop.
#[derive(Debug, Clone, Copy, PartialEq, Eq, Hash, Structural)]
pub enum SystemMode {
    AutoRemote,
    ManOverride,
    SemiAuto,
}

impl Default for SystemMode {
    fn default() -> (r: Self)
        ensures
            r == SystemMode::AutoRemote,
    {
        SystemMode::AutoRemote
    }
}

impl SystemMode {
    pub const ALL: [SystemMode; 3] = [SystemMode::AutoRemote, SystemMode::ManOverride, SystemMode::SemiAuto];

    /// Number of options in this section.
    pub open spec fn spec_count() -> int {
        3
    }

    /// Position of the option in its section, top row first.
    pub open spec fn spec_index(self) -> int {
        match self {
            SystemMode::AutoRemote => 0,
            SystemMode::ManOverride => 1,
            SystemMode::SemiAuto => 2,
        }
    }

    pub open spec fn spec_from_index(i: int) -> Option<Self> {
        if i == 0 {
            Some(SystemMode::AutoRemote)
        } else if i == 1 {
            Some(SystemMode::ManOverride)
        } else if i == 2 {
            Some(SystemMode::SemiAuto)
        } else {
            None
        }
    }

    pub open spec fn spec_label(self) -> Seq<char> {
        match self {
            SystemMode::AutoRemote => "AUTO-REMOTE"@,
            SystemMode::ManOverride => "MAN-OVERRIDE"@,
            SystemMode::SemiAuto => "SEMI-AUTO"@,
        }
    }

    /// The option one row down, wrapping from the last row to the first.
    pub open spec fn spec_next(self) -> Self {
        Self::spec_from_index((self.spec_index() + 1) % 3).unwrap()
    }

    /// The option one row up, wrapping from the first row to the last.
    pub open spec fn spec_prev(self) -> Self {
        if self.spec_index() == 0 {
            Self::spec_from_index(2).unwrap()
        } else {
            Self::spec_from_index(self.spec_index() - 1).unwrap()
        }
    }

    /// Name stored by the console's saved session: the variant's own name.
    pub open spec fn spec_wire_name(self) -> Seq<char> {
        match self {
            SystemMode::AutoRemote => "AutoRemote"@,
            SystemMode::ManOverride => "ManOverride"@,
            SystemMode::SemiAuto => "SemiAuto"@,
        }
    }

    pub open spec fn spec_parse_wire_name(s: Seq<char>) -> Self {
        if s == "AutoRemote"@ {
            SystemMode::AutoRemote
        } else if s == "ManOverride"@ {
            SystemMode::ManOverride
        } else if s == "SemiAuto"@ {
            SystemMode::SemiAuto
        } else {
            SystemMode::AutoRemote
        }
    }

    pub fn label(self) -> (r: &'static str)
        ensures
            r@ == self.spec_label(),
    {
        match self {
            SystemMode::AutoRemote => "AUTO-REMOTE",
            SystemMode::ManOverride => "MAN-OVERRIDE",
            SystemMode::SemiAuto => "SEMI-AUTO",
        }
    }

    pub fn index(self) -> (r: usize)
        ensures
            r == self.spec_index(),
    {
        match self {
            SystemMode::AutoRemote => 0,
            SystemMode::ManOverride => 1,
            SystemMode::SemiAuto => 2,
        }
    }

    pub fn from_index(i: usize) -> (r: Option<Self>)
        ensures
            r == Self::spec_from_index(i as int),
    {
        if i == 0 {
            Some(SystemMode::AutoRemote)
        } else if i == 1 {
            Some(SystemMode::ManOverride)
        } else if i == 2 {
            Some(SystemMode::SemiAuto)
        } else {
            None
        }
    }

    pub fn next(self) -> (r: Self)
        ensures
            r == self.spec_next(),
    {
        let i: usize = (self.index() + 1) % 3;
        Self::ALL[i]
    }

    pub fn prev(self) -> (r: Self)
        ensures
            r == self.spec_prev(),
    {
        let i: usize = if self.index() == 0 {
            3 - 1
        } else {
            self.index() - 1
        };
        Self::ALL[i]
    }

    pub fn wire_name(self) -> (r: &'static str)
        ensures
            r@ == self.spec_wire_name(),
    {
        match self {
            SystemMode::AutoRemote => "AutoRemote",
            SystemMode::ManOverride => "ManOverride",
            SystemMode::SemiAuto => "SemiAuto",
        }
    }

    /// Reads a saved name; anything unknown falls back to the default option.
    pub fn parse_wire_name(s: &str) -> (r: Self)
        ensures
            r == Self::spec_parse_wire_name(s@),
    {
        if str_eq(s, "AutoRemote") {
            SystemMode::AutoRemote
        } else if str_eq(s, "ManOverride") {
            SystemMode::ManOverride
        } else if str_eq(s, "SemiAuto") {
            SystemMode::SemiAuto
        } else {
            SystemMode::AutoRemote
        }
    }

}

/// Whether the weapon may fire.
#[derive(Debug, Clone, Copy, PartialEq, Eq, Hash, Structural)]
pub enum WeaponStatus {
    Safe,
    Armed,
}

impl Default for WeaponStatus {
    fn default() -> (r: Self)
        ensures
            r == WeaponStatus::Safe,
    {
        WeaponStatus::Safe
    }
}

impl WeaponStatus {
    pub const ALL: [WeaponStatus; 2] = [WeaponStatus::Safe, WeaponStatus::Armed];

    /// Number of options in this section.
    pub open spec fn spec_count() -> int {
        2
    }

    /// Position of the option in its section, top row first.
    pub open spec fn spec_index(self) -> int {
        match self {
            WeaponStatus::Safe => 0,
            WeaponStatus::Armed => 1,
        }
    }

    pub open spec fn spec_from_index(i: int) -> Option<Self> {
        if i == 0 {
            Some(WeaponStatus::Safe)
        } else if i == 1 {
            Some(WeaponStatus::Armed)
        } else {
            None
        }
    }

    pub open spec fn spec_label(self) -> Seq<char> {
        match self {
            WeaponStatus::Safe => "SAFE"@,
            WeaponStatus::Armed => "ARMED"@,
        }
    }

    /// The option one row down, wrapping from the last row to the first.
    pub open spec fn spec_next(self) -> Self {
        Self::spec_from_index((self.spec_index() + 1) % 2).unwrap()
    }

    /// The option one row up, wrapping from the first row to the last.
    pub open spec fn spec_prev(self) -> Self {
        if self.spec_index() == 0 {
            Self::spec_from_index(1).unwrap()
        } else {
            Self::spec_from_index(self.spec_index() - 1).unwrap()
        }
    }

    /// Name stored by the console's saved session: the variant's own name.
    pub open spec fn spec_wire_name(self) -> Seq<char> {
        match self {
            WeaponStatus::Safe => "Safe"@,
            WeaponStatus::Armed => "Armed"@,
        }
    }

    pub open spec fn spec_parse_wire_name(s: Seq<char>) -> Self {
        if s == "Safe"@ {
            WeaponStatus::Safe
        } else if s == "Armed"@ {
            WeaponStatus::Armed
        } else {
            WeaponStatus::Safe
        }
    }

    pub fn label(self) -> (r: &'static str)
        ensures
            r@ == self.spec_label(),
    {
        match self {
            WeaponStatus::Safe => "SAFE",
            WeaponStatus::Armed => "ARMED",
        }
    }

    pub fn index(self) -> (r: usize)
        ensures
            r == self.spec_index(),
    {
        match self {
            WeaponStatus::Safe => 0,
            WeaponStatus::Armed => 1,
        }
    }

    pub fn from_index(i: usize) -> (r: Option<Self>)
        ensures
            r == Self::spec_from_index(i as int),
    {
        if i == 0 {
            Some(WeaponStatus::Safe)
        } else if i == 1 {
            Some(WeaponStatus::Armed)
        } else {
            None
        }
    }

    pub fn next(self) -> (r: Self)
        ensures
            r == self.spec_next(),
    {
        let i: usize = (self.index() + 1) % 2;
        Self::ALL[i]
    }

    pub fn prev(self) -> (r: Self)
        ensures
            r == self.spec_prev(),
    {
        let i: usize = if self.index() == 0 {
            2 - 1
        } else {
            self.index() - 1
        };
        Self::ALL[i]
    }

    pub fn wire_name(self) -> (r: &'static str)
        ensures
            r@ == self.spec_wire_name(),
    {
        match self {
            WeaponStatus::Safe => "Safe",
            WeaponStatus::Armed => "Armed",
        }
    }

    /// Reads a saved name; anything unknown falls back to the default option.
    pub fn parse_wire_name(s: &str) -> (r: Self)
        ensures
            r == Self::spec_parse_wire_name(s@),
    {
        if str_eq(s, "Safe") {
            WeaponStatus::Safe
        } else if str_eq(s, "Armed") {
            WeaponStatus::Armed
        } else {
            WeaponStatus::Safe
        }
    }

}

/// Identification friend-or-foe mode.
#[derive(Debug, Clone, Copy, PartialEq, Eq, Hash, Structural)]
pub enum IffStatus {
    Search,
    Test,
    Engaged,
    Interrogate,
}

impl Default for IffStatus {
    fn default() -> (r: Self)
        ensures
            r == IffStatus::Search,
    {
        IffStatus::Search
    }
}

impl IffStatus {
    pub const ALL: [IffStatus; 4] = [IffStatus::Search, IffStatus::Test, IffStatus::Engaged, IffStatus::Interrogate];

    /// Number of options in this section.
    pub open spec fn spec_count() -> int {
        4
    }

    /// Position of the option in its section, top row first.
    pub open spec fn spec_index(self) -> int {
        match self {
            IffStatus::Search => 0,
            IffStatus::Test => 1,
            IffStatus::Engaged => 2,
            IffStatus::Interrogate => 3,
        }
    }

    pub open spec fn spec_from_index(i: int) -> Option<Self> {
        if i == 0 {
            Some(IffStatus::Search)
        } else if i == 1 {
            Some(IffStatus::Test)
        } else if i == 2 {
            Some(IffStatus::Engaged)
        } else if i == 3 {
            Some(IffStatus::Interrogate)
        } else {
            None
        }
    }

    pub open spec fn spec_label(self) -> Seq<char> {
        match self {
            IffStatus::Search => "SEARCH"@,
            IffStatus::Test => "TEST"@,
            IffStatus::Engaged => "ENGAGED"@,
            IffStatus::Interrogate => "INTERROGATE"@,
        }
    }

    /// The option one row down, wrapping from the last row to the first.
    pub open spec fn spec_next(self) -> Self {
        Self::spec_from_index((self.spec_index() + 1) % 4).unwrap()
    }

    /// The option one row up, wrapping from the first row to the last.
    pub open spec fn spec_prev(self) -> Self {
        if self.spec_index() == 0 {
            Self::spec_from_index(3).unwrap()
        } else {
            Self::spec_from_index(self.spec_index() - 1).unwrap()
        }
    }

    /// Name stored by the console's saved session: the variant's own name.
    pub open spec fn spec_wire_name(self) -> Seq<char> {
        match self {
            IffStatus::Search => "Search"@,
            IffStatus::Test => "Test"@,
            IffStatus::Engaged => "Engaged"@,
            IffStatus::Interrogate => "Interrogate"@,
        }
    }

    pub open spec fn spec_parse_wire_name(s: Seq<char>) -> Self {
        if s == "Search"@ {
            IffStatus::Search
        } else if s == "Test"@ {
            IffStatus::Test
        } else if s == "Engaged"@ {
            IffStatus::Engaged
        } else if s == "Interrogate"@ {
            IffStatus::Interrogate
        } else {
            IffStatus::Search
        }
    }

    pub fn label(self) -> (r: &'static str)
        ensures
            r@ == self.spec_label(),
    {
        match self {
            IffStatus::Search => "SEARCH",
            IffStatus::Test => "TEST",
            IffStatus::Engaged => "ENGAGED",
            IffStatus::Interrogate => "INTERROGATE",
        }
    }

    pub fn index(self) -> (r: usize)
        ensures
            r == self.spec_index(),
    {
        match self {
            IffStatus::Search => 0,
            IffStatus::Test => 1,
            IffStatus::Engaged => 2,
            IffStatus::Interrogate => 3,
        }
    }

    pub fn from_index(i: usize) -> (r: Option<Self>)
        ensures
            r == Self::spec_from_index(i as int),
    {
        if i == 0 {
            Some(IffStatus::Search)
        } else if i == 1 {
            Some(IffStatus::Test)
        } else if i == 2 {
            Some(IffStatus::Engaged)
        } else if i == 3 {
            Some(IffStatus::Interrogate)
        } else {
            None
        }
    }

    pub fn next(self) -> (r: Self)
        ensures
            r == self.spec_next(),
    {
        let i: usize = (self.index() + 1) % 4;
        Self::ALL[i]
    }

    pub fn prev(self) -> (r: Self)
        ensures
            r == self.spec_prev(),
    {
        let i: usize = if self.index() == 0 {
            4 - 1
        } else {
            self.index() - 1
        };
        Self::ALL[i]
    }

    pub fn wire_name(self) -> (r: &'static str)
        ensures
            r@ == self.spec_wire_name(),
    {
        match self {
            IffStatus::Search => "Search",
            IffStatus::Test => "Test",
            IffStatus::Engaged => "Engaged",
            IffStatus::Interrogate => "Interrogate",
        }
    }

    /// Reads a saved name; anything unknown falls back to the default option.
    pub fn parse_wire_name(s: &str) -> (r: Self)
        ensures
            r == Self::spec_parse_wire_name(s@),
    {
        if str_eq(s, "Search") {
            IffStatus::Search
        } else if str_eq(s, "Test") {
            IffStatus::Test
        } else if str_eq(s, "Engaged") {
            IffStatus::Engaged
        } else if str_eq(s, "Interrogate") {
            IffStatus::Interrogate
        } else {
            IffStatus::Search
        }
    }

}

/// Self-test routine selection.
#[derive(Debug, Clone, Copy, PartialEq, Eq, Hash, Structural)]
pub enum TestRoutine {
    Auto,
    Selective,
}

impl Default for TestRoutine {
    fn default() -> (r: Self)
        ensures
            r == TestRoutine::Auto,
    {
        TestRoutine::Auto
    }
}

impl TestRoutine {
    pub const ALL: [TestRoutine; 2] = [TestRoutine::Auto, TestRoutine::Selective];

    /// Number of options in this section.
    pub open spec fn spec_count() -> int {
        2
    }

    /// Position of the option in its section, top row first.
    pub open spec fn spec_index(self) -> int {
        match self {
            TestRoutine::Auto => 0,
            TestRoutine::Selective => 1,
        }
    }

    pub open spec fn spec_from_index(i: int) -> Option<Self> {
        if i == 0 {
            Some(TestRoutine::Auto)
        } else if i == 1 {
            Some(TestRoutine::Selective)
        } else {
            None
        }
    }

    pub open spec fn spec_label(self) -> Seq<char> {
        match self {
            TestRoutine::Auto => "AUTO"@,
            TestRoutine::Selective => "SELECTIVE"@,
        }
    }

    /// The option one row down, wrapping from the last row to the first.
    pub open spec fn spec_next(self) -> Self {
        Self::spec_from_index((self.spec_index() + 1) % 2).unwrap()
    }

    /// The option one row up, wrapping from the first row to the last.
    pub open spec fn spec_prev(self) -> Self {
        if self.spec_index() == 0 {
            Self::spec_from_index(1).unwrap()
        } else {
            Self::spec_from_index(self.spec_index() - 1).unwrap()
        }
    }

    pub fn label(self) -> (r: &'static str)
        ensures
            r@ == self.spec_label(),
    {
        match self {
            TestRoutine::Auto => "AUTO",
            TestRoutine::Selective => "SELECTIVE",
        }
    }

    pub fn index(self) -> (r: usize)
        ensures
            r == self.spec_index(),
    {
        match self {
            TestRoutine::Auto => 0,
            TestRoutine::Selective => 1,
        }
    }

    pub fn from_index(i: usize) -> (r: Option<Self>)
        ensures
            r == Self::spec_from_index(i as int),
    {
        if i == 0 {
            Some(TestRoutine::Auto)
        } else if i == 1 {
            Some(TestRoutine::Selective)
        } else {
            None
        }
    }

    pub fn next(self) -> (r: Self)
        ensures
            r == self.spec_next(),
    {
        let i: usize = (self.index() + 1) % 2;
        Self::ALL[i]
    }

    pub fn prev(self) -> (r: Self)
        ensures
            r == self.spec_prev(),
    {
        let i: usize = if self.index() == 0 {
            2 - 1
        } else {
            self.index() - 1
        };
        Self::ALL[i]
    }

}

/// Target hardness profile.
#[derive(Debug, Clone, Copy, PartialEq, Eq, Hash, Structural)]
pub enum TargetProfile {
    Soft,
    Semi,
    Hard,
}

impl Default for TargetProfile {
    fn default() -> (r: Self)
        ensures
            r == TargetProfile::Soft,
    {
        TargetProfile::Soft
    }
}

impl TargetProfile {
    pub const ALL: [TargetProfile; 3] = [TargetProfile::Soft, TargetProfile::Semi, TargetProfile::Hard];

    /// Number of options in this section.
    pub open spec fn spec_count() -> int {
        3
    }

    /// Position of the option in its section, top row first.
    pub open spec fn spec_index(self) -> int {
        match self {
            TargetProfile::Soft => 0,
            TargetProfile::Semi => 1,
            TargetProfile::Hard => 2,
        }
    }

    pub open spec fn spec_from_index(i: int) -> Option<Self> {
        if i == 0 {
            Some(TargetProfile::Soft)
        } else if i == 1 {
            Some(TargetProfile::Semi)
        } else if i == 2 {
            Some(TargetProfile::Hard)
        } else {
            None
        }
    }

    pub open spec fn spec_label(self) -> Seq<char> {
        match self {
            TargetProfile::Soft => "SOFT"@,
            TargetProfile::Semi => "SEMI"@,
            TargetProfile::Hard => "HARD"@,
        }
    }

    /// The option one row down, wrapping from the last row to the first.
    pub open spec fn spec_next(self) -> Self {
        Self::spec_from_index((self.spec_index() + 1) % 3).unwrap()
    }

    /// The option one row up, wrapping from the first row to the last.
    pub open spec fn spec_prev(self) -> Self {
        if self.spec_index() == 0 {
            Self::spec_from_index(2).unwrap()
        } else {
            Self::spec_from_index(self.spec_index() - 1).unwrap()
        }
    }

    pub fn label(self) -> (r: &'static str)
        ensures
            r@ == self.spec_label(),
    {
        match self {
            TargetProfile::Soft => "SOFT",
            TargetProfile::Semi => "SEMI",
            TargetProfile::Hard => "HARD",
        }
    }

    pub fn index(self) -> (r: usize)
        ensures
            r == self.spec_index(),
    {
        match self {
            TargetProfile::Soft => 0,
            TargetProfile::Semi => 1,
            TargetProfile::Hard => 2,
        }
    }

    pub fn from_index(i: usize) -> (r: Option<Self>)
        ensures
            r == Self::spec_from_index(i as int),
    {
        if i == 0 {
            Some(TargetProfile::Soft)
        } else if i == 1 {
            Some(TargetProfile::Semi)
        } else if i == 2 {
            Some(TargetProfile::Hard)
        } else {
            None
        }
    }

    pub fn next(self) -> (r: Self)
        ensures
            r == self.spec_next(),
    {
        let i: usize = (self.index() + 1) % 3;
        Self::ALL[i]
    }

    pub fn prev(self) -> (r: Self)
        ensures
            r == self.spec_prev(),
    {
        let i: usize = if self.index() == 0 {
            3 - 1
        } else {
            self.index() - 1
        };
        Self::ALL[i]
    }

}

/// Spectral signature profile.
#[derive(Debug, Clone, Copy, PartialEq, Eq, Hash, Structural)]
pub enum SpectralProfile {
    Bio,
    Inert,
}

impl Default for SpectralProfile {
    fn default() -> (r: Self)
        ensures
            r == SpectralProfile::Bio,
    {
        SpectralProfile::Bio
    }
}

impl SpectralProfile {
    pub const ALL: [SpectralProfile; 2] = [SpectralProfile::Bio, SpectralProfile::Inert];

    /// Number of options in this section.
    pub open spec fn spec_count() -> int {
        2
    }

    /// Position of the option in its section, top row first.
    pub open spec fn spec_index(self) -> int {
        match self {
            SpectralProfile::Bio => 0,
            SpectralProfile::Inert => 1,
        }
    }

    pub open spec fn spec_from_index(i: int) -> Option<Self> {
        if i == 0 {
            Some(SpectralProfile::Bio)
        } else if i == 1 {
            Some(SpectralProfile::Inert)
        } else {
            None
        }
    }

    pub open spec fn spec_label(self) -> Seq<char> {
        match self {
            SpectralProfile::Bio => "BIO"@,
            SpectralProfile::Inert => "INERT"@,
        }
    }

    /// The option one row down, wrapping from the last row to the first.
    pub open spec fn spec_next(self) -> Self {
        Self::spec_from_index((self.spec_index() + 1) % 2).unwrap()
    }

    /// The option one row up, wrapping from the first row to the last.
    pub open spec fn spec_prev(self) -> Self {
        if self.spec_index() == 0 {
            Self::spec_from_index(1).unwrap()
        } else {
            Self::spec_from_index(self.spec_index() - 1).unwrap()
        }
    }

    pub fn label(self) -> (r: &'static str)
        ensures
            r@ == self.spec_label(),
    {
        match self {
            SpectralProfile::Bio => "BIO",
            SpectralProfile::Inert => "INERT",
        }
    }

    pub fn index(self) -> (r: usize)
        ensures
            r == self.spec_index(),
    {
        match self {
            SpectralProfile::Bio => 0,
            SpectralProfile::Inert => 1,
        }
    }

    pub fn from_index(i: usize) -> (r: Option<Self>)
        ensures
            r == Self::spec_from_index(i as int),
    {
        if i == 0 {
            Some(SpectralProfile::Bio)
        } else if i == 1 {
            Some(SpectralProfile::Inert)
        } else {
            None
        }
    }

    pub fn next(self) -> (r: Self)
        ensures
            r == self.spec_next(),
    {
        let i: usize = (self.index() + 1) % 2;
        Self::ALL[i]
    }

    pub fn prev(self) -> (r: Self)
        ensures
            r == self.spec_prev(),
    {
        let i: usize = if self.index() == 0 {
            2 - 1
        } else {
            self.index() - 1
        };
        Self::ALL[i]
    }

}

/// Sensor used for target selection.
#[derive(Debug, Clone, Copy, PartialEq, Eq, Hash, Structural)]
pub enum TargetSelect {
    MultiSpec,
    InfraRed,
    UltraViolet,
}

impl Default for TargetSelect {
    fn default() -> (r: Self)
        ensures
            r == TargetSelect::MultiSpec,
    {
        TargetSelect::MultiSpec
    }
}

impl TargetSelect {
    pub const ALL: [TargetSelect; 3] = [TargetSelect::MultiSpec, TargetSelect::InfraRed, TargetSelect::UltraViolet];

    /// Number of options in this section.
    pub open spec fn spec_count() -> int {
        3
    }

    /// Position of the option in its section, top row first.
    pub open spec fn spec_index(self) -> int {
        match self {
            TargetSelect::MultiSpec => 0,
            TargetSelect::InfraRed => 1,
            TargetSelect::UltraViolet => 2,
        }
    }

    pub open spec fn spec_from_index(i: int) -> Option<Self> {
        if i == 0 {
            Some(TargetSelect::MultiSpec)
        } else if i == 1 {
            Some(TargetSelect::InfraRed)
        } else if i == 2 {
            Some(TargetSelect::UltraViolet)
        } else {
            None
        }
    }

    pub open spec fn spec_label(self) -> Seq<char> {
        match self {
            TargetSelect::MultiSpec => "MULTI SPEC"@,
            TargetSelect::InfraRed => "INFRA RED"@,
            TargetSelect::UltraViolet => "UV"@,
        }
    }

    /// The option one row down, wrapping from the last row to the first.
    pub open spec fn spec_next(self) -> Self {
        Self::spec_from_index((self.spec_index() + 1) % 3).unwrap()
    }

    /// The option one row up, wrapping from the first row to the last.
    pub open spec fn spec_prev(self) -> Self {
        if self.spec_index() == 0 {
            Self::spec_from_index(2).unwrap()
        } else {
            Self::spec_from_index(self.spec_index() - 1).unwrap()
        }
    }

    pub fn label(self) -> (r: &'static str)
        ensures
            r@ == self.spec_label(),
    {
        match self {
            TargetSelect::MultiSpec => "MULTI SPEC",
            TargetSelect::InfraRed => "INFRA RED",
            TargetSelect::UltraViolet => "UV",
        }
    }

    pub fn index(self) -> (r: usize)
        ensures
            r == self.spec_index(),
    {
        match self {
            TargetSelect::MultiSpec => 0,
            TargetSelect::InfraRed => 1,
            TargetSelect::UltraViolet => 2,
        }
    }

    pub fn from_index(i: usize) -> (r: Option<Self>)
        ensures
            r == Self::spec_from_index(i as int),
    {
        if i == 0 {
            Some(TargetSelect::MultiSpec)
        } else if i == 1 {
            Some(TargetSelect::InfraRed)
        } else if i == 2 {
            Some(TargetSelect::UltraViolet)
        } else {
            None
        }
    }

    pub fn next(self) -> (r: Self)
        ensures
            r == self.spec_next(),
    {
        let i: usize = (self.index() + 1) % 3;
        Self::ALL[i]
    }

    pub fn prev(self) -> (r: Self)
        ensures
            r == self.spec_prev(),
    {
        let i: usize = if self.index() == 0 {
            3 - 1
        } else {
            self.index() - 1
        };
        Self::ALL[i]
    }

}
/// Full options configuration for one sentry.
#[derive(Debug, Clone, Copy, PartialEq, Eq, Structural)]
pub struct OptionsState {
    pub focus: MenuSection,
    pub system_mode: SystemMode,
    pub weapon_status: WeaponStatus,
    pub iff_status: IffStatus,
    pub test_routine: TestRoutine,
    pub target_profile: TargetProfile,
    pub spectral_profile: SpectralProfile,
    pub target_select: TargetSelect,
}

impl Default for OptionsState {
    fn default() -> (r: Self)
        ensures
            r == OptionsState::spec_default(),
    {
        OptionsState {
            focus: MenuSection::default(),
            system_mode: SystemMode::default(),
            weapon_status: WeaponStatus::default(),
            iff_status: IffStatus::default(),
            test_routine: TestRoutine::default(),
            target_profile: TargetProfile::default(),
            spectral_profile: SpectralProfile::default(),
            target_select: TargetSelect::default(),
        }
    }
}

impl OptionsState {
    /// Focus on SYSTEM MODE and the first option of every section selected.
    pub open spec fn spec_default() -> Self {
        OptionsState {
            focus: MenuSection::SystemMode,
            system_mode: SystemMode::AutoRemote,
            weapon_status: WeaponStatus::Safe,
            iff_status: IffStatus::Search,
            test_routine: TestRoutine::Auto,
            target_profile: TargetProfile::Soft,
            spectral_profile: SpectralProfile::Bio,
            target_select: TargetSelect::MultiSpec,
        }
    }

    /// The options after moving the selection down one row in the focused section.
    pub open spec fn spec_select_down(self) -> Self {
        match self.focus {
            MenuSection::SystemMode => OptionsState { system_mode: self.system_mode.spec_next(), ..self },
            MenuSection::WeaponStatus => OptionsState { weapon_status: self.weapon_status.spec_next(), ..self },
            MenuSection::IffStatus => OptionsState { iff_status: self.iff_status.spec_next(), ..self },
            MenuSection::TestRoutine => OptionsState { test_routine: self.test_routine.spec_next(), ..self },
            MenuSection::TargetProfile => OptionsState { target_profile: self.target_profile.spec_next(), ..self },
            MenuSection::SpectralProfile => OptionsState { spectral_profile: self.spectral_profile.spec_next(), ..self },
            MenuSection::TargetSelect => OptionsState { target_select: self.target_select.spec_next(), ..self },
        }
    }

    /// The options after moving the selection up one row in the focused section.
    pub open spec fn spec_select_up(self) -> Self {
        match self.focus {
            MenuSection::SystemMode => OptionsState { system_mode: self.system_mode.spec_prev(), ..self },
            MenuSection::WeaponStatus => OptionsState { weapon_status: self.weapon_status.spec_prev(), ..self },
            MenuSection::IffStatus => OptionsState { iff_status: self.iff_status.spec_prev(), ..self },
            MenuSection::TestRoutine => OptionsState { test_routine: self.test_routine.spec_prev(), ..self },
            MenuSection::TargetProfile => OptionsState { target_profile: self.target_profile.spec_prev(), ..self },
            MenuSection::SpectralProfile => OptionsState { spectral_profile: self.spectral_profile.spec_prev(), ..self },
            MenuSection::TargetSelect => OptionsState { target_select: self.target_select.spec_prev(), ..self },
        }
    }

    /// Index of the selected option in `section`.
    pub open spec fn spec_selection_index(self, section: MenuSection) -> int {
        match section {
            MenuSection::SystemMode => self.system_mode.spec_index(),
            MenuSection::WeaponStatus => self.weapon_status.spec_index(),
            MenuSection::IffStatus => self.iff_status.spec_index(),
            MenuSection::TestRoutine => self.test_routine.spec_index(),
            MenuSection::TargetProfile => self.target_profile.spec_index(),
            MenuSection::SpectralProfile => self.spectral_profile.spec_index(),
            MenuSection::TargetSelect => self.target_select.spec_index(),
        }
    }

    /// Label of the option in row `i` of `section`.
    pub open spec fn spec_option_label(section: MenuSection, i: int) -> Seq<char> {
        match section {
            MenuSection::SystemMode => SystemMode::spec_from_index(i).unwrap().spec_label(),
            MenuSection::WeaponStatus => WeaponStatus::spec_from_index(i).unwrap().spec_label(),
            MenuSection::IffStatus => IffStatus::spec_from_index(i).unwrap().spec_label(),
            MenuSection::TestRoutine => TestRoutine::spec_from_index(i).unwrap().spec_label(),
            MenuSection::TargetProfile => TargetProfile::spec_from_index(i).unwrap().spec_label(),
            MenuSection::SpectralProfile => SpectralProfile::spec_from_index(i).unwrap().spec_label(),
            MenuSection::TargetSelect => TargetSelect::spec_from_index(i).unwrap().spec_label(),
        }
    }

    pub fn new() -> (r: Self)
        ensures
            r == Self::spec_default(),
    {
        Self::default()
    }

    pub fn focus_next_section(&mut self)
        ensures
            *final(self) == (OptionsState { focus: old(self).focus.spec_next(), ..*old(self) }),
    {
        self.focus = self.focus.next();
    }

    pub fn focus_prev_section(&mut self)
        ensures
            *final(self) == (OptionsState { focus: old(self).focus.spec_prev(), ..*old(self) }),
    {
        self.focus = self.focus.prev();
    }

    /// Move selection down within the focused section.
    pub fn select_down(&mut self)
        ensures
            *final(self) == old(self).spec_select_down(),
    {
        match self.focus {
            MenuSection::SystemMode => self.system_mode = self.system_mode.next(),
            MenuSection::WeaponStatus => self.weapon_status = self.weapon_status.next(),
            MenuSection::IffStatus => self.iff_status = self.iff_status.next(),
            MenuSection::TestRoutine => self.test_routine = self.test_routine.next(),
            MenuSection::TargetProfile => self.target_profile = self.target_profile.next(),
            MenuSection::SpectralProfile => self.spectral_profile = self.spectral_profile.next(),
            MenuSection::TargetSelect => self.target_select = self.target_select.next(),
        }
    }

    /// Move selection up within the focused section.
    pub fn select_up(&mut self)
        ensures
            *final(self) == old(self).spec_select_up(),
    {
        match self.focus {
            MenuSection::SystemMode => self.system_mode = self.system_mode.prev(),
            MenuSection::WeaponStatus => self.weapon_status = self.weapon_status.prev(),
            MenuSection::IffStatus => self.iff_status = self.iff_status.prev(),
            MenuSection::TestRoutine => self.test_routine = self.test_routine.prev(),
            MenuSection::TargetProfile => self.target_profile = self.target_profile.prev(),
            MenuSection::SpectralProfile => self.spectral_profile = self.spectral_profile.prev(),
            MenuSection::TargetSelect => self.target_select = self.target_select.prev(),
        }
    }

    /// Index of the currently selected option in the focused section.
    pub fn focused_selection_index(&self) -> (r: usize)
        ensures
            r == self.spec_selection_index(self.focus),
    {
        match self.focus {
            MenuSection::SystemMode => self.system_mode.index(),
            MenuSection::WeaponStatus => self.weapon_status.index(),
            MenuSection::IffStatus => self.iff_status.index(),
            MenuSection::TestRoutine => self.test_routine.index(),
            MenuSection::TargetProfile => self.target_profile.index(),
            MenuSection::SpectralProfile => self.spectral_profile.index(),
            MenuSection::TargetSelect => self.target_select.index(),
        }
    }

    /// Labels for options in a given section, plus which is selected.
    pub fn section_options(self, section: MenuSection) -> (r: (Vec<&'static str>, usize))
        ensures
            r.0@.len() == section.spec_option_count(),
            forall|i: int|
                0 <= i < r.0@.len() ==> (#[trigger] r.0@[i])@ == Self::spec_option_label(section, i),
            r.1 == self.spec_selection_index(section),
    {
        match section {
            MenuSection::SystemMode => {
                let mut labels: Vec<&'static str> = Vec::new();
                let mut i: usize = 0;
                while i < SystemMode::ALL.len()
                    invariant
                        i <= SystemMode::spec_count(),
                        labels@.len() == i,
                        forall|j: int| 0 <= j < i ==> (#[trigger] labels@[j])@ == Self::spec_option_label(section, j),
                        section == MenuSection::SystemMode,
                    decreases SystemMode::spec_count() - i,
                {
                    labels.push(SystemMode::ALL[i].label());
                    i = i + 1;
                }
                (labels, self.system_mode.index())
            },
            MenuSection::WeaponStatus => {
                let mut labels: Vec<&'static str> = Vec::new();
                let mut i: usize = 0;
                while i < WeaponStatus::ALL.len()
                    invariant
                        i <= WeaponStatus::spec_count(),
                        labels@.len() == i,
                        forall|j: int| 0 <= j < i ==> (#[trigger] labels@[j])@ == Self::spec_option_label(section, j),
                        section == MenuSection::WeaponStatus,
                    decreases WeaponStatus::spec_count() - i,
                {
                    labels.push(WeaponStatus::ALL[i].label());
                    i = i + 1;
                }
                (labels, self.weapon_status.index())
            },
            MenuSection::IffStatus => {
                let mut labels: Vec<&'static str> = Vec::new();
                let mut i: usize = 0;
                while i < IffStatus::ALL.len()
                    invariant
                        i <= IffStatus::spec_count(),
                        labels@.len() == i,
                        forall|j: int| 0 <= j < i ==> (#[trigger] labels@[j])@ == Self::spec_option_label(section, j),
                        section == MenuSection::IffStatus,
                    decreases IffStatus::spec_count() - i,
                {
                    labels.push(IffStatus::ALL[i].label());
                    i = i + 1;
                }
                (labels, self.iff_status.index())
            },
            MenuSection::TestRoutine => {
                let mut labels: Vec<&'static str> = Vec::new();
                let mut i: usize = 0;
                while i < TestRoutine::ALL.len()
                    invariant
                        i <= TestRoutine::spec_count(),
                        labels@.len() == i,
                        forall|j: int| 0 <= j < i ==> (#[trigger] labels@[j])@ == Self::spec_option_label(section, j),
                        section == MenuSection::TestRoutine,
                    decreases TestRoutine::spec_count() - i,
                {
                    labels.push(TestRoutine::ALL[i].label());
                    i = i + 1;
                }
                (labels, self.test_routine.index())
            },
            MenuSection::TargetProfile => {
                let mut labels: Vec<&'static str> = Vec::new();
                let mut i: usize = 0;
                while i < TargetProfile::ALL.len()
                    invariant
                        i <= TargetProfile::spec_count(),
                        labels@.len() == i,
                        forall|j: int| 0 <= j < i ==> (#[trigger] labels@[j])@ == Self::spec_option_label(section, j),
                        section == MenuSection::TargetProfile,
                    decreases TargetProfile::spec_count() - i,
                {
                    labels.push(TargetProfile::ALL[i].label());
                    i = i + 1;
                }
                (labels, self.target_profile.index())
            },
            MenuSection::SpectralProfile => {
                let mut labels: Vec<&'static str> = Vec::new();
                let mut i: usize = 0;
                while i < SpectralProfile::ALL.len()
                    invariant
                        i <= SpectralProfile::spec_count(),
                        labels@.len() == i,
                        forall|j: int| 0 <= j < i ==> (#[trigger] labels@[j])@ == Self::spec_option_label(section, j),
                        section == MenuSection::SpectralProfile,
                    decreases SpectralProfile::spec_count() - i,
                {
                    labels.push(SpectralProfile::ALL[i].label());
                    i = i + 1;
                }
                (labels, self.spectral_profile.index())
            },
            MenuSection::TargetSelect => {
                let mut labels: Vec<&'static str> = Vec::new();
                let mut i: usize = 0;
                while i < TargetSelect::ALL.len()
                    invariant
                        i <= TargetSelect::spec_count(),
                        labels@.len() == i,
                        forall|j: int| 0 <= j < i ==> (#[trigger] labels@[j])@ == Self::spec_option_label(section, j),
                        section == MenuSection::TargetSelect,
                    decreases TargetSelect::spec_count() - i,
                {
                    labels.push(TargetSelect::ALL[i].label());
                    i = i + 1;
                }
                (labels, self.target_select.index())
            },
        }
    }
}

/// Moving the selection down and then up (or up and then down) in the focused
/// section gives back the same options.
pub proof fn lemma_select_down_up_roundtrip(o: OptionsState)
    ensures
        o.spec_select_down().spec_select_up() == o,
        o.spec_select_up().spec_select_down() == o,
{
}

/// Moving the focus one section right and then left (or left and then right)
/// returns to the same section.
pub proof fn lemma_focus_roundtrip(s: MenuSection)
    ensures
        s.spec_next().spec_prev() == s,
        s.spec_prev().spec_next() == s,
{
}

/// Every section and every option sits at exactly one row: its index is in range
/// and looking the index up gives the same value back.
pub proof fn lemma_index_roundtrip()
    ensures
        forall|s: MenuSection|
            0 <= #[trigger] s.spec_index() < 7 && MenuSection::spec_from_index(s.spec_index()) == Some(s),
        forall|v: SystemMode|
            0 <= #[trigger] v.spec_index() < SystemMode::spec_count() && SystemMode::spec_from_index(v.spec_index()) == Some(v),
        forall|v: WeaponStatus|
            0 <= #[trigger] v.spec_index() < WeaponStatus::spec_count() && WeaponStatus::spec_from_index(v.spec_index()) == Some(v),
        forall|v: IffStatus|
            0 <= #[trigger] v.spec_index() < IffStatus::spec_count() && IffStatus::spec_from_index(v.spec_index()) == Some(v),
        forall|v: TestRoutine|
            0 <= #[trigger] v.spec_index() < TestRoutine::spec_count() && TestRoutine::spec_from_index(v.spec_index()) == Some(v),
        forall|v: TargetProfile|
            0 <= #[trigger] v.spec_index() < TargetProfile::spec_count() && TargetProfile::spec_from_index(v.spec_index()) == Some(v),
        forall|v: SpectralProfile|
            0 <= #[trigger] v.spec_index() < SpectralProfile::spec_count() && SpectralProfile::spec_from_index(v.spec_index()) == Some(v),
        forall|v: TargetSelect|
            0 <= #[trigger] v.spec_index() < TargetSelect::spec_count() && TargetSelect::spec_from_index(v.spec_index()) == Some(v),
{
}

/// The options after pressing down `n` times in the focused section.
pub open spec fn select_down_times(o: OptionsState, n: nat) -> OptionsState
    decreases n,
{
    if n == 0 {
        o
    } else {
        select_down_times(o.spec_select_down(), (n - 1) as nat)
    }
}

proof fn lemma_cycle_system_mode(o: OptionsState)
    requires
        o.focus == MenuSection::SystemMode,
    ensures
        select_down_times(o, 3) == o,
{
    let s1 = OptionsState { system_mode: o.system_mode.spec_next(), ..o };
    assert(o.spec_select_down() == s1);
    let s2 = OptionsState { system_mode: s1.system_mode.spec_next(), ..s1 };
    assert(s1.spec_select_down() == s2);
    let s3 = OptionsState { system_mode: s2.system_mode.spec_next(), ..s2 };
    assert(s2.spec_select_down() == s3);
    assert(s3 == o);
    assert(select_down_times(s3, 0) == o);
    assert(select_down_times(s2, 1) == o);
    assert(select_down_times(s1, 2) == o);
    assert(select_down_times(o, 3) == o);
}

proof fn lemma_cycle_weapon_status(o: OptionsState)
    requires
        o.focus == MenuSection::WeaponStatus,
    ensures
        select_down_times(o, 2) == o,
{
    let s1 = OptionsState { weapon_status: o.weapon_status.spec_next(), ..o };
    assert(o.spec_select_down() == s1);
    let s2 = OptionsState { weapon_status: s1.weapon_status.spec_next(), ..s1 };
    assert(s1.spec_select_down() == s2);
    assert(s2 == o);
    assert(select_down_times(s2, 0) == o);
    assert(select_down_times(s1, 1) == o);
    assert(select_down_times(o, 2) == o);
}

proof fn lemma_cycle_iff_status(o: OptionsState)
    requires
        o.focus == MenuSection::IffStatus,
    ensures
        select_down_times(o, 4) == o,
{
    let s1 = OptionsState { iff_status: o.iff_status.spec_next(), ..o };
    assert(o.spec_select_down() == s1);
    let s2 = OptionsState { iff_status: s1.iff_status.spec_next(), ..s1 };
    assert(s1.spec_select_down() == s2);
    let s3 = OptionsState { iff_status: s2.iff_status.spec_next(), ..s2 };
    assert(s2.spec_select_down() == s3);
    let s4 = OptionsState { iff_status: s3.iff_status.spec_next(), ..s3 };
    assert(s3.spec_select_down() == s4);
    assert(s4 == o);
    assert(select_down_times(s4, 0) == o);
    assert(select_down_times(s3, 1) == o);
    assert(select_down_times(s2, 2) == o);
    assert(select_down_times(s1, 3) == o);
    assert(select_down_times(o, 4) == o);
}

proof fn lemma_cycle_test_routine(o: OptionsState)
    requires
        o.focus == MenuSection::TestRoutine,
    ensures
        select_down_times(o, 2) == o,
{
    let s1 = OptionsState { test_routine: o.test_routine.spec_next(), ..o };
    assert(o.spec_select_down() == s1);
    let s2 = OptionsState { test_routine: s1.test_routine.spec_next(), ..s1 };
    assert(s1.spec_select_down() == s2);
    assert(s2 == o);
    assert(select_down_times(s2, 0) == o);
    assert(select_down_times(s1, 1) == o);
    assert(select_down_times(o, 2) == o);
}

proof fn lemma_cycle_target_profile(o: OptionsState)
    requires
        o.focus == MenuSection::TargetProfile,
    ensures
        select_down_times(o, 3) == o,
{
    let s1 = OptionsState { target_profile: o.target_profile.spec_next(), ..o };
    assert(o.spec_select_down() == s1);
    let s2 = OptionsState { target_profile: s1.target_profile.spec_next(), ..s1 };
    assert(s1.spec_select_down() == s2);
    let s3 = OptionsState { target_profile: s2.target_profile.spec_next(), ..s2 };
    assert(s2.spec_select_down() == s3);
    assert(s3 == o);
    assert(select_down_times(s3, 0) == o);
    assert(select_down_times(s2, 1) == o);
    assert(select_down_times(s1, 2) == o);
    assert(select_down_times(o, 3) == o);
}

proof fn lemma_cycle_spectral_profile(o: OptionsState)
    requires
        o.focus == MenuSection::SpectralProfile,
    ensures
        select_down_times(o, 2) == o,
{
    let s1 = OptionsState { spectral_profile: o.spectral_profile.spec_next(), ..o };
    assert(o.spec_select_down() == s1);
    let s2 = OptionsState { spectral_profile: s1.spectral_profile.spec_next(), ..s1 };
    assert(s1.spec_select_down() == s2);
    assert(s2 == o);
    assert(select_down_times(s2, 0) == o);
    assert(select_down_times(s1, 1) == o);
    assert(select_down_times(o, 2) == o);
}

proof fn lemma_cycle_target_select(o: OptionsState)
    requires
        o.focus == MenuSection::TargetSelect,
    ensures
        select_down_times(o, 3) == o,
{
    let s1 = OptionsState { target_select: o.target_select.spec_next(), ..o };
    assert(o.spec_select_down() == s1);
    let s2 = OptionsState { target_select: s1.target_select.spec_next(), ..s1 };
    assert(s1.spec_select_down() == s2);
    let s3 = OptionsState { target_select: s2.target_select.spec_next(), ..s2 };
    assert(s2.spec_select_down() == s3);
    assert(s3 == o);
    assert(select_down_times(s3, 0) == o);
    assert(select_down_times(s2, 1) == o);
    assert(select_down_times(s1, 2) == o);
    assert(select_down_times(o, 3) == o);
}

/// Pressing down once per option of the focused section cycles back to the
/// starting selection.
pub proof fn lemma_select_down_cycles(o: OptionsState)
    ensures
        select_down_times(o, o.focus.spec_option_count() as nat) == o,
{
    match o.focus {
        MenuSection::SystemMode => lemma_cycle_system_mode(o),
        MenuSection::WeaponStatus => lemma_cycle_weapon_status(o),
        MenuSection::IffStatus => lemma_cycle_iff_status(o),
        MenuSection::TestRoutine => lemma_cycle_test_routine(o),
        MenuSection::TargetProfile => lemma_cycle_target_profile(o),
        MenuSection::SpectralProfile => lemma_cycle_spectral_profile(o),
        MenuSection::TargetSelect => lemma_cycle_target_select(o),
    }
}

/// Reading back the saved name of an option gives the same option.
pub proof fn lemma_wire_name_roundtrip()
    ensures
        forall|v: SystemMode| SystemMode::spec_parse_wire_name(#[trigger] v.spec_wire_name()) == v,
        forall|v: WeaponStatus| WeaponStatus::spec_parse_wire_name(#[trigger] v.spec_wire_name()) == v,
        forall|v: IffStatus| IffStatus::spec_parse_wire_name(#[trigger] v.spec_wire_name()) == v,
{
    reveal_strlit("AutoRemote");
    reveal_strlit("ManOverride");
    reveal_strlit("SemiAuto");
    reveal_strlit("Safe");
    reveal_strlit("Armed");
    reveal_strlit("Search");
    reveal_strlit("Test");
    reveal_strlit("Engaged");
    reveal_strlit("Interrogate");
    assert("ManOverride"@ != "AutoRemote"@) by { assert("ManOverride"@[0] != "AutoRemote"@[0] || "ManOverride"@.len() != "AutoRemote"@.len() || "ManOverride"@[1] != "AutoRemote"@[1]); }
    assert("SemiAuto"@ != "AutoRemote"@) by { assert("SemiAuto"@[0] != "AutoRemote"@[0] || "SemiAuto"@.len() != "AutoRemote"@.len() || "SemiAuto"@[1] != "AutoRemote"@[1]); }
    assert("SemiAuto"@ != "ManOverride"@) by { assert("SemiAuto"@[0] != "ManOverride"@[0] || "SemiAuto"@.len() != "ManOverride"@.len() || "SemiAuto"@[1] != "ManOverride"@[1]); }
    assert("Armed"@ != "Safe"@) by { assert("Armed"@[0] != "Safe"@[0] || "Armed"@.len() != "Safe"@.len() || "Armed"@[1] != "Safe"@[1]); }
    assert("Test"@ != "Search"@) by { assert("Test"@[0] != "Search"@[0] || "Test"@.len() != "Search"@.len() || "Test"@[1] != "Search"@[1]); }
    assert("Engaged"@ != "Search"@) by { assert("Engaged"@[0] != "Search"@[0] || "Engaged"@.len() != "Search"@.len() || "Engaged"@[1] != "Search"@[1]); }
    assert("Engaged"@ != "Test"@) by { assert("Engaged"@[0] != "Test"@[0] || "Engaged"@.len() != "Test"@.len() || "Engaged"@[1] != "Test"@[1]); }
    assert("Interrogate"@ != "Search"@) by { assert("Interrogate"@[0] != "Search"@[0] || "Interrogate"@.len() != "Search"@.len() || "Interrogate"@[1] != "Search"@[1]); }
    assert("Interrogate"@ != "Test"@) by { assert("Interrogate"@[0] != "Test"@[0] || "Interrogate"@.len() != "Test"@.len() || "Interrogate"@[1] != "Test"@[1]); }
    assert("Interrogate"@ != "Engaged"@) by { assert("Interrogate"@[0] != "Engaged"@[0] || "Interrogate"@.len() != "Engaged"@.len() || "Interrogate"@[1] != "Engaged"@[1]); }
}


/// The number of rows of each section: SYSTEM MODE, TARGET PROFILE and
/// TARGET SELECT have three, IFF STATUS four, the others two.
pub open spec fn rows_of(section: MenuSection) -> int {
    match section {
        MenuSection::SystemMode => 3,
        MenuSection::WeaponStatus => 2,
        MenuSection::IffStatus => 4,
        MenuSection::TestRoutine => 2,
        MenuSection::TargetProfile => 3,
        MenuSection::SpectralProfile => 2,
        MenuSection::TargetSelect => 3,
    }
}

/// Down moves the selection of the focused section exactly one row down,
/// wrapping from the last row to the first; up moves it one row up, wrapping
/// from the first to the last. The focus and every other section's selection
/// stay as they were.
pub proof fn lemma_select_moves_one_row(o: OptionsState, s: MenuSection)
    ensures
        o.focus.spec_option_count() == rows_of(o.focus),
        0 <= o.spec_selection_index(s) < rows_of(s),
        o.spec_select_down().focus == o.focus,
        o.spec_select_up().focus == o.focus,
        o.spec_select_down().spec_selection_index(o.focus) == (o.spec_selection_index(o.focus) + 1)
            % rows_of(o.focus),
        o.spec_select_up().spec_selection_index(o.focus) == (o.spec_selection_index(o.focus)
            + rows_of(o.focus) - 1) % rows_of(o.focus),
        s != o.focus ==> o.spec_select_down().spec_selection_index(s) == o.spec_selection_index(s),
        s != o.focus ==> o.spec_select_up().spec_selection_index(s) == o.spec_selection_index(s),
{
}

/// Pressing down `n` times from any selection lands `n` rows further down,
/// counted round the section; so every option of the section is reached.
pub proof fn lemma_select_down_reaches_every_row(o: OptionsState, n: nat)
    ensures
        select_down_times(o, n).focus == o.focus,
        select_down_times(o, n).spec_selection_index(o.focus) == (o.spec_selection_index(o.focus)
            + n) % rows_of(o.focus),
    decreases n,
{
    lemma_select_moves_one_row(o, o.focus);
    if n > 0 {
        let o1 = o.spec_select_down();
        lemma_select_down_reaches_every_row(o1, (n - 1) as nat);
        let k = rows_of(o.focus);
        let i = o.spec_selection_index(o.focus);
        assert(((i + 1) % k + (n - 1)) % k == (i + n) % k) by {
            vstd::arithmetic::div_mod::lemma_add_mod_noop(i + 1, (n - 1) as int, k);
            vstd::arithmetic::div_mod::lemma_mod_twice((n - 1) as int, k);
        }
    }
}

/// Moving the focus right goes exactly one section along, wrapping from the
/// last section to the first; left goes one back.
pub proof fn lemma_focus_moves_one_section(s: MenuSection)
    ensures
        0 <= s.spec_index() < 7,
        s.spec_next().spec_index() == (s.spec_index() + 1) % 7,
        s.spec_prev().spec_index() == (s.spec_index() + 6) % 7,
{
}

} // verus!
