//! Individual remote sentry unit state.
use vstd::prelude::*;

use crate::fire::FireTelemetry;
use crate::options::{OptionsState, WeaponStatus};
use crate::text::{decimal, push_decimal};

verus! {

pub const SENTRY_COUNT: usize = 4;

#[derive(Debug, Clone, Copy, PartialEq, Eq, Structural)]
pub struct Sentry {
    /// 1-based display id (1..=4).
    pub id: u8,
    pub options: OptionsState,
    pub fire: FireTelemetry,
    pub link_ok: bool,
    pub online: bool,
}

impl Sentry {
    /// A linked, online unit with default options and a full drum.
    pub open spec fn spec_new(id: u8, starting_rounds: u16) -> Sentry {
        Sentry {
            id,
            options: OptionsState::spec_default(),
            fire: FireTelemetry::spec_new(starting_rounds),
            link_ok: true,
            online: true,
        }
    }

    pub open spec fn spec_is_armed(self) -> bool {
        self.options.weapon_status == WeaponStatus::Armed
    }

    pub open spec fn spec_label(self) -> Seq<char> {
        "SENTRY-"@ + decimal(self.id as nat)
    }

    pub fn new(id: u8, starting_rounds: u16) -> (r: Self)
        requires
            1 <= id <= SENTRY_COUNT,
        ensures
            r == Self::spec_new(id, starting_rounds),
            r.fire.inv(),
    {
        Self {
            id,
            options: OptionsState::new(),
            fire: FireTelemetry::new(starting_rounds),
            link_ok: true,
            online: true,
        }
    }

    pub fn is_armed(&self) -> (r: bool)
        ensures
            r == self.spec_is_armed(),
    {
        self.options.weapon_status == WeaponStatus::Armed
    }

    pub fn label(&self) -> (r: String)
        ensures
            r@ == self.spec_label(),
    {
        let mut s = String::new();
        s.append("SENTRY-");
        push_decimal(&mut s, self.id as u64);
        s
    }
}

/// Fixed bank of four sentries (film setup).
#[derive(Debug, Clone, PartialEq, Eq)]
pub struct SentryBank {
    units: [Sentry; SENTRY_COUNT],
}

impl View for SentryBank {
    type V = Seq<Sentry>;

    closed spec fn view(&self) -> Seq<Sentry> {
        self.units@
    }
}

impl SentryBank {
    /// Four fresh units with ids 1..=4, each with `starting_rounds` loaded.
    pub open spec fn spec_new(starting_rounds: u16) -> Seq<Sentry> {
        Seq::new(SENTRY_COUNT as nat, |i: int| Sentry::spec_new((i + 1) as u8, starting_rounds))
    }

    /// The bank always holds exactly four units.
    pub broadcast proof fn lemma_len(self)
        ensures
            #[trigger] self@.len() == SENTRY_COUNT,
    {
    }

    pub fn new(starting_rounds: u16) -> (r: Self)
        ensures
            r@ == Self::spec_new(starting_rounds),
            forall|i: int| 0 <= i < SENTRY_COUNT ==> (#[trigger] r@[i]).fire.inv(),
    {
        let units = [
            Sentry::new(1, starting_rounds),
            Sentry::new(2, starting_rounds),
            Sentry::new(3, starting_rounds),
            Sentry::new(4, starting_rounds),
        ];
        let r = Self { units };
        assert(r@ =~= Self::spec_new(starting_rounds));
        r
    }

    pub fn get(&self, index: usize) -> (r: Option<&Sentry>)
        ensures
            index < SENTRY_COUNT ==> r == Some(&self@[index as int]),
            index >= SENTRY_COUNT ==> r is None,
    {
        if index < SENTRY_COUNT {
            Some(&self.units[index])
        } else {
            None
        }
    }

    pub fn get_mut(&mut self, index: usize) -> (r: Option<&mut Sentry>)
        ensures
            index < SENTRY_COUNT ==> (r matches Some(s) && *s == old(self)@[index as int]
                && final(self)@ == old(self)@.update(index as int, *final(s))),
            index >= SENTRY_COUNT ==> r is None && final(self)@ == old(self)@,
    {
        if index < SENTRY_COUNT {
            Some(&mut self.units[index])
        } else {
            None
        }
    }

    pub fn by_id(&self, id: u8) -> (r: Option<&Sentry>)
        ensures
            match r {
                Some(s) => exists|i: int|
                    0 <= i < SENTRY_COUNT && self@[i].id == id && *s == self@[i] && (forall|j: int|
                        0 <= j < i ==> self@[j].id != id),
                None => forall|i: int| 0 <= i < SENTRY_COUNT ==> self@[i].id != id,
            },
    {
        let mut i: usize = 0;
        while i < SENTRY_COUNT
            invariant
                i <= SENTRY_COUNT,
                forall|j: int| 0 <= j < i ==> self@[j].id != id,
            decreases SENTRY_COUNT - i,
        {
            if self.units[i].id == id {
                return Some(&self.units[i]);
            }
            i = i + 1;
        }
        None
    }

    pub fn by_id_mut(&mut self, id: u8) -> (r: Option<&mut Sentry>)
        ensures
            match r {
                Some(s) => exists|i: int|
                    0 <= i < SENTRY_COUNT && old(self)@[i].id == id && *s == old(self)@[i] && (
                    forall|j: int| 0 <= j < i ==> old(self)@[j].id != id) && final(self)@ == old(
                        self,
                    )@.update(i, *final(s)),
                None => (forall|i: int| 0 <= i < SENTRY_COUNT ==> old(self)@[i].id != id)
                    && final(self)@ == old(self)@,
            },
    {
        let mut i: usize = 0;
        while i < SENTRY_COUNT
            invariant
                i <= SENTRY_COUNT,
                *self == *old(self),
                forall|j: int| 0 <= j < i ==> self@[j].id != id,
            decreases SENTRY_COUNT - i,
        {
            if self.units[i].id == id {
                return Some(&mut self.units[i]);
            }
            i = i + 1;
        }
        None
    }

    pub fn iter(&self) -> (r: std::slice::Iter<'_, Sentry>)
        ensures
            vstd::std_specs::iter::IteratorSpec::remaining(&r) == self@.map_values(|s: Sentry| &s),
    {
        let r = self.units.iter();
        assert(vstd::std_specs::iter::IteratorSpec::remaining(&r) =~= self@.map_values(|s: Sentry| &s));
        r
    }

    pub fn len(&self) -> (r: usize)
        ensures
            r == SENTRY_COUNT,
    {
        SENTRY_COUNT
    }

    pub fn is_empty(&self) -> (r: bool)
        ensures
            !r,
    {
        false
    }
}

} // verus!
