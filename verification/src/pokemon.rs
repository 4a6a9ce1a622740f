//! A creature in battle: its hit points, its stats and its statuses, and the
//! two ways it takes damage.
//!
//! `max_hp` is a whole number of hit points. `hp` and every amount of damage
//! are counted in sixteenths of a hit point, so a creature at full health has
//! `hp == HP_SCALE * max_hp`. Stat modifiers are counted in sixteenths too.

use crate::statuses::{
    lemma_damage_is_not_negative, lemma_inflicting_keeps_kinds_unique, lemma_turn_keeps_kinds,
    saturate, NonVolatileStatusType, Status, StatusError, StatusView, VolatileStatusType, HP_SCALE,
    ROLL_END, ROLL_MIN,
};
use crate::typing::Types;
use vstd::prelude::*;
use vstd::string::*;

verus! {

/// A stat modifier that leaves the stat as it is (1.0), in sixteenths.
pub const UNMODIFIED: u32 = 16;

/// A creature in battle.
pub struct Pokemon {
    pub name: String,
    pub type_1: Types,
    pub type_2: Option<Types>,
    /// Hit points at full health, in whole hit points.
    pub max_hp: u32,
    /// Hit points left, in sixteenths of a hit point.
    pub hp: u64,
    pub attack: u16,
    pub defense: u16,
    pub special_attack: u16,
    pub special_defense: u16,
    pub speed: u16,
    pub status_conditions: Status,
    pub attack_modifier: u32,
    pub defense_modifier: u32,
    pub special_attack_modifier: u32,
    pub special_defense_modifier: u32,
    pub speed_modifier: u32,
}

/// What a [`Pokemon`] holds, as mathematical values.
pub struct PokemonView {
    pub name: Seq<char>,
    pub type_1: Types,
    pub type_2: Option<Types>,
    pub max_hp: int,
    pub hp: int,
    pub attack: int,
    pub defense: int,
    pub special_attack: int,
    pub special_defense: int,
    pub speed: int,
    pub status: StatusView,
    pub attack_modifier: int,
    pub defense_modifier: int,
    pub special_attack_modifier: int,
    pub special_defense_modifier: int,
    pub speed_modifier: int,
}

impl View for Pokemon {
    type V = PokemonView;

    open spec fn view(&self) -> PokemonView {
        PokemonView {
            name: self.name@,
            type_1: self.type_1,
            type_2: self.type_2,
            max_hp: self.max_hp as int,
            hp: self.hp as int,
            attack: self.attack as int,
            defense: self.defense as int,
            special_attack: self.special_attack as int,
            special_defense: self.special_defense as int,
            speed: self.speed as int,
            status: self.status_conditions@,
            attack_modifier: self.attack_modifier as int,
            defense_modifier: self.defense_modifier as int,
            special_attack_modifier: self.special_attack_modifier as int,
            special_defense_modifier: self.special_defense_modifier as int,
            speed_modifier: self.speed_modifier as int,
        }
    }
}

/// Hit points left after `damage`, both in sixteenths: the difference, but
/// nothing where less than one whole hit point would be left.
pub open spec fn remaining_hp(hp: int, damage: int) -> int {
    if hp - damage < HP_SCALE {
        0
    } else {
        hp - damage
    }
}

/// Something that happens to a creature in battle.
pub enum BattleEvent {
    /// An attack connects for `damage` sixteenths of a hit point.
    Attack { damage: nat },
    /// The turn's status damage is resolved with the confusion roll `roll`.
    StatusTurn { roll: nat },
    /// A move tries to inflict a non-volatile status.
    Inflict { status: NonVolatileStatusType },
    /// A move tries to inflict a volatile status.
    InflictVolatile { volatile: VolatileStatusType },
}

impl PokemonView {
    /// No quantity of the creature is negative.
    pub open spec fn in_range(self) -> bool {
        &&& 0 <= self.max_hp
        &&& 0 <= self.hp
        &&& 0 <= self.attack
        &&& 0 <= self.defense
    }

    /// No quantity is negative, the hit points fit the maximum, a fainted
    /// creature has none left, and no volatile status is listed twice.
    pub open spec fn wf(self) -> bool {
        &&& self.in_range()
        &&& self.hp <= HP_SCALE * self.max_hp
        &&& self.status.is_fainted() ==> self.hp == 0
        &&& self.status.kinds_unique()
    }

    /// The creature after one event.
    pub open spec fn after_event(self, event: BattleEvent) -> PokemonView {
        match event {
            BattleEvent::Attack { damage } => self.after_hit(damage as int),
            BattleEvent::StatusTurn { roll } => self.after_status_turn(roll as int),
            BattleEvent::Inflict { status } => PokemonView {
                status: self.status.after_inflicting(status),
                ..self
            },
            BattleEvent::InflictVolatile { volatile } => PokemonView {
                status: self.status.after_inflicting_volatile(volatile),
                ..self
            },
        }
    }

    /// The creature after a run of events, the first of them first.
    pub open spec fn after_events(self, events: Seq<BattleEvent>) -> PokemonView
        decreases events.len(),
    {
        if events.len() == 0 {
            self
        } else {
            self.after_events(events.drop_last()).after_event(events.last())
        }
    }

    /// The creature after taking `damage`: it keeps what [`remaining_hp`]
    /// leaves it, and faints if that is nothing.
    pub open spec fn after_hit(self, damage: int) -> PokemonView {
        let left = remaining_hp(self.hp, damage);
        PokemonView {
            hp: left,
            status: if left == 0 {
                StatusView { non_vol: Some(NonVolatileStatusType::Fainted), ..self.status }
            } else {
                self.status
            },
            ..self
        }
    }

    /// All the status damage of one turn, for a given confusion roll.
    pub open spec fn status_damage(self, roll: int) -> int {
        saturate(
            self.status.non_volatile_damage(self.max_hp) + self.status.volatile_damage(
                self.max_hp,
                self.attack,
                self.defense,
                roll,
            ),
        )
    }

    /// The creature after one turn of status damage, for a given confusion
    /// roll. A fainted creature stays as it is, and so does one with a
    /// counter that cannot go up; any other has its counters advanced and
    /// takes all the turn's status damage as a single hit.
    pub open spec fn after_status_turn(self, roll: int) -> PokemonView {
        if self.status.is_fainted() || !self.status.has_room() {
            self
        } else {
            PokemonView { status: self.status.after_damage(), ..self }.after_hit(
                self.status_damage(roll),
            )
        }
    }
}

/// Whether one turn of status damage with the given confusion roll takes the
/// creature from `before` to `after` and returns `r`.
pub open spec fn status_turn_resolved(
    before: PokemonView,
    roll: int,
    after: PokemonView,
    r: Result<(), StatusError>,
) -> bool {
    &&& after == before.after_status_turn(roll)
    &&& r == if before.status.is_fainted() {
        Err::<(), StatusError>(StatusError::AlreadyFainted)
    } else if !before.status.has_room() {
        Err::<(), StatusError>(StatusError::CounterExhausted)
    } else {
        Ok::<(), StatusError>(())
    }
}

impl Pokemon {
    /// A creature that is yet to be given its name, type and stats: no hit
    /// points, all stats at zero and unmodified, no status.
    pub fn new() -> (fresh: Pokemon)
        ensures
            fresh@ == (PokemonView {
                name: "New"@,
                type_1: Types::Normal,
                type_2: None,
                max_hp: 0,
                hp: 0,
                attack: 0,
                defense: 0,
                special_attack: 0,
                special_defense: 0,
                speed: 0,
                status: StatusView { non_vol: None, vol: Seq::empty(), turn_count: 0 },
                attack_modifier: UNMODIFIED as int,
                defense_modifier: UNMODIFIED as int,
                special_attack_modifier: UNMODIFIED as int,
                special_defense_modifier: UNMODIFIED as int,
                speed_modifier: UNMODIFIED as int,
            }),
            fresh@.wf(),
    {
        let fresh = Pokemon {
            name: String::from_str("New"),
            type_1: Types::Normal,
            type_2: None,
            max_hp: 0,
            hp: 0,
            attack: 0,
            defense: 0,
            special_attack: 0,
            special_defense: 0,
            speed: 0,
            status_conditions: Status { non_vol: None, vol: Vec::new(), turn_count: 0 },
            attack_modifier: UNMODIFIED,
            defense_modifier: UNMODIFIED,
            special_attack_modifier: UNMODIFIED,
            special_defense_modifier: UNMODIFIED,
            speed_modifier: UNMODIFIED,
        };
        assert(fresh@.status.vol =~= Seq::empty());
        fresh
    }

    /// Takes `damage` off the hit points and lets the creature faint if less
    /// than one hit point is left.
    fn faint_check(&mut self, damage: u64)
        ensures
            final(self)@ == old(self)@.after_hit(damage as int),
    {
        let left: u64 = self.hp.saturating_sub(damage);
        if left < HP_SCALE {
            self.hp = 0;
            self.status_conditions.non_vol = Some(NonVolatileStatusType::Fainted);
        } else {
            self.hp = left;
        }
        assert(self@.status.vol =~= old(self)@.status.vol);
    }

    /// Takes the damage of an attack, in sixteenths of a hit point. The
    /// creature faints if less than one hit point is left.
    pub fn take_attack_damage(&mut self, incoming_damage: u64)
        ensures
            final(self)@ == old(self)@.after_hit(incoming_damage as int),
    {
        self.faint_check(incoming_damage);
    }

    /// Resolves one turn of status damage with a given confusion roll: the
    /// statuses' counters advance, and the creature takes the damage of all
    /// its statuses as one hit. A fainted creature is left as it is: that is
    /// an error. So is a creature with a counter that cannot go up.
    pub fn take_status_damage_with_roll(&mut self, roll: u16) -> (r: Result<(), StatusError>)
        ensures
            status_turn_resolved(old(self)@, roll as int, final(self)@, r),
    {
        let max_hp: u32 = self.max_hp;
        let attack: u16 = self.attack;
        let defense: u16 = self.defense;
        match self.status_conditions.damage_with_roll(max_hp, attack, defense, roll) {
            Err(e) => Err(e),
            Ok(dealt) => {
                self.faint_check(dealt.0.saturating_add(dealt.1));
                Ok(())
            },
        }
    }

    /// Resolves one turn of status damage, drawing the confusion roll from
    /// the thread's random number generator when the creature is confused.
    ///
    /// Whatever the draw, the call does what
    /// [`Pokemon::take_status_damage_with_roll`] does for some roll from
    /// [`ROLL_MIN`] up to [`ROLL_END`].
    pub fn take_status_damage(&mut self) -> (r: Result<(), StatusError>)
        ensures
            exists|roll: u16|
                ROLL_MIN <= roll < ROLL_END && #[trigger] status_turn_resolved(
                    old(self)@,
                    roll as int,
                    final(self)@,
                    r,
                ),
    {
        let max_hp: u32 = self.max_hp;
        let attack: u16 = self.attack;
        let defense: u16 = self.defense;
        let resolved = self.status_conditions.damage(max_hp, attack, defense);
        let ghost roll: u16 = choose|roll: u16|
            ROLL_MIN <= roll < ROLL_END && #[trigger] crate::statuses::damage_resolved(
                old(self)@.status,
                max_hp as int,
                attack as int,
                defense as int,
                roll as int,
                self@.status,
                resolved,
            );
        let r = match resolved {
            Err(e) => Err(e),
            Ok(dealt) => {
                self.faint_check(dealt.0.saturating_add(dealt.1));
                Ok(())
            },
        };
        assert(status_turn_resolved(old(self)@, roll as int, self@, r));
        r
    }
}

/// Damage never leaves a creature with negative hit points, never with more
/// than it had, and never with a fraction of its last hit point.
pub proof fn lemma_remaining_hp_bounds(hp: int, damage: int)
    requires
        0 <= hp,
        0 <= damage,
    ensures
        0 <= remaining_hp(hp, damage) <= hp,
        remaining_hp(hp, damage) == 0 || remaining_hp(hp, damage) >= HP_SCALE,
        damage >= hp ==> remaining_hp(hp, damage) == 0,
{
}

/// One event leaves every quantity in range, takes hit points away or
/// leaves them, never adds any, and leaves a fainted creature fainted.
pub proof fn lemma_event_never_heals(c: PokemonView, event: BattleEvent)
    requires
        c.in_range(),
    ensures
        c.after_event(event).in_range(),
        c.after_event(event).hp <= c.hp,
        c.after_event(event).max_hp == c.max_hp,
        c.status.is_fainted() ==> c.after_event(event).status.is_fainted(),
{
    match event {
        BattleEvent::StatusTurn { roll } => {
            lemma_damage_is_not_negative(c.status, c.max_hp, c.attack, c.defense, roll as int);
        },
        _ => {},
    }
}

/// One event keeps a well-formed creature well-formed.
pub proof fn lemma_event_keeps_wf(c: PokemonView, event: BattleEvent)
    requires
        c.wf(),
    ensures
        c.after_event(event).wf(),
{
    lemma_event_never_heals(c, event);
    lemma_turn_keeps_kinds(c.status);
    match event {
        BattleEvent::Attack { damage } => {
            assert(c.after_event(event).status.vol == c.status.vol);
        },
        BattleEvent::StatusTurn { roll } => {
            assert(c.after_event(event).status.vol == c.status.vol || c.after_event(
                event,
            ).status.vol == c.status.after_damage().vol);
        },
        BattleEvent::Inflict { status } => {
            lemma_inflicting_keeps_kinds_unique(c.status, status, VolatileStatusType::Bound);
        },
        BattleEvent::InflictVolatile { volatile } => {
            lemma_inflicting_keeps_kinds_unique(c.status, NonVolatileStatusType::Poison, volatile);
        },
    }
}

/// Whatever happens to a creature, and in whatever order, its hit points are
/// never negative and never more than they were.
pub proof fn lemma_hp_never_rises(c: PokemonView, events: Seq<BattleEvent>)
    requires
        c.in_range(),
    ensures
        c.after_events(events).in_range(),
        0 <= c.after_events(events).hp <= c.hp,
    decreases events.len(),
{
    if events.len() > 0 {
        lemma_hp_never_rises(c, events.drop_last());
        lemma_event_never_heals(c.after_events(events.drop_last()), events.last());
    }
}

/// Whatever happens to a well-formed creature, it stays well-formed.
pub proof fn lemma_events_keep_wf(c: PokemonView, events: Seq<BattleEvent>)
    requires
        c.wf(),
    ensures
        c.after_events(events).wf(),
    decreases events.len(),
{
    if events.len() > 0 {
        lemma_events_keep_wf(c, events.drop_last());
        lemma_event_keeps_wf(c.after_events(events.drop_last()), events.last());
    }
}

/// Fainting is final. Whatever happens to a fainted creature, it stays
/// fainted: no status can be inflicted on it, and a turn of status damage
/// leaves it exactly as it is.
pub proof fn lemma_fainted_is_final(c: PokemonView, events: Seq<BattleEvent>)
    requires
        c.status.is_fainted(),
    ensures
        c.after_events(events).status.is_fainted(),
        forall|kind: NonVolatileStatusType|
            !(#[trigger] c.after_events(events).status.accepts(kind)),
        forall|kind: NonVolatileStatusType| #[trigger]
            c.after_events(events).status.after_inflicting(kind) == c.after_events(events).status,
        forall|roll: int| #[trigger]
            c.after_events(events).after_status_turn(roll) == c.after_events(events),
    decreases events.len(),
{
    if events.len() > 0 {
        lemma_fainted_is_final(c, events.drop_last());
    }
}

/// A well-formed creature that has fainted has no hit points, and nothing
/// that happens gives it any.
pub proof fn lemma_fainted_has_no_hp(c: PokemonView, events: Seq<BattleEvent>)
    requires
        c.wf(),
        c.status.is_fainted(),
    ensures
        c.after_events(events).hp == 0,
{
    lemma_hp_never_rises(c, events);
}

} // verus!
