//! Status conditions, the damage each one deals, and the per-creature record
//! that tracks them from turn to turn.
//!
//! Damage is counted in sixteenths of a hit point; `max_hp` is always a whole
//! number of hit points. A sixteenth of `max_hp` points is therefore exactly
//! `max_hp` units of damage.

use rand::Rng;
use vstd::prelude::*;
use vstd::string::*;

verus! {

/// A persistent condition. A creature carries at most one at a time.
#[derive(Debug, Clone, Copy, PartialEq, Eq, Hash, Structural)]
pub enum NonVolatileStatusType {
    Freeze,
    Paralysis,
    Poison,
    Burn,
    Toxic,
    Sleep,
    Fainted,
}

/// A transient condition. Several may be active at once, one of each kind.
#[derive(Debug, Clone, Copy, PartialEq, Eq, Hash, Structural)]
pub enum VolatileStatusType {
    Bound,
    Confusion,
    Flinch,
    Seeded,
    /// Locks the user into a rampaging move.
    Rampage,
    /// The first, idle turn of a two-turn move.
    Charging,
    /// The idle turn after a move that needs one to recover.
    Recharging,
}

/// A call that the rules of battle never allow.
#[derive(Debug, Clone, Copy, PartialEq, Eq, Structural)]
pub enum StatusError {
    /// The creature has fainted: it takes no status and no status damage.
    AlreadyFainted,
    /// Fainting is reached by losing hit points, never inflicted as a status:
    /// `Fainted` was asked for on a creature with no status.
    FaintNotInflictable,
    /// A counter that the turn would advance already holds [`COUNTER_MAX`].
    CounterExhausted,
}

/// Why a status was not applied.
#[derive(Debug, PartialEq, Eq)]
pub enum Rejection {
    /// Another non-volatile status holds the slot.
    AlreadyAfflicted {
        /// The status that holds the slot.
        existing: NonVolatileStatusType,
        /// A sentence for the player that names the creature and its condition.
        notice: String,
    },
    /// The volatile status is already active.
    NoEffect,
}

/// What became of an attempt to apply a status.
#[derive(Debug, PartialEq, Eq)]
pub enum Outcome {
    Applied,
    Rejected(Rejection),
}

/// Units of damage in one hit point.
pub const HP_SCALE: u64 = 16;

/// Smallest confusion roll, in thousandths.
pub const ROLL_MIN: u16 = 850;

/// One past the largest confusion roll, in thousandths.
pub const ROLL_END: u16 = 1000;

/// The level at which a confused creature hits itself.
pub const CONFUSION_LEVEL: u64 = 100;

/// The power with which a confused creature hits itself.
pub const CONFUSION_POWER: u64 = 40;

/// The largest number of turns a counter can hold.
pub const COUNTER_MAX: u32 = 0xffff_ffff;

/// Damage that no amount of hit points survives. Sums of damage stop here.
pub const OVERWHELMING: u64 = 0xffff_ffff_ffff_ffff;

/// A sum of damage, held at [`OVERWHELMING`] where it would pass it.
pub open spec fn saturate(amount: int) -> int {
    if amount > OVERWHELMING {
        OVERWHELMING as int
    } else {
        amount
    }
}

impl NonVolatileStatusType {
    /// Whether the turn counter advances each turn this status is resolved.
    pub open spec fn counts_turns_spec(self) -> bool {
        self == NonVolatileStatusType::Toxic || self == NonVolatileStatusType::Sleep || self
            == NonVolatileStatusType::Freeze
    }

    /// Whether the turn counter advances each turn this status is resolved.
    pub fn counts_turns(self) -> (counts: bool)
        ensures
            counts == self.counts_turns_spec(),
    {
        match self {
            NonVolatileStatusType::Toxic
            | NonVolatileStatusType::Sleep
            | NonVolatileStatusType::Freeze => true,
            _ => false,
        }
    }
}

impl VolatileStatusType {
    /// Whether an entry of this kind advances its own counter each turn.
    pub open spec fn ticks_spec(self) -> bool {
        self != VolatileStatusType::Seeded
    }

    /// Whether an entry of this kind advances its own counter each turn.
    pub fn ticks(self) -> (ticks: bool)
        ensures
            ticks == self.ticks_spec(),
    {
        match self {
            VolatileStatusType::Seeded => false,
            _ => true,
        }
    }
}

/// Damage of a non-volatile status, in sixteenths of a hit point: an eighth
/// of `max_hp` for poison, a sixteenth for a burn, `turn_count` sixteenths for
/// toxic, nothing for the rest.
pub open spec fn non_volatile_damage_spec(
    kind: NonVolatileStatusType,
    max_hp: int,
    turn_count: int,
) -> int {
    match kind {
        NonVolatileStatusType::Poison => 2 * max_hp,
        NonVolatileStatusType::Burn => max_hp,
        NonVolatileStatusType::Toxic => turn_count * max_hp,
        _ => 0,
    }
}

/// The strength of the hit that a confused creature deals itself, before
/// its own attack and defense come in: two fifths of the level, times the
/// power.
pub open spec fn confusion_strength() -> int {
    (2 * CONFUSION_LEVEL / 5) * CONFUSION_POWER
}

/// Damage that a confused creature deals itself, in sixteenths of a hit
/// point. In hit points it is
/// `strength * attack / defense / 50 + 2 * roll / 1000`, rounded down to a
/// whole number, where `roll` is counted in thousandths. Both terms are
/// brought over the denominator `50000 * defense` here, so that the one
/// division rounds the exact sum. Against no defense at all the hit is
/// [`OVERWHELMING`].
pub open spec fn confusion_damage_spec(attack: int, defense: int, roll: int) -> int {
    if defense == 0 {
        OVERWHELMING as int
    } else {
        HP_SCALE * ((1000 * confusion_strength() * attack + 100 * (roll * defense)) / (50000
            * defense))
    }
}

/// Damage of a volatile status, in sixteenths of a hit point: a sixteenth of
/// `max_hp` when bound, an eighth when seeded, the self-inflicted hit when
/// confused, nothing for the rest.
pub open spec fn volatile_damage_spec(
    kind: VolatileStatusType,
    max_hp: int,
    attack: int,
    defense: int,
    roll: int,
) -> int {
    match kind {
        VolatileStatusType::Bound => max_hp,
        VolatileStatusType::Seeded => 2 * max_hp,
        VolatileStatusType::Confusion => confusion_damage_spec(attack, defense, roll),
        _ => 0,
    }
}

/// The product of two 32-bit numbers fits in 64 bits.
proof fn lemma_product_fits(a: u32, b: u32)
    ensures
        0 <= a * b <= 0xffff_fffe_0000_0001,
{
    assert(0 <= a * b <= 0xffff_ffff * 0xffff_ffff) by (nonlinear_arith)
        requires
            0 <= a <= 0xffff_ffff,
            0 <= b <= 0xffff_ffff,
    ;
}

/// Damage of a non-volatile status on a creature of `max_hp` hit points that
/// has carried it for `turn_count` turns. A fainted creature takes none: that
/// is an error.
pub fn non_volatile_damage(kind: NonVolatileStatusType, max_hp: u32, turn_count: u32) -> (r:
    Result<u64, StatusError>)
    ensures
        kind == NonVolatileStatusType::Fainted <==> r is Err,
        r matches Err(e) ==> e == StatusError::AlreadyFainted,
        r matches Ok(damage) ==> damage == non_volatile_damage_spec(
            kind,
            max_hp as int,
            turn_count as int,
        ),
{
    proof {
        lemma_product_fits(turn_count, max_hp);
    }
    match kind {
        NonVolatileStatusType::Poison => Ok(2 * (max_hp as u64)),
        NonVolatileStatusType::Burn => Ok(max_hp as u64),
        NonVolatileStatusType::Toxic => Ok((turn_count as u64) * (max_hp as u64)),
        NonVolatileStatusType::Fainted => Err(StatusError::AlreadyFainted),
        _ => Ok(0),
    }
}

/// The hit that a confused creature deals itself, for a given roll.
pub fn confusion_damage(attack: u16, defense: u16, roll: u16) -> (damage: u64)
    ensures
        damage == confusion_damage_spec(attack as int, defense as int, roll as int),
{
    if defense == 0 {
        OVERWHELMING
    } else {
        let strength: u64 = (2 * CONFUSION_LEVEL / 5) * CONFUSION_POWER;
        let weight: u64 = 1000 * strength;
        assert(weight == 1000 * confusion_strength() == 1600000);
        assert(weight * attack == 1600000 * attack) by (nonlinear_arith)
            requires
                weight == 1600000,
        ;
        assert(0 <= roll * defense <= 65535 * 65535) by (nonlinear_arith)
            requires
                0 <= roll <= 65535,
                0 <= defense <= 65535,
        ;
        let from_stats: u64 = weight * (attack as u64);
        let from_roll: u64 = 100 * ((roll as u64) * (defense as u64));
        let numerator: u64 = from_stats + from_roll;
        let denominator: u64 = 50000 * (defense as u64);
        let points: u64 = numerator / denominator;
        assert(points <= numerator) by (nonlinear_arith)
            requires
                points == numerator / denominator,
                denominator >= 1,
        ;
        HP_SCALE * points
    }
}

/// Damage of a volatile status on a creature of `max_hp` hit points with the
/// given attack and defense. `roll` is the random draw that confusion uses;
/// the other kinds ignore it.
pub fn volatile_damage(
    kind: VolatileStatusType,
    max_hp: u32,
    attack: u16,
    defense: u16,
    roll: u16,
) -> (damage: u64)
    ensures
        damage == volatile_damage_spec(
            kind,
            max_hp as int,
            attack as int,
            defense as int,
            roll as int,
        ),
{
    match kind {
        VolatileStatusType::Bound => max_hp as u64,
        VolatileStatusType::Seeded => 2 * (max_hp as u64),
        VolatileStatusType::Confusion => confusion_damage(attack, defense, roll),
        _ => 0,
    }
}

/// The handle to the thread's random number generator, as `rand` defines it.
#[verifier::external_type_specification]
#[verifier::external_body]
pub struct ExThreadRng(rand::rngs::ThreadRng);

/// `rand::thread_rng` hands out the handle to the thread's generator.
/// Nothing is claimed of it.
pub assume_specification[ rand::thread_rng ]() -> (rng: rand::rngs::ThreadRng);

/// Draws a number with `rand::Rng::gen_range` from a half-open range. The
/// contract leaves out the empty range, on which `gen_range` panics, and
/// claims what `gen_range` documents: the draw lies in the range.
#[verifier::external_body]
fn draw_between(rng: &mut rand::rngs::ThreadRng, low: u16, high: u16) -> (roll: u16)
    requires
        low < high,
    ensures
        low <= roll < high,
{
    rng.gen_range(low..high)
}

/// Draws the roll for one confusion hit from the thread's random number
/// generator: a number of thousandths from [`ROLL_MIN`] up to, not
/// including, [`ROLL_END`].
pub fn draw_confusion_roll() -> (roll: u16)
    ensures
        ROLL_MIN <= roll < ROLL_END,
{
    let mut rng = rand::thread_rng();
    draw_between(&mut rng, ROLL_MIN, ROLL_END)
}

/// The word that tells a player which condition a creature is in. Poison and
/// toxic read the same.
pub open spec fn condition_word(kind: NonVolatileStatusType) -> Seq<char> {
    match kind {
        NonVolatileStatusType::Freeze => "Frozen"@,
        NonVolatileStatusType::Paralysis => "Paralyzed"@,
        NonVolatileStatusType::Burn => "Burned"@,
        NonVolatileStatusType::Sleep => "Sleeping"@,
        NonVolatileStatusType::Fainted => "Fainted"@,
        _ => "Poisoned"@,
    }
}

/// The sentence that tells a player why a status did not take hold: the
/// creature's name, then the condition it is already in.
pub open spec fn affliction_notice(name: Seq<char>, existing: NonVolatileStatusType) -> Seq<char> {
    name + " is already "@ + condition_word(existing) + "!"@
}

/// Writes the sentence that tells a player why a status did not take hold.
pub fn write_affliction_notice(name: &str, existing: NonVolatileStatusType) -> (notice: String)
    ensures
        notice@ == affliction_notice(name@, existing),
{
    let word: &str = match existing {
        NonVolatileStatusType::Freeze => "Frozen",
        NonVolatileStatusType::Paralysis => "Paralyzed",
        NonVolatileStatusType::Burn => "Burned",
        NonVolatileStatusType::Sleep => "Sleeping",
        NonVolatileStatusType::Fainted => "Fainted",
        _ => "Poisoned",
    };
    let mut notice = String::from_str(name);
    notice.append(" is already ");
    notice.append(word);
    notice.append("!");
    notice
}

/// The statuses of one creature: at most one non-volatile status with the
/// number of turns it has lasted, and the volatile statuses in the order they
/// were inflicted, each with its own counter.
pub struct Status {
    pub non_vol: Option<NonVolatileStatusType>,
    pub vol: Vec<(VolatileStatusType, u32)>,
    pub turn_count: u32,
}

/// What a [`Status`] holds, with unbounded counters.
pub struct StatusView {
    pub non_vol: Option<NonVolatileStatusType>,
    pub vol: Seq<(VolatileStatusType, nat)>,
    pub turn_count: nat,
}

impl View for Status {
    type V = StatusView;

    open spec fn view(&self) -> StatusView {
        StatusView {
            non_vol: self.non_vol,
            vol: Seq::new(self.vol@.len(), |i: int| (self.vol@[i].0, self.vol@[i].1 as nat)),
            turn_count: self.turn_count as nat,
        }
    }
}

/// The damage of a list of volatile statuses, one after the other.
pub open spec fn volatile_total(
    vol: Seq<(VolatileStatusType, nat)>,
    max_hp: int,
    attack: int,
    defense: int,
    roll: int,
) -> int
    decreases vol.len(),
{
    if vol.len() == 0 {
        0
    } else {
        volatile_total(vol.drop_last(), max_hp, attack, defense, roll) + volatile_damage_spec(
            vol.last().0,
            max_hp,
            attack,
            defense,
            roll,
        )
    }
}

/// One volatile entry after a turn: its counter one higher if its kind
/// ticks, the same if not.
pub open spec fn advance_entry(entry: (VolatileStatusType, nat)) -> (VolatileStatusType, nat) {
    if entry.0.ticks_spec() {
        (entry.0, entry.1 + 1)
    } else {
        entry
    }
}

impl StatusView {
    /// Whether the creature has fainted.
    pub open spec fn is_fainted(self) -> bool {
        self.non_vol == Some(NonVolatileStatusType::Fainted)
    }

    /// Whether a volatile status of this kind is active.
    pub open spec fn has_kind(self, kind: VolatileStatusType) -> bool {
        exists|i: int| 0 <= i < self.vol.len() && (#[trigger] self.vol[i]).0 == kind
    }

    /// No kind of volatile status is listed twice.
    pub open spec fn kinds_unique(self) -> bool {
        forall|i: int, j: int|
            0 <= i < j < self.vol.len() ==> (#[trigger] self.vol[i]).0 != (#[trigger] self.vol[j]).0
    }

    /// Damage that the non-volatile status deals this turn.
    pub open spec fn non_volatile_damage(self, max_hp: int) -> int {
        match self.non_vol {
            Some(kind) => non_volatile_damage_spec(kind, max_hp, self.turn_count as int),
            None => 0,
        }
    }

    /// Damage that the volatile statuses deal this turn, all together.
    pub open spec fn volatile_damage(
        self,
        max_hp: int,
        attack: int,
        defense: int,
        roll: int,
    ) -> int {
        saturate(volatile_total(self.vol, max_hp, attack, defense, roll))
    }

    /// The statuses after one turn's damage was resolved: the counters that
    /// tick are one higher, nothing else has changed.
    pub open spec fn after_damage(self) -> StatusView {
        StatusView {
            non_vol: self.non_vol,
            vol: self.vol.map_values(|entry: (VolatileStatusType, nat)| advance_entry(entry)),
            turn_count: match self.non_vol {
                Some(kind) if kind.counts_turns_spec() => self.turn_count + 1,
                _ => self.turn_count,
            },
        }
    }

    /// The statuses after `kind` was successfully inflicted.
    pub open spec fn afflicted_with(self, kind: NonVolatileStatusType) -> StatusView {
        StatusView { non_vol: Some(kind), turn_count: 1, ..self }
    }

    /// The statuses with one more volatile status, its counter at one.
    pub open spec fn with_volatile(self, kind: VolatileStatusType) -> StatusView {
        StatusView { vol: self.vol.push((kind, 1nat)), ..self }
    }

    /// Whether every counter that the next turn advances can still go up.
    pub open spec fn has_room(self) -> bool {
        &&& (self.non_vol matches Some(kind) && kind.counts_turns_spec()) ==> self.turn_count
            < COUNTER_MAX
        &&& forall|i: int|
            0 <= i < self.vol.len() && (#[trigger] self.vol[i]).0.ticks_spec() ==> self.vol[i].1
                < COUNTER_MAX
    }

    /// Whether `kind` can be inflicted: the slot is free, and `kind` is not
    /// `Fainted`, which no one inflicts.
    pub open spec fn accepts(self, kind: NonVolatileStatusType) -> bool {
        self.non_vol is None && kind != NonVolatileStatusType::Fainted
    }

    /// The statuses after an attempt to inflict `kind`, successful or not.
    pub open spec fn after_inflicting(self, kind: NonVolatileStatusType) -> StatusView {
        if self.accepts(kind) {
            self.afflicted_with(kind)
        } else {
            self
        }
    }

    /// The statuses after an attempt to inflict the volatile `kind`,
    /// successful or not.
    pub open spec fn after_inflicting_volatile(self, kind: VolatileStatusType) -> StatusView {
        if self.has_kind(kind) {
            self
        } else {
            self.with_volatile(kind)
        }
    }

    /// The statuses after `turns` turns of damage were resolved.
    pub open spec fn after_turns(self, turns: nat) -> StatusView
        decreases turns,
    {
        if turns == 0 {
            self
        } else {
            self.after_damage().after_turns((turns - 1) as nat)
        }
    }
}

/// Adding the next entry to a prefix of the volatile list adds its damage to
/// the prefix's total.
proof fn lemma_volatile_total_step(
    vol: Seq<(VolatileStatusType, nat)>,
    i: int,
    max_hp: int,
    attack: int,
    defense: int,
    roll: int,
)
    requires
        0 <= i < vol.len(),
    ensures
        volatile_total(vol.take(i + 1), max_hp, attack, defense, roll) == volatile_total(
            vol.take(i),
            max_hp,
            attack,
            defense,
            roll,
        ) + volatile_damage_spec(vol[i].0, max_hp, attack, defense, roll),
{
    assert(vol.take(i + 1).drop_last() =~= vol.take(i));
}

/// Whether resolving one turn with the given confusion roll takes the
/// statuses from `before` to `after` and returns `r`: an error and no change
/// for a fainted creature or a counter that cannot go up, else the damage of
/// the turn and the counters advanced.
pub open spec fn damage_resolved(
    before: StatusView,
    max_hp: int,
    attack: int,
    defense: int,
    roll: int,
    after: StatusView,
    r: Result<(u64, u64), StatusError>,
) -> bool {
    if before.is_fainted() {
        r == Err::<(u64, u64), StatusError>(StatusError::AlreadyFainted) && after == before
    } else if !before.has_room() {
        r == Err::<(u64, u64), StatusError>(StatusError::CounterExhausted) && after == before
    } else {
        &&& r matches Ok(dealt)
        &&& after == before.after_damage()
        &&& dealt.0 == before.non_volatile_damage(max_hp)
        &&& dealt.1 == before.volatile_damage(max_hp, attack, defense, roll)
    }
}

/// Without a confused entry, any two rolls give the same total.
proof fn lemma_total_ignores_roll(
    vol: Seq<(VolatileStatusType, nat)>,
    max_hp: int,
    attack: int,
    defense: int,
    roll_a: int,
    roll_b: int,
)
    requires
        forall|i: int|
            0 <= i < vol.len() ==> (#[trigger] vol[i]).0 != VolatileStatusType::Confusion,
    ensures
        volatile_total(vol, max_hp, attack, defense, roll_a) == volatile_total(
            vol,
            max_hp,
            attack,
            defense,
            roll_b,
        ),
    decreases vol.len(),
{
    if vol.len() > 0 {
        let rest = vol.drop_last();
        assert forall|i: int| 0 <= i < rest.len() implies (#[trigger] rest[i]).0
            != VolatileStatusType::Confusion by {
            assert(vol[i].0 != VolatileStatusType::Confusion);
        }
        assert(vol[vol.len() - 1].0 != VolatileStatusType::Confusion);
        lemma_total_ignores_roll(rest, max_hp, attack, defense, roll_a, roll_b);
    }
}

/// Only confusion uses the roll: without it, any two rolls give the same
/// volatile damage.
pub proof fn lemma_roll_matters_only_to_confusion(
    s: StatusView,
    max_hp: int,
    attack: int,
    defense: int,
    roll_a: int,
    roll_b: int,
)
    requires
        !s.has_kind(VolatileStatusType::Confusion),
    ensures
        s.volatile_damage(max_hp, attack, defense, roll_a) == s.volatile_damage(
            max_hp,
            attack,
            defense,
            roll_b,
        ),
{
    lemma_total_ignores_roll(s.vol, max_hp, attack, defense, roll_a, roll_b);
}

impl Status {
    /// Whether a volatile status of this kind is active.
    pub fn has_volatile(&self, kind: VolatileStatusType) -> (found: bool)
        ensures
            found == self@.has_kind(kind),
    {
        let mut i: usize = 0;
        while i < self.vol.len()
            invariant
                i <= self.vol@.len(),
                forall|j: int| 0 <= j < i ==> (#[trigger] self@.vol[j]).0 != kind,
            decreases self.vol@.len() - i,
        {
            if self.vol[i].0 == kind {
                assert(self@.vol[i as int].0 == kind);
                return true;
            }
            i += 1;
        }
        false
    }

    /// Resolves one turn of status damage with a given confusion roll.
    ///
    /// Returns the damage of the non-volatile status and the damage of all
    /// volatile statuses together, in sixteenths of a hit point, and advances
    /// the counters that tick. On a fainted creature nothing is computed and
    /// nothing changes: that is an error. So is a turn that would advance a
    /// counter past [`COUNTER_MAX`].
    pub fn damage_with_roll(&mut self, max_hp: u32, attack: u16, defense: u16, roll: u16) -> (r:
        Result<(u64, u64), StatusError>)
        ensures
            old(self)@.is_fainted() ==> r == Err::<(u64, u64), StatusError>(
                StatusError::AlreadyFainted,
            ),
            !old(self)@.is_fainted() && !old(self)@.has_room() ==> r == Err::<
                (u64, u64),
                StatusError,
            >(StatusError::CounterExhausted),
            r is Err ==> final(self)@ == old(self)@,
            !old(self)@.is_fainted() && old(self)@.has_room() ==> {
                &&& r matches Ok(dealt)
                &&& final(self)@ == old(self)@.after_damage()
                &&& dealt.0 == old(self)@.non_volatile_damage(max_hp as int)
                &&& dealt.1 == old(self)@.volatile_damage(
                    max_hp as int,
                    attack as int,
                    defense as int,
                    roll as int,
                )
            },
            final(self).non_vol == old(self).non_vol,
            old(self).non_vol == Some(NonVolatileStatusType::Poison) ==> {
                &&& final(self).turn_count == old(self).turn_count
                &&& r matches Ok(dealt) ==> 8 * dealt.0 == HP_SCALE * max_hp
            },
            old(self).non_vol == Some(NonVolatileStatusType::Burn) ==> {
                &&& final(self).turn_count == old(self).turn_count
                &&& r matches Ok(dealt) ==> 16 * dealt.0 == HP_SCALE * max_hp
            },
            old(self).non_vol == Some(NonVolatileStatusType::Toxic) ==> (r matches Ok(dealt) ==> {
                &&& dealt.0 == old(self).turn_count * max_hp
                &&& final(self).turn_count == old(self).turn_count + 1
            }),
    {
        let non_vol: Option<NonVolatileStatusType> = self.non_vol;
        let non_vol_damage: u64 = match non_vol {
            None => 0,
            Some(kind) => match non_volatile_damage(kind, max_hp, self.turn_count) {
                Err(e) => {
                    return Err(e);
                },
                Ok(damage) => damage,
            },
        };
        if !self.check_room() {
            return Err(StatusError::CounterExhausted);
        }
        if let Some(kind) = non_vol {
            if kind.counts_turns() {
                self.turn_count = self.turn_count + 1;
            }
        }
        let mut vol_damage: u64 = 0;
        let mut i: usize = 0;
        while i < self.vol.len()
            invariant
                i <= self.vol@.len(),
                self.vol@.len() == old(self).vol@.len(),
                self.non_vol == old(self).non_vol,
                self@.turn_count == old(self)@.after_damage().turn_count,
                old(self)@.has_room(),
                forall|j: int|
                    0 <= j < i ==> (#[trigger] self.vol@[j]).0 == old(self).vol@[j].0 && (
                    self.vol@[j].0, self.vol@[j].1 as nat) == advance_entry(old(self)@.vol[j]),
                forall|j: int|
                    i <= j < self.vol@.len() ==> #[trigger] self.vol@[j] == old(self).vol@[j],
                vol_damage == saturate(
                    volatile_total(
                        old(self)@.vol.take(i as int),
                        max_hp as int,
                        attack as int,
                        defense as int,
                        roll as int,
                    ),
                ),
            decreases self.vol@.len() - i,
        {
            let entry: (VolatileStatusType, u32) = self.vol[i];
            let hit: u64 = volatile_damage(entry.0, max_hp, attack, defense, roll);
            proof {
                lemma_volatile_total_step(
                    old(self)@.vol,
                    i as int,
                    max_hp as int,
                    attack as int,
                    defense as int,
                    roll as int,
                );
            }
            vol_damage = vol_damage.saturating_add(hit);
            if entry.0.ticks() {
                assert(old(self)@.vol[i as int].1 < COUNTER_MAX);
                self.vol.set(i, (entry.0, entry.1 + 1));
            }
            i += 1;
        }
        proof {
            assert(old(self)@.vol.take(i as int) =~= old(self)@.vol);
            assert(self@.vol =~= old(self)@.after_damage().vol);
        }
        Ok((non_vol_damage, vol_damage))
    }

    /// Whether every counter that the next turn advances can still go up.
    pub fn check_room(&self) -> (room: bool)
        ensures
            room == self@.has_room(),
    {
        let turn_room: bool = match self.non_vol {
            Some(kind) => !kind.counts_turns() || self.turn_count < COUNTER_MAX,
            None => true,
        };
        if !turn_room {
            return false;
        }
        let mut i: usize = 0;
        while i < self.vol.len()
            invariant
                i <= self.vol@.len(),
                forall|j: int|
                    0 <= j < i && (#[trigger] self@.vol[j]).0.ticks_spec() ==> self@.vol[j].1
                        < COUNTER_MAX,
            decreases self.vol@.len() - i,
        {
            let entry: (VolatileStatusType, u32) = self.vol[i];
            if entry.0.ticks() && entry.1 == COUNTER_MAX {
                assert(self@.vol[i as int].1 == COUNTER_MAX);
                return false;
            }
            i += 1;
        }
        true
    }

    /// Resolves one turn of status damage, drawing the confusion roll from
    /// the thread's random number generator when the creature is confused.
    ///
    /// Whatever the draw, the call does what [`Status::damage_with_roll`]
    /// does for some roll from [`ROLL_MIN`] up to [`ROLL_END`]. The draw
    /// touches the volatile damage alone: when the turn is resolved, the
    /// damage of the non-volatile status and the counters are the same for
    /// every draw.
    pub fn damage(&mut self, max_hp: u32, attack: u16, defense: u16) -> (r: Result<
        (u64, u64),
        StatusError,
    >)
        ensures
            exists|roll: u16|
                ROLL_MIN <= roll < ROLL_END && #[trigger] damage_resolved(
                    old(self)@,
                    max_hp as int,
                    attack as int,
                    defense as int,
                    roll as int,
                    final(self)@,
                    r,
                ),
            r is Ok <==> !old(self)@.is_fainted() && old(self)@.has_room(),
            r is Err ==> final(self)@ == old(self)@,
            r matches Ok(dealt) ==> {
                &&& final(self)@ == old(self)@.after_damage()
                &&& dealt.0 == old(self)@.non_volatile_damage(max_hp as int)
            },
            final(self).non_vol == old(self).non_vol,
            old(self).non_vol == Some(NonVolatileStatusType::Poison) ==> {
                &&& final(self).turn_count == old(self).turn_count
                &&& r matches Ok(dealt) ==> 8 * dealt.0 == HP_SCALE * max_hp
            },
            old(self).non_vol == Some(NonVolatileStatusType::Burn) ==> {
                &&& final(self).turn_count == old(self).turn_count
                &&& r matches Ok(dealt) ==> 16 * dealt.0 == HP_SCALE * max_hp
            },
            old(self).non_vol == Some(NonVolatileStatusType::Toxic) ==> (r matches Ok(dealt) ==> {
                &&& dealt.0 == old(self).turn_count * max_hp
                &&& final(self).turn_count == old(self).turn_count + 1
            }),
    {
        let roll: u16 = if self.has_volatile(VolatileStatusType::Confusion) {
            draw_confusion_roll()
        } else {
            ROLL_MIN
        };
        let r = self.damage_with_roll(max_hp, attack, defense, roll);
        assert(damage_resolved(
            old(self)@,
            max_hp as int,
            attack as int,
            defense as int,
            roll as int,
            self@,
            r,
        ));
        r
    }

    /// Inflicts a non-volatile status on the creature called `name`.
    ///
    /// On a fainted creature the call is an error. While another status holds
    /// the slot the call is rejected, whatever the incoming status, with the
    /// status that holds it and a notice for the player. On a free slot the
    /// status takes hold and its turn counter starts at one; `Fainted` alone
    /// cannot be inflicted, and asking for it is an error. Only a status that
    /// takes hold changes anything.
    pub fn non_volatile_status_check(
        &mut self,
        incoming_status: NonVolatileStatusType,
        name: &str,
    ) -> (r: Result<Outcome, StatusError>)
        ensures
            old(self)@.is_fainted() ==> r == Err::<Outcome, StatusError>(
                StatusError::AlreadyFainted,
            ),
            match old(self).non_vol {
                Some(existing) => existing != NonVolatileStatusType::Fainted ==> (r matches Ok(
                    Outcome::Rejected(Rejection::AlreadyAfflicted { existing: held, notice }),
                ) && held == existing && notice@ == affliction_notice(name@, existing)),
                None => r == if incoming_status == NonVolatileStatusType::Fainted {
                    Err::<Outcome, StatusError>(StatusError::FaintNotInflictable)
                } else {
                    Ok::<Outcome, StatusError>(Outcome::Applied)
                },
            },
            final(self)@ == old(self)@.after_inflicting(incoming_status),
    {
        match self.non_vol {
            Some(NonVolatileStatusType::Fainted) => Err(StatusError::AlreadyFainted),
            Some(existing) => {
                let notice = write_affliction_notice(name, existing);
                Ok(Outcome::Rejected(Rejection::AlreadyAfflicted { existing, notice }))
            },
            None => {
                if incoming_status == NonVolatileStatusType::Fainted {
                    Err(StatusError::FaintNotInflictable)
                } else {
                    self.non_vol = Some(incoming_status);
                    self.turn_count = 1;
                    assert(self@.vol =~= old(self)@.vol);
                    Ok(Outcome::Applied)
                }
            },
        }
    }

    /// Inflicts a volatile status.
    ///
    /// A kind that is not active yet joins the end of the list with its
    /// counter at one. A kind that is already active is rejected, and nothing
    /// changes.
    pub fn volatile_status_check(&mut self, incoming_status: VolatileStatusType) -> (outcome:
        Outcome)
        ensures
            outcome == if old(self)@.has_kind(incoming_status) {
                Outcome::Rejected(Rejection::NoEffect)
            } else {
                Outcome::Applied
            },
            final(self)@ == old(self)@.after_inflicting_volatile(incoming_status),
    {
        if self.has_volatile(incoming_status) {
            Outcome::Rejected(Rejection::NoEffect)
        } else {
            self.vol.push((incoming_status, 1));
            proof {
                assert(self@.vol =~= old(self)@.vol.push((incoming_status, 1nat)));
            }
            Outcome::Applied
        }
    }
}

/// A turn of damage keeps the kinds of the volatile statuses and their
/// order, so it keeps them free of duplicates.
pub proof fn lemma_turn_keeps_kinds(s: StatusView)
    ensures
        s.after_damage().non_vol == s.non_vol,
        s.after_damage().vol.len() == s.vol.len(),
        forall|i: int|
            0 <= i < s.vol.len() ==> (#[trigger] s.after_damage().vol[i]).0 == s.vol[i].0,
        s.kinds_unique() ==> s.after_damage().kinds_unique(),
{
    assert forall|i: int| 0 <= i < s.vol.len() implies (#[trigger] s.after_damage().vol[i]).0
        == s.vol[i].0 by {}
    if s.kinds_unique() {
        assert forall|i: int, j: int| 0 <= i < j < s.after_damage().vol.len() implies (
        #[trigger] s.after_damage().vol[i]).0 != (#[trigger] s.after_damage().vol[j]).0 by {
            assert(s.vol[i].0 != s.vol[j].0);
        }
    }
}

/// Inflicting a status, volatile or not, never lists a volatile kind twice.
pub proof fn lemma_inflicting_keeps_kinds_unique(
    s: StatusView,
    kind: NonVolatileStatusType,
    volatile_kind: VolatileStatusType,
)
    requires
        s.kinds_unique(),
    ensures
        s.after_inflicting(kind).kinds_unique(),
        s.after_inflicting_volatile(volatile_kind).kinds_unique(),
{
    if !s.has_kind(volatile_kind) {
        let t = s.with_volatile(volatile_kind);
        assert forall|i: int, j: int| 0 <= i < j < t.vol.len() implies (#[trigger] t.vol[i]).0 != (
        #[trigger] t.vol[j]).0 by {
            if j < s.vol.len() {
                assert(s.vol[i].0 != s.vol[j].0);
            } else {
                assert(s.vol[i].0 != volatile_kind);
            }
        }
    }
}

/// An attempt to inflict a volatile status that is already active changes
/// nothing: the list keeps its length and its entries.
pub proof fn lemma_duplicate_volatile_changes_nothing(s: StatusView, kind: VolatileStatusType)
    requires
        s.has_kind(kind),
    ensures
        s.after_inflicting_volatile(kind) == s,
        s.after_inflicting_volatile(kind).vol.len() == s.vol.len(),
{
}

/// Poison takes an eighth of the maximum hit points and a burn a sixteenth,
/// on every turn alike, however many turns have passed.
pub proof fn lemma_poison_and_burn_are_constant(s: StatusView, max_hp: int, turns: nat)
    requires
        s.non_vol == Some(NonVolatileStatusType::Poison) || s.non_vol == Some(
            NonVolatileStatusType::Burn,
        ),
    ensures
        s.after_turns(turns).non_vol == s.non_vol,
        s.after_turns(turns).turn_count == s.turn_count,
        s.non_vol == Some(NonVolatileStatusType::Poison) ==> 8 * s.after_turns(
            turns,
        ).non_volatile_damage(max_hp) == HP_SCALE * max_hp,
        s.non_vol == Some(NonVolatileStatusType::Burn) ==> 16 * s.after_turns(
            turns,
        ).non_volatile_damage(max_hp) == HP_SCALE * max_hp,
    decreases turns,
{
    if turns > 0 {
        lemma_poison_and_burn_are_constant(s.after_damage(), max_hp, (turns - 1) as nat);
    }
}

/// Toxic counts its turns: each turn of damage moves the counter up by one,
/// and on every turn the damage is as many sixteenths of the maximum hit
/// points as the counter says.
pub proof fn lemma_toxic_grows_each_turn(s: StatusView, max_hp: int, turns: nat)
    requires
        s.non_vol == Some(NonVolatileStatusType::Toxic),
    ensures
        s.after_damage().turn_count == s.turn_count + 1,
        s.after_turns(turns).non_vol == Some(NonVolatileStatusType::Toxic),
        s.after_turns(turns).turn_count == s.turn_count + turns,
        s.after_turns(turns).non_volatile_damage(max_hp) == (s.turn_count + turns) * max_hp,
        16 * s.after_turns(turns).non_volatile_damage(max_hp) == (s.turn_count + turns) * (
        HP_SCALE * max_hp),
    decreases turns,
{
    if turns > 0 {
        lemma_toxic_grows_each_turn(s.after_damage(), max_hp, (turns - 1) as nat);
    } else {
        assert(16 * (s.turn_count * max_hp) == s.turn_count * (16 * max_hp)) by (nonlinear_arith);
    }
}

/// Toxic that has just been inflicted takes `n` sixteenths of the maximum
/// hit points on its `n`-th turn.
pub proof fn lemma_fresh_toxic_nth_turn(s: StatusView, max_hp: int, n: nat)
    requires
        s.accepts(NonVolatileStatusType::Toxic),
        n >= 1,
    ensures
        s.after_inflicting(NonVolatileStatusType::Toxic).after_turns(
            (n - 1) as nat,
        ).non_volatile_damage(max_hp) == n * max_hp,
{
    lemma_toxic_grows_each_turn(
        s.after_inflicting(NonVolatileStatusType::Toxic),
        max_hp,
        (n - 1) as nat,
    );
}

/// Status damage is never negative.
pub proof fn lemma_damage_is_not_negative(
    s: StatusView,
    max_hp: int,
    attack: int,
    defense: int,
    roll: int,
)
    requires
        0 <= max_hp,
        0 <= attack,
        0 <= defense,
        0 <= roll,
    ensures
        0 <= s.non_volatile_damage(max_hp),
        0 <= volatile_total(s.vol, max_hp, attack, defense, roll),
        0 <= s.volatile_damage(max_hp, attack, defense, roll),
    decreases s.vol.len(),
{
    assert(0 <= s.turn_count * max_hp) by (nonlinear_arith)
        requires
            0 <= s.turn_count,
            0 <= max_hp,
    ;
    if s.vol.len() > 0 {
        let rest = StatusView { vol: s.vol.drop_last(), ..s };
        lemma_damage_is_not_negative(rest, max_hp, attack, defense, roll);
        if defense != 0 {
            let n = 1000 * confusion_strength() * attack + 100 * (roll * defense);
            let d = 50000 * defense;
            assert(0 <= n / d) by (nonlinear_arith)
                requires
                    0 <= attack,
                    0 <= roll,
                    0 < defense,
                    n == 1600000 * attack + 100 * (roll * defense),
                    d == 50000 * defense,
            ;
        }
    }
}

} // verus!
