//! Elemental types and the chart of attack multipliers between them.

use std::collections::HashMap;
use vstd::prelude::*;

verus! {

broadcast use vstd::std_specs::hash::group_hash_axioms;

/// The elemental types a creature or a move can have.
#[derive(Debug, Clone, Copy, PartialEq, Eq, Hash, Structural)]
pub enum Types {
    Normal,
    Fire,
    Water,
    Electric,
    Grass,
    Ice,
    Fighting,
    Poison,
    Ground,
    Flying,
    Psychic,
    Bug,
    Rock,
    Spectre,
    Dragon,
    Dark,
    Steel,
    Fairy,
}

/// How many elemental types there are.
pub const TYPE_COUNT: u8 = 18;

/// Multiplier of an attack that cannot touch the defender (0.0), in sixteenths.
pub const NO_EFFECT: u8 = 0;

/// Multiplier of a resisted attack (0.5), in sixteenths.
pub const NOT_VERY_EFFECTIVE: u8 = 8;

/// Multiplier of an attack with neither advantage nor handicap (1.0), in sixteenths.
pub const NEUTRAL: u8 = 16;

/// Multiplier of an attack the defender is weak to (2.0), in sixteenths.
pub const SUPER_EFFECTIVE: u8 = 32;

impl Types {
    /// Position of the type in the chart, counted from zero.
    pub open spec fn index_spec(self) -> u8 {
        match self {
            Types::Normal => 0,
            Types::Fire => 1,
            Types::Water => 2,
            Types::Electric => 3,
            Types::Grass => 4,
            Types::Ice => 5,
            Types::Fighting => 6,
            Types::Poison => 7,
            Types::Ground => 8,
            Types::Flying => 9,
            Types::Psychic => 10,
            Types::Bug => 11,
            Types::Rock => 12,
            Types::Spectre => 13,
            Types::Dragon => 14,
            Types::Dark => 15,
            Types::Steel => 16,
            Types::Fairy => 17,
        }
    }

    /// Position of the type in the chart, counted from zero.
    pub fn index(self) -> (i: u8)
        ensures
            i == self.index_spec(),
            i < TYPE_COUNT,
    {
        match self {
            Types::Normal => 0,
            Types::Fire => 1,
            Types::Water => 2,
            Types::Electric => 3,
            Types::Grass => 4,
            Types::Ice => 5,
            Types::Fighting => 6,
            Types::Poison => 7,
            Types::Ground => 8,
            Types::Flying => 9,
            Types::Psychic => 10,
            Types::Bug => 11,
            Types::Rock => 12,
            Types::Spectre => 13,
            Types::Dragon => 14,
            Types::Dark => 15,
            Types::Steel => 16,
            Types::Fairy => 17,
        }
    }
}

/// The multiplier, in sixteenths, that an attack of type `attacker` has
/// against a defender of type `defender`.
pub open spec fn chart_multiplier(attacker: Types, defender: Types) -> u8 {
    match attacker {
        Types::Normal => match defender {
            Types::Rock => NOT_VERY_EFFECTIVE,
            Types::Spectre => NO_EFFECT,
            _ => NEUTRAL,
        },
        Types::Fire => match defender {
            Types::Grass | Types::Ice | Types::Bug | Types::Steel => SUPER_EFFECTIVE,
            Types::Fire | Types::Water | Types::Rock | Types::Dragon => NOT_VERY_EFFECTIVE,
            _ => NEUTRAL,
        },
        Types::Water => match defender {
            Types::Fire | Types::Ground | Types::Rock => SUPER_EFFECTIVE,
            Types::Water | Types::Grass | Types::Dragon => NOT_VERY_EFFECTIVE,
            _ => NEUTRAL,
        },
        Types::Electric => match defender {
            Types::Water | Types::Flying => SUPER_EFFECTIVE,
            Types::Electric | Types::Grass | Types::Dragon => NOT_VERY_EFFECTIVE,
            Types::Ground => NO_EFFECT,
            _ => NEUTRAL,
        },
        Types::Grass => match defender {
            Types::Water | Types::Ground | Types::Rock => SUPER_EFFECTIVE,
            Types::Fire | Types::Grass | Types::Poison | Types::Flying | Types::Bug
            | Types::Dragon | Types::Steel => NOT_VERY_EFFECTIVE,
            _ => NEUTRAL,
        },
        Types::Ice => match defender {
            Types::Grass | Types::Ground | Types::Flying | Types::Dragon => SUPER_EFFECTIVE,
            Types::Fire | Types::Water | Types::Ice | Types::Steel => NOT_VERY_EFFECTIVE,
            _ => NEUTRAL,
        },
        Types::Fighting => match defender {
            Types::Normal | Types::Ice | Types::Rock | Types::Dark | Types::Steel
                => SUPER_EFFECTIVE,
            Types::Poison | Types::Flying | Types::Psychic | Types::Bug | Types::Fairy
                => NOT_VERY_EFFECTIVE,
            Types::Spectre => NO_EFFECT,
            _ => NEUTRAL,
        },
        Types::Poison => match defender {
            Types::Grass | Types::Fairy => SUPER_EFFECTIVE,
            Types::Poison | Types::Ground | Types::Rock | Types::Spectre => NOT_VERY_EFFECTIVE,
            Types::Steel => NO_EFFECT,
            _ => NEUTRAL,
        },
        Types::Ground => match defender {
            Types::Fire | Types::Electric | Types::Poison | Types::Rock | Types::Steel
                => SUPER_EFFECTIVE,
            Types::Grass | Types::Bug => NOT_VERY_EFFECTIVE,
            Types::Flying => NO_EFFECT,
            _ => NEUTRAL,
        },
        Types::Flying => match defender {
            Types::Grass | Types::Fighting | Types::Bug => SUPER_EFFECTIVE,
            Types::Electric | Types::Rock | Types::Steel => NOT_VERY_EFFECTIVE,
            _ => NEUTRAL,
        },
        Types::Psychic => match defender {
            Types::Fighting | Types::Poison => SUPER_EFFECTIVE,
            Types::Psychic | Types::Steel => NOT_VERY_EFFECTIVE,
            Types::Dark => NO_EFFECT,
            _ => NEUTRAL,
        },
        Types::Bug => match defender {
            Types::Grass | Types::Psychic | Types::Dark => SUPER_EFFECTIVE,
            Types::Fire | Types::Fighting | Types::Poison | Types::Flying | Types::Spectre
            | Types::Steel | Types::Fairy => NOT_VERY_EFFECTIVE,
            _ => NEUTRAL,
        },
        Types::Rock => match defender {
            Types::Fire | Types::Ice | Types::Flying | Types::Bug => SUPER_EFFECTIVE,
            Types::Fighting | Types::Ground | Types::Steel => NOT_VERY_EFFECTIVE,
            _ => NEUTRAL,
        },
        Types::Spectre => match defender {
            Types::Psychic | Types::Spectre => SUPER_EFFECTIVE,
            Types::Dark => NOT_VERY_EFFECTIVE,
            Types::Normal => NO_EFFECT,
            _ => NEUTRAL,
        },
        Types::Dragon => match defender {
            Types::Dragon => SUPER_EFFECTIVE,
            Types::Steel => NOT_VERY_EFFECTIVE,
            Types::Fairy => NO_EFFECT,
            _ => NEUTRAL,
        },
        Types::Dark => match defender {
            Types::Psychic | Types::Spectre => SUPER_EFFECTIVE,
            Types::Fighting | Types::Dark | Types::Fairy => NOT_VERY_EFFECTIVE,
            _ => NEUTRAL,
        },
        Types::Steel => match defender {
            Types::Ice | Types::Rock | Types::Fairy => SUPER_EFFECTIVE,
            Types::Fire | Types::Water | Types::Electric | Types::Steel => NOT_VERY_EFFECTIVE,
            _ => NEUTRAL,
        },
        Types::Fairy => match defender {
            Types::Fighting | Types::Bug => SUPER_EFFECTIVE,
            Types::Poison | Types::Steel => NOT_VERY_EFFECTIVE,
            _ => NEUTRAL,
        },
    }
}

/// Every multiplier of the chart is one of the four known ones.
pub proof fn lemma_multiplier_is_known(attacker: Types, defender: Types)
    ensures
        chart_multiplier(attacker, defender) == NO_EFFECT || chart_multiplier(attacker, defender)
            == NOT_VERY_EFFECTIVE || chart_multiplier(attacker, defender) == NEUTRAL
            || chart_multiplier(attacker, defender) == SUPER_EFFECTIVE,
{
}

/// The entries the chart stores: every pairing whose multiplier differs from
/// [`NEUTRAL`], with that multiplier. A pairing that is absent is neutral.
pub open spec fn chart_entries() -> Map<(Types, Types), u8> {
    Map::new(
        |pair: (Types, Types)| chart_multiplier(pair.0, pair.1) != NEUTRAL,
        |pair: (Types, Types)| chart_multiplier(pair.0, pair.1),
    )
}

/// The multiplier that a set of stored entries gives a pairing: the stored
/// one, or [`NEUTRAL`] where none is stored.
pub open spec fn multiplier_in(
    entries: Map<(Types, Types), u8>,
    attacker: Types,
    defender: Types,
) -> u8 {
    if entries.contains_key((attacker, defender)) {
        entries[(attacker, defender)]
    } else {
        NEUTRAL
    }
}

/// A sparse chart of attack multipliers: one row per attacking type, each
/// holding the defenders against which the attack is not neutral.
pub struct TypeChart {
    rows: HashMap<u8, HashMap<u8, u8>>,
}

impl View for TypeChart {
    type V = Map<(Types, Types), u8>;

    closed spec fn view(&self) -> Map<(Types, Types), u8> {
        Map::new(
            |pair: (Types, Types)| row_stores(self.rows@, pair.0, pair.1),
            |pair: (Types, Types)| self.rows@[pair.0.index_spec()]@[pair.1.index_spec()],
        )
    }
}

/// Whether the rows hold an entry for the pairing.
spec fn row_stores(rows: Map<u8, HashMap<u8, u8>>, attacker: Types, defender: Types) -> bool {
    rows.contains_key(attacker.index_spec()) && rows[attacker.index_spec()]@.contains_key(
        defender.index_spec(),
    )
}

/// Whether a row agrees with the chart on one defender.
spec fn entry_agrees(row: Map<u8, u8>, attacker: Types, defender: Types) -> bool {
    let stored = row.contains_key(defender.index_spec());
    &&& stored <==> chart_multiplier(attacker, defender) != NEUTRAL
    &&& stored ==> row[defender.index_spec()] == chart_multiplier(attacker, defender)
}

/// Whether a row agrees with the chart on every defender.
spec fn row_agrees(row: Map<u8, u8>, attacker: Types) -> bool {
    forall|defender: Types| #[trigger] entry_agrees(row, attacker, defender)
}

/// A property that holds of each of the eighteen types holds of every type.
proof fn lemma_every_type(holds: spec_fn(Types) -> bool)
    requires
        holds(Types::Normal),
        holds(Types::Fire),
        holds(Types::Water),
        holds(Types::Electric),
        holds(Types::Grass),
        holds(Types::Ice),
        holds(Types::Fighting),
        holds(Types::Poison),
        holds(Types::Ground),
        holds(Types::Flying),
        holds(Types::Psychic),
        holds(Types::Bug),
        holds(Types::Rock),
        holds(Types::Spectre),
        holds(Types::Dragon),
        holds(Types::Dark),
        holds(Types::Steel),
        holds(Types::Fairy),
    ensures
        forall|t: Types| #[trigger] holds(t),
{
    assert forall|t: Types| #[trigger] holds(t) by {
        match t {
            Types::Normal => assert(holds(Types::Normal)),
            Types::Fire => assert(holds(Types::Fire)),
            Types::Water => assert(holds(Types::Water)),
            Types::Electric => assert(holds(Types::Electric)),
            Types::Grass => assert(holds(Types::Grass)),
            Types::Ice => assert(holds(Types::Ice)),
            Types::Fighting => assert(holds(Types::Fighting)),
            Types::Poison => assert(holds(Types::Poison)),
            Types::Ground => assert(holds(Types::Ground)),
            Types::Flying => assert(holds(Types::Flying)),
            Types::Psychic => assert(holds(Types::Psychic)),
            Types::Bug => assert(holds(Types::Bug)),
            Types::Rock => assert(holds(Types::Rock)),
            Types::Spectre => assert(holds(Types::Spectre)),
            Types::Dragon => assert(holds(Types::Dragon)),
            Types::Dark => assert(holds(Types::Dark)),
            Types::Steel => assert(holds(Types::Steel)),
            Types::Fairy => assert(holds(Types::Fairy)),
        }
    }
}

/// A row that agrees with the chart on each of the eighteen defenders agrees
/// with it on every defender.
proof fn lemma_row_complete(row: Map<u8, u8>, attacker: Types)
    requires
        entry_agrees(row, attacker, Types::Normal),
        entry_agrees(row, attacker, Types::Fire),
        entry_agrees(row, attacker, Types::Water),
        entry_agrees(row, attacker, Types::Electric),
        entry_agrees(row, attacker, Types::Grass),
        entry_agrees(row, attacker, Types::Ice),
        entry_agrees(row, attacker, Types::Fighting),
        entry_agrees(row, attacker, Types::Poison),
        entry_agrees(row, attacker, Types::Ground),
        entry_agrees(row, attacker, Types::Flying),
        entry_agrees(row, attacker, Types::Psychic),
        entry_agrees(row, attacker, Types::Bug),
        entry_agrees(row, attacker, Types::Rock),
        entry_agrees(row, attacker, Types::Spectre),
        entry_agrees(row, attacker, Types::Dragon),
        entry_agrees(row, attacker, Types::Dark),
        entry_agrees(row, attacker, Types::Steel),
        entry_agrees(row, attacker, Types::Fairy),
    ensures
        row_agrees(row, attacker),
{
    lemma_every_type(|defender: Types| entry_agrees(row, attacker, defender));
}

/// Stores one multiplier in a row under the defender's position.
fn record(row: &mut HashMap<u8, u8>, defender: Types, multiplier: u8)
    ensures
        final(row)@ == old(row)@.insert(defender.index_spec(), multiplier),
{
    row.insert(defender.index(), multiplier);
}

/// Builds the chart: for each of the eighteen attacking types a row with the
/// defenders against which its multiplier is not neutral.
pub fn construct_type_chart() -> (chart: TypeChart)
    ensures
        chart@ == chart_entries(),
{
    let mut rows: HashMap<u8, HashMap<u8, u8>> = HashMap::new();

    let mut normal: HashMap<u8, u8> = HashMap::new();
    record(&mut normal, Types::Rock, NOT_VERY_EFFECTIVE);
    record(&mut normal, Types::Spectre, NO_EFFECT);
    proof { lemma_row_complete(normal@, Types::Normal); }
    rows.insert(Types::Normal.index(), normal);

    let mut fire: HashMap<u8, u8> = HashMap::new();
    record(&mut fire, Types::Fire, NOT_VERY_EFFECTIVE);
    record(&mut fire, Types::Water, NOT_VERY_EFFECTIVE);
    record(&mut fire, Types::Grass, SUPER_EFFECTIVE);
    record(&mut fire, Types::Ice, SUPER_EFFECTIVE);
    record(&mut fire, Types::Bug, SUPER_EFFECTIVE);
    record(&mut fire, Types::Rock, NOT_VERY_EFFECTIVE);
    record(&mut fire, Types::Dragon, NOT_VERY_EFFECTIVE);
    record(&mut fire, Types::Steel, SUPER_EFFECTIVE);
    proof { lemma_row_complete(fire@, Types::Fire); }
    rows.insert(Types::Fire.index(), fire);

    let mut water: HashMap<u8, u8> = HashMap::new();
    record(&mut water, Types::Fire, SUPER_EFFECTIVE);
    record(&mut water, Types::Water, NOT_VERY_EFFECTIVE);
    record(&mut water, Types::Grass, NOT_VERY_EFFECTIVE);
    record(&mut water, Types::Ground, SUPER_EFFECTIVE);
    record(&mut water, Types::Rock, SUPER_EFFECTIVE);
    record(&mut water, Types::Dragon, NOT_VERY_EFFECTIVE);
    proof { lemma_row_complete(water@, Types::Water); }
    rows.insert(Types::Water.index(), water);

    let mut grass: HashMap<u8, u8> = HashMap::new();
    record(&mut grass, Types::Fire, NOT_VERY_EFFECTIVE);
    record(&mut grass, Types::Water, SUPER_EFFECTIVE);
    record(&mut grass, Types::Grass, NOT_VERY_EFFECTIVE);
    record(&mut grass, Types::Poison, NOT_VERY_EFFECTIVE);
    record(&mut grass, Types::Ground, SUPER_EFFECTIVE);
    record(&mut grass, Types::Flying, NOT_VERY_EFFECTIVE);
    record(&mut grass, Types::Bug, NOT_VERY_EFFECTIVE);
    record(&mut grass, Types::Rock, SUPER_EFFECTIVE);
    record(&mut grass, Types::Dragon, NOT_VERY_EFFECTIVE);
    record(&mut grass, Types::Steel, NOT_VERY_EFFECTIVE);
    proof { lemma_row_complete(grass@, Types::Grass); }
    rows.insert(Types::Grass.index(), grass);

    let mut electric: HashMap<u8, u8> = HashMap::new();
    record(&mut electric, Types::Water, SUPER_EFFECTIVE);
    record(&mut electric, Types::Electric, NOT_VERY_EFFECTIVE);
    record(&mut electric, Types::Grass, NOT_VERY_EFFECTIVE);
    record(&mut electric, Types::Ground, NO_EFFECT);
    record(&mut electric, Types::Flying, SUPER_EFFECTIVE);
    record(&mut electric, Types::Dragon, NOT_VERY_EFFECTIVE);
    proof { lemma_row_complete(electric@, Types::Electric); }
    rows.insert(Types::Electric.index(), electric);

    let mut ice: HashMap<u8, u8> = HashMap::new();
    record(&mut ice, Types::Fire, NOT_VERY_EFFECTIVE);
    record(&mut ice, Types::Water, NOT_VERY_EFFECTIVE);
    record(&mut ice, Types::Grass, SUPER_EFFECTIVE);
    record(&mut ice, Types::Ice, NOT_VERY_EFFECTIVE);
    record(&mut ice, Types::Ground, SUPER_EFFECTIVE);
    record(&mut ice, Types::Flying, SUPER_EFFECTIVE);
    record(&mut ice, Types::Dragon, SUPER_EFFECTIVE);
    record(&mut ice, Types::Steel, NOT_VERY_EFFECTIVE);
    proof { lemma_row_complete(ice@, Types::Ice); }
    rows.insert(Types::Ice.index(), ice);

    let mut fighting: HashMap<u8, u8> = HashMap::new();
    record(&mut fighting, Types::Normal, SUPER_EFFECTIVE);
    record(&mut fighting, Types::Ice, SUPER_EFFECTIVE);
    record(&mut fighting, Types::Poison, NOT_VERY_EFFECTIVE);
    record(&mut fighting, Types::Flying, NOT_VERY_EFFECTIVE);
    record(&mut fighting, Types::Psychic, NOT_VERY_EFFECTIVE);
    record(&mut fighting, Types::Bug, NOT_VERY_EFFECTIVE);
    record(&mut fighting, Types::Rock, SUPER_EFFECTIVE);
    record(&mut fighting, Types::Spectre, NO_EFFECT);
    record(&mut fighting, Types::Dark, SUPER_EFFECTIVE);
    record(&mut fighting, Types::Steel, SUPER_EFFECTIVE);
    record(&mut fighting, Types::Fairy, NOT_VERY_EFFECTIVE);
    proof { lemma_row_complete(fighting@, Types::Fighting); }
    rows.insert(Types::Fighting.index(), fighting);

    let mut poison: HashMap<u8, u8> = HashMap::new();
    record(&mut poison, Types::Grass, SUPER_EFFECTIVE);
    record(&mut poison, Types::Poison, NOT_VERY_EFFECTIVE);
    record(&mut poison, Types::Ground, NOT_VERY_EFFECTIVE);
    record(&mut poison, Types::Rock, NOT_VERY_EFFECTIVE);
    record(&mut poison, Types::Spectre, NOT_VERY_EFFECTIVE);
    record(&mut poison, Types::Steel, NO_EFFECT);
    record(&mut poison, Types::Fairy, SUPER_EFFECTIVE);
    proof { lemma_row_complete(poison@, Types::Poison); }
    rows.insert(Types::Poison.index(), poison);

    let mut ground: HashMap<u8, u8> = HashMap::new();
    record(&mut ground, Types::Fire, SUPER_EFFECTIVE);
    record(&mut ground, Types::Electric, SUPER_EFFECTIVE);
    record(&mut ground, Types::Grass, NOT_VERY_EFFECTIVE);
    record(&mut ground, Types::Poison, SUPER_EFFECTIVE);
    record(&mut ground, Types::Flying, NO_EFFECT);
    record(&mut ground, Types::Bug, NOT_VERY_EFFECTIVE);
    record(&mut ground, Types::Rock, SUPER_EFFECTIVE);
    record(&mut ground, Types::Steel, SUPER_EFFECTIVE);
    proof { lemma_row_complete(ground@, Types::Ground); }
    rows.insert(Types::Ground.index(), ground);

    let mut flying: HashMap<u8, u8> = HashMap::new();
    record(&mut flying, Types::Electric, NOT_VERY_EFFECTIVE);
    record(&mut flying, Types::Grass, SUPER_EFFECTIVE);
    record(&mut flying, Types::Fighting, SUPER_EFFECTIVE);
    record(&mut flying, Types::Bug, SUPER_EFFECTIVE);
    record(&mut flying, Types::Rock, NOT_VERY_EFFECTIVE);
    record(&mut flying, Types::Steel, NOT_VERY_EFFECTIVE);
    proof { lemma_row_complete(flying@, Types::Flying); }
    rows.insert(Types::Flying.index(), flying);

    let mut psychic: HashMap<u8, u8> = HashMap::new();
    record(&mut psychic, Types::Fighting, SUPER_EFFECTIVE);
    record(&mut psychic, Types::Poison, SUPER_EFFECTIVE);
    record(&mut psychic, Types::Psychic, NOT_VERY_EFFECTIVE);
    record(&mut psychic, Types::Dark, NO_EFFECT);
    record(&mut psychic, Types::Steel, NOT_VERY_EFFECTIVE);
    proof { lemma_row_complete(psychic@, Types::Psychic); }
    rows.insert(Types::Psychic.index(), psychic);

    let mut bug: HashMap<u8, u8> = HashMap::new();
    record(&mut bug, Types::Fire, NOT_VERY_EFFECTIVE);
    record(&mut bug, Types::Grass, SUPER_EFFECTIVE);
    record(&mut bug, Types::Fighting, NOT_VERY_EFFECTIVE);
    record(&mut bug, Types::Poison, NOT_VERY_EFFECTIVE);
    record(&mut bug, Types::Flying, NOT_VERY_EFFECTIVE);
    record(&mut bug, Types::Psychic, SUPER_EFFECTIVE);
    record(&mut bug, Types::Spectre, NOT_VERY_EFFECTIVE);
    record(&mut bug, Types::Dark, SUPER_EFFECTIVE);
    record(&mut bug, Types::Steel, NOT_VERY_EFFECTIVE);
    record(&mut bug, Types::Fairy, NOT_VERY_EFFECTIVE);
    proof { lemma_row_complete(bug@, Types::Bug); }
    rows.insert(Types::Bug.index(), bug);

    let mut rock: HashMap<u8, u8> = HashMap::new();
    record(&mut rock, Types::Fire, SUPER_EFFECTIVE);
    record(&mut rock, Types::Ice, SUPER_EFFECTIVE);
    record(&mut rock, Types::Fighting, NOT_VERY_EFFECTIVE);
    record(&mut rock, Types::Ground, NOT_VERY_EFFECTIVE);
    record(&mut rock, Types::Flying, SUPER_EFFECTIVE);
    record(&mut rock, Types::Bug, SUPER_EFFECTIVE);
    record(&mut rock, Types::Steel, NOT_VERY_EFFECTIVE);
    proof { lemma_row_complete(rock@, Types::Rock); }
    rows.insert(Types::Rock.index(), rock);

    let mut spectre: HashMap<u8, u8> = HashMap::new();
    record(&mut spectre, Types::Normal, NO_EFFECT);
    record(&mut spectre, Types::Psychic, SUPER_EFFECTIVE);
    record(&mut spectre, Types::Spectre, SUPER_EFFECTIVE);
    record(&mut spectre, Types::Dark, NOT_VERY_EFFECTIVE);
    proof { lemma_row_complete(spectre@, Types::Spectre); }
    rows.insert(Types::Spectre.index(), spectre);

    let mut dragon: HashMap<u8, u8> = HashMap::new();
    record(&mut dragon, Types::Dragon, SUPER_EFFECTIVE);
    record(&mut dragon, Types::Steel, NOT_VERY_EFFECTIVE);
    record(&mut dragon, Types::Fairy, NO_EFFECT);
    proof { lemma_row_complete(dragon@, Types::Dragon); }
    rows.insert(Types::Dragon.index(), dragon);

    let mut dark: HashMap<u8, u8> = HashMap::new();
    record(&mut dark, Types::Fighting, NOT_VERY_EFFECTIVE);
    record(&mut dark, Types::Psychic, SUPER_EFFECTIVE);
    record(&mut dark, Types::Spectre, SUPER_EFFECTIVE);
    record(&mut dark, Types::Dark, NOT_VERY_EFFECTIVE);
    record(&mut dark, Types::Fairy, NOT_VERY_EFFECTIVE);
    proof { lemma_row_complete(dark@, Types::Dark); }
    rows.insert(Types::Dark.index(), dark);

    let mut steel: HashMap<u8, u8> = HashMap::new();
    record(&mut steel, Types::Fire, NOT_VERY_EFFECTIVE);
    record(&mut steel, Types::Water, NOT_VERY_EFFECTIVE);
    record(&mut steel, Types::Electric, NOT_VERY_EFFECTIVE);
    record(&mut steel, Types::Ice, SUPER_EFFECTIVE);
    record(&mut steel, Types::Rock, SUPER_EFFECTIVE);
    record(&mut steel, Types::Steel, NOT_VERY_EFFECTIVE);
    record(&mut steel, Types::Fairy, SUPER_EFFECTIVE);
    proof { lemma_row_complete(steel@, Types::Steel); }
    rows.insert(Types::Steel.index(), steel);

    let mut fairy: HashMap<u8, u8> = HashMap::new();
    record(&mut fairy, Types::Fighting, SUPER_EFFECTIVE);
    record(&mut fairy, Types::Poison, NOT_VERY_EFFECTIVE);
    record(&mut fairy, Types::Bug, SUPER_EFFECTIVE);
    record(&mut fairy, Types::Steel, NOT_VERY_EFFECTIVE);
    proof { lemma_row_complete(fairy@, Types::Fairy); }
    rows.insert(Types::Fairy.index(), fairy);

    let chart = TypeChart { rows };
    proof {
        lemma_every_type(|attacker: Types| {
            &&& chart.rows@.contains_key(attacker.index_spec())
            &&& row_agrees(chart.rows@[attacker.index_spec()]@, attacker)
        });
        assert forall|pair: (Types, Types)|
            chart@.contains_key(pair) == chart_entries().contains_key(pair) && (
            chart@.contains_key(pair) ==> chart@[pair] == chart_entries()[pair]) by {
            assert(entry_agrees(chart.rows@[pair.0.index_spec()]@, pair.0, pair.1));
        }
        assert(chart@ =~= chart_entries());
    }
    chart
}

impl TypeChart {
    /// The multiplier of an attack of type `attacker` on a defender of type
    /// `defender`: the stored one, or neutral where the chart stores none.
    pub fn lookup(&self, attacker: Types, defender: Types) -> (multiplier: u8)
        ensures
            multiplier == multiplier_in(self@, attacker, defender),
    {
        let a: u8 = attacker.index();
        let d: u8 = defender.index();
        match self.rows.get(&a) {
            Some(row) => match row.get(&d) {
                Some(stored) => *stored,
                None => NEUTRAL,
            },
            None => NEUTRAL,
        }
    }
}

} // verus!
