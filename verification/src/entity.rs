//! The squid entity's plain state: the flags that it syncs to clients, whether
//! its entity type has fixed dimensions, and the goals that drive it; and the
//! decisions that the entity makes from them.

use vstd::prelude::*;

verus! {

/// Ticks between two ambient sounds of a squid, as for every water creature
/// that can grow up.
pub const AMBIENT_SOUND_INTERVAL: i32 = 120;

/// Particles in the cloud of ink that a hurt squid squirts.
pub const INK_PARTICLES: u32 = 30;

/// Priority of the flee goal; a smaller number runs first.
pub const FLEE_PRIORITY: i32 = 0;

/// Priority of the random swimming goal.
pub const RANDOM_MOVEMENT_PRIORITY: i32 = 1;

/// The goals of a squid.
#[derive(Clone, Copy, Debug, PartialEq, Eq, Structural)]
pub enum SquidGoal {
    /// Swim away from whatever hurt the squid.
    Flee,
    /// Swim about at random.
    RandomMovement,
}

/// Which dimensions a squid takes.
#[derive(Clone, Copy, Debug, PartialEq, Eq, Structural)]
pub enum DimensionSource {
    /// The baby squid's own dimensions, scaled by the squid's scale.
    Baby,
    /// Its entity type's dimensions, unscaled.
    TypeFixed,
    /// Its entity type's dimensions, scaled by the squid's scale.
    TypeScaled,
}

/// The goals of a new squid with their priorities. Fleeing outranks the random
/// swimming goal, which can always run.
pub open spec fn spec_default_goals() -> Seq<(i32, SquidGoal)> {
    seq![(FLEE_PRIORITY, SquidGoal::Flee), (RANDOM_MOVEMENT_PRIORITY, SquidGoal::RandomMovement)]
}

/// Which dimensions a squid takes: a baby takes the baby dimensions, whatever
/// its entity type; otherwise a fixed entity type keeps its dimensions unscaled.
pub open spec fn spec_dimension_source(is_baby: bool, fixed: bool) -> DimensionSource {
    if is_baby {
        DimensionSource::Baby
    } else if fixed {
        DimensionSource::TypeFixed
    } else {
        DimensionSource::TypeScaled
    }
}

/// Builds the goals of a new squid.
pub fn default_goals() -> (goals: Vec<(i32, SquidGoal)>)
    ensures
        goals@ == spec_default_goals(),
{
    let mut goals: Vec<(i32, SquidGoal)> = Vec::new();
    goals.push((FLEE_PRIORITY, SquidGoal::Flee));
    goals.push((RANDOM_MOVEMENT_PRIORITY, SquidGoal::RandomMovement));
    goals
}

/// In the goals of a new squid, every flee goal has a smaller priority number,
/// and so runs before, every random swimming goal; and both goals are there.
pub proof fn lemma_flee_outranks_random_movement()
    ensures
        forall|i: int, j: int|
            0 <= i < spec_default_goals().len() && 0 <= j < spec_default_goals().len()
                && spec_default_goals()[i].1 == SquidGoal::Flee && spec_default_goals()[j].1
                == SquidGoal::RandomMovement ==> spec_default_goals()[i].0
                < spec_default_goals()[j].0,
        exists|i: int| 0 <= i < spec_default_goals().len() && spec_default_goals()[i].1 == SquidGoal::Flee,
        exists|j: int|
            0 <= j < spec_default_goals().len() && spec_default_goals()[j].1
                == SquidGoal::RandomMovement,
{
    assert(spec_default_goals()[0].1 == SquidGoal::Flee);
    assert(spec_default_goals()[1].1 == SquidGoal::RandomMovement);
}

/// A hurt squid squirts ink when the hurt went through and a mob is known to
/// have hurt it.
pub open spec fn spec_hurt_spawns_ink(hurt: bool, has_attacker: bool) -> bool {
    hurt && has_attacker
}

/// Decides whether a hurt squid squirts ink.
pub fn hurt_spawns_ink(hurt: bool, has_attacker: bool) -> (ink: bool)
    ensures
        ink == spec_hurt_spawns_ink(hurt, has_attacker),
{
    hurt && has_attacker
}

/// The abstract state of a squid.
pub struct SquidModel {
    pub age_locked: bool,
    pub baby: bool,
    pub mob_flags: i8,
    pub fixed_dimensions: bool,
    pub goals: Seq<(i32, SquidGoal)>,
}

/// The plain state of a squid entity.
pub struct SquidEntity {
    age_locked: bool,
    baby: bool,
    mob_flags: i8,
    fixed_dimensions: bool,
    goals: Vec<(i32, SquidGoal)>,
}

impl View for SquidEntity {
    type V = SquidModel;

    closed spec fn view(&self) -> SquidModel {
        SquidModel {
            age_locked: self.age_locked,
            baby: self.baby,
            mob_flags: self.mob_flags,
            fixed_dimensions: self.fixed_dimensions,
            goals: self.goals@,
        }
    }
}

impl SquidEntity {
    /// A new squid of an entity type that has fixed dimensions or not: it is
    /// not age locked, not a baby, has no mob flags set, and has its goals.
    pub fn new(fixed_dimensions: bool) -> (squid: SquidEntity)
        ensures
            squid@ == (SquidModel {
                age_locked: false,
                baby: false,
                mob_flags: 0,
                fixed_dimensions,
                goals: spec_default_goals(),
            }),
    {
        SquidEntity {
            age_locked: false,
            baby: false,
            mob_flags: 0,
            fixed_dimensions,
            goals: default_goals(),
        }
    }

    pub fn is_age_locked(&self) -> (locked: bool)
        ensures
            locked == self@.age_locked,
    {
        self.age_locked
    }

    pub fn set_age_locked(&mut self, age_locked: bool)
        ensures
            final(self)@ == (SquidModel { age_locked, ..old(self)@ }),
    {
        self.age_locked = age_locked;
    }

    /// Whether the synced data tells the clients that the squid is a baby.
    pub fn is_synced_baby(&self) -> (baby: bool)
        ensures
            baby == self@.baby,
    {
        self.baby
    }

    pub fn set_synced_baby(&mut self, baby: bool)
        ensures
            final(self)@ == (SquidModel { baby, ..old(self)@ }),
    {
        self.baby = baby;
    }

    pub fn mob_flags(&self) -> (flags: i8)
        ensures
            flags == self@.mob_flags,
    {
        self.mob_flags
    }

    pub fn set_mob_flags(&mut self, flags: i8)
        ensures
            final(self)@ == (SquidModel { mob_flags: flags, ..old(self)@ }),
    {
        self.mob_flags = flags;
    }

    /// The squid's goals with their priorities.
    pub fn goals(&self) -> (goals: &Vec<(i32, SquidGoal)>)
        ensures
            goals@ == self@.goals,
    {
        &self.goals
    }

    /// Which dimensions the squid takes, given whether it is a baby.
    pub fn dimensions_source(&self, is_baby: bool) -> (source: DimensionSource)
        ensures
            source == spec_dimension_source(is_baby, self@.fixed_dimensions),
    {
        if is_baby {
            DimensionSource::Baby
        } else if self.fixed_dimensions {
            DimensionSource::TypeFixed
        } else {
            DimensionSource::TypeScaled
        }
    }

    /// Ticks between two ambient sounds.
    pub fn ambient_sound_interval(&self) -> (ticks: i32)
        ensures
            ticks == AMBIENT_SOUND_INTERVAL,
    {
        AMBIENT_SOUND_INTERVAL
    }

    /// A squid swims against the current: fluids do not push it.
    pub fn is_pushed_by_fluid(&self) -> (pushed: bool)
        ensures
            !pushed,
    {
        false
    }
}

/// What is written into one synced flag is read back from it, and the other
/// flags, the dimensions and the goals stay as they were.
pub proof fn lemma_synced_flags_read_back(m: SquidModel, locked: bool, baby: bool, flags: i8)
    ensures
        (SquidModel { age_locked: locked, ..m }).age_locked == locked,
        (SquidModel { baby, ..m }).baby == baby,
        (SquidModel { mob_flags: flags, ..m }).mob_flags == flags,
        (SquidModel { age_locked: locked, ..m }).baby == m.baby,
        (SquidModel { age_locked: locked, ..m }).mob_flags == m.mob_flags,
        (SquidModel { baby, ..m }).age_locked == m.age_locked,
        (SquidModel { baby, ..m }).mob_flags == m.mob_flags,
        (SquidModel { mob_flags: flags, ..m }).age_locked == m.age_locked,
        (SquidModel { mob_flags: flags, ..m }).baby == m.baby,
{
}

/// A baby squid takes the baby dimensions, whether its entity type has fixed
/// dimensions or not.
pub proof fn lemma_baby_dimensions_win(fixed: bool)
    ensures
        spec_dimension_source(true, fixed) == DimensionSource::Baby,
{
}

} // verus!
