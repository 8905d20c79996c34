//! The four cardinal facing directions and the quarter-turn cycle on them.

use vstd::prelude::*;

verus! {

/// A full revolution, in thousandths of a degree.
pub const FULL_TURN_MDEG: u32 = 360_000;

/// One quarter revolution, in thousandths of a degree.
pub const QUARTER_TURN_MDEG: u32 = 90_000;

/// The facing direction of the character: always exactly one of the four
/// cardinal values. A turn moves to the adjacent value of the fixed cycle
/// North -> West -> South -> East -> North (left), or its reverse (right).
#[derive(Clone, Copy, Debug, PartialEq, Eq, Structural)]
pub enum FacingDirection {
    North,
    West,
    South,
    East,
}

/// One 90-degree step to the left along the fixed cycle.
pub open spec fn spec_step_left(d: FacingDirection) -> FacingDirection {
    match d {
        FacingDirection::North => FacingDirection::West,
        FacingDirection::West => FacingDirection::South,
        FacingDirection::South => FacingDirection::East,
        FacingDirection::East => FacingDirection::North,
    }
}

/// One 90-degree step to the right: the inverse of a left step.
pub open spec fn spec_step_right(d: FacingDirection) -> FacingDirection {
    match d {
        FacingDirection::North => FacingDirection::East,
        FacingDirection::East => FacingDirection::South,
        FacingDirection::South => FacingDirection::West,
        FacingDirection::West => FacingDirection::North,
    }
}

/// The canonical yaw of each facing, in thousandths of a degree,
/// counterclockwise from North.
pub open spec fn spec_canonical_yaw_mdeg(d: FacingDirection) -> u32 {
    match d {
        FacingDirection::North => 0,
        FacingDirection::West => 90_000,
        FacingDirection::South => 180_000,
        FacingDirection::East => 270_000,
    }
}

/// The facing reached from `d` after `n` left steps.
pub open spec fn spec_step_left_n(d: FacingDirection, n: nat) -> FacingDirection
    decreases n,
{
    if n == 0 {
        d
    } else {
        spec_step_left(spec_step_left_n(d, (n - 1) as nat))
    }
}

pub fn step_left(d: FacingDirection) -> (r: FacingDirection)
    ensures
        r == spec_step_left(d),
{
    match d {
        FacingDirection::North => FacingDirection::West,
        FacingDirection::West => FacingDirection::South,
        FacingDirection::South => FacingDirection::East,
        FacingDirection::East => FacingDirection::North,
    }
}

pub fn step_right(d: FacingDirection) -> (r: FacingDirection)
    ensures
        r == spec_step_right(d),
{
    match d {
        FacingDirection::North => FacingDirection::East,
        FacingDirection::East => FacingDirection::South,
        FacingDirection::South => FacingDirection::West,
        FacingDirection::West => FacingDirection::North,
    }
}

pub fn canonical_yaw_mdeg(d: FacingDirection) -> (r: u32)
    ensures
        r == spec_canonical_yaw_mdeg(d),
{
    match d {
        FacingDirection::North => 0,
        FacingDirection::West => 90_000,
        FacingDirection::South => 180_000,
        FacingDirection::East => 270_000,
    }
}

/// Law: a left step and a right step are mutually inverse, so rotation
/// always moves between adjacent values of one cycle.
pub proof fn lemma_steps_inverse(d: FacingDirection)
    ensures
        spec_step_right(spec_step_left(d)) == d,
        spec_step_left(spec_step_right(d)) == d,
{
}

/// Law: four consecutive left turns return to the original facing.
pub proof fn lemma_left_cycle_closure(d: FacingDirection)
    ensures
        spec_step_left(spec_step_left(spec_step_left(spec_step_left(d)))) == d,
{
}

proof fn lemma_step_left_n_plus_four(d: FacingDirection, n: nat)
    ensures
        spec_step_left_n(d, n + 4) == spec_step_left_n(d, n),
    decreases n,
{
    if n == 0 {
        assert(spec_step_left_n(d, 1) == spec_step_left(d));
        assert(spec_step_left_n(d, 2) == spec_step_left(spec_step_left_n(d, 1)));
        assert(spec_step_left_n(d, 3) == spec_step_left(spec_step_left_n(d, 2)));
        assert(spec_step_left_n(d, 4) == spec_step_left(spec_step_left_n(d, 3)));
        lemma_left_cycle_closure(d);
    } else {
        lemma_step_left_n_plus_four(d, (n - 1) as nat);
        assert(spec_step_left_n(d, n + 4) == spec_step_left(spec_step_left_n(d, ((n - 1) + 4) as nat)));
        assert(spec_step_left_n(d, n) == spec_step_left(spec_step_left_n(d, (n - 1) as nat)));
    }
}

/// Law: the facing after `n` left-turn completions is the facing after
/// `n % 4` of them; the cycle of four is all that matters.
pub proof fn lemma_step_left_n_mod(d: FacingDirection, n: nat)
    ensures
        spec_step_left_n(d, n) == spec_step_left_n(d, n % 4),
    decreases n,
{
    if n >= 4 {
        lemma_step_left_n_plus_four(d, (n - 4) as nat);
        lemma_step_left_n_mod(d, (n - 4) as nat);
        assert((n - 4) % 4 == n % 4) by (nonlinear_arith)
            requires n >= 4,
        ;
    }
}

} // verus!
