//! Rolling dice of the form XdY.
use vstd::prelude::*;

verus! {

/// The sum of a sequence of rolls.
pub open spec fn sum_of(s: Seq<i64>) -> int
    decreases s.len(),
{
    if s.len() == 0 {
        0
    } else {
        sum_of(s.drop_last()) + s.last()
    }
}

/// Whether an integer fits in an `i64`.
pub open spec fn fits_i64(x: int) -> bool {
    i64::MIN <= x <= i64::MAX
}

/// How many dice a roll of `dice` throws: none when `dice` is not positive.
pub open spec fn dice_count(dice: i64) -> int {
    if dice > 0 {
        dice as int
    } else {
        0
    }
}

/// Whether a roll of `dice` dice with `sides` sides can be made and its
/// total always fits in an `i64`.
pub open spec fn roll_ok(dice: i64, sides: i64) -> bool {
    dice <= 0 || (sides >= 1 && dice as int * sides as int <= i64::MAX)
}

/// The dice thrown and their total.
pub struct RollOutcome {
    pub rolls: Vec<i64>,
    pub total: i64,
}

/// Why a roll was refused.
#[derive(Clone, Copy, PartialEq, Eq, Structural, Debug)]
pub enum RollError {
    /// Dice were asked for, but with fewer than one side.
    NoSides,
    /// The largest possible total does not fit in an `i64`.
    TooLarge,
}

/// Relies on rand::thread_rng and rand::Rng::gen_range: a value drawn from
/// the inclusive range `1..=sides`; gen_range panics on an empty range.
#[verifier::external_body]
fn draw_die(sides: i64) -> (r: i64)
    requires
        sides >= 1,
    ensures
        1 <= r <= sides,
{
    rand::Rng::gen_range(&mut rand::thread_rng(), 1..=sides)
}

/// The total of `rolls`, or `None` when it does not fit in an `i64`.
pub fn tally(rolls: &Vec<i64>) -> (r: Option<i64>)
    ensures
        r == if fits_i64(sum_of(rolls@)) {
            Some(sum_of(rolls@) as i64)
        } else {
            None::<i64>
        },
{
    let mut acc: i128 = 0;
    let mut i: usize = 0;
    while i < rolls.len()
        invariant
            i <= rolls@.len(),
            acc == sum_of(rolls@.subrange(0, i as int)),
            -(i as int) * 0x8000_0000_0000_0000 <= acc <= (i as int) * 0x8000_0000_0000_0000,
        decreases rolls@.len() - i,
    {
        proof {
            assert(rolls@.subrange(0, i as int + 1).drop_last() =~= rolls@.subrange(0, i as int));
            assert(i < 0x1_0000_0000_0000_0000);
            assert((i as int + 1) * 0x8000_0000_0000_0000 <= 0x1_0000_0000_0000_0000 * 0x8000_0000_0000_0000)
                by (nonlinear_arith)
                requires
                    i < 0x1_0000_0000_0000_0000,
            ;
        }
        acc = acc + rolls[i] as i128;
        i = i + 1;
        proof {
            assert((i as int) * 0x8000_0000_0000_0000 == (i as int - 1) * 0x8000_0000_0000_0000 + 0x8000_0000_0000_0000)
                by (nonlinear_arith);
        }
    }
    assert(rolls@.subrange(0, i as int) =~= rolls@);
    if acc < i64::MIN as i128 || acc > i64::MAX as i128 {
        None
    } else {
        Some(acc as i64)
    }
}

proof fn lemma_sum_bounded(s: Seq<i64>, sides: int)
    requires
        forall|j: int| 0 <= j < s.len() ==> 1 <= #[trigger] s[j] <= sides,
    ensures
        s.len() <= sum_of(s) <= s.len() * sides,
    decreases s.len(),
{
    if s.len() > 0 {
        lemma_sum_bounded(s.drop_last(), sides);
        assert(s.len() * sides == (s.len() - 1) * sides + sides) by (nonlinear_arith);
    }
}

/// Throws `dice` dice with `sides` sides each. No dice are thrown when
/// `dice` is not positive. Refused when dice would be thrown with fewer
/// than one side, or when the largest possible total does not fit.
pub fn roll(dice: i64, sides: i64) -> (r: Result<RollOutcome, RollError>)
    ensures
        match r {
            Ok(o) => {
                &&& roll_ok(dice, sides)
                &&& o.rolls@.len() == dice_count(dice)
                &&& forall|j: int| 0 <= j < o.rolls@.len() ==> 1 <= #[trigger] o.rolls@[j] <= sides
                &&& o.total == sum_of(o.rolls@)
            },
            Err(e) => {
                &&& !roll_ok(dice, sides)
                &&& e == if sides < 1 {
                    RollError::NoSides
                } else {
                    RollError::TooLarge
                }
            },
        },
{
    if dice > 0 {
        if sides < 1 {
            return Err(RollError::NoSides);
        }
        if dice > i64::MAX / sides {
            proof {
                assert(dice as int * sides as int > i64::MAX) by (nonlinear_arith)
                    requires
                        dice > i64::MAX / sides,
                        sides >= 1,
                ;
            }
            return Err(RollError::TooLarge);
        }
        proof {
            assert(dice as int * sides as int <= i64::MAX) by (nonlinear_arith)
                requires
                    dice <= i64::MAX / sides,
                    sides >= 1,
            ;
        }
    }
    let mut rolls: Vec<i64> = Vec::new();
    let mut i: i64 = 0;
    while i < dice
        invariant
            0 <= i,
            dice > 0 ==> i <= dice,
            dice <= 0 ==> i == 0,
            dice > 0 ==> sides >= 1,
            rolls@.len() == i,
            forall|j: int| 0 <= j < rolls@.len() ==> 1 <= #[trigger] rolls@[j] <= sides,
        decreases dice - i,
    {
        let n = draw_die(sides);
        rolls.push(n);
        i = i + 1;
    }
    proof {
        lemma_sum_bounded(rolls@, sides as int);
        if dice > 0 {
            assert(rolls@.len() * sides <= dice as int * sides as int) by (nonlinear_arith)
                requires
                    rolls@.len() == dice,
            ;
        }
    }
    // The total is at most dice * sides, so the tally always fits.
    let total = match tally(&rolls) {
        Some(t) => t,
        None => 0,
    };
    Ok(RollOutcome { rolls, total })
}

} // verus!
