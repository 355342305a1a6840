use vstd::prelude::*;

use crate::identity::Identity;

verus! {

broadcast use vstd::array::group_array_axioms;

/// Pockets are 0 through 36 plus the "00" pocket, which is written 37.
pub const MAX_OUTCOME: u8 = 37;

/// The numbers 1 through 36 form the betting grid of twelve rows of three.
pub open spec fn in_grid(n: int) -> bool {
    1 <= n <= 36
}

/// The grid row of a number in 1..=36: 1, 2, 3 sit in row 0, then 4, 5, 6,
/// and so on.
pub open spec fn row_of(n: int) -> int {
    (n - 1) / 3
}

/// A number that opens a grid row: 1, 4, 7, ...
pub open spec fn is_row_start(n: int) -> bool {
    (n - 1) % 3 == 0
}

/// Some slot of the array holds the value `v`.
pub open spec fn mem(s: Seq<u8>, v: int) -> bool {
    exists|i: int| 0 <= i < s.len() && s[i] == v
}

/// Two pockets form a legal split: distinct, and either the special 0/00
/// pair, or grid neighbours (one atop the other, or side by side in a row).
pub open spec fn valid_split(a: u8, b: u8) -> bool {
    a != b && {
        ||| (a == 0 && b == 37) || (a == 37 && b == 0)
        ||| in_grid(a as int) && in_grid(b as int) && {
            ||| a + 3 == b || b + 3 == a
            ||| (a + 1 == b || b + 1 == a) && row_of(a as int) == row_of(b as int)
        }
    }
}

/// The three numbers are exactly the row that starts at `s`.
pub open spec fn street_at(ns: [u8; 3], s: int) -> bool {
    &&& 1 <= s && s + 2 <= 36
    &&& is_row_start(s)
    &&& mem(ns@, s)
    &&& mem(ns@, s + 1)
    &&& mem(ns@, s + 2)
}

pub open spec fn valid_street(ns: [u8; 3]) -> bool {
    exists|s: int| street_at(ns, s)
}

/// The four numbers are exactly the square whose top-left corner is `s`,
/// which must not sit in the rightmost column.
pub open spec fn corner_at(ns: [u8; 4], s: int) -> bool {
    &&& 1 <= s && s + 4 <= 36
    &&& (s - 1) % 3 != 2
    &&& mem(ns@, s)
    &&& mem(ns@, s + 1)
    &&& mem(ns@, s + 3)
    &&& mem(ns@, s + 4)
}

pub open spec fn valid_corner(ns: [u8; 4]) -> bool {
    exists|s: int| corner_at(ns, s)
}

/// The six numbers are exactly the two adjacent rows starting at row-start `s`.
pub open spec fn line_at(ns: [u8; 6], s: int) -> bool {
    &&& 1 <= s && s + 5 <= 36
    &&& is_row_start(s)
    &&& mem(ns@, s)
    &&& mem(ns@, s + 1)
    &&& mem(ns@, s + 2)
    &&& mem(ns@, s + 3)
    &&& mem(ns@, s + 4)
    &&& mem(ns@, s + 5)
}

pub open spec fn valid_line(ns: [u8; 6]) -> bool {
    exists|s: int| line_at(ns, s)
}

/// A street covers three distinct values with three slots, so every slot
/// carries one of the covered values.
proof fn lemma_street_elements(ns: [u8; 3], s: int)
    requires
        street_at(ns, s),
    ensures
        forall|i: int| 0 <= i < 3 ==> s <= #[trigger] ns@[i] <= s + 2,
{
    let i0 = choose|i: int| 0 <= i < 3 && ns@[i] == s;
    let i1 = choose|i: int| 0 <= i < 3 && ns@[i] == s + 1;
    let i2 = choose|i: int| 0 <= i < 3 && ns@[i] == s + 2;
    assert forall|i: int| 0 <= i < 3 implies s <= #[trigger] ns@[i] <= s + 2 by {
        assert(i == i0 || i == i1 || i == i2);
    }
}

/// A corner covers four distinct values with four slots.
proof fn lemma_corner_elements(ns: [u8; 4], s: int)
    requires
        corner_at(ns, s),
    ensures
        forall|i: int| 0 <= i < 4 ==> s <= #[trigger] ns@[i] <= s + 4 && ns@[i] != s + 2,
{
    let i0 = choose|i: int| 0 <= i < 4 && ns@[i] == s;
    let i1 = choose|i: int| 0 <= i < 4 && ns@[i] == s + 1;
    let i3 = choose|i: int| 0 <= i < 4 && ns@[i] == s + 3;
    let i4 = choose|i: int| 0 <= i < 4 && ns@[i] == s + 4;
    assert forall|i: int| 0 <= i < 4 implies s <= #[trigger] ns@[i] <= s + 4 && ns@[i] != s + 2 by {
        assert(i == i0 || i == i1 || i == i3 || i == i4);
    }
}

/// A line covers six distinct values with six slots.
proof fn lemma_line_elements(ns: [u8; 6], s: int)
    requires
        line_at(ns, s),
    ensures
        forall|i: int| 0 <= i < 6 ==> s <= #[trigger] ns@[i] <= s + 5,
{
    let i0 = choose|i: int| 0 <= i < 6 && ns@[i] == s;
    let i1 = choose|i: int| 0 <= i < 6 && ns@[i] == s + 1;
    let i2 = choose|i: int| 0 <= i < 6 && ns@[i] == s + 2;
    let i3 = choose|i: int| 0 <= i < 6 && ns@[i] == s + 3;
    let i4 = choose|i: int| 0 <= i < 6 && ns@[i] == s + 4;
    let i5 = choose|i: int| 0 <= i < 6 && ns@[i] == s + 5;
    assert forall|i: int| 0 <= i < 6 implies s <= #[trigger] ns@[i] <= s + 5 by {
        assert(i == i0 || i == i1 || i == i2 || i == i3 || i == i4 || i == i5);
    }
}

fn contains3(ns: &[u8; 3], v: u8) -> (r: bool)
    ensures
        r == mem(ns@, v as int),
{
    ns[0] == v || ns[1] == v || ns[2] == v
}

fn contains4(ns: &[u8; 4], v: u8) -> (r: bool)
    ensures
        r == mem(ns@, v as int),
{
    ns[0] == v || ns[1] == v || ns[2] == v || ns[3] == v
}

fn contains6(ns: &[u8; 6], v: u8) -> (r: bool)
    ensures
        r == mem(ns@, v as int),
{
    ns[0] == v || ns[1] == v || ns[2] == v || ns[3] == v || ns[4] == v || ns[5] == v
}

/// The closed set of wager shapes the table accepts.
#[derive(Clone, Copy, Debug, PartialEq, Eq)]
#[allow(inconsistent_fields)]
pub enum BetType {
    /// Bet on a single pocket (0-36, or 37 for 00).
    StraightUp { number: u8 },
    /// Bet on two adjacent numbers.
    Split { numbers: [u8; 2] },
    /// Bet on the three numbers of one row.
    Street { numbers: [u8; 3] },
    /// Bet on four numbers that meet at a corner.
    Corner { numbers: [u8; 4] },
    /// Bet on 0, 00, 1, 2, 3.
    FiveNumber,
    /// Bet on the six numbers of two adjacent rows.
    Line { numbers: [u8; 6] },
    /// Bet on a column (1, 2, or 3).
    Column { column: u8 },
    /// Bet on a dozen (1, 2, or 3).
    Dozen { dozen: u8 },
    /// Bet on red.
    Red,
    /// Bet on black.
    Black,
    /// Bet on even numbers.
    Even,
    /// Bet on odd numbers.
    Odd,
    /// Bet on high numbers (19-36).
    High,
    /// Bet on low numbers (1-18).
    Low,
}

impl BetType {
    /// Which shapes are legal wagers, as placement must check them.
    pub open spec fn spec_valid(self) -> bool {
        match self {
            BetType::StraightUp { number } => number <= MAX_OUTCOME,
            BetType::Split { numbers } => valid_split(numbers@[0], numbers@[1]),
            BetType::Street { numbers } => valid_street(numbers),
            BetType::Corner { numbers } => valid_corner(numbers),
            BetType::FiveNumber => true,
            BetType::Line { numbers } => valid_line(numbers),
            BetType::Column { column } => 1 <= column <= 3,
            BetType::Dozen { dozen } => 1 <= dozen <= 3,
            BetType::Red => true,
            BetType::Black => true,
            BetType::Even => true,
            BetType::Odd => true,
            BetType::High => true,
            BetType::Low => true,
        }
    }

    /// Two numbers make a split when they are grid neighbours, or are the
    /// special 0/00 pair.
    fn is_valid_split(n1: u8, n2: u8) -> (r: bool)
        ensures
            r == valid_split(n1, n2),
    {
        if n1 == n2 {
            return false;
        }
        if (n1 == 0 && n2 == 37) || (n1 == 37 && n2 == 0) {
            return true;
        }
        if n1 < 1 || n1 > 36 || n2 < 1 || n2 > 36 {
            return false;
        }
        let (lo, hi) = if n1 < n2 {
            (n1, n2)
        } else {
            (n2, n1)
        };
        let diff = hi - lo;
        if diff == 3 {
            true
        } else if diff == 1 {
            (lo - 1) / 3 == (hi - 1) / 3
        } else {
            false
        }
    }

    /// Three numbers make a street when they are one full row.
    fn is_valid_street(numbers: &[u8; 3]) -> (r: bool)
        ensures
            r == valid_street(*numbers),
    {
        if numbers[0] < 1 || numbers[0] > 36 || numbers[1] < 1 || numbers[1] > 36 || numbers[2] < 1
            || numbers[2] > 36 {
            proof {
                if valid_street(*numbers) {
                    let s = choose|s: int| street_at(*numbers, s);
                    lemma_street_elements(*numbers, s);
                }
            }
            return false;
        }
        let mut m = numbers[0];
        if numbers[1] < m {
            m = numbers[1];
        }
        if numbers[2] < m {
            m = numbers[2];
        }
        let r = m <= 34 && contains3(numbers, m + 1) && contains3(numbers, m + 2) && (m - 1) % 3
            == 0;
        proof {
            if r {
                assert(street_at(*numbers, m as int));
            } else if valid_street(*numbers) {
                let s = choose|s: int| street_at(*numbers, s);
                lemma_street_elements(*numbers, s);
                assert(m == s);
            }
        }
        r
    }

    /// Four numbers make a corner when they are a two-by-two square of the
    /// grid.
    fn is_valid_corner(numbers: &[u8; 4]) -> (r: bool)
        ensures
            r == valid_corner(*numbers),
    {
        if numbers[0] < 1 || numbers[0] > 36 || numbers[1] < 1 || numbers[1] > 36 || numbers[2] < 1
            || numbers[2] > 36 || numbers[3] < 1 || numbers[3] > 36 {
            proof {
                if valid_corner(*numbers) {
                    let s = choose|s: int| corner_at(*numbers, s);
                    lemma_corner_elements(*numbers, s);
                }
            }
            return false;
        }
        let mut m = numbers[0];
        if numbers[1] < m {
            m = numbers[1];
        }
        if numbers[2] < m {
            m = numbers[2];
        }
        if numbers[3] < m {
            m = numbers[3];
        }
        let r = m <= 32 && contains4(numbers, m + 1) && contains4(numbers, m + 3) && contains4(
            numbers,
            m + 4,
        ) && (m - 1) % 3 != 2;
        proof {
            if r {
                assert(corner_at(*numbers, m as int));
            } else if valid_corner(*numbers) {
                let s = choose|s: int| corner_at(*numbers, s);
                lemma_corner_elements(*numbers, s);
                assert(m == s);
            }
        }
        r
    }

    /// Six numbers make a line when they are two adjacent full rows.
    fn is_valid_line(numbers: &[u8; 6]) -> (r: bool)
        ensures
            r == valid_line(*numbers),
    {
        if numbers[0] < 1 || numbers[0] > 36 || numbers[1] < 1 || numbers[1] > 36 || numbers[2] < 1
            || numbers[2] > 36 || numbers[3] < 1 || numbers[3] > 36 || numbers[4] < 1 || numbers[4]
            > 36 || numbers[5] < 1 || numbers[5] > 36 {
            proof {
                if valid_line(*numbers) {
                    let s = choose|s: int| line_at(*numbers, s);
                    lemma_line_elements(*numbers, s);
                }
            }
            return false;
        }
        let mut m = numbers[0];
        if numbers[1] < m {
            m = numbers[1];
        }
        if numbers[2] < m {
            m = numbers[2];
        }
        if numbers[3] < m {
            m = numbers[3];
        }
        if numbers[4] < m {
            m = numbers[4];
        }
        if numbers[5] < m {
            m = numbers[5];
        }
        let r = m <= 31 && contains6(numbers, m + 1) && contains6(numbers, m + 2) && contains6(
            numbers,
            m + 3,
        ) && contains6(numbers, m + 4) && contains6(numbers, m + 5) && (m - 1) % 3 == 0;
        proof {
            if r {
                assert(line_at(*numbers, m as int));
            } else if valid_line(*numbers) {
                let s = choose|s: int| line_at(*numbers, s);
                lemma_line_elements(*numbers, s);
                assert(m == s);
            }
        }
        r
    }

    /// The 18 red pockets of the American wheel.
    pub open spec fn is_red(o: u8) -> bool {
        o == 1 || o == 3 || o == 5 || o == 7 || o == 9 || o == 12 || o == 14 || o == 16 || o == 18
            || o == 19 || o == 21 || o == 23 || o == 25 || o == 27 || o == 30 || o == 32 || o == 34
            || o == 36
    }

    /// The 18 black pockets of the American wheel.
    pub open spec fn is_black(o: u8) -> bool {
        o == 2 || o == 4 || o == 6 || o == 8 || o == 10 || o == 11 || o == 13 || o == 15 || o == 17
            || o == 20 || o == 22 || o == 24 || o == 26 || o == 28 || o == 29 || o == 31 || o == 33
            || o == 35
    }

    /// Whether the wager wins when the wheel lands on `outcome`.
    pub open spec fn spec_wins(self, outcome: u8) -> bool {
        match self {
            BetType::StraightUp { number } => outcome == number,
            BetType::Split { numbers } => mem(numbers@, outcome as int),
            BetType::Street { numbers } => mem(numbers@, outcome as int),
            BetType::Corner { numbers } => mem(numbers@, outcome as int),
            BetType::FiveNumber => outcome == 0 || outcome == 1 || outcome == 2 || outcome == 3
                || outcome == 37,
            BetType::Line { numbers } => mem(numbers@, outcome as int),
            BetType::Column { column } => in_grid(outcome as int) && (outcome - 1) % 3 + 1
                == column,
            BetType::Dozen { dozen } => (1 <= outcome <= 12 && dozen == 1) || (13 <= outcome <= 24
                && dozen == 2) || (25 <= outcome <= 36 && dozen == 3),
            BetType::Red => Self::is_red(outcome),
            BetType::Black => Self::is_black(outcome),
            BetType::Even => in_grid(outcome as int) && outcome % 2 == 0,
            BetType::Odd => in_grid(outcome as int) && outcome % 2 == 1,
            BetType::High => 19 <= outcome <= 36,
            BetType::Low => 1 <= outcome <= 18,
        }
    }

    /// The pockets on which the wager pays, as a set.
    pub open spec fn winning_set(self) -> Set<u8> {
        Set::new(|o: u8| self.spec_wins(o))
    }

    /// A wager may only be stored if its shape is legal.
    pub fn is_valid(&self) -> (r: bool)
        ensures
            r == self.spec_valid(),
    {
        match self {
            BetType::StraightUp { number } => *number <= MAX_OUTCOME,
            BetType::Split { numbers } => Self::is_valid_split(numbers[0], numbers[1]),
            BetType::Street { numbers } => Self::is_valid_street(numbers),
            BetType::Corner { numbers } => Self::is_valid_corner(numbers),
            BetType::FiveNumber => true,
            BetType::Line { numbers } => Self::is_valid_line(numbers),
            BetType::Column { column } => 1 <= *column && *column <= 3,
            BetType::Dozen { dozen } => 1 <= *dozen && *dozen <= 3,
            BetType::Red => true,
            BetType::Black => true,
            BetType::Even => true,
            BetType::Odd => true,
            BetType::High => true,
            BetType::Low => true,
        }
    }

    /// Decides, at claim time, whether the wager won the resolved outcome.
    pub fn is_winner(&self, outcome: u8) -> (r: bool)
        ensures
            r == self.spec_wins(outcome),
            r == self.winning_set().contains(outcome),
    {
        match self {
            BetType::StraightUp { number } => *number == outcome,
            BetType::Split { numbers } => numbers[0] == outcome || numbers[1] == outcome,
            BetType::Street { numbers } => contains3(numbers, outcome),
            BetType::Corner { numbers } => contains4(numbers, outcome),
            BetType::FiveNumber => matches!(outcome, 0 | 1 | 2 | 3 | 37),
            BetType::Line { numbers } => contains6(numbers, outcome),
            BetType::Column { column } => {
                // 0 and 37 (00) are in no column
                if outcome == 0 || outcome > 36 {
                    false
                } else {
                    (outcome - 1) % 3 + 1 == *column
                }
            },
            BetType::Dozen { dozen } => {
                // 0 and 37 (00) are in no dozen
                if 1 <= outcome && outcome <= 12 {
                    *dozen == 1
                } else if 13 <= outcome && outcome <= 24 {
                    *dozen == 2
                } else if 25 <= outcome && outcome <= 36 {
                    *dozen == 3
                } else {
                    false
                }
            },
            BetType::Red => matches!(
                outcome,
                1 | 3 | 5 | 7 | 9 | 12 | 14 | 16 | 18 | 19 | 21 | 23 | 25 | 27 | 30 | 32 | 34 | 36
            ),
            BetType::Black => matches!(
                outcome,
                2 | 4 | 6 | 8 | 10 | 11 | 13 | 15 | 17 | 20 | 22 | 24 | 26 | 28 | 29 | 31 | 33
                | 35
            ),
            BetType::Even => outcome > 0 && outcome <= 36 && outcome % 2 == 0,
            BetType::Odd => outcome > 0 && outcome <= 36 && outcome % 2 == 1,
            BetType::High => outcome >= 19 && outcome <= 36,
            BetType::Low => outcome >= 1 && outcome <= 18,
        }
    }

    /// The winnings per unit of stake: a winner is paid its stake times this,
    /// plus the stake back.
    pub open spec fn spec_payout_multiplier(self) -> u8 {
        match self {
            BetType::StraightUp { .. } => 35,
            BetType::Split { .. } => 17,
            BetType::Street { .. } => 11,
            BetType::Corner { .. } => 8,
            BetType::FiveNumber => 6,
            BetType::Line { .. } => 5,
            BetType::Column { .. } => 2,
            BetType::Dozen { .. } => 2,
            BetType::Red => 1,
            BetType::Black => 1,
            BetType::Even => 1,
            BetType::Odd => 1,
            BetType::High => 1,
            BetType::Low => 1,
        }
    }

    pub fn payout_multiplier(&self) -> (r: u8)
        ensures
            r == self.spec_payout_multiplier(),
    {
        match self {
            BetType::StraightUp { .. } => 35,
            BetType::Split { .. } => 17,
            BetType::Street { .. } => 11,
            BetType::Corner { .. } => 8,
            BetType::FiveNumber => 6,
            BetType::Line { .. } => 5,
            BetType::Column { .. } => 2,
            BetType::Dozen { .. } => 2,
            BetType::Red | BetType::Black | BetType::Even | BetType::Odd | BetType::High
            | BetType::Low => 1,
        }
    }
}

/// The full payout owed to a winning bet: the winnings plus the stake back.
pub open spec fn payout_of(amount: u64, bet_type: BetType) -> int {
    amount * bet_type.spec_payout_multiplier() + amount
}

/// One player's wager against one round: the stake is escrowed in the vault
/// at placement and paid back with winnings on at most one successful claim.
#[derive(Clone, Copy, Debug, PartialEq, Eq)]
pub struct Bet {
    /// Player who placed the bet.
    pub player: Identity,
    /// Number of the round the bet was placed against.
    pub round_number: u64,
    /// Stake escrowed for the bet.
    pub amount: u64,
    /// Set exactly once, when the winnings are paid out.
    pub is_claimed: bool,
    /// The wager's shape; immutable after placement.
    pub bet_type: BetType,
}

} // verus!
