use vstd::prelude::*;

verus! {

/// Side of a position or order.
#[derive(Debug, Clone, Copy, PartialEq, Eq, Hash, Structural)]
pub enum Direction {
    Long,
    Short,
    Both,
}

impl Direction {
    /// Position of the direction in `Direction::ALL`.
    pub open spec fn spec_index(self) -> nat {
        match self {
            Direction::Long => 0,
            Direction::Short => 1,
            Direction::Both => 2,
        }
    }

    /// Direction at a position of `Direction::ALL`; every position past the
    /// last one names `Both`.
    pub open spec fn spec_from_index(index: nat) -> Direction {
        if index == 0 {
            Direction::Long
        } else if index == 1 {
            Direction::Short
        } else {
            Direction::Both
        }
    }

    /// The direction on the other side; `Both` is its own opposite.
    pub open spec fn spec_opposite(self) -> Direction {
        match self {
            Direction::Long => Direction::Short,
            Direction::Short => Direction::Long,
            Direction::Both => Direction::Both,
        }
    }

    /// Direction given by the sign of an integer: positive is `Long`,
    /// negative is `Short`, zero is `Both`.
    pub open spec fn spec_from_sign(value: int) -> Direction {
        if value > 0 {
            Direction::Long
        } else if value < 0 {
            Direction::Short
        } else {
            Direction::Both
        }
    }

    pub const ALL: [Direction; 3] = [Direction::Long, Direction::Short, Direction::Both];

    pub fn index(&self) -> (r: usize)
        ensures
            r == self.spec_index(),
    {
        match self {
            Direction::Long => 0,
            Direction::Short => 1,
            Direction::Both => 2,
        }
    }

    pub fn from_index(index: usize) -> (r: Self)
        ensures
            r == Direction::spec_from_index(index as nat),
    {
        match index {
            0 => Direction::Long,
            1 => Direction::Short,
            _ => Direction::Both,
        }
    }

    pub fn oposite(&self) -> (r: Self)
        ensures
            r == self.spec_opposite(),
    {
        match self {
            Direction::Short => Direction::Long,
            Direction::Long => Direction::Short,
            Direction::Both => Direction::Both,
        }
    }

    pub fn is_long(&self) -> (r: bool)
        ensures
            r == (*self == Direction::Long),
    {
        *self == Direction::Long
    }

    pub fn is_short(&self) -> (r: bool)
        ensures
            r == (*self == Direction::Short),
    {
        *self == Direction::Short
    }

    pub fn is_both(&self) -> (r: bool)
        ensures
            r == (*self == Direction::Both),
    {
        *self == Direction::Both
    }
}

/// `from_index` undoes `index`.
pub proof fn lemma_from_index_of_index(d: Direction)
    ensures
        Direction::spec_from_index(d.spec_index()) == d,
{
}

/// `index` undoes `from_index` on the positions of `Direction::ALL`, and
/// every position past them names `Both`.
pub proof fn lemma_index_of_from_index(i: nat)
    ensures
        i < 3 ==> Direction::spec_from_index(i).spec_index() == i,
        i >= 3 ==> Direction::spec_from_index(i) == Direction::Both,
{
}

/// `Direction::ALL` lists each direction once, at its index.
pub proof fn lemma_all_lists_by_index(d: Direction)
    ensures
        Direction::ALL@[d.spec_index() as int] == d,
        d.spec_index() < 3,
{
}

/// Taking the opposite twice gives the direction back, and only `Both` is
/// its own opposite.
pub proof fn lemma_opposite_involutive(d: Direction)
    ensures
        d.spec_opposite().spec_opposite() == d,
        (d.spec_opposite() == d) <==> (d == Direction::Both),
{
}

/// A direction is exactly one of long, short and both.
pub proof fn lemma_exactly_one_kind(d: Direction)
    ensures
        (d == Direction::Long) || (d == Direction::Short) || (d == Direction::Both),
        !((d == Direction::Long) && (d == Direction::Short)),
        !((d == Direction::Long) && (d == Direction::Both)),
        !((d == Direction::Short) && (d == Direction::Both)),
{
}

/// Negating a value turns the direction it gives to the opposite one.
pub proof fn lemma_from_sign_negation(value: int)
    ensures
        Direction::spec_from_sign(-value) == Direction::spec_from_sign(value).spec_opposite(),
{
}

/// A positive value gives `Long`, a negative one `Short` and zero `Both`,
/// both for the sign rule and for `Direction::from` on an `i32`.
pub proof fn lemma_from_sign_cases(value: int, small: i32)
    ensures
        value > 0 ==> Direction::spec_from_sign(value) == Direction::Long,
        value < 0 ==> Direction::spec_from_sign(value) == Direction::Short,
        value == 0 ==> Direction::spec_from_sign(value) == Direction::Both,
        small > 0 ==> <Direction as vstd::std_specs::convert::FromSpec<i32>>::from_spec(small)
            == Direction::Long,
        small < 0 ==> <Direction as vstd::std_specs::convert::FromSpec<i32>>::from_spec(small)
            == Direction::Short,
        small == 0 ==> <Direction as vstd::std_specs::convert::FromSpec<i32>>::from_spec(small)
            == Direction::Both,
{
}

/// `Long`, `Short` and `Both` stand at positions 0, 1 and 2, and each side's
/// opposite is the other side.
pub proof fn lemma_direction_table()
    ensures
        Direction::Long.spec_index() == 0,
        Direction::Short.spec_index() == 1,
        Direction::Both.spec_index() == 2,
        Direction::spec_from_index(0) == Direction::Long,
        Direction::spec_from_index(1) == Direction::Short,
        Direction::spec_from_index(2) == Direction::Both,
        Direction::Long.spec_opposite() == Direction::Short,
        Direction::Short.spec_opposite() == Direction::Long,
        Direction::Both.spec_opposite() == Direction::Both,
{
}

impl Default for Direction {
    fn default() -> (r: Self)
        ensures
            r == Direction::Both,
    {
        Direction::Both
    }
}

impl From<i32> for Direction {
    fn from(value: i32) -> (r: Self) {
        if value > 0 {
            Direction::Long
        } else if value < 0 {
            Direction::Short
        } else {
            Direction::Both
        }
    }
}

impl vstd::std_specs::convert::FromSpecImpl<i32> for Direction {
    open spec fn obeys_from_spec() -> bool {
        true
    }

    open spec fn from_spec(value: i32) -> Direction {
        Direction::spec_from_sign(value as int)
    }
}

/// Role of an order within a position.
#[derive(Debug, Clone, Copy, PartialEq, Eq, Structural)]
pub enum OrderRole {
    Entry,
    TakeProfit,
    StopLoss,
    Other,
}

/// Crossing state reported by cross-type indicators.
#[derive(Debug, Clone, Copy, PartialEq, Eq, Structural)]
pub enum ModuleIndicatorCross {
    Cross,
    Body,
    Shadow,
    No,
    Above,
    Below,
}

/// Side of a standing limit order emitted by a module.
///
/// `Buy` (the default) is an entry / DCA order that increases the position;
/// `Sell` is a reduce-only partial-close order that decreases it.
#[derive(Debug, Clone, Copy, PartialEq, Eq, Structural)]
pub enum ModuleOrderSide {
    Buy,
    Sell,
}

impl Default for ModuleOrderSide {
    fn default() -> (r: Self)
        ensures
            r == ModuleOrderSide::Buy,
    {
        ModuleOrderSide::Buy
    }
}

/// Request to close the position on one side.
#[derive(Debug, Clone)]
pub struct ModuleClosePosition {
    pub direction: Direction,
    pub reason: String,
}

/// Order type of an open-position request that names none.
pub fn default_order_type() -> (r: String)
    ensures
        r@ == "Market"@,
{
    String::from_str("Market")
}

} // verus!
