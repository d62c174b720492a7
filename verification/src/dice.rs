use crate::error::Error;
use rand::Rng;
use vstd::prelude::*;

verus! {

/// The face of a six-sided die: a value from 1 to 6.
#[derive(Debug, Clone, Copy, PartialEq, Eq, Structural)]
pub struct Die(u8);

impl Die {
    #[verifier::type_invariant]
    spec fn inv(self) -> bool {
        1 <= self.0 <= 6
    }

    /// The value this die shows.
    pub closed spec fn face(self) -> int {
        self.0 as int
    }

    /// Whether the face lies in 1..=6, as it does for every die that was made
    /// by `new` or `roll`.
    pub open spec fn in_range(self) -> bool {
        1 <= self.face() <= 6
    }

    /// What making a die from `n` gives: a die showing `n`, or
    /// `DieOutOfBounds` unless `n` is in 1..=6.
    pub closed spec fn made_from(n: u8) -> Result<Die, Error> {
        if 1 <= n <= 6 {
            Ok(Die(n))
        } else {
            Err(Error::DieOutOfBounds)
        }
    }

    /// A die showing `n`; `DieOutOfBounds` unless `n` is in 1..=6.
    pub fn new(n: u8) -> (r: Result<Die, Error>)
        ensures
            r == Die::made_from(n),
            1 <= n <= 6 ==> r is Ok && r->Ok_0.face() == n,
            !(1 <= n <= 6) ==> r == Err::<Die, Error>(Error::DieOutOfBounds),
    {
        if 1 <= n && n <= 6 {
            Ok(Die(n))
        } else {
            Err(Error::DieOutOfBounds)
        }
    }

    /// The value this die shows.
    pub fn value(self) -> (n: u8)
        ensures
            n == self.face(),
            self.in_range(),
    {
        proof {
            use_type_invariant(&self);
        }
        self.0
    }

    /// A die thrown at random.
    pub fn roll() -> (die: Die)
        ensures
            die.in_range(),
    {
        Die::new(random_in_range(1, 6)).unwrap()
    }

    /// Making a die succeeds exactly on 1..=6, with a die that shows the
    /// value given.
    pub proof fn law_made_from(n: u8)
        ensures
            1 <= n <= 6 ==> Die::made_from(n) is Ok && Die::made_from(n)->Ok_0.face() == n,
            !(1 <= n <= 6) ==> Die::made_from(n) == Err::<Die, Error>(Error::DieOutOfBounds),
    {
    }

    /// Two dice that show the same face are equal.
    pub proof fn law_face_decides(self, other: Die)
        requires
            self.face() == other.face(),
        ensures
            self == other,
    {
    }
}

impl TryFrom<u8> for Die {
    type Error = Error;

    /// As `Die::new`.
    fn try_from(value: u8) -> (r: Result<Self, Self::Error>) {
        Self::new(value)
    }
}

impl vstd::std_specs::convert::TryFromSpecImpl<u8> for Die {
    open spec fn obeys_try_from_spec() -> bool {
        true
    }

    open spec fn try_from_spec(value: u8) -> Result<Self, Self::Error> {
        Die::made_from(value)
    }
}

impl From<Die> for u8 {
    /// The value the die shows.
    fn from(die: Die) -> (n: u8) {
        die.value()
    }
}

impl vstd::std_specs::convert::FromSpecImpl<Die> for u8 {
    open spec fn obeys_from_spec() -> bool {
        true
    }

    open spec fn from_spec(die: Die) -> u8 {
        die.face() as u8
    }
}

impl From<Die> for usize {
    /// The value the die shows.
    fn from(die: Die) -> (n: usize) {
        usize::from(die.value())
    }
}

impl vstd::std_specs::convert::FromSpecImpl<Die> for usize {
    open spec fn obeys_from_spec() -> bool {
        true
    }

    open spec fn from_spec(die: Die) -> usize {
        die.face() as usize
    }
}

/// Draws from the thread's generator with `rand::thread_rng()` and
/// `rand::Rng::gen_range` over the inclusive range `low..=high`. `gen_range`
/// panics on an empty range, so `low <= high` is demanded. Trusted, not
/// proved: the value returned lies within the range. Which value it is stays
/// open, and two draws may differ.
#[verifier::external_body]
fn random_in_range(low: u8, high: u8) -> (n: u8)
    requires
        low <= high,
    ensures
        low <= n <= high,
{
    rand::thread_rng().gen_range(low..=high)
}

/// The two dice of a turn.
#[derive(Debug, Clone, Copy, PartialEq, Eq, Structural)]
pub struct Dice(pub Die, pub Die);

impl Dice {
    /// Whether both faces lie in 1..=6.
    pub open spec fn in_range(self) -> bool {
        self.0.in_range() && self.1.in_range()
    }

    /// Two dice thrown independently.
    pub fn roll() -> (dice: Dice)
        ensures
            dice.in_range(),
    {
        Dice(Die::roll(), Die::roll())
    }

    /// The two values shown.
    pub fn values(&self) -> (values: [u8; 2])
        ensures
            values@.len() == 2,
            values@[0] == self.0.face(),
            values@[1] == self.1.face(),
            self.in_range(),
    {
        [self.0.value(), self.1.value()]
    }
}

} // verus!
