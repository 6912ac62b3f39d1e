use vstd::prelude::*;

mod rng;

verus! {

/// Represents some count of dice being rolled (faces on each die determined later).
pub struct Roll {
    /// How many dice are rolled in this roll.
    count: usize,
}

/// Construct a roll of `count` dice; any count, including zero, is accepted.
pub fn roll(count: usize) -> (r: Roll)
    ensures
        r.count() == count,
{
    Roll { count }
}

impl Roll {
    /// The number of dice in this roll.
    pub closed spec fn count(&self) -> usize {
        self.count
    }

    /// Represents a die roll: the sum of `count` independent uniform draws
    /// from `[1, sides]`, or 0 when there are no dice or no sides.
    pub fn d(&self, sides: usize) -> (r: usize)
        requires
            self.count() * sides <= usize::MAX,
        ensures
            sides == 0 || self.count() == 0 ==> r == 0,
            sides != 0 && self.count() != 0 ==> self.count() <= r && r <= self.count() * sides,
    {
        if sides == 0 || self.count == 0 {
            0
        } else {
            let mut sum: usize = 0;
            let mut i: usize = 0;
            while i < self.count
                invariant
                    i <= self.count,
                    sides >= 1,
                    self.count * sides <= usize::MAX,
                    i <= sum,
                    sum <= i * sides,
                decreases self.count - i,
            {
                let die = crate::rng::random_below(sides) + 1;
                assert(sum + die <= (i + 1) * sides) by (nonlinear_arith)
                    requires
                        sum <= i * sides,
                        die <= sides,
                ;
                assert((i + 1) * sides <= self.count * sides) by (nonlinear_arith)
                    requires
                        i + 1 <= self.count,
                        sides >= 1,
                ;
                sum = sum + die;
                i = i + 1;
            }
            sum
        }
    }

    /// Represents a critical success (e.g. 20 on one d20, 40 on 2d20):
    /// every die shows its highest face, with no random draws.
    pub fn crit_success(&self, sides: usize) -> (r: usize)
        requires
            self.count() * sides <= usize::MAX,
        ensures
            r == self.count() * sides,
    {
        if sides == 0 || self.count == 0 {
            0
        } else {
            self.count * sides
        }
    }

    /// Represents a critical failure (e.g. 1 on one d20, 2 on 2d20):
    /// every die shows 1, whatever `sides` is, with no random draws.
    pub fn crit_fail(&self, sides: usize) -> (r: usize)
        ensures
            sides == 0 ==> r == 0,
            sides != 0 ==> r == self.count(),
    {
        if sides == 0 || self.count == 0 {
            0
        } else {
            self.count
        }
    }

    /// The larger of two independent full rolls, or 0 for degenerate inputs.
    pub fn advantage(&self, sides: usize) -> (r: usize)
        requires
            self.count() * sides <= usize::MAX,
        ensures
            sides == 0 || self.count() == 0 ==> r == 0,
            sides != 0 && self.count() != 0 ==> self.count() <= r && r <= self.count() * sides,
    {
        if sides == 0 || self.count == 0 {
            0
        } else {
            let roll1 = self.d(sides);
            let roll2 = self.d(sides);
            if roll1 >= roll2 {
                roll1
            } else {
                roll2
            }
        }
    }

    /// The smaller of two independent full rolls, or 0 for degenerate inputs.
    pub fn disadvantage(&self, sides: usize) -> (r: usize)
        requires
            self.count() * sides <= usize::MAX,
        ensures
            sides == 0 || self.count() == 0 ==> r == 0,
            sides != 0 && self.count() != 0 ==> self.count() <= r && r <= self.count() * sides,
    {
        if sides == 0 || self.count == 0 {
            0
        } else {
            let roll1 = self.d(sides);
            let roll2 = self.d(sides);
            if roll1 <= roll2 {
                roll1
            } else {
                roll2
            }
        }
    }

    // convenience

    /// Roll this many four-sided dice.
    pub fn d4(&self) -> (r: usize)
        requires
            self.count() * 4 <= usize::MAX,
        ensures
            self.count() == 0 ==> r == 0,
            self.count() != 0 ==> self.count() <= r && r <= self.count() * 4,
    {
        self.d(4)
    }

    /// Roll this many six-sided dice.
    pub fn d6(&self) -> (r: usize)
        requires
            self.count() * 6 <= usize::MAX,
        ensures
            self.count() == 0 ==> r == 0,
            self.count() != 0 ==> self.count() <= r && r <= self.count() * 6,
    {
        self.d(6)
    }

    /// Roll this many eight-sided dice.
    pub fn d8(&self) -> (r: usize)
        requires
            self.count() * 8 <= usize::MAX,
        ensures
            self.count() == 0 ==> r == 0,
            self.count() != 0 ==> self.count() <= r && r <= self.count() * 8,
    {
        self.d(8)
    }

    /// Roll this many ten-sided dice.
    pub fn d10(&self) -> (r: usize)
        requires
            self.count() * 10 <= usize::MAX,
        ensures
            self.count() == 0 ==> r == 0,
            self.count() != 0 ==> self.count() <= r && r <= self.count() * 10,
    {
        self.d(10)
    }

    /// Roll this many twelve-sided dice.
    pub fn d12(&self) -> (r: usize)
        requires
            self.count() * 12 <= usize::MAX,
        ensures
            self.count() == 0 ==> r == 0,
            self.count() != 0 ==> self.count() <= r && r <= self.count() * 12,
    {
        self.d(12)
    }

    /// Roll this many twenty-sided dice.
    pub fn d20(&self) -> (r: usize)
        requires
            self.count() * 20 <= usize::MAX,
        ensures
            self.count() == 0 ==> r == 0,
            self.count() != 0 ==> self.count() <= r && r <= self.count() * 20,
    {
        self.d(20)
    }
}

} // verus!
