use vstd::prelude::*;

verus! {

/// A proportion counted in whole parts of one hundred.
///
/// Values are only made through [`Percent::from_percent`], which clamps at one
/// hundred, so the number of parts never exceeds one hundred.
#[derive(Clone, Copy, Debug, PartialEq, Eq, Structural)]
pub struct Percent {
    parts: u8,
}

/// The smaller of a requested percentage and one hundred.
pub open spec fn clamp_percent(x: u8) -> u8 {
    if x <= 100 {
        x
    } else {
        100
    }
}

impl Percent {
    #[verifier::type_invariant]
    spec fn parts_within_one_hundred(self) -> bool {
        self.parts <= 100
    }

    /// The number of parts of one hundred that this proportion stands for.
    pub closed spec fn parts(self) -> u8 {
        self.parts
    }

    /// The proportion `x / 100`, clamped to the whole when `x` exceeds one hundred.
    pub fn from_percent(x: u8) -> (p: Percent)
        ensures
            p.parts() == clamp_percent(x),
            x <= 100 ==> p.parts() == x,
            x > 100 ==> p.parts() == 100,
    {
        let parts: u8 = if x <= 100 {
            x
        } else {
            100
        };
        Percent { parts }
    }

    /// The number of parts of one hundred.
    pub fn deconstruct(self) -> (r: u8)
        ensures
            r == self.parts(),
            r <= 100,
    {
        proof {
            use_type_invariant(&self);
        }
        self.parts
    }
}

/// Building a proportion from the parts of a valid proportion gives that
/// proportion back: `from_percent(p.deconstruct()) == p`.
pub proof fn lemma_from_percent_of_parts(p: Percent, q: Percent)
    requires
        p.parts() <= 100,
        q.parts() == clamp_percent(p.parts()),
    ensures
        q == p,
{
}

} // verus!
