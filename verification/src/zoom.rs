//! Zoom levels of the timeline.

use vstd::prelude::*;

verus! {

/// Quarter days that make up one day: zoom is counted in this unit.
pub const QUARTERS_PER_DAY: u32 = 4;

/// Finest zoom: a quarter of a day per column.
pub const MIN_ZOOM_QUARTERS: u32 = 1;

/// Coarsest zoom allowed: fourteen days per column.
pub const MAX_ZOOM_QUARTERS: u32 = 56;

/// Whether `n` is 1, 2, 4, 8, ...
pub open spec fn is_power_of_two(n: int) -> bool
    decreases n,
{
    n == 1 || (n > 1 && n % 2 == 0 && is_power_of_two(n / 2))
}

/// The zoom levels the timeline can be in: powers of two, counted in
/// quarter days per column, within the configured range.
pub open spec fn valid_zoom_quarters(q: int) -> bool {
    MIN_ZOOM_QUARTERS <= q <= MAX_ZOOM_QUARTERS && is_power_of_two(q)
}

/// Days per column, held exactly as a count of quarter days.
///
/// Zooming halves and doubles, starting from one day per column, so every
/// level is a power of two; the finest level is a quarter day.
#[derive(Clone, Copy, Debug)]
pub struct Zoom {
    quarters: u32,
}

impl View for Zoom {
    type V = int;

    /// Quarter days per column.
    closed spec fn view(&self) -> int {
        self.quarters as int
    }
}

impl Zoom {
    #[verifier::type_invariant]
    pub(crate) open spec fn is_level(self) -> bool {
        valid_zoom_quarters(self@)
    }

    /// Well-formedness of a zoom level, for statements about ghost values.
    pub open spec fn wf(self) -> bool {
        valid_zoom_quarters(self@)
    }

    /// Quarter days per column after zooming in once: half as many,
    /// unless that is less than the finest zoom.
    pub open spec fn zoomed_in_quarters(q: int) -> int {
        if q >= 2 * MIN_ZOOM_QUARTERS {
            q / 2
        } else {
            q
        }
    }

    /// Quarter days per column after zooming out once: twice as many,
    /// unless that is more than the coarsest zoom allowed.
    pub open spec fn zoomed_out_quarters(q: int) -> int {
        if 2 * q <= MAX_ZOOM_QUARTERS {
            2 * q
        } else {
            q
        }
    }

    /// The level of one day per column.
    pub closed spec fn spec_one_day() -> Zoom {
        Zoom { quarters: QUARTERS_PER_DAY }
    }

    /// Days per column written with one decimal, as the status line has
    /// it; a quarter day is written `0.2`.
    pub open spec fn label_of(quarters: int) -> &'static str {
        if quarters == 1 {
            "0.2"
        } else if quarters == 2 {
            "0.5"
        } else if quarters == 4 {
            "1.0"
        } else if quarters == 8 {
            "2.0"
        } else if quarters == 16 {
            "4.0"
        } else {
            "8.0"
        }
    }

    /// Days per column written with one decimal.
    pub fn label(&self) -> (text: &'static str)
        ensures
            text == Self::label_of(self@),
    {
        let quarters = self.quarters;
        if quarters == 1 {
            "0.2"
        } else if quarters == 2 {
            "0.5"
        } else if quarters == 4 {
            "1.0"
        } else if quarters == 8 {
            "2.0"
        } else if quarters == 16 {
            "4.0"
        } else {
            "8.0"
        }
    }

    /// One day per column.
    pub fn one_day() -> (z: Zoom)
        ensures
            z == Self::spec_one_day(),
            z@ == QUARTERS_PER_DAY,
            z.wf(),
    {
        assert(is_power_of_two(4)) by {
            reveal_with_fuel(is_power_of_two, 3);
        }
        Zoom { quarters: 4 }
    }

    /// The zoom of `quarters` quarter days per column, if that is a level.
    pub fn from_quarters(quarters: u32) -> (z: Option<Zoom>)
        ensures
            z is Some <==> valid_zoom_quarters(quarters as int),
            z is Some ==> z->0@ == quarters && z->0.wf(),
    {
        if quarters < MIN_ZOOM_QUARTERS || quarters > MAX_ZOOM_QUARTERS {
            return None;
        }
        let mut n: u32 = quarters;
        while n > 1 && n % 2 == 0
            invariant
                1 <= n <= quarters,
                is_power_of_two(n as int) == is_power_of_two(quarters as int),
            decreases n,
        {
            n = n / 2;
        }
        if n == 1 {
            Some(Zoom { quarters })
        } else {
            None
        }
    }

    pub fn quarters(&self) -> (q: u32)
        ensures
            q == self@,
            self.wf(),
    {
        proof {
            use_type_invariant(self);
        }
        self.quarters
    }

    /// The level one step in.
    pub closed spec fn spec_zoomed_in(self) -> Zoom {
        Zoom { quarters: Self::zoomed_in_quarters(self.quarters as int) as u32 }
    }

    /// The level one step out.
    pub closed spec fn spec_zoomed_out(self) -> Zoom {
        Zoom { quarters: Self::zoomed_out_quarters(self.quarters as int) as u32 }
    }

    /// A power of two is positive, and halving an even one, or doubling
    /// any, gives a power of two.
    pub proof fn lemma_power_of_two_steps(n: int)
        requires
            is_power_of_two(n),
        ensures
            n >= 1,
            is_power_of_two(2 * n),
            n >= 2 ==> n % 2 == 0 && is_power_of_two(n / 2),
            n == 1 || n == 2 || n % 4 == 0,
    {
        reveal_with_fuel(is_power_of_two, 3);
    }

    /// Zooming keeps a well-formed level well-formed and changes its
    /// count as `zoomed_in_quarters` and `zoomed_out_quarters` say.
    pub proof fn lemma_zoom_steps(self)
        requires
            self.wf(),
        ensures
            self.spec_zoomed_in()@ == Self::zoomed_in_quarters(self@),
            self.spec_zoomed_out()@ == Self::zoomed_out_quarters(self@),
            self.spec_zoomed_in().wf(),
            self.spec_zoomed_out().wf(),
    {
        Self::lemma_power_of_two_steps(self@);
    }

    /// Half as many days per column, unless that would pass the finest level.
    pub fn zoomed_in(self) -> (z: Zoom)
        ensures
            z == self.spec_zoomed_in(),
            z@ == Self::zoomed_in_quarters(self@),
            z.wf(),
    {
        proof {
            use_type_invariant(self);
        }
        if self.quarters >= 2 * MIN_ZOOM_QUARTERS {
            Zoom { quarters: self.quarters / 2 }
        } else {
            self
        }
    }

    /// Twice as many days per column, unless that would pass the coarsest level.
    pub fn zoomed_out(self) -> (z: Zoom)
        ensures
            z == self.spec_zoomed_out(),
            z@ == Self::zoomed_out_quarters(self@),
            z.wf(),
    {
        proof {
            use_type_invariant(self);
        }
        if self.quarters <= MAX_ZOOM_QUARTERS / 2 {
            assert(is_power_of_two(2 * self.quarters as int));
            Zoom { quarters: 2 * self.quarters }
        } else {
            self
        }
    }
}

} // verus!
