use vstd::prelude::*;

verus! {

/// Fee rates are expressed in basis points: parts of this denominator.
pub const BPS_DENOMINATOR: u16 = 10000;

/// Which of the two pooled tokens the caller deposits; the other side is
/// what the caller receives.
#[derive(Clone, Copy, Debug, PartialEq, Eq, Structural)]
pub enum InputSide {
    X,
    Y,
}

impl InputSide {
    /// The side the caller receives on.
    pub open spec fn spec_opposite(self) -> InputSide {
        match self {
            InputSide::X => InputSide::Y,
            InputSide::Y => InputSide::X,
        }
    }

    pub fn opposite(self) -> (r: InputSide)
        ensures
            r == self.spec_opposite(),
    {
        match self {
            InputSide::X => InputSide::Y,
            InputSide::Y => InputSide::X,
        }
    }
}

/// A liquidity pool: two reserves, the issued liquidity-token supply, the
/// trading fee in basis points, and an administrative lock flag.
#[derive(Clone, Copy, Debug, PartialEq, Eq, Structural)]
pub struct Pool {
    pub reserve_x: u64,
    pub reserve_y: u64,
    pub lp_supply: u64,
    pub fee_bps: u16,
    pub locked: bool,
}

impl Pool {
    /// Well-formedness: the fee is at most the whole, in basis points.
    /// Established at pool configuration time; every entry point assumes it.
    pub open spec fn wf(self) -> bool {
        self.fee_bps <= BPS_DENOMINATOR
    }

    /// The reserve the caller deposits into.
    pub open spec fn spec_reserve_in(self, side: InputSide) -> u64 {
        match side {
            InputSide::X => self.reserve_x,
            InputSide::Y => self.reserve_y,
        }
    }

    /// The reserve the caller is paid out of.
    pub open spec fn spec_reserve_out(self, side: InputSide) -> u64 {
        match side {
            InputSide::X => self.reserve_y,
            InputSide::Y => self.reserve_x,
        }
    }

    pub fn reserve_in(&self, side: InputSide) -> (r: u64)
        ensures
            r == self.spec_reserve_in(side),
    {
        match side {
            InputSide::X => self.reserve_x,
            InputSide::Y => self.reserve_y,
        }
    }

    pub fn reserve_out(&self, side: InputSide) -> (r: u64)
        ensures
            r == self.spec_reserve_out(side),
    {
        match side {
            InputSide::X => self.reserve_y,
            InputSide::Y => self.reserve_x,
        }
    }
}

/// A caller's swap request: which token goes in, how much of it, and the
/// least output the caller will accept.
#[derive(Clone, Copy, Debug, PartialEq, Eq, Structural)]
pub struct SwapRequest {
    pub input_side: InputSide,
    pub input_amount: u64,
    pub min_output_amount: u64,
}

/// The authoritative record of an accepted swap: the exact amount pulled
/// from the caller into the input-side reserve, and the exact amount pushed
/// from the opposite reserve to the caller. Both are non-zero.
#[derive(Clone, Copy, Debug, PartialEq, Eq, Structural)]
pub struct SwapOutcome {
    pub deposit_amount: u64,
    pub withdraw_amount: u64,
}

} // verus!
