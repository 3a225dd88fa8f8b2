//! The parameter registry: one descriptor per parameter, in two groups.
use vstd::prelude::*;

verus! {

/// Raw values and normalised values are counted in millionths: `UNIT` is `1.0`.
pub const UNIT: i64 = 1_000_000;

/// The largest magnitude of a descriptor bound, in millionths.
pub const MAX_MAGNITUDE: i64 = 1_000_000_000_000;

/// Number of parameters in the tract group.
pub const TRACT_LEN: usize = 19;

/// Number of parameters in the glottis group.
pub const GLOTTIS_LEN: usize = 11;

/// `v` clamped to the normalised range `[0, UNIT]`.
pub open spec fn clamp_unit(v: int) -> int {
    if v < 0 {
        0
    } else if v > UNIT {
        UNIT as int
    } else {
        v
    }
}

/// The raw value for normalised `v` in a range `[min, max]`: the affine map of the
/// clamped value, rounded down to a whole millionth.
pub open spec fn denormalised(min: int, max: int, v: int) -> int {
    min + (max - min) * clamp_unit(v) / (UNIT as int)
}

/// A parameter descriptor: its name, valid range and default, in millionths.
#[derive(Clone, Copy, Debug, PartialEq, Eq)]
pub struct VTLParam {
    pub name: &'static str,
    pub start_val: i64,
    pub min: i64,
    pub max: i64,
}

impl VTLParam {
    /// The default lies in the range, and the bounds are of a size that the
    /// affine map can work with.
    pub open spec fn wf(&self) -> bool {
        &&& -MAX_MAGNITUDE <= self.min <= self.start_val <= self.max <= MAX_MAGNITUDE
    }

    /// The raw value for the normalised value `normalised`, which is first
    /// clamped to `[0, UNIT]`.
    pub fn denormalise(&self, normalised: i64) -> (r: i64)
        requires
            self.wf(),
        ensures
            r == denormalised(self.min as int, self.max as int, normalised as int),
            self.min <= r <= self.max,
    {
        let v: i64 = if normalised < 0 {
            0
        } else if normalised > UNIT {
            UNIT
        } else {
            normalised
        };
        let span: i64 = self.max - self.min;
        proof {
            assert(0 <= span * v <= span * UNIT) by (nonlinear_arith)
                requires
                    0 <= span,
                    0 <= v <= UNIT,
            ;
            assert(span * UNIT <= 2 * MAX_MAGNITUDE * UNIT) by (nonlinear_arith)
                requires
                    0 <= span <= 2 * MAX_MAGNITUDE,
            ;
            assert((span * v) / (UNIT as int) <= span) by (nonlinear_arith)
                requires
                    0 <= span,
                    0 <= v <= UNIT,
            ;
        }
        let scaled: i64 = span * v / UNIT;
        self.min + scaled
    }
}

/// A tract parameter, by its position in the tract registry.
#[derive(Clone, Copy, Debug, PartialEq, Eq, Structural)]
pub enum TractIdx {
    HX,
    HY,
    JX,
    JA,
    LP,
    LD,
    VS,
    VO,
    TCX,
    TCY,
    TTX,
    TTY,
    TBX,
    TBY,
    TRX,
    TRY,
    TS1,
    TS2,
    TS3,
}

impl TractIdx {
    /// Position of the parameter in the tract registry.
    pub open spec fn index(self) -> int {
        match self {
            TractIdx::HX => 0,
            TractIdx::HY => 1,
            TractIdx::JX => 2,
            TractIdx::JA => 3,
            TractIdx::LP => 4,
            TractIdx::LD => 5,
            TractIdx::VS => 6,
            TractIdx::VO => 7,
            TractIdx::TCX => 8,
            TractIdx::TCY => 9,
            TractIdx::TTX => 10,
            TractIdx::TTY => 11,
            TractIdx::TBX => 12,
            TractIdx::TBY => 13,
            TractIdx::TRX => 14,
            TractIdx::TRY => 15,
            TractIdx::TS1 => 16,
            TractIdx::TS2 => 17,
            TractIdx::TS3 => 18,
        }
    }

    /// The parameter's descriptor: `(min, max, default)`, in millionths.
    pub open spec fn descriptor(self) -> (int, int, int) {
        match self {
            TractIdx::HX => (0, 1_000_000, 1_000_000),
            TractIdx::HY => (-6_000_000, -3_500_000, -4_750_000),
            TractIdx::JX => (-500_000, 0, 0),
            TractIdx::JA => (-7_000_000, 0, -2_000_000),
            TractIdx::LP => (-1_000_000, 1_000_000, -70_000),
            TractIdx::LD => (-2_000_000, 4_000_000, 950_000),
            TractIdx::VS => (0, 1_000_000, 0),
            TractIdx::VO => (-100_000, 1_000_000, -100_000),
            TractIdx::TCX => (-3_000_000, 4_000_000, -400_000),
            TractIdx::TCY => (-3_000_000, 1_000_000, -1_460_000),
            TractIdx::TTX => (1_500_000, 5_500_000, 3_500_000),
            TractIdx::TTY => (-3_000_000, 2_500_000, -1_000_000),
            TractIdx::TBX => (-3_000_000, 4_000_000, 2_000_000),
            TractIdx::TBY => (-3_000_000, 5_000_000, 500_000),
            TractIdx::TRX => (-4_000_000, 2_000_000, 0),
            TractIdx::TRY => (-6_000_000, 0, 0),
            TractIdx::TS1 => (0, 1_000_000, 0),
            TractIdx::TS2 => (0, 1_000_000, 0),
            TractIdx::TS3 => (-1_000_000, 1_000_000, 0),
        }
    }

    /// The lowest valid raw value.
    pub open spec fn min(self) -> int {
        self.descriptor().0
    }

    /// The highest valid raw value.
    pub open spec fn max(self) -> int {
        self.descriptor().1
    }

    /// The default raw value.
    pub open spec fn start(self) -> int {
        self.descriptor().2
    }

    /// The raw value stored for a normalised write of `v`.
    pub open spec fn raw_of(self, v: int) -> int {
        denormalised(self.min(), self.max(), v)
    }

    /// Position of the parameter in the registry, for indexing the store.
    pub(crate) fn position(self) -> (r: usize)
        ensures
            r == self.index(),
    {
        match self {
            TractIdx::HX => 0,
            TractIdx::HY => 1,
            TractIdx::JX => 2,
            TractIdx::JA => 3,
            TractIdx::LP => 4,
            TractIdx::LD => 5,
            TractIdx::VS => 6,
            TractIdx::VO => 7,
            TractIdx::TCX => 8,
            TractIdx::TCY => 9,
            TractIdx::TTX => 10,
            TractIdx::TTY => 11,
            TractIdx::TBX => 12,
            TractIdx::TBY => 13,
            TractIdx::TRX => 14,
            TractIdx::TRY => 15,
            TractIdx::TS1 => 16,
            TractIdx::TS2 => 17,
            TractIdx::TS3 => 18,
        }
    }

    /// The parameter at position `i` of the registry.
    pub(crate) fn at(i: usize) -> (r: TractIdx)
        requires
            i < TRACT_LEN,
        ensures
            r.index() == i,
    {
        match i {
            0 => TractIdx::HX,
            1 => TractIdx::HY,
            2 => TractIdx::JX,
            3 => TractIdx::JA,
            4 => TractIdx::LP,
            5 => TractIdx::LD,
            6 => TractIdx::VS,
            7 => TractIdx::VO,
            8 => TractIdx::TCX,
            9 => TractIdx::TCY,
            10 => TractIdx::TTX,
            11 => TractIdx::TTY,
            12 => TractIdx::TBX,
            13 => TractIdx::TBY,
            14 => TractIdx::TRX,
            15 => TractIdx::TRY,
            16 => TractIdx::TS1,
            17 => TractIdx::TS2,
            _ => TractIdx::TS3,
        }
    }

    /// The parameter's descriptor.
    pub fn param(self) -> (r: VTLParam)
        ensures
            r.min == self.min(),
            r.max == self.max(),
            r.start_val == self.start(),
            r.wf(),
    {
        match self {
            TractIdx::HX => VTLParam { name: "HX", min: 0, max: 1_000_000, start_val: 1_000_000 },
            TractIdx::HY => VTLParam { name: "HY", min: -6_000_000, max: -3_500_000, start_val: -4_750_000 },
            TractIdx::JX => VTLParam { name: "JX", min: -500_000, max: 0, start_val: 0 },
            TractIdx::JA => VTLParam { name: "JA", min: -7_000_000, max: 0, start_val: -2_000_000 },
            TractIdx::LP => VTLParam { name: "LP", min: -1_000_000, max: 1_000_000, start_val: -70_000 },
            TractIdx::LD => VTLParam { name: "LD", min: -2_000_000, max: 4_000_000, start_val: 950_000 },
            TractIdx::VS => VTLParam { name: "VS", min: 0, max: 1_000_000, start_val: 0 },
            TractIdx::VO => VTLParam { name: "VO", min: -100_000, max: 1_000_000, start_val: -100_000 },
            TractIdx::TCX => VTLParam { name: "TCX", min: -3_000_000, max: 4_000_000, start_val: -400_000 },
            TractIdx::TCY => VTLParam { name: "TCY", min: -3_000_000, max: 1_000_000, start_val: -1_460_000 },
            TractIdx::TTX => VTLParam { name: "TTX", min: 1_500_000, max: 5_500_000, start_val: 3_500_000 },
            TractIdx::TTY => VTLParam { name: "TTY", min: -3_000_000, max: 2_500_000, start_val: -1_000_000 },
            TractIdx::TBX => VTLParam { name: "TBX", min: -3_000_000, max: 4_000_000, start_val: 2_000_000 },
            TractIdx::TBY => VTLParam { name: "TBY", min: -3_000_000, max: 5_000_000, start_val: 500_000 },
            TractIdx::TRX => VTLParam { name: "TRX", min: -4_000_000, max: 2_000_000, start_val: 0 },
            TractIdx::TRY => VTLParam { name: "TRY", min: -6_000_000, max: 0, start_val: 0 },
            TractIdx::TS1 => VTLParam { name: "TS1", min: 0, max: 1_000_000, start_val: 0 },
            TractIdx::TS2 => VTLParam { name: "TS2", min: 0, max: 1_000_000, start_val: 0 },
            TractIdx::TS3 => VTLParam { name: "TS3", min: -1_000_000, max: 1_000_000, start_val: 0 },
        }
    }
}

/// Every tract parameter has a position of its own below the registry's length,
/// and its default lies in its range.
pub proof fn lemma_tract_positions()
    ensures
        forall|k: TractIdx| 0 <= #[trigger] k.index() < TRACT_LEN,
        forall|a: TractIdx, b: TractIdx| #[trigger] a.index() == #[trigger] b.index() ==> a == b,
        forall|k: TractIdx| (#[trigger] k.descriptor()).0 <= k.descriptor().2 <= k.descriptor().1,
{
}

/// A glottis parameter, by its position in the glottis registry.
#[derive(Clone, Copy, Debug, PartialEq, Eq, Structural)]
pub enum GlottisIdx {
    F0,
    PR,
    XB,
    XT,
    CA,
    PL,
    RA,
    DP,
    PS,
    FL,
    AS,
}

impl GlottisIdx {
    /// Position of the parameter in the glottis registry.
    pub open spec fn index(self) -> int {
        match self {
            GlottisIdx::F0 => 0,
            GlottisIdx::PR => 1,
            GlottisIdx::XB => 2,
            GlottisIdx::XT => 3,
            GlottisIdx::CA => 4,
            GlottisIdx::PL => 5,
            GlottisIdx::RA => 6,
            GlottisIdx::DP => 7,
            GlottisIdx::PS => 8,
            GlottisIdx::FL => 9,
            GlottisIdx::AS => 10,
        }
    }

    /// The parameter's descriptor: `(min, max, default)`, in millionths.
    pub open spec fn descriptor(self) -> (int, int, int) {
        match self {
            GlottisIdx::F0 => (40_000_000, 600_000_000, 120_000_000),
            GlottisIdx::PR => (0, 20_000_000_000, 0),
            GlottisIdx::XB => (-50_000, 300_000, 10_000),
            GlottisIdx::XT => (-50_000, 300_000, 20_000),
            GlottisIdx::CA => (-250_000, 250_000, 50_000),
            GlottisIdx::PL => (0, 3_141_500, 1_220_000),
            GlottisIdx::RA => (-1_000_000, 1_000_000, 1_000_000),
            GlottisIdx::DP => (0, 1_000_000, 50_000),
            GlottisIdx::PS => (-500_000, 500_000, 0),
            GlottisIdx::FL => (0, 100_000_000, 25_000_000),
            GlottisIdx::AS => (-40_000_000, 0, -10_000_000),
        }
    }

    /// The lowest valid raw value.
    pub open spec fn min(self) -> int {
        self.descriptor().0
    }

    /// The highest valid raw value.
    pub open spec fn max(self) -> int {
        self.descriptor().1
    }

    /// The default raw value.
    pub open spec fn start(self) -> int {
        self.descriptor().2
    }

    /// The raw value stored for a normalised write of `v`.
    pub open spec fn raw_of(self, v: int) -> int {
        denormalised(self.min(), self.max(), v)
    }

    /// Position of the parameter in the registry, for indexing the store.
    pub(crate) fn position(self) -> (r: usize)
        ensures
            r == self.index(),
    {
        match self {
            GlottisIdx::F0 => 0,
            GlottisIdx::PR => 1,
            GlottisIdx::XB => 2,
            GlottisIdx::XT => 3,
            GlottisIdx::CA => 4,
            GlottisIdx::PL => 5,
            GlottisIdx::RA => 6,
            GlottisIdx::DP => 7,
            GlottisIdx::PS => 8,
            GlottisIdx::FL => 9,
            GlottisIdx::AS => 10,
        }
    }

    /// The parameter at position `i` of the registry.
    pub(crate) fn at(i: usize) -> (r: GlottisIdx)
        requires
            i < GLOTTIS_LEN,
        ensures
            r.index() == i,
    {
        match i {
            0 => GlottisIdx::F0,
            1 => GlottisIdx::PR,
            2 => GlottisIdx::XB,
            3 => GlottisIdx::XT,
            4 => GlottisIdx::CA,
            5 => GlottisIdx::PL,
            6 => GlottisIdx::RA,
            7 => GlottisIdx::DP,
            8 => GlottisIdx::PS,
            9 => GlottisIdx::FL,
            _ => GlottisIdx::AS,
        }
    }

    /// The parameter's descriptor.
    pub fn param(self) -> (r: VTLParam)
        ensures
            r.min == self.min(),
            r.max == self.max(),
            r.start_val == self.start(),
            r.wf(),
    {
        match self {
            GlottisIdx::F0 => VTLParam { name: "F0", min: 40_000_000, max: 600_000_000, start_val: 120_000_000 },
            GlottisIdx::PR => VTLParam { name: "PR", min: 0, max: 20_000_000_000, start_val: 0 },
            GlottisIdx::XB => VTLParam { name: "XB", min: -50_000, max: 300_000, start_val: 10_000 },
            GlottisIdx::XT => VTLParam { name: "XT", min: -50_000, max: 300_000, start_val: 20_000 },
            GlottisIdx::CA => VTLParam { name: "CA", min: -250_000, max: 250_000, start_val: 50_000 },
            GlottisIdx::PL => VTLParam { name: "PL", min: 0, max: 3_141_500, start_val: 1_220_000 },
            GlottisIdx::RA => VTLParam { name: "RA", min: -1_000_000, max: 1_000_000, start_val: 1_000_000 },
            GlottisIdx::DP => VTLParam { name: "DP", min: 0, max: 1_000_000, start_val: 50_000 },
            GlottisIdx::PS => VTLParam { name: "PS", min: -500_000, max: 500_000, start_val: 0 },
            GlottisIdx::FL => VTLParam { name: "FL", min: 0, max: 100_000_000, start_val: 25_000_000 },
            GlottisIdx::AS => VTLParam { name: "AS", min: -40_000_000, max: 0, start_val: -10_000_000 },
        }
    }
}

/// Every glottis parameter has a position of its own below the registry's length,
/// and its default lies in its range.
pub proof fn lemma_glottis_positions()
    ensures
        forall|k: GlottisIdx| 0 <= #[trigger] k.index() < GLOTTIS_LEN,
        forall|a: GlottisIdx, b: GlottisIdx| #[trigger] a.index() == #[trigger] b.index() ==> a == b,
        forall|k: GlottisIdx| (#[trigger] k.descriptor()).0 <= k.descriptor().2 <= k.descriptor().1,
{
}

} // verus!
