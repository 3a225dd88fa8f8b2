//! The parameter store: the current raw value of every parameter of both groups.
use vstd::prelude::*;
use crate::vtl::{
    clamp_unit, UNIT,
    lemma_glottis_positions, lemma_tract_positions, GlottisIdx,
    TractIdx, GLOTTIS_LEN, TRACT_LEN,
};

verus! {

/// The raw values of the tract and the glottis groups, in registry order.
pub struct VTLParams {
    throat_state: Vec<i64>,
    glottis_state: Vec<i64>,
}

impl VTLParams {
    /// The tract values, in registry order.
    pub closed spec fn tract_view(&self) -> Seq<i64> {
        self.throat_state@
    }

    /// The glottis values, in registry order.
    pub closed spec fn glottis_view(&self) -> Seq<i64> {
        self.glottis_state@
    }

    /// Each group has one value per parameter, within that parameter's range.
    pub open spec fn wf(&self) -> bool {
        &&& self.tract_view().len() == TRACT_LEN
        &&& self.glottis_view().len() == GLOTTIS_LEN
        &&& forall|k: TractIdx|
            k.min() <= #[trigger] self.tract_view()[k.index()] <= k.max()
        &&& forall|k: GlottisIdx|
            k.min() <= #[trigger] self.glottis_view()[k.index()] <= k.max()
    }

    /// A store holding every parameter's default.
    pub fn new() -> (r: VTLParams)
        ensures
            r.wf(),
            forall|k: TractIdx| #[trigger] r.tract_view()[k.index()] == k.start(),
            forall|k: GlottisIdx| #[trigger] r.glottis_view()[k.index()] == k.start(),
    {
        proof {
            lemma_tract_positions();
            lemma_glottis_positions();
        }
        let mut throat_state: Vec<i64> = Vec::new();
        let mut glottis_state: Vec<i64> = Vec::new();
        let mut i: usize = 0;
        while i < TRACT_LEN
            invariant
                i <= TRACT_LEN,
                throat_state@.len() == i,
                forall|k: TractIdx| k.index() < i ==> #[trigger] throat_state@[k.index()] == k.start(),
            decreases TRACT_LEN - i,
        {
            let k = TractIdx::at(i);
            throat_state.push(k.param().start_val);
            i = i + 1;
        }
        let mut j: usize = 0;
        while j < GLOTTIS_LEN
            invariant
                j <= GLOTTIS_LEN,
                glottis_state@.len() == j,
                forall|k: GlottisIdx| k.index() < j ==> #[trigger] glottis_state@[k.index()] == k.start(),
            decreases GLOTTIS_LEN - j,
        {
            let k = GlottisIdx::at(j);
            glottis_state.push(k.param().start_val);
            j = j + 1;
        }
        VTLParams { throat_state, glottis_state }
    }

    /// Stores the raw value for the normalised value `normalised` of a tract
    /// parameter. A value outside `[0, UNIT]` is clamped first: this is not an
    /// error.
    pub fn set_throat_value(&mut self, idx: TractIdx, normalised: i64)
        requires
            old(self).wf(),
        ensures
            final(self).wf(),
            final(self).tract_view() == old(self).tract_view().update(
                idx.index(),
                idx.raw_of(normalised as int) as i64,
            ),
            final(self).glottis_view() == old(self).glottis_view(),
    {
        proof {
            lemma_tract_positions();
        }
        let param = idx.param();
        let val = param.denormalise(normalised);
        let i = idx.position();
        self.throat_state.set(i, val);
    }

    /// Stores the raw value for the normalised value `normalised` of a glottis
    /// parameter. A value outside `[0, UNIT]` is clamped first: this is not an
    /// error.
    pub fn set_glottis_value(&mut self, idx: GlottisIdx, normalised: i64)
        requires
            old(self).wf(),
        ensures
            final(self).wf(),
            final(self).glottis_view() == old(self).glottis_view().update(
                idx.index(),
                idx.raw_of(normalised as int) as i64,
            ),
            final(self).tract_view() == old(self).tract_view(),
    {
        proof {
            lemma_glottis_positions();
        }
        let param = idx.param();
        let val = param.denormalise(normalised);
        let i = idx.position();
        self.glottis_state.set(i, val);
    }

    /// The raw value of a tract parameter.
    pub fn throat_value(&self, idx: TractIdx) -> (r: i64)
        requires
            self.wf(),
        ensures
            r == self.tract_view()[idx.index()],
    {
        proof {
            lemma_tract_positions();
        }
        self.throat_state[idx.position()]
    }

    /// The raw value of a glottis parameter.
    pub fn glottis_value(&self, idx: GlottisIdx) -> (r: i64)
        requires
            self.wf(),
        ensures
            r == self.glottis_view()[idx.index()],
    {
        proof {
            lemma_glottis_positions();
        }
        self.glottis_state[idx.position()]
    }

    /// The tract values, in registry order.
    pub fn throat_state(&self) -> (r: &[i64])
        ensures
            r@ == self.tract_view(),
    {
        self.throat_state.as_slice()
    }

    /// The glottis values, in registry order.
    pub fn glottis_state(&self) -> (r: &[i64])
        ensures
            r@ == self.glottis_view(),
    {
        self.glottis_state.as_slice()
    }

    /// A copy of both groups as they stand now: the tract values, then the
    /// glottis values.
    pub fn snapshot(&self) -> (r: (Vec<i64>, Vec<i64>))
        ensures
            r.0@ == self.tract_view(),
            r.1@ == self.glottis_view(),
    {
        (self.throat_state.clone(), self.glottis_state.clone())
    }
}

/// A normalised write of `v` in `[0, UNIT]` to a tract parameter stores
/// `min + (max - min) * v`, rounded down to a whole millionth.
pub proof fn lemma_tract_write_in_range(idx: TractIdx, v: int)
    requires
        0 <= v <= UNIT,
    ensures
        idx.raw_of(v) == idx.min() + (idx.max() - idx.min()) * v / (UNIT as int),
{
}

/// A normalised write of `v` in `[0, UNIT]` to a glottis parameter stores
/// `min + (max - min) * v`, rounded down to a whole millionth.
pub proof fn lemma_glottis_write_in_range(idx: GlottisIdx, v: int)
    requires
        0 <= v <= UNIT,
    ensures
        idx.raw_of(v) == idx.min() + (idx.max() - idx.min()) * v / (UNIT as int),
{
}

/// A normalised write outside `[0, UNIT]` to a tract parameter stores what a
/// write of the nearer bound stores.
pub proof fn lemma_tract_write_clamped(idx: TractIdx, v: int)
    ensures
        v < 0 ==> idx.raw_of(v) == idx.raw_of(0),
        v > UNIT ==> idx.raw_of(v) == idx.raw_of(UNIT as int),
        idx.raw_of(v) == idx.raw_of(clamp_unit(v)),
{
}

/// A normalised write outside `[0, UNIT]` to a glottis parameter stores what a
/// write of the nearer bound stores.
pub proof fn lemma_glottis_write_clamped(idx: GlottisIdx, v: int)
    ensures
        v < 0 ==> idx.raw_of(v) == idx.raw_of(0),
        v > UNIT ==> idx.raw_of(v) == idx.raw_of(UNIT as int),
        idx.raw_of(v) == idx.raw_of(clamp_unit(v)),
{
}

} // verus!
