//! And-or lists: their pipelines and operators.

use vstd::prelude::*;

use super::{AndOr, AndOrList, Pipeline};

verus! {

/// Represents a boolean operator used to connect command pipelines in an [`AndOrList`]
#[derive(Clone, Copy, Debug, PartialEq, Eq, Structural)]
pub enum PipelineOperator {
    /// The command pipelines are connected by a boolean AND operator.
    And,
    /// The command pipelines are connected by a boolean OR operator.
    Or,
}

impl AndOr {
    /// The operator before the pipeline.
    pub open spec fn operator(&self) -> PipelineOperator {
        match self {
            AndOr::And(_) => PipelineOperator::And,
            AndOr::Or(_) => PipelineOperator::Or,
        }
    }

    /// The pipeline after the operator.
    pub open spec fn pipeline(&self) -> Pipeline {
        match self {
            AndOr::And(pipeline) => *pipeline,
            AndOr::Or(pipeline) => *pipeline,
        }
    }
}

impl PartialEq<AndOr> for PipelineOperator {
    fn eq(&self, other: &AndOr) -> (r: bool) {
        match (self, other) {
            (PipelineOperator::And, AndOr::And(_)) => true,
            (PipelineOperator::Or, AndOr::Or(_)) => true,
            _ => false,
        }
    }
}

impl vstd::std_specs::cmp::PartialEqSpecImpl<AndOr> for PipelineOperator {
    open spec fn obeys_eq_spec() -> bool {
        true
    }

    open spec fn eq_spec(&self, other: &AndOr) -> bool {
        *self == other.operator()
    }
}

// An operator cannot be losslessly converted into an `AndOr`, hence there is only `Into`.
impl Into<PipelineOperator> for AndOr {
    fn into(self) -> (op: PipelineOperator) {
        match self {
            AndOr::And(_) => PipelineOperator::And,
            AndOr::Or(_) => PipelineOperator::Or,
        }
    }
}

impl vstd::std_specs::convert::IntoSpecImpl<PipelineOperator> for AndOr {
    open spec fn obeys_into_spec() -> bool {
        true
    }

    open spec fn into_spec(self) -> PipelineOperator {
        self.operator()
    }
}

impl<'a> From<(PipelineOperator, &'a Pipeline)> for AndOr {
    fn from(value: (PipelineOperator, &'a Pipeline)) -> (r: AndOr)
        ensures
            r.operator() == value.0,
            value.1.same(&r.pipeline()),
    {
        match value.0 {
            PipelineOperator::Or => AndOr::Or(value.1.clone()),
            PipelineOperator::And => AndOr::And(value.1.clone()),
        }
    }
}

impl<'a> vstd::std_specs::convert::FromSpecImpl<(PipelineOperator, &'a Pipeline)> for AndOr {
    open spec fn obeys_from_spec() -> bool {
        false
    }

    open spec fn from_spec(value: (PipelineOperator, &'a Pipeline)) -> AndOr {
        match value.0 {
            PipelineOperator::Or => AndOr::Or(*value.1),
            PipelineOperator::And => AndOr::And(*value.1),
        }
    }
}

impl AndOrList {
    /// The pipelines in order, each with the operator before it. The first pipeline, which has
    /// none, counts as connected by AND.
    pub open spec fn pipelines(&self) -> Seq<(PipelineOperator, Pipeline)> {
        seq![(PipelineOperator::And, self.first)] + and_or_pipelines(self.additional@, 0)
    }

    /// Returns an iterator over the pipelines in this `AndOrList`.
    pub fn iter(&self) -> (it: AndOrListIter<'_>)
        ensures
            it@ == self.pipelines(),
    {
        AndOrListIter { first: Some(&self.first), additional: &self.additional, position: 0 }
    }
}

/// The items from the given position on, as pairs of operator and pipeline.
pub open spec fn and_or_pipelines(items: Seq<AndOr>, from: nat) -> Seq<
    (PipelineOperator, Pipeline),
> {
    if from > items.len() {
        Seq::empty()
    } else {
        Seq::new(
            (items.len() - from) as nat,
            |i: int| (items[from + i].operator(), items[from + i].pipeline()),
        )
    }
}

/// An iterator over the pipelines in an [`AndOrList`].
pub struct AndOrListIter<'a> {
    first: Option<&'a Pipeline>,
    additional: &'a Vec<AndOr>,
    position: usize,
}

impl<'a> View for AndOrListIter<'a> {
    type V = Seq<(PipelineOperator, Pipeline)>;

    /// What is still to come.
    closed spec fn view(&self) -> Seq<(PipelineOperator, Pipeline)> {
        let rest = and_or_pipelines(self.additional@, self.position as nat);
        match self.first {
            Some(first) => seq![(PipelineOperator::And, *first)] + rest,
            None => rest,
        }
    }
}

impl<'a> AndOrListIter<'a> {
    /// Advances the iterator and returns the next pipeline with its operator.
    pub fn next(&mut self) -> (r: Option<(PipelineOperator, &'a Pipeline)>)
        ensures
            old(self)@.len() == 0 ==> r is None && final(self)@ == old(self)@,
            old(self)@.len() > 0 ==> {
                &&& r == Some((old(self)@[0].0, &old(self)@[0].1))
                &&& final(self)@ == old(self)@.drop_first()
            },
    {
        if let Some(first) = self.first.take() {
            assert(self@ == old(self)@.drop_first());
            Some((PipelineOperator::And, first))
        } else if self.position < self.additional.len() {
            let and_or = &self.additional[self.position];
            self.position = self.position + 1;
            assert(self@ == old(self)@.drop_first());
            match and_or {
                AndOr::And(pipeline) => Some((PipelineOperator::And, pipeline)),
                AndOr::Or(pipeline) => Some((PipelineOperator::Or, pipeline)),
            }
        } else {
            None
        }
    }
}

} // verus!
