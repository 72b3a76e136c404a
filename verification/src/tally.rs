//! The four counts that a run reports.

use crate::route::{Outcome, OutcomeModel};
use vstd::prelude::*;

verus! {

/// How many files ended in each way.
#[derive(Clone, Copy, Debug, PartialEq, Eq, Structural)]
pub struct Tally {
    pub comfy: usize,
    pub webui: usize,
    pub skipped: usize,
    pub errors: usize,
}

/// The counts as unbounded numbers.
pub struct TallyModel {
    pub comfy: nat,
    pub webui: nat,
    pub skipped: nat,
    pub errors: nat,
}

impl View for Tally {
    type V = TallyModel;

    open spec fn view(&self) -> TallyModel {
        TallyModel {
            comfy: self.comfy as nat,
            webui: self.webui as nat,
            skipped: self.skipped as nat,
            errors: self.errors as nat,
        }
    }
}

impl TallyModel {
    /// The number of files counted.
    pub open spec fn total(self) -> nat {
        self.comfy + self.webui + self.skipped + self.errors
    }

    /// The counts with one more outcome.
    pub open spec fn with(self, outcome: OutcomeModel) -> TallyModel {
        match outcome {
            OutcomeModel::RoutedComfyUI => TallyModel { comfy: self.comfy + 1, ..self },
            OutcomeModel::RoutedWebUI => TallyModel { webui: self.webui + 1, ..self },
            OutcomeModel::Skipped => TallyModel { skipped: self.skipped + 1, ..self },
            OutcomeModel::Errored { .. } => TallyModel { errors: self.errors + 1, ..self },
        }
    }
}

/// No file counted yet.
pub open spec fn empty_tally() -> TallyModel {
    TallyModel { comfy: 0, webui: 0, skipped: 0, errors: 0 }
}

/// The outcomes of a list, as plain values.
pub open spec fn outcome_models(outcomes: Seq<Outcome>) -> Seq<OutcomeModel> {
    Seq::new(outcomes.len(), |k: int| outcomes[k]@)
}

/// The counts of a list of outcomes.
pub open spec fn tally_of(outcomes: Seq<OutcomeModel>) -> TallyModel
    decreases outcomes.len(),
{
    if outcomes.len() == 0 {
        empty_tally()
    } else {
        tally_of(outcomes.drop_last()).with(outcomes.last())
    }
}

/// Every outcome is counted once, under exactly one of the four heads: the
/// four counts add up to the number of outcomes.
pub proof fn law_counts_add_up(outcomes: Seq<OutcomeModel>)
    ensures
        tally_of(outcomes).total() == outcomes.len(),
    decreases outcomes.len(),
{
    if outcomes.len() > 0 {
        law_counts_add_up(outcomes.drop_last());
    }
}

/// The order in which outcomes arrive has no effect on the counts of two of them.
pub proof fn law_counting_commutes(tally: TallyModel, first: OutcomeModel, second: OutcomeModel)
    ensures
        tally.with(first).with(second) == tally.with(second).with(first),
{
}

impl Tally {
    /// No file counted yet.
    pub fn new() -> (tally: Tally)
        ensures
            tally@ == empty_tally(),
    {
        Tally { comfy: 0, webui: 0, skipped: 0, errors: 0 }
    }

    /// The number of files counted.
    pub fn total(&self) -> (total: usize)
        requires
            self@.total() <= usize::MAX,
        ensures
            total == self@.total(),
    {
        self.comfy + self.webui + self.skipped + self.errors
    }

    /// Counts one more outcome.
    pub fn record(&mut self, outcome: &Outcome)
        requires
            old(self)@.total() < usize::MAX,
        ensures
            final(self)@ == old(self)@.with(outcome@),
    {
        match outcome {
            Outcome::RoutedComfyUI => {
                self.comfy = self.comfy + 1;
            },
            Outcome::RoutedWebUI => {
                self.webui = self.webui + 1;
            },
            Outcome::Skipped => {
                self.skipped = self.skipped + 1;
            },
            Outcome::Errored { .. } => {
                self.errors = self.errors + 1;
            },
        }
    }
}

/// The counts of a run, from the outcome of each of its files.
pub fn summarize(outcomes: &Vec<Outcome>) -> (tally: Tally)
    ensures
        tally@ == tally_of(outcome_models(outcomes@)),
        tally@.total() == outcomes@.len(),
{
    let mut tally = Tally::new();
    let mut k: usize = 0;
    while k < outcomes.len()
        invariant
            k <= outcomes.len(),
            tally@ == tally_of(outcome_models(outcomes@).take(k as int)),
        decreases outcomes.len() - k,
    {
        proof {
            let all = outcome_models(outcomes@);
            law_counts_add_up(all.take(k as int));
            assert(all.take(k as int + 1).drop_last() =~= all.take(k as int));
            assert(all.take(k as int + 1).last() == outcomes@[k as int]@);
        }
        tally.record(&outcomes[k]);
        k += 1;
    }
    proof {
        let all = outcome_models(outcomes@);
        assert(all.take(k as int) =~= all);
        law_counts_add_up(all);
    }
    tally
}

} // verus!
