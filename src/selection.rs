use vstd::prelude::*;

verus! {

/// What a selection step does with a candidate list.
#[derive(Debug, Clone, Copy, PartialEq, Eq, Structural)]
pub enum SelectStep {
    /// The list is empty: report that nothing was found, prompt no one.
    NothingFound,
    /// Ask the operator to pick among the candidates.
    Prompt,
}

pub open spec fn select_step(candidates: nat) -> SelectStep {
    if candidates == 0 {
        SelectStep::NothingFound
    } else {
        SelectStep::Prompt
    }
}

/// The picks of `picks` that name one of `n` candidates, in the order chosen.
pub open spec fn picks_below(picks: Seq<usize>, n: nat) -> Seq<usize>
    decreases picks.len(),
{
    if picks.len() == 0 {
        Seq::empty()
    } else if picks.last() < n {
        picks_below(picks.drop_last(), n).push(picks.last())
    } else {
        picks_below(picks.drop_last(), n)
    }
}

/// The selection that results from the operator's reply: nothing when the
/// prompt failed, else the picks that name a candidate.
pub open spec fn chosen_of(candidates: nat, reply: Option<Seq<usize>>) -> Seq<usize> {
    match reply {
        Some(p) => picks_below(p, candidates),
        None => Seq::empty(),
    }
}

pub open spec fn picks_option(reply: Option<Vec<usize>>) -> Option<Seq<usize>> {
    match reply {
        Some(v) => Some(v@),
        None => None,
    }
}

proof fn lemma_picks_below_zero(picks: Seq<usize>)
    ensures
        picks_below(picks, 0) == Seq::<usize>::empty(),
    decreases picks.len(),
{
    if picks.len() > 0 {
        lemma_picks_below_zero(picks.drop_last());
    }
}

/// An empty candidate list is never put to the operator, and whatever the
/// prompt would have answered, nothing is selected from it.
pub proof fn lemma_empty_candidates_select_nothing(reply: Option<Seq<usize>>)
    ensures
        select_step(0) == SelectStep::NothingFound,
        chosen_of(0, reply) == Seq::<usize>::empty(),
{
    if let Some(p) = reply {
        lemma_picks_below_zero(p);
    }
}

/// The operator-facing selection and confirmation rules.
pub struct SelectionGate;

impl SelectionGate {
    /// Whether to prompt for `candidates` items.
    pub fn plan(candidates: usize) -> (r: SelectStep)
        ensures
            r == select_step(candidates as nat),
    {
        if candidates == 0 {
            SelectStep::NothingFound
        } else {
            SelectStep::Prompt
        }
    }

    /// The positions selected among `candidates` items, given the prompt's
    /// reply (`None` when the prompt failed).
    pub fn chosen(candidates: usize, reply: Option<Vec<usize>>) -> (r: Vec<usize>)
        ensures
            r@ == chosen_of(candidates as nat, picks_option(reply)),
    {
        let mut out: Vec<usize> = Vec::new();
        match reply {
            None => out,
            Some(picks) => {
                let mut i: usize = 0;
                while i < picks.len()
                    invariant
                        i <= picks@.len(),
                        out@ == picks_below(picks@.take(i as int), candidates as nat),
                    decreases picks@.len() - i,
                {
                    assert(picks@.take(i + 1).drop_last() =~= picks@.take(i as int));
                    if picks[i] < candidates {
                        out.push(picks[i]);
                    }
                    i = i + 1;
                }
                assert(picks@.take(picks@.len() as int) =~= picks@);
                out
            },
        }
    }

    /// A yes/no reply; a failed prompt counts as a no.
    pub fn confirmed(reply: Option<bool>) -> (r: bool)
        ensures
            r == (reply == Some(true)),
    {
        match reply {
            Some(b) => b,
            None => false,
        }
    }
}

} // verus!
