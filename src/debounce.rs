use vstd::prelude::*;

verus! {

/// The two states of the link-loss debounce.
#[derive(Debug, Clone, Copy, PartialEq, Eq, Structural)]
pub enum Debounce {
    /// Ready to issue a reset on the next observation of a lost link.
    Armed,
    /// A reset was already issued for the current streak of lost-link observations.
    Fired,
}

/// State after observing the link once: a present link rearms, a lost link fires.
pub open spec fn next_debounce(state: Debounce, link_present: bool) -> Debounce {
    if link_present {
        Debounce::Armed
    } else {
        Debounce::Fired
    }
}

/// Whether observing the link in `state` issues a reset.
pub open spec fn issues_reset(state: Debounce, link_present: bool) -> bool {
    !link_present && state == Debounce::Armed
}

/// State after observing every link reading of `links`, in order, from `start`.
pub open spec fn debounce_after(start: Debounce, links: Seq<bool>) -> Debounce
    decreases links.len(),
{
    if links.len() == 0 {
        start
    } else {
        next_debounce(debounce_after(start, links.drop_last()), links.last())
    }
}

/// Whether the `i`-th observation of a run that starts in `start` issues a reset.
pub open spec fn reset_at(start: Debounce, links: Seq<bool>, i: int) -> bool {
    issues_reset(debounce_after(start, links.take(i)), links[i])
}

/// Once a reading has been taken, the state depends on that last reading alone:
/// a run that ends with the link present leaves the debounce armed.
pub proof fn lemma_debounce_after_last(start: Debounce, links: Seq<bool>)
    requires
        links.len() > 0,
    ensures
        debounce_after(start, links) == next_debounce(start, links.last()),
{
}

/// In a run of readings, a reset is issued at reading `i` exactly when the link
/// is lost there and either it was present just before, or `i` is the first
/// reading and the run started armed.
pub proof fn lemma_reset_at_streak_start(start: Debounce, links: Seq<bool>, i: int)
    requires
        0 <= i < links.len(),
    ensures
        reset_at(start, links, i) <==> (!links[i] && (if i == 0 {
            start == Debounce::Armed
        } else {
            links[i - 1]
        })),
{
    let pre = links.take(i);
    if i > 0 {
        assert(pre.last() == links[i - 1]);
    } else {
        assert(pre.len() == 0);
    }
}

/// At most one reset per streak of lost-link readings: between two resets of
/// one run there is a reading with the link present.
pub proof fn lemma_one_reset_per_streak(start: Debounce, links: Seq<bool>, i: int, j: int)
    requires
        0 <= i < j < links.len(),
        reset_at(start, links, i),
        reset_at(start, links, j),
    ensures
        exists|k: int| i < k < j && links[k],
{
    lemma_reset_at_streak_start(start, links, j);
    assert(links[j - 1]);
    if j - 1 == i {
        lemma_reset_at_streak_start(start, links, i);
        assert(false);
    }
    assert(i < j - 1 < j && links[j - 1]);
}

} // verus!
