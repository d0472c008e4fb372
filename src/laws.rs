//! What holds of the polls over any run of submissions.
use crate::polling::{route, OptionView, PollView, SubmissionView};
use vstd::prelude::*;

verus! {

/// The polls after a run of submissions, sent one after another.
pub open spec fn route_all(polls: Seq<PollView>, subs: Seq<SubmissionView>) -> Seq<PollView>
    decreases subs.len(),
{
    if subs.len() == 0 {
        polls
    } else {
        route_all(route(polls, subs[0]), subs.drop_first())
    }
}

/// `after` is `before` under the same id, title and kind, with every option
/// of `before` kept under its name and with no count lower than it was.
pub open spec fn poll_kept(after: PollView, before: PollView) -> bool {
    &&& after.uuid == before.uuid
    &&& after.title == before.title
    &&& after.multiple == before.multiple
    &&& after.options.len() >= before.options.len()
    &&& forall|i: int| 0 <= i < before.options.len() ==> {
        &&& (#[trigger] after.options[i]).name == before.options[i].name
        &&& after.options[i].votes >= before.options[i].votes
    }
}

/// `after` keeps every poll of `before`, in place, with no count lower.
pub open spec fn counts_kept(after: Seq<PollView>, before: Seq<PollView>) -> bool {
    &&& after.len() >= before.len()
    &&& forall|k: int| 0 <= k < before.len() ==> poll_kept(#[trigger] after[k], before[k])
}

/// Any state keeps its own counts.
pub proof fn lemma_counts_kept_refl(polls: Seq<PollView>)
    ensures
        counts_kept(polls, polls),
{
}

/// Keeping counts carries over from one step to the next.
pub proof fn lemma_counts_kept_trans(a: Seq<PollView>, b: Seq<PollView>, c: Seq<PollView>)
    requires
        counts_kept(b, a),
        counts_kept(c, b),
    ensures
        counts_kept(c, a),
{
    assert forall|k: int| 0 <= k < a.len() implies poll_kept(#[trigger] c[k], a[k]) by {
        assert(poll_kept(b[k], a[k]));
        assert(poll_kept(c[k], b[k]));
        assert forall|i: int| 0 <= i < a[k].options.len() implies {
            &&& (#[trigger] c[k].options[i]).name == a[k].options[i].name
            &&& c[k].options[i].votes >= a[k].options[i].votes
        } by {
            assert(b[k].options[i].name == a[k].options[i].name);
        }
    }
}

/// Sending a submission lowers no count.
pub proof fn lemma_route_keeps_counts(polls: Seq<PollView>, s: SubmissionView)
    ensures
        counts_kept(route(polls, s), polls),
{
    let after = route(polls, s);
    assert forall|k: int| 0 <= k < polls.len() implies poll_kept(#[trigger] after[k], polls[k]) by {
        assert forall|i: int| 0 <= i < polls[k].options.len() implies {
            &&& (#[trigger] after[k].options[i]).name == polls[k].options[i].name
            &&& after[k].options[i].votes >= polls[k].options[i].votes
        } by {
            if polls[k].uuid == s.target() && polls[k].accepts(s) {
                assert(after[k].options[i] == PollView::counted(polls[k].options[i], s));
            }
        }
    }
}

/// Vote counts never fall: over any run of submissions, every option keeps
/// its name and a count at least as high as before.
pub proof fn lemma_counts_never_fall(polls: Seq<PollView>, subs: Seq<SubmissionView>)
    ensures
        counts_kept(route_all(polls, subs), polls),
    decreases subs.len(),
{
    if subs.len() == 0 {
        lemma_counts_kept_refl(polls);
    } else {
        let next = route(polls, subs[0]);
        lemma_route_keeps_counts(polls, subs[0]);
        lemma_counts_never_fall(next, subs.drop_first());
        lemma_counts_kept_trans(polls, next, route_all(next, subs.drop_first()));
    }
}

/// Adding a poll lowers no count.
pub proof fn lemma_push_keeps_counts(polls: Seq<PollView>, p: PollView)
    ensures
        counts_kept(polls.push(p), polls),
{
    assert forall|k: int| 0 <= k < polls.len() implies poll_kept(#[trigger] polls.push(p)[k], polls[k]) by {
        assert(polls.push(p)[k] == polls[k]);
    }
}

/// Adding an option to a poll lowers no count.
pub proof fn lemma_add_option_keeps_counts(polls: Seq<PollView>, k: int, name: Seq<char>)
    requires
        0 <= k < polls.len(),
    ensures
        counts_kept(
            polls.update(
                k,
                PollView { options: polls[k].options.push(OptionView { name, votes: 0 }), ..polls[k] },
            ),
            polls,
        ),
{
    let after = polls.update(
        k,
        PollView { options: polls[k].options.push(OptionView { name, votes: 0 }), ..polls[k] },
    );
    assert forall|j: int| 0 <= j < polls.len() implies poll_kept(#[trigger] after[j], polls[j]) by {
        if j == k {
            assert forall|i: int| 0 <= i < polls[j].options.len() implies
                #[trigger] after[j].options[i] == polls[j].options[i] by {}
        }
    }
}

/// A submission of the other kind than its poll changes nothing in it.
pub proof fn lemma_wrong_kind_changes_nothing(p: PollView, s: SubmissionView)
    requires
        !p.accepts(s),
    ensures
        p.apply(s) == p,
{
}

/// A submission that names none of a poll's options changes nothing in it.
pub proof fn lemma_unknown_choice_changes_nothing(p: PollView, s: SubmissionView)
    requires
        forall|i: int| 0 <= i < p.options.len() ==> !s.selects(#[trigger] p.options[i].name),
    ensures
        p.apply(s) == p,
{
    if p.accepts(s) {
        assert(p.apply(s).options =~= p.options);
    }
}

/// A submission whose target is the id of no poll changes nothing.
pub proof fn lemma_unknown_poll_changes_nothing(polls: Seq<PollView>, s: SubmissionView)
    requires
        forall|k: int| 0 <= k < polls.len() ==> (#[trigger] polls[k]).uuid != s.target(),
    ensures
        route(polls, s) == polls,
{
    assert(route(polls, s) =~= polls);
}

} // verus!
