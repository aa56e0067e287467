use vstd::prelude::*;

use crate::text::views;

verus! {

/// The next call the publisher asks its caller to make.
pub enum PublishStep {
    /// Publish the first body, with the media attachments, as a new thread.
    PostRoot { body: String },
    /// Publish a body as a reply to the post `parent`.
    PostReply { body: String, parent: String },
    /// Every body is published.
    Finished,
    /// A call failed; the rest of the thread is given up.
    Aborted,
}

pub enum StepView {
    PostRoot(Seq<char>),
    PostReply(Seq<char>, Seq<char>),
    Finished,
    Aborted,
}

pub open spec fn step_view(s: PublishStep) -> StepView {
    match s {
        PublishStep::PostRoot { body } => StepView::PostRoot(body@),
        PublishStep::PostReply { body, parent } => StepView::PostReply(body@, parent@),
        PublishStep::Finished => StepView::Finished,
        PublishStep::Aborted => StepView::Aborted,
    }
}

/// The state of a thread being published: its bodies, the identifiers of the
/// posts made so far, and whether a call failed.
pub struct PublisherView {
    pub bodies: Seq<Seq<char>>,
    pub post_ids: Seq<Seq<char>>,
    pub aborted: bool,
}

/// Publishes a sequence of bodies as a thread: the first as a root post,
/// each later one as a reply to the post made just before it. The caller
/// makes the calls and reports each outcome.
pub struct ThreadPublisher {
    bodies: Vec<String>,
    post_ids: Vec<String>,
    aborted: bool,
}

/// A post is still owed.
pub open spec fn pending(p: PublisherView) -> bool {
    !p.aborted && p.post_ids.len() < p.bodies.len()
}

/// The call to make in state `p`.
pub open spec fn next_step_of(p: PublisherView) -> StepView {
    if p.aborted {
        StepView::Aborted
    } else if p.post_ids.len() >= p.bodies.len() {
        StepView::Finished
    } else if p.post_ids.len() == 0 {
        StepView::PostRoot(p.bodies[0])
    } else {
        StepView::PostReply(p.bodies[p.post_ids.len() as int], p.post_ids.last())
    }
}

/// The state after the owed post was made and returned `id`.
pub open spec fn after_posted(p: PublisherView, id: Seq<char>) -> PublisherView {
    if pending(p) {
        PublisherView { post_ids: p.post_ids.push(id), ..p }
    } else {
        p
    }
}

/// The state after the owed post failed.
pub open spec fn after_failure(p: PublisherView) -> PublisherView {
    if pending(p) {
        PublisherView { aborted: true, ..p }
    } else {
        p
    }
}

/// The state before any call.
pub open spec fn start(bodies: Seq<Seq<char>>) -> PublisherView {
    PublisherView { bodies, post_ids: Seq::empty(), aborted: false }
}

/// The calls made from state `p` when the posts return `ids` in turn.
pub open spec fn issued(p: PublisherView, ids: Seq<Seq<char>>) -> Seq<StepView>
    decreases ids.len(),
{
    if !pending(p) || ids.len() == 0 {
        Seq::empty()
    } else {
        seq![next_step_of(p)] + issued(after_posted(p, ids[0]), ids.skip(1))
    }
}

impl View for ThreadPublisher {
    type V = PublisherView;

    closed spec fn view(&self) -> PublisherView {
        PublisherView {
            bodies: views(self.bodies@),
            post_ids: views(self.post_ids@),
            aborted: self.aborted,
        }
    }
}

impl ThreadPublisher {
    /// A publisher that has made no call yet.
    pub fn new(bodies: Vec<String>) -> (r: Self)
        ensures
            r@ == start(views(bodies@)),
    {
        let r = ThreadPublisher { bodies, post_ids: Vec::new(), aborted: false };
        assert(views(r.post_ids@) =~= Seq::<Seq<char>>::empty());
        r
    }

    /// The call to make now.
    pub fn next_step(&self) -> (r: PublishStep)
        ensures
            step_view(r) == next_step_of(self@),
    {
        if self.aborted {
            PublishStep::Aborted
        } else if self.post_ids.len() >= self.bodies.len() {
            PublishStep::Finished
        } else if self.post_ids.len() == 0 {
            PublishStep::PostRoot { body: self.bodies[0].clone() }
        } else {
            let n = self.post_ids.len();
            PublishStep::PostReply {
                body: self.bodies[n].clone(),
                parent: self.post_ids[n - 1].clone(),
            }
        }
    }

    /// Records that the owed post was made and returned `id`.
    pub fn record_posted(&mut self, id: String)
        ensures
            final(self)@ == after_posted(old(self)@, id@),
    {
        if !self.aborted && self.post_ids.len() < self.bodies.len() {
            let ghost before = self.post_ids@;
            self.post_ids.push(id);
            assert(views(self.post_ids@) =~= views(before).push(id@));
        }
    }

    /// Records that the owed post failed: the thread is given up.
    pub fn record_failure(&mut self)
        ensures
            final(self)@ == after_failure(old(self)@),
    {
        if !self.aborted && self.post_ids.len() < self.bodies.len() {
            self.aborted = true;
        }
    }

    /// The identifiers of the posts made so far, root first.
    pub fn post_ids(&self) -> (r: Vec<String>)
        ensures
            views(r@) == self@.post_ids,
    {
        let mut out: Vec<String> = Vec::new();
        let mut i: usize = 0;
        while i < self.post_ids.len()
            invariant
                i <= self.post_ids.len(),
                views(out@) == views(self.post_ids@).take(i as int),
            decreases self.post_ids.len() - i,
        {
            let ghost before = out@;
            out.push(self.post_ids[i].clone());
            i += 1;
            assert(views(out@) =~= views(before).push(self.post_ids@[i - 1]@));
            assert(views(self.post_ids@).take(i as int) =~= views(self.post_ids@).take(i - 1).push(
                self.post_ids@[i - 1]@,
            ));
        }
        assert(views(self.post_ids@).take(i as int) =~= views(self.post_ids@));
        out
    }
}

proof fn lemma_issued_from(p: PublisherView, ids: Seq<Seq<char>>)
    requires
        !p.aborted,
        p.post_ids.len() <= p.bodies.len(),
        ids.len() == p.bodies.len() - p.post_ids.len(),
    ensures
        issued(p, ids).len() == ids.len(),
        forall|m: int|
            0 <= m < ids.len() ==> #[trigger] issued(p, ids)[m] == if p.post_ids.len() + m == 0 {
                StepView::PostRoot(p.bodies[0])
            } else {
                StepView::PostReply(
                    p.bodies[p.post_ids.len() + m],
                    if m == 0 {
                        p.post_ids.last()
                    } else {
                        ids[m - 1]
                    },
                )
            },
    decreases ids.len(),
{
    if ids.len() > 0 {
        let q = after_posted(p, ids[0]);
        let rest = ids.skip(1);
        lemma_issued_from(q, rest);
        let all = issued(p, ids);
        assert(all == seq![next_step_of(p)] + issued(q, rest));
        assert forall|m: int| 0 <= m < ids.len() implies #[trigger] all[m] == if p.post_ids.len()
            + m == 0 {
            StepView::PostRoot(p.bodies[0])
        } else {
            StepView::PostReply(
                p.bodies[p.post_ids.len() + m],
                if m == 0 {
                    p.post_ids.last()
                } else {
                    ids[m - 1]
                },
            )
        } by {
            if m > 0 {
                assert(all[m] == issued(q, rest)[m - 1]);
                assert(q.post_ids.len() == p.post_ids.len() + 1);
                if m == 1 {
                    assert(q.post_ids.last() == ids[0]);
                } else {
                    assert(rest[m - 2] == ids[m - 1]);
                }
            }
        }
    }
}

/// A thread of `k` bodies whose posts all succeed takes exactly `k` calls:
/// one root post for the first body, then one reply for each later body,
/// whose parent is the identifier the call before it returned. Then the
/// publisher is finished.
pub proof fn lemma_thread_order(bodies: Seq<Seq<char>>, ids: Seq<Seq<char>>)
    requires
        ids.len() == bodies.len(),
    ensures
        issued(start(bodies), ids).len() == bodies.len(),
        bodies.len() > 0 ==> issued(start(bodies), ids)[0] == StepView::PostRoot(bodies[0]),
        forall|n: int|
            1 <= n < bodies.len() ==> #[trigger] issued(start(bodies), ids)[n]
                == StepView::PostReply(bodies[n], ids[n - 1]),
{
    lemma_issued_from(start(bodies), ids);
}

} // verus!
