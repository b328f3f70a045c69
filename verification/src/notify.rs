//! Change notification: subscribers are told each new value, and a new
//! subscriber is told the latest value straight away.
use vstd::prelude::*;

use crate::seq_facts::lemma_push_contains;
use crate::util::Sequence;
use crate::util::lemma_sequence_fits;

verus! {

/// A subscription, by number.
#[derive(Debug, Clone, Copy, PartialEq, Eq, Structural)]
pub struct Handle {
    pub id: usize,
}

/// The notifier's bookkeeping: the latest value, and the subscriptions in
/// the order they were made (the page keeps the callbacks that go with them).
#[derive(Debug)]
pub struct NotifyCore<T> {
    pub value: Option<T>,
    pub id_seq: Sequence,
    pub handles: Vec<usize>,
}

impl<T: Clone> NotifyCore<T> {
    /// Subscription numbers are made by the sequence, in increasing order.
    pub open spec fn wf(&self) -> bool {
        &&& forall|i: int, j: int| 0 <= i < j < self.handles@.len() ==> self.handles@[i] < self.handles@[j]
        &&& forall|i: int| 0 <= i < self.handles@.len() ==> 0 < #[trigger] self.handles@[i] <= self.id_seq@
    }

    /// A notifier with no value and no subscribers.
    pub fn new() -> (r: Self)
        ensures
            r.wf(),
            r.value is None,
            r.handles@.len() == 0,
    {
        NotifyCore { value: None, id_seq: Sequence::new(), handles: Vec::new() }
    }

    /// Adds a subscriber, and gives the value to send it straight away: the
    /// latest value, if there is one.
    pub fn subscribe(&mut self) -> (r: (Handle, Option<T>))
        requires
            old(self).wf(),
            old(self).id_seq@ < usize::MAX,
        ensures
            final(self).wf(),
            r.0.id == old(self).id_seq@ + 1,
            final(self).id_seq@ == old(self).id_seq@ + 1,
            final(self).handles@ == old(self).handles@.push(r.0.id),
            final(self).value == old(self).value,
            match (old(self).value, r.1) {
                (Some(v), Some(w)) => cloned(v, w),
                (None, None) => true,
                _ => false,
            },
    {
        // send existing value if exists straight away
        let initial = match &self.value {
            Some(v) => Some(v.clone()),
            None => None,
        };
        let id = self.id_seq.next();
        self.handles.push(id);
        (Handle { id }, initial)
    }

    /// Records a new value, and gives the subscribers to send it to, in the
    /// order they subscribed.
    pub fn broadcast(&mut self, value: T) -> (r: Vec<usize>)
        requires
            old(self).wf(),
        ensures
            final(self).wf(),
            final(self).value == Some(value),
            final(self).handles@ == old(self).handles@,
            final(self).id_seq@ == old(self).id_seq@,
            r@ == old(self).handles@,
    {
        self.value = Some(value);
        self.handles.clone()
    }

    /// Ends a subscription.
    pub fn deregister(&mut self, handle: Handle)
        requires
            old(self).wf(),
        ensures
            final(self).wf(),
            final(self).value == old(self).value,
            final(self).id_seq@ == old(self).id_seq@,
            !final(self).handles@.contains(handle.id),
            forall|x: usize| x != handle.id ==> (#[trigger] final(self).handles@.contains(x) <==> old(self).handles@.contains(x)),
    {
        let ghost h0 = self.handles@;
        let mut kept: Vec<usize> = Vec::new();
        let mut i: usize = 0;
        while i < self.handles.len()
            invariant
                i <= self.handles@.len(),
                self.handles@ == h0,
                forall|a: int, b: int| 0 <= a < b < h0.len() ==> h0[a] < h0[b],
                forall|a: int| 0 <= a < h0.len() ==> 0 < #[trigger] h0[a] <= self.id_seq@,
                forall|a: int, b: int| 0 <= a < b < kept@.len() ==> kept@[a] < kept@[b],
                forall|a: int| 0 <= a < kept@.len() ==> exists|b: int| 0 <= b < i && #[trigger] kept@[a] == h0[b],
                forall|x: usize| #[trigger] kept@.contains(x) <==> (x != handle.id && h0.take(i as int).contains(x)),
            decreases h0.len() - i,
        {
            let h = self.handles[i];
            let ghost k0 = kept@;
            assert(h0.take(i + 1) =~= h0.take(i as int).push(h));
            if h != handle.id {
                assert forall|a: int| 0 <= a < k0.len() implies k0[a] < h by {
                    let b = choose|b: int| 0 <= b < i && k0[a] == h0[b];
                }
                kept.push(h);
            }
            assert forall|x: usize| #[trigger] kept@.contains(x) <==> (x != handle.id && h0.take(i + 1).contains(x)) by {
                lemma_push_contains(h0.take(i as int), h, x);
                lemma_push_contains(k0, h, x);
            }
            assert forall|a: int| 0 <= a < kept@.len() implies exists|b: int| 0 <= b < i + 1 && #[trigger] kept@[a] == h0[b] by {
                if a < k0.len() {
                    let b = choose|b: int| 0 <= b < i && k0[a] == h0[b];
                    assert(kept@[a] == h0[b]);
                } else {
                    assert(kept@[a] == h0[i as int]);
                }
            }
            i = i + 1;
        }
        assert(h0.take(h0.len() as int) =~= h0);
        assert forall|a: int| 0 <= a < kept@.len() implies 0 < #[trigger] kept@[a] <= self.id_seq@ by {
            let b = choose|b: int| 0 <= b < h0.len() && kept@[a] == h0[b];
        }
        self.handles = kept;
    }
}

/// What is done to a notifier, call by call.
pub enum NotifyEvent<T> {
    Subscribe,
    Broadcast(T),
    Deregister(Handle),
}

/// One call on a notifier: its state before and after, and the subscribers
/// it told (those a broadcast sends to; none for the other calls).
pub open spec fn notify_step<T: Clone>(n: NotifyCore<T>, e: NotifyEvent<T>, n2: NotifyCore<T>, sent: Seq<usize>) -> bool {
    &&& n2.wf()
    &&& match e {
        NotifyEvent::Subscribe => {
            &&& n2.handles@ == n.handles@.push((n.id_seq@ + 1) as usize)
            &&& n2.id_seq@ == n.id_seq@ + 1
            &&& sent.len() == 0
        },
        NotifyEvent::Broadcast(v) => {
            &&& n2.handles@ == n.handles@
            &&& n2.id_seq@ == n.id_seq@
            &&& n2.value == Some(v)
            &&& sent == n.handles@
        },
        NotifyEvent::Deregister(h) => {
            &&& n2.id_seq@ == n.id_seq@
            &&& !n2.handles@.contains(h.id)
            &&& forall|x: usize| x != h.id ==> (#[trigger] n2.handles@.contains(x) <==> n.handles@.contains(x))
            &&& sent.len() == 0
        },
    }
}

/// A run of calls on a notifier: the `i`-th call takes `ns[i]` to `ns[i + 1]`
/// and tells `sents[i]`.
pub open spec fn notify_run<T: Clone>(ns: Seq<NotifyCore<T>>, es: Seq<NotifyEvent<T>>, sents: Seq<Seq<usize>>) -> bool {
    &&& ns.len() == es.len() + 1
    &&& sents.len() == es.len()
    &&& ns[0].wf()
    &&& forall|i: int| #![trigger es[i]] 0 <= i < es.len() ==> notify_step(ns[i], es[i], ns[i + 1], sents[i])
}

/// Whether the subscription numbered `id` was ended by one of the calls
/// after the `a`-th and before the `b`-th.
pub open spec fn ended_between<T>(es: Seq<NotifyEvent<T>>, id: usize, a: int, b: int) -> bool {
    exists|d: int| a < d < b && #[trigger] es[d] == NotifyEvent::<T>::Deregister(Handle { id })
}

proof fn lemma_increasing_no_duplicates(s: Seq<usize>)
    requires
        forall|i: int, j: int| 0 <= i < j < s.len() ==> s[i] < s[j],
    ensures
        s.no_duplicates(),
{
    assert forall|i: int, j: int| 0 <= i < s.len() && 0 <= j < s.len() && i != j implies s[i] != s[j] by {
        if i < j {
            assert(s[i] < s[j]);
        } else {
            assert(s[j] < s[i]);
        }
    }
}

/// A subscriber is told every later value exactly once: after the `k`-th
/// call subscribes, each later broadcast tells its subscription exactly once
/// until the subscription is ended, and never again after that.
pub proof fn lemma_subscriber_gets_every_later_value<T: Clone>(
    ns: Seq<NotifyCore<T>>,
    es: Seq<NotifyEvent<T>>,
    sents: Seq<Seq<usize>>,
    k: int,
)
    requires
        notify_run(ns, es, sents),
        0 <= k < es.len(),
        es[k] is Subscribe,
    ensures
        ({
            let h = (ns[k].id_seq@ + 1) as usize;
            &&& forall|j: int| k < j < es.len() && #[trigger] es[j] is Broadcast && !ended_between(es, h, k, j)
                ==> sents[j].contains(h) && sents[j].no_duplicates()
            &&& forall|j: int| k < j < es.len() && #[trigger] es[j] is Broadcast && ended_between(es, h, k, j)
                ==> !sents[j].contains(h)
        }),
{
    let h = (ns[k].id_seq@ + 1) as usize;
    assert(es[k] == es[k]);
    lemma_sequence_fits(ns[k + 1].id_seq);
    assert(ns[k + 1].handles@ == ns[k].handles@.push(h));
    assert(ns[k + 1].handles@[ns[k].handles@.len() as int] == h);
    lemma_notify_run_tracks(ns, es, sents, k, h, es.len() as int);
    assert forall|j: int| k < j < es.len() && #[trigger] es[j] is Broadcast && !ended_between(es, h, k, j)
        implies sents[j].contains(h) && sents[j].no_duplicates() by {
        lemma_notify_run_tracks(ns, es, sents, k, h, j);
        assert(sents[j] == ns[j].handles@);
        lemma_increasing_no_duplicates(ns[j].handles@);
    }
    assert forall|j: int| k < j < es.len() && #[trigger] es[j] is Broadcast && ended_between(es, h, k, j)
        implies !sents[j].contains(h) by {
        lemma_notify_run_tracks(ns, es, sents, k, h, j);
        assert(sents[j] == ns[j].handles@);
    }
}

proof fn lemma_notify_run_tracks<T: Clone>(
    ns: Seq<NotifyCore<T>>,
    es: Seq<NotifyEvent<T>>,
    sents: Seq<Seq<usize>>,
    k: int,
    h: usize,
    j: int,
)
    requires
        notify_run(ns, es, sents),
        0 <= k < es.len(),
        es[k] is Subscribe,
        h == ns[k].id_seq@ + 1,
        k < j <= es.len(),
    ensures
        ns[j].wf(),
        h <= ns[j].id_seq@,
        !ended_between(es, h, k, j) ==> ns[j].handles@.contains(h),
        ended_between(es, h, k, j) ==> !ns[j].handles@.contains(h),
    decreases j - k,
{
    assert(es[k] == es[k]);
    lemma_sequence_fits(ns[j].id_seq);
    if j == k + 1 {
        assert(ns[k + 1].handles@[ns[k].handles@.len() as int] == h);
        assert(!ended_between(es, h, k, j));
    } else {
        lemma_notify_run_tracks(ns, es, sents, k, h, j - 1);
        let p = j - 1;
        assert(es[p] == es[p]);
        assert(notify_step(ns[p], es[p], ns[j], sents[p]));
        if ended_between(es, h, k, p) {
            let d = choose|d: int| k < d < p && #[trigger] es[d] == NotifyEvent::<T>::Deregister(Handle { id: h });
            assert(ended_between(es, h, k, j));
            match es[p] {
                NotifyEvent::Subscribe => {
                    if ns[j].handles@.contains(h) {
                        let q = choose|q: int| 0 <= q < ns[j].handles@.len() && ns[j].handles@[q] == h;
                        if q < ns[p].handles@.len() {
                            assert(ns[p].handles@[q] == h);
                        }
                    }
                },
                _ => {},
            }
        } else {
            match es[p] {
                NotifyEvent::Subscribe => {
                    let q = choose|q: int| 0 <= q < ns[p].handles@.len() && ns[p].handles@[q] == h;
                    assert(ns[j].handles@[q] == h);
                    assert(!ended_between(es, h, k, j));
                },
                NotifyEvent::Broadcast(_) => {
                    assert(!ended_between(es, h, k, j));
                },
                NotifyEvent::Deregister(g) => {
                    if g.id == h {
                        assert(es[p] == NotifyEvent::<T>::Deregister(Handle { id: h }));
                        assert(ended_between(es, h, k, j));
                        assert(!ns[j].handles@.contains(h));
                    } else {
                        assert(ns[j].handles@.contains(h));
                        assert forall|d: int| k < d < j implies #[trigger] es[d] != NotifyEvent::<T>::Deregister(Handle { id: h }) by {
                            if d == p {
                                assert(es[p] == NotifyEvent::<T>::Deregister(g));
                            }
                        }
                    }
                },
            }
        }
    }
}

} // verus!
