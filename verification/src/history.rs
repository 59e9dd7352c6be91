//! The bounded history of normalised events: newest last, oldest evicted first.

use vstd::prelude::*;
use crate::event::{GitHubWebhookEvent, WebhookEventView};

verus! {

/// How many events the history retains at most.
pub const MAX_EVENTS: usize = 100;

/// The last `limit` entries of `events`, in the order they have there.
pub open spec fn keep_last<T>(events: Seq<T>, limit: nat) -> Seq<T> {
    if events.len() <= limit {
        events
    } else {
        events.subrange(events.len() - limit, events.len() as int)
    }
}

/// A history after one more arrival: the event joins the tail, and whatever
/// then exceeds the bound leaves from the head.
pub open spec fn appended(history: Seq<WebhookEventView>, event: WebhookEventView) -> Seq<
    WebhookEventView,
> {
    keep_last(history.push(event), MAX_EVENTS as nat)
}

/// A history after a run of arrivals, taken in order.
pub open spec fn appended_all(history: Seq<WebhookEventView>, arrivals: Seq<WebhookEventView>) -> Seq<
    WebhookEventView,
>
    decreases arrivals.len(),
{
    if arrivals.len() == 0 {
        history
    } else {
        appended(appended_all(history, arrivals.drop_last()), arrivals.last())
    }
}

/// Feeding a run of arrivals through the history one at a time leaves exactly
/// the last [`MAX_EVENTS`] of everything seen so far, in arrival order.
pub proof fn lemma_appended_all_keeps_last(
    history: Seq<WebhookEventView>,
    arrivals: Seq<WebhookEventView>,
)
    requires
        history.len() <= MAX_EVENTS,
    ensures
        appended_all(history, arrivals) == keep_last(history + arrivals, MAX_EVENTS as nat),
        appended_all(history, arrivals).len() <= MAX_EVENTS,
    decreases arrivals.len(),
{
    if arrivals.len() == 0 {
        assert(history + arrivals =~= history);
    } else {
        let earlier = arrivals.drop_last();
        lemma_appended_all_keeps_last(history, earlier);
        assert(history + arrivals =~= (history + earlier).push(arrivals.last()));
        assert(appended_all(history, arrivals) =~= keep_last(
            history + arrivals,
            MAX_EVENTS as nat,
        ));
    }
}

/// Once more than [`MAX_EVENTS`] events have arrived at an empty history, it
/// holds [`MAX_EVENTS`] of them: the most recent ones, in the order they
/// came.
pub proof fn lemma_overflow_retains_most_recent(arrivals: Seq<WebhookEventView>)
    requires
        arrivals.len() > MAX_EVENTS,
    ensures
        appended_all(Seq::empty(), arrivals).len() == MAX_EVENTS,
        forall|i: int|
            0 <= i < MAX_EVENTS ==> appended_all(Seq::empty(), arrivals)[i] == arrivals[arrivals.len()
                - MAX_EVENTS + i],
{
    lemma_appended_all_keeps_last(Seq::empty(), arrivals);
    assert(Seq::<WebhookEventView>::empty() + arrivals =~= arrivals);
}

/// The values of a run of events, in order.
pub open spec fn event_views(events: Seq<GitHubWebhookEvent>) -> Seq<WebhookEventView> {
    Seq::new(events.len(), |i: int| events[i]@)
}

/// Arrival-ordered events, never more than [`MAX_EVENTS`] of them.
pub struct EventHistory {
    events: Vec<GitHubWebhookEvent>,
}

impl View for EventHistory {
    type V = Seq<WebhookEventView>;

    closed spec fn view(&self) -> Seq<WebhookEventView> {
        keep_last(event_views(self.events@), MAX_EVENTS as nat)
    }
}

impl EventHistory {
    #[verifier::type_invariant]
    spec fn within_bound(&self) -> bool {
        self.events.len() <= MAX_EVENTS
    }

    /// A history never holds more than [`MAX_EVENTS`] events, in any state.
    pub proof fn lemma_within_bound(self)
        ensures
            self@.len() <= MAX_EVENTS,
    {
    }

    /// An empty history.
    pub fn new() -> (history: Self)
        ensures
            history@ == Seq::<WebhookEventView>::empty(),
    {
        EventHistory { events: Vec::new() }
    }

    /// Number of retained events.
    pub fn len(&self) -> (n: usize)
        ensures
            n == self@.len(),
            n <= MAX_EVENTS,
    {
        proof {
            use_type_invariant(self);
        }
        self.events.len()
    }

    /// Adds `event` at the tail, then evicts from the head until at most
    /// [`MAX_EVENTS`] events remain.
    pub fn append(&mut self, event: GitHubWebhookEvent)
        ensures
            final(self)@ == appended(old(self)@, event@),
            final(self)@.len() <= MAX_EVENTS,
    {
        proof {
            use_type_invariant(&*self);
        }
        let mut events: Vec<GitHubWebhookEvent> = Vec::new();
        core::mem::swap(&mut events, &mut self.events);
        let ghost before = events@;
        events.push(event);
        let ghost pushed = events@;
        while events.len() > MAX_EVENTS
            invariant
                events.len() <= pushed.len(),
                events.len() >= MAX_EVENTS || events.len() == pushed.len(),
                events@ == pushed.subrange(pushed.len() - events.len(), pushed.len() as int),
            decreases events.len(),
        {
            events.remove(0);
        }
        assert(event_views(pushed) =~= event_views(before).push(event@));
        assert(event_views(events@) =~= appended(event_views(before), event@));
        self.events = events;
    }

    /// A copy of the retained events, oldest first.
    pub fn snapshot(&self) -> (events: Vec<GitHubWebhookEvent>)
        ensures
            event_views(events@) == self@,
            events.len() <= MAX_EVENTS,
    {
        proof {
            use_type_invariant(self);
        }
        let mut events: Vec<GitHubWebhookEvent> = Vec::new();
        let mut i: usize = 0;
        while i < self.events.len()
            invariant
                i <= self.events.len(),
                events.len() == i,
                forall|j: int| 0 <= j < i ==> events[j]@ == self.events[j]@,
            decreases self.events.len() - i,
        {
            events.push(self.events[i].clone());
            i += 1;
        }
        assert(event_views(events@) =~= event_views(self.events@));
        events
    }
}

} // verus!
