//! What holds of a drain as a whole, over the scheduler's state: which
//! messages are handed out, in what order, and what is left when it is over.
use vstd::multiset::Multiset;
use vstd::prelude::*;

use crate::scheduler::SchedulerState;
use crate::Message;

verus! {

impl SchedulerState {
    /// The scheduler after each message of `added` was put on top in turn with
    /// `add_message`.
    pub open spec fn add_all(self, added: Seq<Message>) -> SchedulerState
        decreases added.len(),
    {
        if added.len() == 0 {
            self
        } else {
            self.add_all(added.drop_last()).add_message(added.last()).0
        }
    }

    /// `accepts`, as a predicate on messages.
    pub open spec fn accepting(self) -> spec_fn(Message) -> bool {
        |message: Message| self.accepts(message)
    }

    /// The waiting messages whose collaborator is bound, oldest first.
    pub open spec fn accepted(self) -> Seq<Message> {
        self.events.filter(self.accepting())
    }

    /// The messages that are handed out, in that order, when the drain is
    /// taken up with `run` after each delivery and nothing is added meanwhile.
    pub open spec fn drained(self) -> Seq<Message>
        decreases self.events.len(),
        via Self::drained_decreases
    {
        match self.run() {
            (rest, Some(message)) => seq![message] + rest.drained(),
            (_, None) => Seq::empty(),
        }
    }

    #[via_fn]
    proof fn drained_decreases(self) {
        self.lemma_top();
    }

    /// What comes of a drain in which the collaborators answer. `self` is the
    /// scheduler while a message is being delivered. The collaborator that
    /// has it adds the messages `replies[0]`, the one that gets the next
    /// delivery adds `replies[1]`, and so on, and after each of them the drain
    /// is taken up with `run`. The result is the scheduler once the drain has
    /// come to rest or the replies have run out, the messages handed out on
    /// the way, and the messages added on the way, each in order.
    pub open spec fn session(self, replies: Seq<Seq<Message>>) -> (
        SchedulerState,
        Seq<Message>,
        Seq<Message>,
    )
        decreases replies.len(),
    {
        if replies.len() == 0 {
            (self, Seq::empty(), Seq::empty())
        } else {
            match self.add_all(replies.first()).run() {
                (rest, Some(message)) => {
                    let (end, delivered, added) = rest.session(replies.drop_first());
                    (end, seq![message] + delivered, replies.first() + added)
                },
                (rest, None) => (rest, Seq::empty(), replies.first()),
            }
        }
    }
}

impl SchedulerState {
    /// A turn of the drain loses nothing: the waiting messages are those that
    /// stay, then the one handed out, then those discarded, and each of the
    /// discarded has no bound collaborator. The turn hands nothing out exactly
    /// when it leaves the scheduler at rest, and then nothing is left waiting.
    pub proof fn lemma_run_splits_events(self)
        ensures
            match self.run() {
                (rest, Some(message)) => {
                    let discarded = self.events.skip((rest.events.len() + 1) as int);
                    &&& rest.running
                    &&& self.accepts(message)
                    &&& self.events == rest.events.push(message) + discarded
                    &&& forall|j: int|
                        0 <= j < discarded.len() ==> !self.accepts(#[trigger] discarded[j])
                },
                (rest, None) => {
                    &&& !rest.running
                    &&& rest.events.len() == 0
                    &&& forall|j: int|
                        0 <= j < self.events.len() ==> !self.accepts(#[trigger] self.events[j])
                },
            },
    {
        self.lemma_top();
        let k = self.top();
        if k >= 0 {
            let rest = self.run().0;
            let discarded = self.events.skip(k + 1);
            assert forall|j: int| 0 <= j < discarded.len() implies !self.accepts(
                #[trigger] discarded[j],
            ) by {
            }
        }
    }

    /// With nothing waiting, `run` changes nothing but the running flag, which
    /// it clears, and hands nothing out.
    pub proof fn lemma_run_at_rest(self)
        requires
            self.events.len() == 0,
        ensures
            self.run() == (self.with_running(false), None::<Message>),
    {
    }

    /// A message for a collaborator that is not bound, added at rest, is
    /// discarded: nothing is handed out and the scheduler is as it was.
    pub proof fn lemma_unbound_is_dropped(self, message: Message)
        requires
            !self.running,
            self.events.len() == 0,
            !self.accepts(message),
        ensures
            self.add_message(message) == (self, None::<Message>),
    {
        let pushed = self.with_events(self.events.push(message));
        assert(pushed.with_events(pushed.events.drop_last()) =~= self);
        assert(self.top() == -1);
    }

    /// While a drain is under way, adding messages only piles them up in the
    /// order in which they were added: no second drain starts and nothing is
    /// handed out.
    pub proof fn lemma_add_while_running(self, added: Seq<Message>)
        requires
            self.running,
        ensures
            self.add_all(added) == self.with_events(self.events + added),
            forall|i: int|
                0 <= i < added.len() ==> (#[trigger] self.add_all(added.take(i))).add_message(
                    added[i],
                ).1 is None,
        decreases added.len(),
    {
        if added.len() > 0 {
            let front = added.drop_last();
            self.lemma_add_while_running(front);
            assert forall|i: int| 0 <= i < added.len() implies (#[trigger] self.add_all(
                added.take(i),
            )).add_message(added[i]).1 is None by {
                if i < front.len() {
                    assert(added.take(i) =~= front.take(i));
                }
            }
        }
    }

    /// Messages added while another is being handled come before those that
    /// waited already, the last one added first. Where none of them has a
    /// bound collaborator, the drain goes on as if none had been added.
    pub proof fn lemma_added_go_first(self, added: Seq<Message>)
        requires
            self.running,
        ensures
            ({
                let k = self.with_events(added).top();
                &&& k >= 0 ==> self.add_all(added).run() == (
                    self.with_events(self.events + added.take(k)),
                    Some(added[k]),
                )
                &&& k < 0 ==> self.add_all(added).run() == self.run()
            }),
        decreases added.len(),
    {
        self.lemma_add_while_running(added);
        let grown = self.with_events(self.events + added);
        let only = self.with_events(added);
        only.lemma_top();
        if added.len() > 0 && !self.accepts(added.last()) {
            let front = added.drop_last();
            self.lemma_add_while_running(front);
            self.lemma_added_go_first(front);
            let shorter = self.with_events(self.events + front);
            shorter.lemma_top();
            assert(grown.with_events(grown.events.drop_last()) =~= shorter);
            let k = only.top();
            if k >= 0 {
                assert(added.take(k) =~= front.take(k));
            }
        }
    }

    /// A turn of the drain hands out the last of the waiting messages that
    /// have a bound collaborator, and the others of them go on waiting in
    /// their order.
    pub proof fn lemma_run_takes_last_accepted(self)
        ensures
            match self.run() {
                (rest, Some(message)) => self.accepted() == rest.accepted().push(message),
                (rest, None) => self.accepted().len() == 0 && rest.accepted().len() == 0,
            },
    {
        reveal(Seq::filter);
        self.lemma_run_splits_events();
        let rest = self.run().0;
        assert(rest.accepting() =~= self.accepting());
        let accepting = self.accepting();
        match self.run().1 {
            Some(message) => {
                let discarded = self.events.skip((rest.events.len() + 1) as int);
                discarded.lemma_all_neg_filter_empty(accepting);
                Seq::filter_distributes_over_add(rest.events.push(message), discarded, accepting);
                rest.events.lemma_filter_push(message, accepting);
            },
            None => {
                self.events.lemma_all_neg_filter_empty(accepting);
            },
        }
    }

    /// Where both collaborators are bound, every waiting message has one.
    pub proof fn lemma_all_accepted(self)
        requires
            self.controller_bound,
            self.view_bound,
        ensures
            self.accepted() == self.events,
        decreases self.events.len(),
    {
        reveal(Seq::filter);
        if self.events.len() > 0 {
            let below = self.with_events(self.events.drop_last());
            assert(below.accepting() =~= self.accepting());
            below.lemma_all_accepted();
        }
    }

    /// Last in, first out: when nothing is added meanwhile, the waiting
    /// messages that have a bound collaborator are handed out in the reverse
    /// of the order in which they were added.
    pub proof fn lemma_drained_is_reversed(self)
        ensures
            self.drained() == self.accepted().reverse(),
            self.controller_bound && self.view_bound ==> self.drained() == self.events.reverse(),
        decreases self.events.len(),
    {
        self.lemma_top();
        self.lemma_run_takes_last_accepted();
        let (rest, next) = self.run();
        if next is Some {
            rest.lemma_drained_is_reversed();
        }
        if self.controller_bound && self.view_bound {
            self.lemma_all_accepted();
        }
    }

    /// Every message is delivered once: over a drain, the messages handed out
    /// and those that still wait for a bound collaborator are, counted with
    /// their multiplicity, those that waited for one at the start and those
    /// that were added for one on the way. A drain that has come to rest has
    /// nothing left waiting, so that it has then handed out each of them once.
    pub proof fn lemma_session_delivers_each_once(self, replies: Seq<Seq<Message>>)
        requires
            self.running,
        ensures
            ({
                let (end, delivered, added) = self.session(replies);
                let offered = (self.events + added).filter(self.accepting());
                &&& offered.to_multiset() == end.accepted().to_multiset().add(
                    delivered.to_multiset(),
                )
                &&& end.settled()
                &&& !end.running ==> delivered.to_multiset() == offered.to_multiset()
            }),
        decreases replies.len(),
    {
        broadcast use vstd::seq_lib::group_to_multiset_ensures;

        let accepting = self.accepting();
        let (end, delivered, added) = self.session(replies);
        if replies.len() == 0 {
            assert(end.accepted().to_multiset().add(delivered.to_multiset())
                =~= end.accepted().to_multiset());
        } else {
            let first = replies.first();
            self.lemma_add_while_running(first);
            let grown = self.with_events(self.events + first);
            grown.lemma_run_takes_last_accepted();
            grown.lemma_run_splits_events();
            assert(grown.accepting() =~= accepting);
            match grown.run() {
                (rest, Some(message)) => {
                    assert(rest.accepting() =~= accepting);
                    let (_, later, later_added) = rest.session(replies.drop_first());
                    rest.lemma_session_delivers_each_once(replies.drop_first());
                    assert(self.events + added =~= grown.events + later_added);
                    Seq::filter_distributes_over_add(grown.events, later_added, accepting);
                    Seq::filter_distributes_over_add(rest.events, later_added, accepting);
                    let kept = rest.events.filter(accepting);
                    let more = later_added.filter(accepting);
                    vstd::seq_lib::lemma_multiset_commutative(kept.push(message), more);
                    vstd::seq_lib::lemma_multiset_commutative(kept, more);
                    vstd::seq_lib::lemma_multiset_commutative(seq![message], later);
                    assert(seq![message].to_multiset() =~= Multiset::<Message>::empty().insert(
                        message,
                    ));
                    assert((self.events + added).filter(accepting).to_multiset()
                        =~= end.accepted().to_multiset().add(delivered.to_multiset()));
                },
                (rest, None) => {
                    assert(end.accepted().to_multiset().add(delivered.to_multiset())
                        =~= end.accepted().to_multiset());
                },
            }
        }
        if !end.running {
            assert(end.accepted() =~= Seq::<Message>::empty()) by {
                reveal(Seq::filter);
            }
            assert(end.accepted().to_multiset().add(delivered.to_multiset())
                =~= delivered.to_multiset());
        }
    }

    /// Every operation leaves a settled scheduler settled: messages wait only
    /// while a drain is under way.
    pub proof fn lemma_settled_is_kept(self, message: Message)
        ensures
            self.run().0.settled(),
            self.add_message(message).0.settled(),
            self.settled() ==> self.next_message().0.settled(),
    {
        self.with_events(self.events.push(message)).lemma_top();
        if self.events.len() > 0 {
            self.with_events(self.events.drop_last()).lemma_top();
        }
    }
}

} // verus!
