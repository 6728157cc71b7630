//! The scheduler: a stack of waiting messages, a running flag, and the two
//! collaborators that the messages are for.
use vstd::prelude::*;

use crate::Message;

verus! {

/// What a scheduler is, as far as its decisions go: the stack of waiting
/// messages (the top is the last element), the running flag, and which of the
/// two collaborators are bound.
#[verifier::ext_equal]
pub struct SchedulerState {
    /// The waiting messages, oldest first.
    pub events: Seq<Message>,
    /// Whether a drain is under way.
    pub running: bool,
    /// Whether a controller is bound.
    pub controller_bound: bool,
    /// Whether a view is bound.
    pub view_bound: bool,
}

impl SchedulerState {
    /// Whether the collaborator that `message` is meant for is bound.
    pub open spec fn accepts(self, message: Message) -> bool {
        match message {
            Message::Controller(_) => self.controller_bound,
            Message::View(_) => self.view_bound,
        }
    }

    /// The same scheduler with other waiting messages.
    pub open spec fn with_events(self, events: Seq<Message>) -> SchedulerState {
        SchedulerState { events, ..self }
    }

    /// The same scheduler with the running flag set to `running`.
    pub open spec fn with_running(self, running: bool) -> SchedulerState {
        SchedulerState { running, ..self }
    }

    /// The position of the topmost waiting message whose collaborator is
    /// bound, or -1 where no waiting message has one.
    pub open spec fn top(self) -> int
        decreases self.events.len(),
    {
        if self.events.len() == 0 {
            -1
        } else if self.accepts(self.events.last()) {
            self.events.len() - 1
        } else {
            self.with_events(self.events.drop_last()).top()
        }
    }

    /// A scheduler that is at rest holds no message: messages wait only while
    /// a drain is under way.
    pub open spec fn settled(self) -> bool {
        !self.running ==> self.events.len() == 0
    }

    /// One turn of the drain. Every message above the topmost one that has a
    /// bound collaborator is discarded, that one is handed out, and the
    /// scheduler is running. Where no waiting message has a bound
    /// collaborator, all are discarded and the scheduler comes to rest.
    pub open spec fn run(self) -> (SchedulerState, Option<Message>) {
        let k = self.top();
        if k < 0 {
            (self.with_events(Seq::empty()).with_running(false), None)
        } else {
            (self.with_events(self.events.take(k)).with_running(true), Some(self.events[k]))
        }
    }

    /// Taking the top message off. If its collaborator is bound it is handed
    /// out and the running flag stays as it is; if not, it is discarded and
    /// the drain goes on below it. With nothing waiting the scheduler comes to
    /// rest.
    pub open spec fn next_message(self) -> (SchedulerState, Option<Message>) {
        if self.events.len() == 0 {
            (self.with_running(false), None)
        } else if self.accepts(self.events.last()) {
            (self.with_events(self.events.drop_last()), Some(self.events.last()))
        } else {
            self.with_events(self.events.drop_last()).run()
        }
    }

    /// Putting `message` on top. A running scheduler only keeps it; one at
    /// rest starts a drain at once.
    pub open spec fn add_message(self, message: Message) -> (SchedulerState, Option<Message>) {
        let pushed = self.with_events(self.events.push(message));
        if self.running {
            (pushed, None)
        } else {
            pushed.run()
        }
    }

    /// `top` is the greatest position of a message with a bound collaborator.
    pub proof fn lemma_top(self)
        ensures
            -1 <= self.top() < self.events.len(),
            self.top() >= 0 ==> self.accepts(self.events[self.top()]),
            forall|j: int|
                self.top() < j < self.events.len() ==> !self.accepts(#[trigger] self.events[j]),
        decreases self.events.len(),
    {
        if self.events.len() > 0 && !self.accepts(self.events.last()) {
            let below = self.with_events(self.events.drop_last());
            below.lemma_top();
            assert forall|j: int| self.top() < j < self.events.len() implies !self.accepts(
                #[trigger] self.events[j],
            ) by {
                if j < self.events.len() - 1 {
                    assert(self.events[j] == below.events[j]);
                }
            }
        }
    }
}

/// Hands messages to a controller and a view one at a time, most recent first.
///
/// The scheduler decides; its caller delivers. `add_message`, `run` and
/// `next_message` return the message that has to be delivered next, if any.
/// The caller hands it to the collaborator it is meant for, passes whatever
/// that collaborator wants sent on to `add_message`, and then calls `run`
/// again, until `run` returns `None`.
pub struct Scheduler<C, V> {
    /// The controller, once it is bound.
    pub controller: Option<C>,
    /// The view, once it is bound.
    pub view: Option<V>,
    /// The waiting messages; the last one is taken first.
    pub events: Vec<Message>,
    /// `true` while a drain is under way.
    pub running: bool,
}

impl<C, V> Scheduler<C, V> {
    /// The scheduler's decisions depend on this much of it.
    pub open spec fn view(&self) -> SchedulerState {
        SchedulerState {
            events: self.events@,
            running: self.running,
            controller_bound: self.controller is Some,
            view_bound: self.view is Some,
        }
    }

    /// A scheduler at rest, with nothing waiting and no collaborator bound.
    pub fn new() -> (scheduler: Scheduler<C, V>)
        ensures
            scheduler.controller is None,
            scheduler.view is None,
            scheduler.events@ == Seq::<Message>::empty(),
            !scheduler.running,
    {
        Scheduler { controller: None, view: None, events: Vec::new(), running: false }
    }

    /// Binds `view`, in place of any view bound before. Messages that were
    /// discarded for want of a view do not come back.
    pub fn set_view(&mut self, view: V)
        ensures
            final(self).view == Some(view),
            final(self).controller == old(self).controller,
            final(self).events == old(self).events,
            final(self).running == old(self).running,
    {
        self.view = Some(view);
    }

    /// Binds `controller`, in place of any controller bound before. Messages
    /// that were discarded for want of a controller do not come back.
    pub fn set_controller(&mut self, controller: C)
        ensures
            final(self).controller == Some(controller),
            final(self).view == old(self).view,
            final(self).events == old(self).events,
            final(self).running == old(self).running,
    {
        self.controller = Some(controller);
    }

    /// Puts `message` on top of the waiting messages.
    ///
    /// While a drain is under way that is all: the drain will come to it, and
    /// `None` is returned. At rest, the call starts a drain and returns its
    /// first delivery, as `run` does.
    pub fn add_message(&mut self, message: Message) -> (next: Option<Message>)
        ensures
            (final(self)@, next) == old(self)@.add_message(message),
            old(self).running ==> next is None && final(self).running && final(self).events@
                == old(self).events@.push(message),
            final(self).controller == old(self).controller,
            final(self).view == old(self).view,
    {
        let running = self.running;
        self.events.push(message);
        if !running {
            self.run()
        } else {
            None
        }
    }

    /// One turn of the drain: returns the next message to deliver, or comes to
    /// rest when none is left.
    ///
    /// With nothing waiting, the running flag is cleared and `None` returned.
    /// Otherwise the flag is set and the top message taken, as `next_message`
    /// does.
    pub fn run(&mut self) -> (next: Option<Message>)
        ensures
            (final(self)@, next) == old(self)@.run(),
            old(self).events@.len() == 0 ==> next is None && !final(self).running
                && final(self).events@ == old(self).events@,
            final(self).controller == old(self).controller,
            final(self).view == old(self).view,
        decreases old(self).events@.len(), 1nat,
    {
        if self.events.len() == 0 {
            self.running = false;
            None
        } else {
            self.running = true;
            let next = self.next_message();
            proof {
                let before = old(self)@;
                let below = before.with_running(true).with_events(before.events.drop_last());
                before.lemma_top();
                below.lemma_top();
                assert(forall|j: int|
                    0 <= j < below.events.len() ==> below.events[j] == before.events[j]);
            }
            next
        }
    }

    /// Takes the top message off and routes it.
    ///
    /// A message whose collaborator is bound is returned for delivery. One
    /// whose collaborator is not bound is discarded, and the drain goes on
    /// with `run`. With nothing waiting, the running flag is cleared.
    pub fn next_message(&mut self) -> (next: Option<Message>)
        ensures
            (final(self)@, next) == old(self)@.next_message(),
            final(self).controller == old(self).controller,
            final(self).view == old(self).view,
        decreases old(self).events@.len(), 0nat,
    {
        match self.events.pop() {
            None => {
                self.running = false;
                None
            },
            Some(event) => {
                let bound = match &event {
                    Message::Controller(_) => self.controller.is_some(),
                    Message::View(_) => self.view.is_some(),
                };
                if bound {
                    Some(event)
                } else {
                    self.run()
                }
            },
        }
    }
}

} // verus!
