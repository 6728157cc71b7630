use todomvc::{ControllerMessage, Message, Scheduler, ViewMessage};

/// A controller that writes down what it is given, and that answers some
/// pages by sending messages on.
struct Recorder {
    log: Vec<String>,
}

impl Recorder {
    fn new() -> Recorder {
        Recorder { log: Vec::new() }
    }

    fn call(&mut self, message: ControllerMessage) -> Vec<Message> {
        let page = match message {
            ControllerMessage::SetPage(page) => page,
            other => format!("{:?}", other),
        };
        let sent = match page.as_str() {
            "init" => vec![page_message("second")],
            "a" => vec![page_message("b")],
            "fan" => vec![page_message("m1"), page_message("m2"), page_message("m3")],
            "mixed" => vec![page_message("m1"), clear(), page_message("m2")],
            "deep" => vec![page_message("x"), page_message("fan"), page_message("y")],
            _ => Vec::new(),
        };
        self.log.push(page);
        sent
    }
}

/// A view that counts what it is given and sends nothing on.
struct Quiet {
    seen: usize,
}

impl Quiet {
    fn call(&mut self, _message: ViewMessage) -> Vec<Message> {
        self.seen += 1;
        Vec::new()
    }
}

type Sched = Scheduler<Recorder, Quiet>;

fn page_message(page: &str) -> Message {
    Message::Controller(ControllerMessage::SetPage(page.to_string()))
}

fn clear() -> Message {
    Message::View(ViewMessage::ClearNewTodo())
}

/// Delivers `first` and whatever the drain hands out after it, until the
/// scheduler comes to rest.
fn deliver(sched: &mut Sched, first: Option<Message>) {
    let mut next = first;
    while let Some(message) = next {
        let sent = match message {
            Message::Controller(payload) => match sched.controller.as_mut() {
                Some(controller) => controller.call(payload),
                None => unreachable!("a message was handed out for a controller that is not bound"),
            },
            Message::View(payload) => match sched.view.as_mut() {
                Some(view) => view.call(payload),
                None => unreachable!("a message was handed out for a view that is not bound"),
            },
        };
        for message in sent {
            let nested = sched.add_message(message);
            deliver(sched, nested);
        }
        next = sched.run();
    }
}

fn enqueue(sched: &mut Sched, message: Message) {
    let first = sched.add_message(message);
    deliver(sched, first);
}

fn bound() -> Sched {
    let mut sched = Sched::new();
    sched.set_controller(Recorder::new());
    sched.set_view(Quiet { seen: 0 });
    sched
}

fn log(sched: &Sched) -> Vec<String> {
    sched.controller.as_ref().map(|c| c.log.clone()).unwrap_or_default()
}

fn strings(pages: &[&str]) -> Vec<String> {
    pages.iter().map(|p| p.to_string()).collect()
}

#[test]
fn new_scheduler_is_at_rest_and_unbound() {
    let sched = Sched::new();
    assert!(sched.controller.is_none());
    assert!(sched.view.is_none());
    assert!(sched.events.is_empty());
    assert!(!sched.running);
}

#[test]
fn lifo_ordering() {
    let mut sched = bound();
    enqueue(&mut sched, page_message("fan"));
    assert_eq!(log(&sched), strings(&["fan", "m3", "m2", "m1"]));
    assert!(sched.events.is_empty());
    assert!(!sched.running);
}

#[test]
fn lifo_ordering_of_what_waits() {
    let mut sched = bound();
    sched.running = true;
    assert_eq!(sched.add_message(page_message("m1")), None);
    assert_eq!(sched.add_message(page_message("m2")), None);
    assert_eq!(sched.add_message(page_message("m3")), None);
    assert_eq!(sched.run(), Some(page_message("m3")));
    assert_eq!(sched.run(), Some(page_message("m2")));
    assert_eq!(sched.run(), Some(page_message("m1")));
    assert_eq!(sched.run(), None);
    assert!(!sched.running);
}

#[test]
fn lifo_ordering_with_nothing_bound() {
    let mut sched = Sched::new();
    sched.running = true;
    assert_eq!(sched.add_message(page_message("m1")), None);
    assert_eq!(sched.add_message(clear()), None);
    assert_eq!(sched.add_message(page_message("m3")), None);
    assert_eq!(sched.events.len(), 3);
    assert_eq!(sched.run(), None);
    assert!(sched.events.is_empty());
    assert!(!sched.running);
}

#[test]
fn enqueue_at_rest_delivers_at_once() {
    let mut sched = bound();
    enqueue(&mut sched, page_message("m1"));
    enqueue(&mut sched, page_message("m2"));
    enqueue(&mut sched, page_message("m3"));
    assert_eq!(log(&sched), strings(&["m1", "m2", "m3"]));
}

#[test]
fn later_messages_of_a_handler_go_before_older_ones() {
    let mut sched = bound();
    enqueue(&mut sched, page_message("deep"));
    assert_eq!(log(&sched), strings(&["deep", "y", "fan", "m3", "m2", "m1", "x"]));
    assert!(sched.events.is_empty());
    assert!(!sched.running);
}

#[test]
fn reentrant_drain_completeness() {
    let mut sched = bound();
    enqueue(&mut sched, page_message("a"));
    assert_eq!(log(&sched), strings(&["a", "b"]));
    assert!(!sched.running);
    assert!(sched.events.is_empty());
}

#[test]
fn run_at_rest_is_a_no_op() {
    let mut sched = bound();
    assert_eq!(sched.run(), None);
    assert!(!sched.running);
    assert!(sched.events.is_empty());
    assert!(log(&sched).is_empty());
    assert_eq!(sched.run(), None);
    assert!(!sched.running);
}

#[test]
fn run_with_nothing_waiting_clears_the_flag() {
    let mut sched = bound();
    sched.running = true;
    assert_eq!(sched.run(), None);
    assert!(!sched.running);
}

#[test]
fn unbound_drop() {
    let mut sched = Sched::new();
    sched.set_controller(Recorder::new());
    assert_eq!(sched.add_message(clear()), None);
    assert!(sched.events.is_empty());
    assert!(!sched.running);
    assert!(log(&sched).is_empty());
}

#[test]
fn late_binding_does_not_bring_messages_back() {
    let mut sched = Sched::new();
    enqueue(&mut sched, page_message("lost"));
    enqueue(&mut sched, clear());
    sched.set_controller(Recorder::new());
    sched.set_view(Quiet { seen: 0 });
    assert_eq!(sched.run(), None);
    enqueue(&mut sched, page_message("kept"));
    assert_eq!(log(&sched), strings(&["kept"]));
    assert_eq!(sched.view.as_ref().map(|v| v.seen), Some(0));
}

#[test]
fn unbound_messages_are_skipped_inside_a_drain() {
    let mut sched = Sched::new();
    sched.set_controller(Recorder::new());
    enqueue(&mut sched, page_message("mixed"));
    assert_eq!(log(&sched), strings(&["mixed", "m2", "m1"]));
    assert!(sched.events.is_empty());
    assert!(!sched.running);
}

#[test]
fn view_messages_reach_the_view() {
    let mut sched = bound();
    enqueue(&mut sched, page_message("mixed"));
    assert_eq!(log(&sched), strings(&["mixed", "m2", "m1"]));
    assert_eq!(sched.view.as_ref().map(|v| v.seen), Some(1));
}

#[test]
fn single_active_session() {
    let mut sched = bound();
    let first = sched.add_message(page_message("m0"));
    assert_eq!(first, Some(page_message("m0")));
    assert!(sched.running);
    assert!(sched.events.is_empty());
    assert_eq!(sched.add_message(page_message("m1")), None);
    assert_eq!(sched.add_message(clear()), None);
    assert!(sched.running);
    assert_eq!(sched.events, vec![page_message("m1"), clear()]);
    assert!(log(&sched).is_empty());
}

#[test]
fn end_to_end_scenario() {
    let mut sched = Sched::new();
    sched.set_controller(Recorder::new());
    sched.set_view(Quiet { seen: 0 });
    enqueue(&mut sched, page_message("init"));
    assert_eq!(log(&sched), strings(&["init", "second"]));
    assert!(sched.events.is_empty());
    assert!(!sched.running);
}

#[test]
fn set_controller_replaces_the_binding() {
    let mut sched = bound();
    enqueue(&mut sched, page_message("one"));
    assert_eq!(log(&sched), strings(&["one"]));
    sched.set_controller(Recorder::new());
    enqueue(&mut sched, page_message("two"));
    assert_eq!(log(&sched), strings(&["two"]));
}

#[test]
fn set_view_replaces_the_binding() {
    let mut sched = bound();
    enqueue(&mut sched, clear());
    assert_eq!(sched.view.as_ref().map(|v| v.seen), Some(1));
    sched.set_view(Quiet { seen: 10 });
    enqueue(&mut sched, clear());
    assert_eq!(sched.view.as_ref().map(|v| v.seen), Some(11));
    assert_eq!(log(&sched), Vec::<String>::new());
}

#[test]
fn binding_keeps_what_waits() {
    let mut sched = Sched::new();
    sched.running = true;
    sched.add_message(page_message("m1"));
    sched.set_controller(Recorder::new());
    sched.set_view(Quiet { seen: 0 });
    assert!(sched.running);
    assert_eq!(sched.events, vec![page_message("m1")]);
    assert_eq!(sched.run(), Some(page_message("m1")));
}

#[test]
fn next_message_hands_out_the_top() {
    let mut sched = bound();
    sched.running = true;
    sched.add_message(page_message("m1"));
    sched.add_message(clear());
    assert_eq!(sched.next_message(), Some(clear()));
    assert!(sched.running);
    assert_eq!(sched.events, vec![page_message("m1")]);
    assert_eq!(sched.next_message(), Some(page_message("m1")));
    assert!(sched.running);
    assert_eq!(sched.next_message(), None);
    assert!(!sched.running);
}

#[test]
fn next_message_keeps_the_flag_when_it_hands_out() {
    let mut sched = bound();
    sched.events.push(page_message("m1"));
    assert!(!sched.running);
    assert_eq!(sched.next_message(), Some(page_message("m1")));
    assert!(!sched.running);
    assert!(sched.events.is_empty());
}

#[test]
fn next_message_discards_unbound_and_goes_on() {
    let mut sched = Sched::new();
    sched.set_view(Quiet { seen: 0 });
    sched.events.push(clear());
    sched.events.push(page_message("m1"));
    sched.events.push(page_message("m2"));
    assert_eq!(sched.next_message(), Some(clear()));
    assert!(sched.running);
    assert!(sched.events.is_empty());
}

#[test]
fn next_message_comes_to_rest_when_all_is_discarded() {
    let mut sched = Sched::new();
    sched.running = true;
    sched.events.push(clear());
    sched.events.push(page_message("m1"));
    assert_eq!(sched.next_message(), None);
    assert!(!sched.running);
    assert!(sched.events.is_empty());
}

#[test]
fn payloads_pass_through_unchanged() {
    let mut sched = bound();
    let message = Message::Controller(ControllerMessage::EditItemSave(
        "17".to_string(),
        "water the plants".to_string(),
    ));
    assert_eq!(sched.add_message(message.clone()), Some(message));
    let toggle = Message::Controller(ControllerMessage::ToggleItem("17".to_string(), true));
    assert_eq!(sched.add_message(toggle.clone()), None);
    assert_eq!(sched.run(), Some(toggle));
}
