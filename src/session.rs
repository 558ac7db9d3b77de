use vstd::prelude::*;
use crate::format::{
    display_line, format_line, format_received, lossy_text, received_line, trim_text, trimmed,
    RECV_BUFFER_SIZE,
};
use crate::log::ChatLog;

verus! {

/// The process exit code after the exit line.
pub const EXIT_CODE: i32 = 0;

/// The line that ends the process.
pub open spec fn exit_word() -> Seq<char> {
    seq!['e', 'x', 'i', 't']
}

/// What the sender path does with one line of local input.
pub enum InputAction {
    /// The line is empty: show the prompt again, send nothing.
    Prompt,
    /// The line is the exit word: end the process with `EXIT_CODE`.
    Exit,
    /// Broadcast this payload, which is also the line's display line.
    Send(String),
}

/// Whether a (trimmed) line of local input is broadcast.
pub open spec fn is_sendable(line: Seq<char>) -> bool {
    line.len() > 0 && line != exit_word()
}

/// Whether a line is exactly the exit word.
fn is_exit_word(line: &str) -> (r: bool)
    ensures
        r == (line@ == exit_word()),
{
    if line.unicode_len() != 4 {
        return false;
    }
    let r = line.get_char(0) == 'e' && line.get_char(1) == 'x' && line.get_char(2) == 'i'
        && line.get_char(3) == 't';
    proof {
        if r {
            assert(line@ =~= exit_word());
        }
    }
    r
}

/// Decides what to do with one trimmed line of local input typed by `username`.
pub fn decide_line(username: &str, line: &str) -> (r: InputAction)
    ensures
        (r is Prompt) <==> line@.len() == 0,
        (r is Exit) <==> line@ == exit_word(),
        (r is Send) <==> is_sendable(line@),
        r is Send ==> r->Send_0@ == display_line(username@, line@),
{
    if line.unicode_len() == 0 {
        InputAction::Prompt
    } else if is_exit_word(line) {
        InputAction::Exit
    } else {
        InputAction::Send(format_line(username, line))
    }
}

/// Decides what to do with one line of local input as read, surrounding
/// whitespace included.
pub fn handle_input(username: &str, raw: &str) -> (r: InputAction)
    ensures
        (r is Prompt) <==> trimmed(raw@).len() == 0,
        (r is Exit) <==> trimmed(raw@) == exit_word(),
        (r is Send) <==> is_sendable(trimmed(raw@)),
        r is Send ==> r->Send_0@ == display_line(username@, trimmed(raw@)),
{
    decide_line(username, trim_text(raw))
}


/// One event handed to the render loop, the single owner of the log.
pub enum Event {
    /// A line of local input, as read.
    Typed(String),
    /// A datagram received from `source`.
    Datagram { source: String, payload: Vec<u8> },
    /// The listener's receive failed; it has stopped.
    ReceiveFailed,
}

/// What the caller does after the log has handled an event.
pub enum Action {
    /// Show the prompt again; nothing was sent or logged.
    Prompt,
    /// End the process with `EXIT_CODE`.
    Exit,
    /// Broadcast this payload; the log has grown by it: redraw.
    Broadcast(String),
    /// The log has grown: redraw.
    Redraw,
    /// Report that the listener stopped; sending goes on.
    ListenerStopped,
}

/// The log entry that an event adds, if any.
pub open spec fn entry_of(username: Seq<char>, ev: Event) -> Option<Seq<char>> {
    match ev {
        Event::Typed(raw) => if is_sendable(trimmed(raw@)) {
            Some(display_line(username, trimmed(raw@)))
        } else {
            None
        },
        Event::Datagram { source, payload } => Some(received_line(source@, payload@)),
        Event::ReceiveFailed => None,
    }
}

/// The log after one event.
pub open spec fn log_step(log: Seq<Seq<char>>, username: Seq<char>, ev: Event) -> Seq<Seq<char>> {
    match entry_of(username, ev) {
        Some(e) => log.push(e),
        None => log,
    }
}

/// The log after a sequence of events, handled in order.
pub open spec fn log_after(log: Seq<Seq<char>>, username: Seq<char>, events: Seq<Event>) -> Seq<
    Seq<char>,
>
    decreases events.len(),
{
    if events.len() == 0 {
        log
    } else {
        log_step(log_after(log, username, events.drop_last()), username, events.last())
    }
}

/// Whether an event adds exactly one entry to the log.
pub open spec fn adds_entry(username: Seq<char>, ev: Event) -> bool {
    entry_of(username, ev) is Some
}

/// The render loop's state: the user's name, the log, and whether the
/// listener still runs.
pub struct ChatCore {
    username: String,
    log: ChatLog,
    listening: bool,
}

impl ChatCore {
    /// The name that labels locally typed lines.
    pub closed spec fn spec_username(&self) -> Seq<char> {
        self.username@
    }

    /// The lines logged so far.
    pub closed spec fn spec_log(&self) -> Seq<Seq<char>> {
        self.log@
    }

    /// Whether the listener still runs.
    pub closed spec fn spec_listening(&self) -> bool {
        self.listening
    }

    /// A session for `username` with an empty log and a running listener.
    pub fn new(username: String) -> (r: ChatCore)
        ensures
            r.spec_username() == username@,
            r.spec_log() == Seq::<Seq<char>>::empty(),
            r.spec_listening(),
    {
        ChatCore { username, log: ChatLog::new(), listening: true }
    }

    /// The name that labels locally typed lines.
    pub fn username(&self) -> (r: &str)
        ensures
            r@ == self.spec_username(),
    {
        self.username.as_str()
    }

    /// The log.
    pub fn log(&self) -> (r: &ChatLog)
        ensures
            r@ == self.spec_log(),
    {
        &self.log
    }

    /// Whether the listener still runs.
    pub fn is_listening(&self) -> (r: bool)
        ensures
            r == self.spec_listening(),
    {
        self.listening
    }

    /// Handles one event: a sendable typed line or a datagram adds its
    /// display line to the log; an empty line or the exit line changes
    /// nothing; a receive failure stops only the listener.
    pub fn handle(&mut self, ev: Event) -> (r: Action)
        ensures
            final(self).spec_username() == old(self).spec_username(),
            final(self).spec_log() == log_step(old(self).spec_log(), old(self).spec_username(), ev),
            final(self).spec_listening() == (old(self).spec_listening() && !(ev is ReceiveFailed)),
            (r is Prompt) <==> (ev is Typed && trimmed(ev->Typed_0@).len() == 0),
            (r is Exit) <==> (ev is Typed && trimmed(ev->Typed_0@) == exit_word()),
            (r is Broadcast) <==> (ev is Typed && is_sendable(trimmed(ev->Typed_0@))),
            (r is Redraw) <==> (ev is Datagram),
            (r is ListenerStopped) <==> (ev is ReceiveFailed),
            r is Broadcast ==> Some(r->Broadcast_0@) == entry_of(old(self).spec_username(), ev),
    {
        match ev {
            Event::Typed(raw) => {
                match handle_input(self.username.as_str(), raw.as_str()) {
                    InputAction::Prompt => Action::Prompt,
                    InputAction::Exit => Action::Exit,
                    InputAction::Send(line) => {
                        let payload = String::from_str(line.as_str());
                        self.log.append(line);
                        Action::Broadcast(payload)
                    },
                }
            },
            Event::Datagram { source, payload } => {
                let line = format_received(source.as_str(), payload.as_slice());
                self.log.append(line);
                Action::Redraw
            },
            Event::ReceiveFailed => {
                self.listening = false;
                Action::ListenerStopped
            },
        }
    }
}

/// Handling events one after another is handling their concatenation.
pub proof fn lemma_log_after_concat(
    log: Seq<Seq<char>>,
    username: Seq<char>,
    first: Seq<Event>,
    second: Seq<Event>,
)
    ensures
        log_after(log, username, first + second) == log_after(
            log_after(log, username, first),
            username,
            second,
        ),
    decreases second.len(),
{
    if second.len() == 0 {
        assert(first + second =~= first);
    } else {
        lemma_log_after_concat(log, username, first, second.drop_last());
        assert((first + second).drop_last() =~= first + second.drop_last());
        assert((first + second).last() == second.last());
    }
}

/// Every event that adds an entry adds exactly one, after all earlier
/// entries and in the order the events are handled: none is lost,
/// duplicated or reordered, whatever the interleaving of typed lines and
/// datagrams.
pub proof fn lemma_each_event_logged_once(
    log: Seq<Seq<char>>,
    username: Seq<char>,
    events: Seq<Event>,
)
    requires
        forall|i: int| 0 <= i < events.len() ==> adds_entry(username, #[trigger] events[i]),
    ensures
        log_after(log, username, events).len() == log.len() + events.len(),
        log_after(log, username, events).subrange(0, log.len() as int) == log,
        forall|i: int|
            0 <= i < events.len() ==> Some(
                #[trigger] log_after(log, username, events)[log.len() + i],
            ) == entry_of(username, events[i]),
    decreases events.len(),
{
    let after = log_after(log, username, events);
    if events.len() == 0 {
        assert(after.subrange(0, log.len() as int) =~= log);
    } else {
        let prefix = events.drop_last();
        assert forall|i: int| 0 <= i < prefix.len() implies adds_entry(
            username,
            #[trigger] prefix[i],
        ) by {
            assert(prefix[i] == events[i]);
        }
        lemma_each_event_logged_once(log, username, prefix);
        let before = log_after(log, username, prefix);
        assert(adds_entry(username, events[events.len() - 1]));
        assert(after == before.push(entry_of(username, events.last())->0));
        assert(after.subrange(0, log.len() as int) =~= before.subrange(0, log.len() as int));
        assert forall|i: int| 0 <= i < events.len() implies Some(
            #[trigger] after[log.len() + i],
        ) == entry_of(username, events[i]) by {
            if i < prefix.len() {
                assert(prefix[i] == events[i]);
                assert(after[log.len() + i] == before[log.len() + i]);
            }
        }
    }
}

/// Typed lines that are neither empty nor the exit line, starting from an
/// empty log, leave exactly one entry each, `"<username>: <line>"`, in the
/// order they were typed.
pub proof fn lemma_typed_lines_logged_in_order(username: Seq<char>, events: Seq<Event>)
    requires
        forall|i: int|
            0 <= i < events.len() ==> (#[trigger] events[i] is Typed) && is_sendable(
                trimmed(events[i]->Typed_0@),
            ),
    ensures
        log_after(Seq::empty(), username, events).len() == events.len(),
        forall|i: int|
            0 <= i < events.len() ==> #[trigger] log_after(Seq::empty(), username, events)[i]
                == display_line(username, trimmed(events[i]->Typed_0@)),
{
    assert forall|i: int| 0 <= i < events.len() implies adds_entry(
        username,
        #[trigger] events[i],
    ) by {
        assert(events[i] is Typed);
    }
    lemma_each_event_logged_once(Seq::empty(), username, events);
    assert forall|i: int| 0 <= i < events.len() implies #[trigger] log_after(
        Seq::empty(),
        username,
        events,
    )[i] == display_line(username, trimmed(events[i]->Typed_0@)) by {
        assert(events[i] is Typed);
        assert(Seq::<Seq<char>>::empty().len() + i == i);
    }
}

/// A receive failure changes nothing in the log, and every sendable line
/// typed after it is still logged, one entry each, in order.
pub proof fn lemma_sending_outlives_listener(
    log: Seq<Seq<char>>,
    username: Seq<char>,
    before: Seq<Event>,
    after: Seq<Event>,
)
    requires
        forall|i: int|
            0 <= i < after.len() ==> (#[trigger] after[i] is Typed) && is_sendable(
                trimmed(after[i]->Typed_0@),
            ),
    ensures
        ({
            let failed = log_after(log, username, before.push(Event::ReceiveFailed));
            let end = log_after(log, username, before.push(Event::ReceiveFailed) + after);
            &&& failed == log_after(log, username, before)
            &&& end.len() == failed.len() + after.len()
            &&& end.subrange(0, failed.len() as int) == failed
            &&& forall|i: int|
                0 <= i < after.len() ==> #[trigger] end[failed.len() + i] == display_line(
                    username,
                    trimmed(after[i]->Typed_0@),
                )
        }),
{
    let head = before.push(Event::ReceiveFailed);
    assert(head.drop_last() =~= before);
    lemma_log_after_concat(log, username, head, after);
    let failed = log_after(log, username, head);
    assert forall|i: int| 0 <= i < after.len() implies adds_entry(
        username,
        #[trigger] after[i],
    ) by {
        assert(after[i] is Typed);
    }
    lemma_each_event_logged_once(failed, username, after);
    let end = log_after(log, username, head + after);
    assert forall|i: int| 0 <= i < after.len() implies #[trigger] end[failed.len() + i]
        == display_line(username, trimmed(after[i]->Typed_0@)) by {
        assert(after[i] is Typed);
    }
}

/// A datagram whose payload fits in the receive buffer is logged as
/// `"<source>: <payload decoded leniently>"`.
pub proof fn lemma_datagram_entry(username: Seq<char>, source: String, payload: Vec<u8>)
    requires
        payload@.len() <= RECV_BUFFER_SIZE,
    ensures
        entry_of(username, Event::Datagram { source, payload }) == Some(
            display_line(source@, lossy_text(payload@)),
        ),
{
}

} // verus!
