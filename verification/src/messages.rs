//! The message log: an append-only, sequence-numbered log of timestamped,
//! prioritized notices. Sequence numbers are 1-based positions in the log;
//! `cleanup` clears the log and numbering restarts from 1.

use vstd::prelude::*;
use crate::common::{MessagePriority, Time, spec_priority_num};
use crate::element::{Content, Element, spec_cdata_el, spec_int_el, spec_text_el, spec_uint_el};

verus! {

/// One log entry. Immutable once created; its sequence number is its 1-based
/// position in the log at insertion time.
#[derive(Debug)]
pub struct Message {
    pub project_name: Option<String>,
    pub priority: MessagePriority,
    pub body: String,
    pub timestamp: Time,
}

/// The fields of `m` are the given project association, priority, timestamp,
/// and body text.
pub open spec fn spec_msg_is(
    m: Message,
    project_name: Option<Seq<char>>,
    priority: MessagePriority,
    timestamp: Time,
    body: Seq<char>,
) -> bool {
    &&& match (m.project_name, project_name) {
        (Some(a), Some(b)) => a@ == b,
        (None, None) => true,
        _ => false,
    }
    &&& m.priority == priority
    &&& m.timestamp == timestamp
    &&& m.body@ == body
}

impl Message {
    /// A field-for-field copy of this message.
    pub fn duplicate(&self) -> (r: Message)
        ensures
            r == *self,
    {
        Message {
            project_name: match &self.project_name {
                Some(s) => Some(s.clone()),
                None => None,
            },
            priority: self.priority,
            body: self.body.clone(),
            timestamp: self.timestamp,
        }
    }
}

/// The clamped 1-based start position denoted by an optional request value.
pub open spec fn spec_start(seqno: Option<u64>) -> u64 {
    match seqno {
        None => 1,
        Some(v) => if v < 1 {
            1
        } else {
            v
        },
    }
}

/// The suffix of the log from 1-based sequence number `start` on: the whole
/// log for `start <= 1`, the empty sequence past the end.
pub open spec fn spec_get(s: Seq<Message>, start: u64) -> Seq<Message> {
    let st = spec_start(Some(start));
    if st > s.len() {
        Seq::<Message>::empty()
    } else {
        s.skip(st - 1)
    }
}

/// The element is the wire form of message `m` tagged with sequence number
/// `seqno`.
pub open spec fn spec_msg_el(e: Element, m: Message, seqno: u64) -> bool {
    &&& e.name@ == "msg"@
    &&& e.children@.len() == 5
    &&& spec_text_el(
        e.children@[0],
        "project"@,
        match m.project_name {
            Some(s) => s@,
            None => Seq::<char>::empty(),
        },
    )
    &&& spec_uint_el(e.children@[1], "pri"@, spec_priority_num(m.priority) as u64)
    &&& spec_cdata_el(e.children@[2], "body"@, m.body@)
    &&& spec_int_el(e.children@[3], "time"@, m.timestamp)
    &&& spec_uint_el(e.children@[4], "seqno"@, seqno)
}

/// The wire form of one message, tagged with its sequence number.
pub fn msg_to_element(m: &Message, seqno: u64) -> (e: Element)
    ensures
        spec_msg_el(e, *m, seqno),
{
    let project = match &m.project_name {
        Some(s) => s.clone(),
        None => String::new(),
    };
    let mut children: Vec<Element> = Vec::new();
    children.push(Element::text("project", project));
    children.push(Element::uint("pri", m.priority.priority_num() as u64));
    children.push(Element::cdata("body", m.body.clone()));
    children.push(Element::num("time", m.timestamp));
    children.push(Element::uint("seqno", seqno));
    Element::node("msg", children)
}

/// The element is the wire form of the log suffix from sequence number `st`
/// on, each message tagged with its own sequence number.
pub open spec fn spec_msgs_el(e: Element, log: Seq<Message>, st: u64) -> bool {
    &&& e.name@ == "msgs"@
    &&& e.content == Content::Nothing
    &&& e.children@.len() == spec_get(log, st).len()
    &&& forall|i: int|
        0 <= i < e.children@.len() ==> spec_msg_el(
            #[trigger] e.children@[i],
            spec_get(log, st)[i],
            (st + i) as u64,
        )
}

/// The standard message log: retains every message until `cleanup`.
#[derive(Debug)]
pub struct StandardLogger {
    msgs: Vec<Message>,
}

impl View for StandardLogger {
    type V = Seq<Message>;

    closed spec fn view(&self) -> Seq<Message> {
        self.msgs@
    }
}

impl StandardLogger {
    /// An empty log.
    pub fn new() -> (r: Self)
        ensures
            r@ == Seq::<Message>::empty(),
    {
        StandardLogger { msgs: Vec::new() }
    }

    /// Appends one message; it receives the next sequence number. Never
    /// fails. Mirroring to an external sink is the caller's concern.
    pub fn insert(
        &mut self,
        project_name: Option<String>,
        priority: MessagePriority,
        now: Time,
        body: &str,
    )
        ensures
            final(self)@.len() == old(self)@.len() + 1,
            final(self)@.take(old(self)@.len() as int) == old(self)@,
            spec_msg_is(
                final(self)@.last(),
                match project_name {
                    Some(s) => Some(s@),
                    None => None,
                },
                priority,
                now,
                body@,
            ),
    {
        let m = Message { project_name, priority, body: body.to_owned(), timestamp: now };
        self.msgs.push(m);
        proof {
            assert(self.msgs@.take(old(self).msgs@.len() as int) =~= old(self).msgs@);
        }
    }

    /// Clears the log; numbering restarts at 1 for later messages.
    pub fn cleanup(&mut self)
        ensures
            final(self)@ == Seq::<Message>::empty(),
    {
        self.msgs.clear();
    }

    /// The number of retained messages.
    pub fn len(&self) -> (r: usize)
        ensures
            r == self@.len(),
    {
        self.msgs.len()
    }

    /// All messages with sequence number at least `start`, in order. A start
    /// below 1 is treated as 1; a start past the end yields nothing.
    pub fn get(&self, start: u64) -> (r: Vec<Message>)
        ensures
            r@ == spec_get(self@, start),
    {
        let st: u64 = if start < 1 {
            1
        } else {
            start
        };
        let n = self.msgs.len();
        if st > n as u64 {
            proof {
                assert(spec_get(self@, start) =~= Seq::<Message>::empty());
            }
            return Vec::new();
        }
        let mut out: Vec<Message> = Vec::new();
        let mut i: usize = (st - 1) as usize;
        proof {
            assert(self@.skip(st - 1).len() == n - (st - 1));
        }
        while i < n
            invariant
                n == self@.len(),
                st >= 1,
                st - 1 <= i <= n,
                out@ =~= self@.skip(st - 1).take(i - (st - 1)),
            decreases n - i,
        {
            out.push(self.msgs[i].duplicate());
            proof {
                assert(self@.skip(st - 1)[i - (st - 1)] == self@[i as int]);
                assert(out@ =~= self@.skip(st - 1).take(i + 1 - (st - 1)));
            }
            i = i + 1;
        }
        proof {
            assert(self@.skip(st - 1).take(n - (st - 1)) =~= self@.skip(st - 1));
        }
        out
    }

    /// The wire form of the log from `seqno` (default 1) on: a `msgs` element
    /// whose children are the retained messages, each tagged with its own
    /// sequence number.
    pub fn to_xml(&self, seqno: Option<u64>) -> (r: Element)
        ensures
            spec_msgs_el(r, self@, spec_start(seqno)),
    {
        let st: u64 = match seqno {
            None => 1,
            Some(v) => if v < 1 {
                1
            } else {
                v
            },
        };
        let n = self.len();
        let msgs = self.get(st);
        let ghost picked = spec_get(self@, spec_start(seqno));
        let mut children: Vec<Element> = Vec::new();
        let mut i: usize = 0;
        proof {
            assert(spec_get(self@, st) == picked);
            assert(picked.len() <= self@.len());
        }
        while i < msgs.len()
            invariant
                msgs@ == picked,
                picked.len() <= self@.len(),
                self@.len() <= usize::MAX,
                st >= 1,
                picked.len() == 0 || st + picked.len() <= self@.len() + 1,
                i <= picked.len(),
                children@.len() == i,
                forall|j: int|
                    0 <= j < i ==> spec_msg_el(
                        #[trigger] children@[j],
                        picked[j],
                        (st + j) as u64,
                    ),
            decreases msgs@.len() - i,
        {
            children.push(msg_to_element(&msgs[i], st + i as u64));
            i = i + 1;
        }
        Element::node("msgs", children)
    }
}

/// A log that drops everything: useful where no log is wanted.
#[derive(Debug, Default)]
pub struct DummyLogger {}

impl DummyLogger {
    /// Drops the message.
    pub fn insert(
        &mut self,
        _project_name: Option<String>,
        _priority: MessagePriority,
        _now: Time,
        _body: &str,
    )
        ensures
            *final(self) == *old(self),
    {
    }

    /// Nothing to clear.
    pub fn cleanup(&mut self)
        ensures
            *final(self) == *old(self),
    {
    }

    /// Always empty.
    pub fn len(&self) -> (r: usize)
        ensures
            r == 0,
    {
        0
    }

    /// Always returns nothing.
    pub fn get(&self, _start: u64) -> (r: Vec<Message>)
        ensures
            r@ == Seq::<Message>::empty(),
    {
        Vec::new()
    }
}

/// Reading the log from sequence number 1 returns every retained message, in
/// insertion order: nothing is dropped, reordered, or renumbered.
pub proof fn lemma_log_get_all(s: Seq<Message>)
    ensures
        spec_get(s, 1) == s,
{
    if s.len() > 0 {
        assert(spec_get(s, 1) =~= s);
    } else {
        assert(spec_get(s, 1) =~= s);
    }
}

/// Reading from a start position past the end of the log returns the empty
/// sequence, whatever the log holds.
pub proof fn lemma_log_get_past_end(s: Seq<Message>, start: u64)
    requires
        start > s.len(),
    ensures
        spec_get(s, start) == Seq::<Message>::empty(),
{
    assert(spec_get(s, start) =~= Seq::<Message>::empty());
}

/// After the log is cleared, the first message inserted is the sole retained
/// message and carries sequence number 1: numbering restarts.
pub proof fn lemma_log_numbering_restarts(m: Message)
    ensures
        spec_get(Seq::<Message>::empty().push(m), 1).len() == 1,
        spec_get(Seq::<Message>::empty().push(m), 1)[0] == m,
{
    assert(spec_get(Seq::<Message>::empty().push(m), 1) =~= Seq::<Message>::empty().push(m));
}

} // verus!
