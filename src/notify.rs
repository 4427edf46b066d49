//! The notification receiver: the sink's id allocation and replies, the choice
//! between registering as the sink and polling another daemon's history, and
//! the polling strategy's history decoding and seen-id bookkeeping.
use vstd::prelude::*;
use std::collections::HashSet;
use crate::config::own;
use crate::state::Message;
use crate::text::eq_str;

verus! {

/// The seen-id set is cleared once it grows past this many ids.
pub const SEEN_LIMIT: usize = 500;

/// Seconds between two polls of the other daemon's history.
pub const POLL_INTERVAL_SECS: u64 = 2;

/// How notifications reach the bar; decided once at startup.
#[derive(Debug, Clone, Copy, PartialEq, Eq, Structural)]
pub enum NotifyStrategy {
    /// The bar is the desktop's notification sink.
    Sink,
    /// Another daemon is the sink; the bar polls its history.
    PollHistory,
}

/// The strategy that follows a registration attempt: the sink when it
/// succeeded, polling when another daemon already holds the role.
pub fn choose_strategy(registered: bool) -> (r: NotifyStrategy)
    ensures
        r == (if registered {
            NotifyStrategy::Sink
        } else {
            NotifyStrategy::PollHistory
        }),
{
    if registered {
        NotifyStrategy::Sink
    } else {
        NotifyStrategy::PollHistory
    }
}

/// State of the notification sink: the last id handed out.
#[derive(Debug)]
pub struct NotifDaemon {
    pub next_id: u32,
}

/// The id that follows `last` (ids start at 1 and skip 0 on wrap-around).
pub open spec fn following_id(last: u32) -> u32 {
    if last == u32::MAX {
        1
    } else {
        (last + 1) as u32
    }
}

impl NotifDaemon {
    pub fn new() -> (r: NotifDaemon)
        ensures
            r.next_id == 0,
    {
        NotifDaemon { next_id: 0 }
    }

    /// A notification arrives: it keeps `replaces_id` when that is nonzero,
    /// else it gets the next sequential id.  Returns the id and the message
    /// that carries the notification to the reducer.
    pub fn notify(&mut self, app_name: String, replaces_id: u32, summary: String, body: String) -> (r: (
        u32,
        Message,
    ))
        ensures
            replaces_id != 0 ==> r.0 == replaces_id && final(self).next_id == old(self).next_id,
            replaces_id == 0 ==> r.0 == following_id(old(self).next_id) && final(self).next_id
                == r.0,
            r.0 != 0,
            r.1 == (Message::NotificationReceived { id: r.0, app_name, summary, body }),
    {
        let id = if replaces_id != 0 {
            replaces_id
        } else {
            self.next_id = if self.next_id == u32::MAX {
                1
            } else {
                self.next_id + 1
            };
            self.next_id
        };
        (id, Message::NotificationReceived { id, app_name, summary, body })
    }

    /// The sender closes a notification.
    pub fn close_notification(&self, id: u32) -> (r: Message)
        ensures
            r == Message::NotificationClosed(id),
    {
        Message::NotificationClosed(id)
    }

    /// Capabilities of this sink.
    pub fn get_capabilities(&self) -> (r: Vec<String>)
        ensures
            r@.len() == 2,
            r@[0]@ == "body"@,
            r@[1]@ == "persistence"@,
    {
        let mut v: Vec<String> = Vec::new();
        v.push(own("body"));
        v.push(own("persistence"));
        v
    }

    /// Name, vendor, version and protocol version of this sink.
    pub fn get_server_information(&self) -> (r: (&'static str, &'static str, &'static str, &'static str))
        ensures
            r.0@ == "bar"@,
            r.1@ == "bar"@,
            r.2@ == "0.1.0"@,
            r.3@ == "1.2"@,
    {
        ("bar", "bar", "0.1.0", "1.2")
    }
}

/// A decoded JSON document, holding what the history decoding reads.
#[derive(Debug)]
pub enum JsonValue {
    Null,
    Bool(bool),
    /// A number: its value when it is an integer that fits a `u64`.
    Number(Option<u64>),
    Str(String),
    Array(Vec<JsonValue>),
    /// Members in document order, keys distinct.
    Object(Vec<(String, JsonValue)>),
}

/// The member of `pairs` named `key`, if any.
pub open spec fn lookup(pairs: Seq<(String, JsonValue)>, key: Seq<char>) -> Option<JsonValue>
    decreases pairs.len(),
{
    if pairs.len() == 0 {
        None
    } else if pairs[0].0@ == key {
        Some(pairs[0].1)
    } else {
        lookup(pairs.drop_first(), key)
    }
}

/// The member `key` of `v`, when `v` is an object that has it.
pub open spec fn member(v: JsonValue, key: Seq<char>) -> Option<JsonValue> {
    match v {
        JsonValue::Object(pairs) => lookup(pairs@, key),
        _ => None,
    }
}

/// A history field `{"data": <value>, ...}`: its data value.
pub open spec fn field_data(entry: JsonValue, key: Seq<char>) -> Option<JsonValue> {
    match member(entry, key) {
        Some(f) => member(f, "data"@),
        None => None,
    }
}

/// A string field of a history entry; empty when missing or not a string.
pub open spec fn field_str(entry: JsonValue, key: Seq<char>) -> Seq<char> {
    match field_data(entry, key) {
        Some(JsonValue::Str(s)) => s@,
        _ => Seq::empty(),
    }
}

/// The id of a history entry, cut to 32 bits; 0 when missing.
pub open spec fn field_id(entry: JsonValue) -> u32 {
    match field_data(entry, "id"@) {
        Some(JsonValue::Number(Some(n))) => n as u32,
        _ => 0,
    }
}

/// What one history entry yields: nothing when its id is 0.
pub open spec fn entry_item(e: JsonValue) -> Seq<(u32, Seq<char>, Seq<char>, Seq<char>)> {
    if field_id(e) == 0 {
        Seq::empty()
    } else {
        seq![(field_id(e), field_str(e, "appname"@), field_str(e, "summary"@), field_str(e, "body"@))]
    }
}

pub open spec fn entries_items(es: Seq<JsonValue>) -> Seq<(u32, Seq<char>, Seq<char>, Seq<char>)>
    decreases es.len(),
{
    if es.len() == 0 {
        Seq::empty()
    } else {
        entries_items(es.drop_last()) + entry_item(es.last())
    }
}

pub open spec fn stacks_items(ss: Seq<JsonValue>) -> Seq<(u32, Seq<char>, Seq<char>, Seq<char>)>
    decreases ss.len(),
{
    if ss.len() == 0 {
        Seq::empty()
    } else {
        stacks_items(ss.drop_last()) + match ss.last() {
            JsonValue::Array(es) => entries_items(es@),
            _ => Seq::empty(),
        }
    }
}

/// The notifications that a history document `{"data": [[entry, ...], ...]}`
/// lists, in order: id, application, summary, body.
pub open spec fn history_items(root: JsonValue) -> Seq<(u32, Seq<char>, Seq<char>, Seq<char>)> {
    match member(root, "data"@) {
        Some(JsonValue::Array(ss)) => stacks_items(ss@),
        _ => Seq::empty(),
    }
}

pub open spec fn item_view(t: (u32, String, String, String)) -> (u32, Seq<char>, Seq<char>, Seq<char>) {
    (t.0, t.1@, t.2@, t.3@)
}

fn lookup_exec<'a>(v: &'a JsonValue, key: &str) -> (r: Option<&'a JsonValue>)
    ensures
        match member(*v, key@) {
            Some(m) => r matches Some(x) && *x == m,
            None => r is None,
        },
{
    match v {
        JsonValue::Object(pairs) => {
            let mut i: usize = 0;
            assert(pairs@.subrange(0, pairs@.len() as int) =~= pairs@);
            while i < pairs.len()
                invariant
                    i <= pairs@.len(),
                    *v == JsonValue::Object(*pairs),
                    lookup(pairs@, key@) == lookup(pairs@.subrange(i as int, pairs@.len() as int), key@),
                decreases pairs@.len() - i,
            {
                let ghost rest = pairs@.subrange(i as int, pairs@.len() as int);
                assert(rest[0] == pairs@[i as int]);
                if eq_str(&crate::text::chars_of(pairs[i].0.as_str()), key) {
                    assert(lookup(rest, key@) == Some(pairs@[i as int].1));
                    let found = &pairs[i].1;
                    assert(*found == pairs@[i as int].1);
                    return Some(found);
                }
                assert(rest.drop_first() =~= pairs@.subrange(i + 1, pairs@.len() as int));
                i += 1;
            }
            None
        },
        _ => None,
    }
}

fn field_data_exec<'a>(entry: &'a JsonValue, key: &str) -> (r: Option<&'a JsonValue>)
    ensures
        match field_data(*entry, key@) {
            Some(m) => r matches Some(x) && *x == m,
            None => r is None,
        },
{
    match lookup_exec(entry, key) {
        Some(f) => {
            proof {
                reveal_strlit("data");
            }
            lookup_exec(f, "data")
        },
        None => None,
    }
}

/// Extract a string-typed field of a history entry; empty when missing.
pub fn dunst_str(entry: &JsonValue, key: &str) -> (r: String)
    ensures
        r@ == field_str(*entry, key@),
{
    match field_data_exec(entry, key) {
        Some(JsonValue::Str(s)) => s.clone(),
        _ => String::new(),
    }
}

fn entry_id(entry: &JsonValue) -> (r: u32)
    ensures
        r == field_id(*entry),
{
    match field_data_exec(entry, "id") {
        Some(JsonValue::Number(Some(n))) => *n as u32,
        _ => 0,
    }
}

/// Decode a history document into a flat list of `(id, app, summary, body)`;
/// entries with id 0 are dropped, anything not shaped as expected yields nothing.
pub fn parse_dunstctl_history(root: &JsonValue) -> (r: Vec<(u32, String, String, String)>)
    ensures
        r@.map_values(|t: (u32, String, String, String)| item_view(t)) == history_items(*root),
{
    let mut out: Vec<(u32, String, String, String)> = Vec::new();
    let stacks = match lookup_exec(root, "data") {
        Some(JsonValue::Array(ss)) => ss,
        _ => {
            assert(out@.map_values(|t: (u32, String, String, String)| item_view(t)) =~= Seq::empty());
            return out;
        },
    };
    let mut i: usize = 0;
    while i < stacks.len()
        invariant
            i <= stacks@.len(),
            member(*root, "data"@) == Some(JsonValue::Array(*stacks)),
            out@.map_values(|t: (u32, String, String, String)| item_view(t)) == stacks_items(
                stacks@.subrange(0, i as int),
            ),
        decreases stacks@.len() - i,
    {
        let ghost before = out@.map_values(|t: (u32, String, String, String)| item_view(t));
        assert(stacks@.subrange(0, i + 1).drop_last() =~= stacks@.subrange(0, i as int));
        match &stacks[i] {
            JsonValue::Array(entries) => {
                let mut j: usize = 0;
                while j < entries.len()
                    invariant
                        j <= entries@.len(),
                        out@.map_values(|t: (u32, String, String, String)| item_view(t)) == before
                            + entries_items(entries@.subrange(0, j as int)),
                    decreases entries@.len() - j,
                {
                    let e = &entries[j];
                    assert(entries@.subrange(0, j + 1).drop_last() =~= entries@.subrange(0, j as int));
                    let id = entry_id(e);
                    let ghost out0 = out@;
                    assert(entries@.subrange(0, j + 1).last() == *e);
                    if id != 0 {
                        let app = dunst_str(e, "appname");
                        let summary = dunst_str(e, "summary");
                        let body = dunst_str(e, "body");
                        out.push((id, app, summary, body));
                        assert(out@.map_values(|t: (u32, String, String, String)| item_view(t)) =~= out0.map_values(
                            |t: (u32, String, String, String)| item_view(t),
                        ) + entry_item(*e));
                    } else {
                        assert(entry_item(*e) =~= Seq::empty());
                        assert(out@.map_values(|t: (u32, String, String, String)| item_view(t)) =~= out0.map_values(
                            |t: (u32, String, String, String)| item_view(t),
                        ) + entry_item(*e));
                    }
                    assert(out@.map_values(|t: (u32, String, String, String)| item_view(t)) =~= before
                        + entries_items(entries@.subrange(0, j + 1)));
                    j += 1;
                }
                assert(entries@.subrange(0, entries@.len() as int) =~= entries@);
            },
            _ => {},
        }
        assert(out@.map_values(|t: (u32, String, String, String)| item_view(t)) =~= stacks_items(
            stacks@.subrange(0, i + 1),
        ));
        i += 1;
    }
    assert(stacks@.subrange(0, stacks@.len() as int) =~= stacks@);
    out
}

/// Ids in `known`, plus those of `items`.
pub open spec fn seen_after(known: Set<u32>, items: Seq<(u32, String, String, String)>) -> Set<u32>
    decreases items.len(),
{
    if items.len() == 0 {
        known
    } else {
        seen_after(known, items.drop_last()).insert(items.last().0)
    }
}

/// The items whose ids appear neither in `known` nor earlier in `items`.
pub open spec fn fresh(known: Set<u32>, items: Seq<(u32, String, String, String)>) -> Seq<
    (u32, String, String, String),
>
    decreases items.len(),
{
    if items.len() == 0 {
        Seq::empty()
    } else {
        let f = fresh(known, items.drop_last());
        if seen_after(known, items.drop_last()).contains(items.last().0) {
            f
        } else {
            f.push(items.last())
        }
    }
}

pub open spec fn received(t: (u32, String, String, String)) -> Message {
    Message::NotificationReceived { id: t.0, app_name: t.1, summary: t.2, body: t.3 }
}

/// The polling strategy's memory of ids already forwarded.
#[derive(Debug)]
pub struct HistoryPoller {
    pub known: HashSet<u32>,
}

impl HistoryPoller {
    pub fn new() -> (r: HistoryPoller)
        ensures
            r.known@ == Set::<u32>::empty(),
    {
        HistoryPoller { known: HashSet::new() }
    }

    /// Takes one poll's decoded history and returns the messages for the
    /// notifications not seen before, in order.  The seen set then holds
    /// their ids too, and is cleared once it holds more than the limit.
    pub fn take_new(&mut self, items: Vec<(u32, String, String, String)>) -> (r: Vec<Message>)
        ensures
            r@ == fresh(old(self).known@, items@).map_values(|t: (u32, String, String, String)| received(t)),
            final(self).known@ == (if seen_after(old(self).known@, items@).len() > SEEN_LIMIT {
                Set::<u32>::empty()
            } else {
                seen_after(old(self).known@, items@)
            }),
    {
        let ghost known0 = self.known@;
        let ghost all = items@;
        let mut out: Vec<Message> = Vec::new();
        let mut rest = items;
        let n = rest.len();
        let mut done: usize = 0;
        while rest.len() > 0
            invariant
                all.len() == n,
                done <= all.len(),
                rest@ == all.subrange(done as int, all.len() as int),
                self.known@ == seen_after(known0, all.subrange(0, done as int)),
                out@ == fresh(known0, all.subrange(0, done as int)).map_values(
                    |t: (u32, String, String, String)| received(t),
                ),
            decreases rest@.len(),
        {
            let t = rest.remove(0);
            let ghost pre = all.subrange(0, done as int);
            let ghost next = all.subrange(0, done + 1);
            assert(next.drop_last() =~= pre);
            assert(next.last() == t);
            let id = t.0;
            let is_new = self.known.insert(id);
            if is_new {
                out.push(Message::NotificationReceived { id: t.0, app_name: t.1, summary: t.2, body: t.3 });
            }
            assert(out@ =~= fresh(known0, next).map_values(
                |t: (u32, String, String, String)| received(t),
            ));
            done += 1;
            assert(rest@ =~= all.subrange(done as int, all.len() as int));
        }
        assert(all.subrange(0, done as int) =~= all);
        if self.known.len() > SEEN_LIMIT {
            self.known.clear();
        }
        out
    }
}

} // verus!
