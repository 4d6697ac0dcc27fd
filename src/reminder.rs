//! Pending reminders: the record, and the operations on the persisted list.
use vstd::prelude::*;

verus! {

/// A point in time: whole seconds since the Unix epoch in UTC, and the
/// nanoseconds past that second.
#[derive(Clone, Copy, Debug, PartialEq, Eq, Structural)]
pub struct Timestamp {
    pub secs: i64,
    pub nanos: u32,
}

/// Nanoseconds since the epoch.
pub open spec fn nanos_since_epoch(t: Timestamp) -> int {
    t.secs * 1_000_000_000 + t.nanos
}

/// A pending notification: a message for a recipient, due at a time.
#[derive(Clone, Debug)]
pub struct Reminder {
    message: String,
    when: Timestamp,
    recipient: u64,
}

/// What a reminder holds, as mathematical values.
pub struct ReminderModel {
    pub message: Seq<char>,
    pub when: Timestamp,
    pub recipient: u64,
}

impl View for Reminder {
    type V = ReminderModel;

    closed spec fn view(&self) -> ReminderModel {
        ReminderModel { message: self.message@, when: self.when, recipient: self.recipient }
    }
}

impl PartialEq for Reminder {
    fn eq(&self, other: &Reminder) -> (r: bool) {
        self.message == other.message && self.when == other.when && self.recipient
            == other.recipient
    }
}

impl vstd::std_specs::cmp::PartialEqSpecImpl for Reminder {
    open spec fn obeys_eq_spec() -> bool {
        true
    }

    open spec fn eq_spec(&self, other: &Reminder) -> bool {
        self@ == other@
    }
}

impl Eq for Reminder {

}

/// The models of a list of reminders.
pub open spec fn models(s: Seq<Reminder>) -> Seq<ReminderModel> {
    s.map_values(|r: Reminder| r@)
}

/// `s` without any record equal to `r`, in the original order.
pub open spec fn without(s: Seq<ReminderModel>, r: ReminderModel) -> Seq<ReminderModel>
    decreases s.len(),
{
    if s.len() == 0 {
        s
    } else if s.last() == r {
        without(s.drop_last(), r)
    } else {
        without(s.drop_last(), r).push(s.last())
    }
}

/// Removing a record removes every copy of it, and keeps every other record.
pub proof fn lemma_without_removes_all_copies(s: Seq<ReminderModel>, r: ReminderModel)
    ensures
        !without(s, r).contains(r),
        forall|x: ReminderModel| x != r ==> (without(s, r).contains(x) <==> s.contains(x)),
        without(s, r).len() <= s.len(),
    decreases s.len(),
{
    if s.len() > 0 {
        let init = s.drop_last();
        lemma_without_removes_all_copies(init, r);
        assert(s =~= init.push(s.last()));
        assert forall|x: ReminderModel| x != r implies (without(s, r).contains(x) <==> s.contains(
            x,
        )) by {
            if s.contains(x) {
                let k = choose|k: int| 0 <= k < s.len() && s[k] == x;
                if k < s.len() - 1 {
                    assert(init[k] == x);
                    assert(init.contains(x));
                    assert(without(init, r).contains(x));
                }
            }
            if s.contains(x) && s.last() == r {
                assert(without(s, r) == without(init, r));
            }
            if without(s, r).contains(x) && s.last() != r {
                let w = without(init, r);
                let k = choose|k: int| 0 <= k < w.push(s.last()).len() && w.push(s.last())[k] == x;
                if k < w.len() {
                    assert(w[k] == x);
                    assert(w.contains(x));
                    assert(init.contains(x));
                    let j = choose|j: int| 0 <= j < init.len() && init[j] == x;
                    assert(s[j] == x);
                } else {
                    assert(s[s.len() - 1] == x);
                }
            }
            if without(s, r).contains(x) && s.last() == r {
                assert(without(s, r) == without(init, r));
                assert(init.contains(x));
                let j = choose|j: int| 0 <= j < init.len() && init[j] == x;
                assert(s[j] == x);
            }
            if s.contains(x) && s.last() != r {
                let w = without(init, r);
                if x == s.last() {
                    assert(w.push(s.last())[w.len() as int] == x);
                } else {
                    let k = choose|k: int| 0 <= k < s.len() && s[k] == x;
                    assert(init[k] == x);
                    assert(init.contains(x));
                    let j = choose|j: int| 0 <= j < w.len() && w[j] == x;
                    assert(w.push(s.last())[j] == x);
                }
            }
        }
        if s.last() != r {
            let w = without(init, r);
            if w.push(s.last()).contains(r) {
                let k = choose|k: int| 0 <= k < w.push(s.last()).len() && w.push(s.last())[k] == r;
                assert(w[k] == r);
            }
        }
    }
}

/// Removing a record just appended leaves what removing it from the list before
/// the append leaves; so on a list that held no copy of it, the list itself.
pub proof fn lemma_remove_after_append(s: Seq<ReminderModel>, r: ReminderModel)
    ensures
        without(s.push(r), r) == without(s, r),
        !s.contains(r) ==> without(s.push(r), r) == s,
{
    assert(s.push(r).drop_last() =~= s);
    if !s.contains(r) {
        lemma_without_absent(s, r);
    }
}

/// Removing a record that the list does not hold leaves the list unchanged.
pub proof fn lemma_without_absent(s: Seq<ReminderModel>, r: ReminderModel)
    requires
        !s.contains(r),
    ensures
        without(s, r) == s,
    decreases s.len(),
{
    if s.len() > 0 {
        let init = s.drop_last();
        assert(s.last() == s[s.len() - 1]);
        if init.contains(r) {
            let k = choose|k: int| 0 <= k < init.len() && init[k] == r;
            assert(s[k] == r);
        }
        lemma_without_absent(init, r);
        assert(init.push(s.last()) =~= s);
    }
}

/// The (message, due time) of each record of `recipient` in `s`, in order.
pub open spec fn entries_for(s: Seq<ReminderModel>, recipient: u64) -> Seq<(Seq<char>, Timestamp)>
    decreases s.len(),
{
    if s.len() == 0 {
        Seq::empty()
    } else if s.last().recipient == recipient {
        entries_for(s.drop_last(), recipient).push((s.last().message, s.last().when))
    } else {
        entries_for(s.drop_last(), recipient)
    }
}

/// The models of a list of (message, due time) entries.
pub open spec fn entry_models(s: Seq<(String, Timestamp)>) -> Seq<(Seq<char>, Timestamp)> {
    s.map_values(|e: (String, Timestamp)| (e.0@, e.1))
}

impl Reminder {
    pub fn new(message: String, when: Timestamp, recipient: u64) -> (r: Reminder)
        ensures
            r@ == (ReminderModel { message: message@, when, recipient }),
    {
        Reminder { message, when, recipient }
    }

    pub fn message(&self) -> (r: &String)
        ensures
            r@ == self@.message,
    {
        &self.message
    }

    pub fn when(&self) -> (r: Timestamp)
        ensures
            r == self@.when,
    {
        self.when
    }

    pub fn recipient(&self) -> (r: u64)
        ensures
            r == self@.recipient,
    {
        self.recipient
    }

    /// A copy with the same fields.
    pub fn duplicate(&self) -> (r: Reminder)
        ensures
            r@ == self@,
    {
        Reminder { message: self.message.clone(), when: self.when, recipient: self.recipient }
    }

    /// Field-wise equality.
    pub fn same_as(&self, other: &Reminder) -> (r: bool)
        ensures
            r == (self@ == other@),
    {
        let r = self.message == other.message && self.when == other.when && self.recipient
            == other.recipient;
        proof {
            if self.message@ == other.message@ && self.when == other.when && self.recipient
                == other.recipient {
                assert(self@ == other@);
            }
        }
        r
    }
}

/// The list without every record equal to `r`, duplicates included, the others
/// kept in their order.
pub fn remove_matching(list: Vec<Reminder>, r: &Reminder) -> (out: Vec<Reminder>)
    ensures
        models(out@) == without(models(list@), r@),
{
    let mut out: Vec<Reminder> = Vec::new();
    let mut i: usize = 0;
    while i < list.len()
        invariant
            i <= list.len(),
            models(out@) == without(models(list@.take(i as int)), r@),
        decreases list.len() - i,
    {
        let item = &list[i];
        proof {
            assert(list@.take(i + 1).drop_last() =~= list@.take(i as int));
            assert(models(list@.take(i + 1)).drop_last() =~= models(list@.take(i as int)));
        }
        if !item.same_as(r) {
            let ghost before = out@;
            out.push(item.duplicate());
            proof {
                assert(models(out@) =~= models(before).push(item@));
            }
        }
        i = i + 1;
    }
    assert(list@.take(list.len() as int) =~= list@);
    out
}

/// The (message, due time) of each record of `recipient`, in list order.
pub fn entries_of(list: &Vec<Reminder>, recipient: u64) -> (out: Vec<(String, Timestamp)>)
    ensures
        entry_models(out@) == entries_for(models(list@), recipient),
{
    let mut out: Vec<(String, Timestamp)> = Vec::new();
    let mut i: usize = 0;
    while i < list.len()
        invariant
            i <= list.len(),
            entry_models(out@) == entries_for(models(list@.take(i as int)), recipient),
        decreases list.len() - i,
    {
        let item = &list[i];
        proof {
            assert(list@.take(i + 1).drop_last() =~= list@.take(i as int));
            assert(models(list@.take(i + 1)).drop_last() =~= models(list@.take(i as int)));
        }
        if item.recipient() == recipient {
            let ghost before = out@;
            let message = item.message().clone();
            out.push((message, item.when()));
            proof {
                assert(entry_models(out@) =~= entry_models(before).push((item@.message, item@.when)));
            }
        }
        i = i + 1;
    }
    assert(list@.take(list.len() as int) =~= list@);
    out
}

/// Nanoseconds from `now` until `when`, or zero when `when` is not later.
pub open spec fn delay(when: Timestamp, now: Timestamp) -> int {
    if nanos_since_epoch(when) > nanos_since_epoch(now) {
        nanos_since_epoch(when) - nanos_since_epoch(now)
    } else {
        0
    }
}

/// How long to wait, in nanoseconds, from `now` until `when`: zero when `when`
/// is not later than `now`.
pub fn delay_until(when: Timestamp, now: Timestamp) -> (r: u128)
    ensures
        r == delay(when, now),
{
    let w: i128 = when.secs as i128 * 1_000_000_000 + when.nanos as i128;
    let n: i128 = now.secs as i128 * 1_000_000_000 + now.nanos as i128;
    if w > n {
        (w - n) as u128
    } else {
        0
    }
}

/// Result of one attempt to deliver a reminder.
#[derive(Clone, Copy, Debug, PartialEq, Eq, Structural)]
pub enum Delivery {
    /// The recipient could not be reached.
    Unreachable,
    /// The message was refused.
    Rejected,
    /// The message was sent.
    Sent,
}

/// Whether a scheduled reminder runs again.
#[derive(Clone, Copy, Debug, PartialEq, Eq, Structural)]
pub enum Flow {
    Continue,
    Stop,
}

/// After a delivery attempt: a reminder that was sent stops, one that failed is
/// tried again.
pub fn flow_after(d: Delivery) -> (r: Flow)
    ensures
        r == (if d == Delivery::Sent {
            Flow::Stop
        } else {
            Flow::Continue
        }),
{
    match d {
        Delivery::Sent => Flow::Stop,
        _ => Flow::Continue,
    }
}

/// After a delivery attempt: only a reminder that was sent leaves the list.
pub fn removal_due(d: Delivery) -> (r: bool)
    ensures
        r == (d == Delivery::Sent),
{
    match d {
        Delivery::Sent => true,
        _ => false,
    }
}

} // verus!
