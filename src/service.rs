//! The reminder service: its operations on the loaded list of pending
//! reminders. The caller loads the list into a guard, calls one of these, and
//! releases the guard; registering reminders with the scheduler is the
//! caller's part, after the release.
use crate::reminder::{
    delay, delay_until, entries_for, entries_of, entry_models, models, remove_matching, without,
    Reminder, ReminderModel, Timestamp,
};
use crate::store::Guard;
use vstd::prelude::*;

verus! {

/// The models of the list held by a guard.
pub open spec fn list_of(g: Guard<Vec<Reminder>>) -> Seq<ReminderModel> {
    models(g.value_view())
}

/// Relies on chrono::Utc::now, read through DateTime::timestamp and
/// DateTime::timestamp_subsec_nanos: the current time in UTC.
#[verifier::external_body]
fn current_time() -> (r: Timestamp) {
    let now = chrono::Utc::now();
    Timestamp { secs: now.timestamp(), nanos: now.timestamp_subsec_nanos() }
}

/// Appends a new reminder to the list and hands it back, to be registered with
/// the scheduler once the list is saved.
pub fn create(g: &mut Guard<Vec<Reminder>>, message: String, when: Timestamp, recipient: u64) -> (r:
    Reminder)
    ensures
        r@ == (ReminderModel { message: message@, when, recipient }),
        list_of(*final(g)) == list_of(*old(g)).push(r@),
        final(g).saves() == old(g).saves(),
{
    let r = Reminder::new(message, when, recipient);
    let mut list = g.replace(Vec::new());
    let ghost before = list@;
    list.push(r.duplicate());
    proof {
        assert(models(list@) =~= models(before).push(r@));
    }
    g.replace(list);
    r
}

/// The (message, due time) of each reminder of `recipient`. The list is taken
/// out of the guard, so releasing it writes nothing.
pub fn list(g: &mut Guard<Vec<Reminder>>, recipient: u64) -> (r: Vec<(String, Timestamp)>)
    ensures
        entry_models(r@) == entries_for(list_of(*old(g)), recipient),
        !final(g).saves(),
{
    let all = g.take();
    entries_of(&all, recipient)
}

/// Takes every stored reminder out of the guard and adds it to `scheduled`,
/// the reminders to register; returns how many were added. Releasing the
/// guard afterwards writes nothing.
pub fn reload_at_startup(g: &mut Guard<Vec<Reminder>>, scheduled: &mut Vec<Reminder>) -> (n: usize)
    ensures
        n == list_of(*old(g)).len(),
        models(final(scheduled)@) == models(old(scheduled)@) + list_of(*old(g)),
        !final(g).saves(),
{
    let all = g.take();
    let mut n: usize = 0;
    while n < all.len()
        invariant
            n <= all.len(),
            models(all@) == list_of(*old(g)),
            models(scheduled@) == models(old(scheduled)@) + models(all@.take(n as int)),
        decreases all.len() - n,
    {
        let ghost before = scheduled@;
        scheduled.push(all[n].duplicate());
        proof {
            assert(models(all@.take(n + 1)) =~= models(all@.take(n as int)).push(all@[n as int]@));
            assert(models(scheduled@) =~= models(before).push(all@[n as int]@));
        }
        n = n + 1;
    }
    assert(all@.take(n as int) =~= all@);
    n
}

/// Removes from the list every reminder equal to `delivered`, duplicates
/// included; releasing the guard then saves the rest.
pub fn on_delivery_success(g: &mut Guard<Vec<Reminder>>, delivered: &Reminder)
    ensures
        list_of(*final(g)) == without(list_of(*old(g)), delivered@),
        final(g).saves() == old(g).saves(),
{
    let all = g.replace(Vec::new());
    let rest = remove_matching(all, delivered);
    g.replace(rest);
}

/// Nanoseconds until the reminder is due, from the current time; zero once it
/// is due.
pub fn time_until_next_run(r: &Reminder) -> (d: u128)
    ensures
        exists|now: Timestamp| d == delay(r@.when, now),
{
    let now = current_time();
    delay_until(r.when(), now)
}

} // verus!
