//! File-backed storage of one value: what a load yields from what was read, and
//! what a guard writes back when it is released.
//!
//! The file itself, its lock and the encoding of the value are handled by the
//! caller; this module decides. The file is modelled as `Option<V>`: `None`
//! when it is absent, `Some(v)` when it holds the encoding of a value whose view
//! is `v`.
use vstd::prelude::*;

verus! {

/// A value that a store can hold: it has an empty value, which stands for an
/// absent file.
pub trait Stored: View + Sized {
    spec fn empty_view() -> Self::V;

    fn empty_value() -> (r: Self)
        ensures
            r@ == Self::empty_view(),
    ;
}

impl<T> Stored for Vec<T> {
    open spec fn empty_view() -> Seq<T> {
        Seq::empty()
    }

    fn empty_value() -> (r: Vec<T>) {
        Vec::new()
    }
}

/// What reading the backing file gave.
pub enum Reading<T> {
    /// The file does not exist.
    Absent,
    /// The file exists but could not be read.
    Unreadable,
    /// The file was read, but its content is not the encoding of a value.
    Malformed,
    /// The file was read and decoded.
    Decoded(T),
}

/// Why a load failed.
#[derive(Clone, Copy, Debug, PartialEq, Eq, Structural)]
pub enum LoadError {
    /// The content of the file is not the encoding of a value.
    Malformed,
    /// The file could not be read.
    IoFailure,
}

/// Exclusive handle on the value of a store while it is loaded.
///
/// When released it writes its value back, unless `take` was called on it.
pub struct Guard<T> {
    value: T,
    save: bool,
}

/// The view of what a file holds, as seen by a load.
pub open spec fn reading_view<T: View>(r: Reading<T>) -> Option<T::V> {
    match r {
        Reading::Decoded(t) => Some(t@),
        _ => None,
    }
}

/// What a load of a readable file yields: the empty value when it is absent.
pub open spec fn loaded<T: Stored>(disk: Option<T::V>) -> T::V {
    match disk {
        Some(v) => v,
        None => T::empty_view(),
    }
}

/// The file after a guard whose pending write is `write` was released.
pub open spec fn after_release<V>(disk: Option<V>, write: Option<V>) -> Option<V> {
    match write {
        Some(v) => Some(v),
        None => disk,
    }
}

impl<T: Stored> Guard<T> {
    pub closed spec fn value_view(&self) -> T::V {
        self.value@
    }

    /// Whether releasing the guard writes its value back.
    pub closed spec fn saves(&self) -> bool {
        self.save
    }

    /// What releasing the guard writes: its value, or nothing.
    pub open spec fn pending(&self) -> Option<T::V> {
        if self.saves() {
            Some(self.value_view())
        } else {
            None
        }
    }

    /// A guard over a value, to be written back on release.
    pub fn new(value: T) -> (g: Guard<T>)
        ensures
            g.value_view() == value@,
            g.saves(),
    {
        Guard { value, save: true }
    }

    /// Opens a guard on what reading the file gave: the empty value for an
    /// absent file, the decoded value for a readable one, an error otherwise.
    pub fn open(reading: Reading<T>) -> (r: Result<Guard<T>, LoadError>)
        ensures
            match reading {
                Reading::Absent => r is Ok,
                Reading::Decoded(_) => r is Ok,
                Reading::Unreadable => r == Err::<Guard<T>, LoadError>(LoadError::IoFailure),
                Reading::Malformed => r == Err::<Guard<T>, LoadError>(LoadError::Malformed),
            },
            r is Ok ==> r->Ok_0.value_view() == loaded::<T>(reading_view(reading)),
            r is Ok ==> r->Ok_0.saves(),
    {
        match reading {
            Reading::Absent => Ok(Guard::new(T::empty_value())),
            Reading::Unreadable => Err(LoadError::IoFailure),
            Reading::Malformed => Err(LoadError::Malformed),
            Reading::Decoded(t) => Ok(Guard::new(t)),
        }
    }

    pub fn value(&self) -> (r: &T)
        ensures
            r@ == self.value_view(),
    {
        &self.value
    }

    /// Puts `value` in the guard and hands back the one it held; whether the
    /// guard writes back is unchanged.
    pub fn replace(&mut self, value: T) -> (r: T)
        ensures
            r@ == old(self).value_view(),
            final(self).value_view() == value@,
            final(self).saves() == old(self).saves(),
    {
        let mut r = value;
        std::mem::swap(&mut self.value, &mut r);
        r
    }

    /// Moves the value out, leaves the empty value in its place, and turns off
    /// the write-back: what is taken this way never reaches the file.
    pub fn take(&mut self) -> (r: T)
        ensures
            r@ == old(self).value_view(),
            final(self).value_view() == T::empty_view(),
            !final(self).saves(),
    {
        self.save = false;
        let mut r = T::empty_value();
        std::mem::swap(&mut self.value, &mut r);
        r
    }

    /// Ends the guard and hands back what must be written to the file, if
    /// anything.
    pub fn release(self) -> (r: Option<T>)
        ensures
            self.pending() == (match r {
                Some(v) => Some(v@),
                None => None,
            }),
    {
        if self.save {
            Some(self.value)
        } else {
            None
        }
    }
}

/// A value written back by a guard is the value that the next load yields.
pub proof fn lemma_round_trip<T: Stored>(disk: Option<T::V>, g: Guard<T>)
    requires
        g.saves(),
    ensures
        loaded::<T>(after_release(disk, g.pending())) == g.value_view(),
{
}

/// Loading an absent file yields the empty value, and opening it writes
/// nothing: the file stays absent while every guard on it is released without
/// a write.
pub proof fn lemma_absent_is_empty<T: Stored>(g: Guard<T>)
    requires
        !g.saves(),
    ensures
        loaded::<T>(None) == T::empty_view(),
        after_release(None, g.pending()) is None,
{
}

/// Releasing a guard after `take` leaves the file as it was.
pub proof fn lemma_take_keeps_file<T: Stored>(disk: Option<T::V>, g: Guard<T>)
    requires
        !g.saves(),
    ensures
        after_release(disk, g.pending()) == disk,
{
}

} // verus!
