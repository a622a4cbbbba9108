use crate::bot::change::StatusChange;
use crate::tencent::error::Error;
use crate::tencent::model::{same_progress, ApplicationProgress};
use crate::watch::{key_count, lemma_push_adds_node, sorted_insert, Watcher};
use vstd::prelude::*;

verus! {

/// Milliseconds in a minute.
pub const MINUTE_MS: u64 = 60000;

/// What a fetch of a due key means, given the state seen before.
pub open spec fn change_of(old: Option<ApplicationProgress>, fetched: Result<ApplicationProgress, Error>) -> Result<
    Option<StatusChange>,
    Error,
> {
    match fetched {
        Ok(p) => if old is Some && same_progress(old.unwrap(), p) {
            Ok(None)
        } else {
            Ok(Some(StatusChange::Progress(p)))
        },
        Err(Error::TokenExpired) => Ok(Some(StatusChange::Expiry)),
        Err(e) => Err(e),
    }
}

/// The queue after a reschedule signal for `key`: a new node when it carries
/// an interval, the queue as it was when it carries none.
pub open spec fn applied<ID>(s: Seq<(ID, u64)>, key: ID, interval: Option<u64>) -> Seq<(ID, u64)> {
    match interval {
        Some(d) => sorted_insert(s, (key, d)),
        None => s,
    }
}

/// The interval, in milliseconds, for a choice of minutes; zero minutes
/// turns polling off.
pub open spec fn interval_of(minutes: u32) -> Option<u64> {
    if minutes == 0 {
        None
    } else {
        Some((minutes * MINUTE_MS) as u64)
    }
}

/// Decides what a due key's fetch brings. A state equal, field by field, to
/// the one seen before brings nothing; a new one is a progress change, which
/// is also the state to cache (before it is sent); a refused token is an
/// expiry, and leaves the cache as it is; any other failure is handed back to
/// be logged.
pub fn get_status_changes(
    old: &Option<ApplicationProgress>,
    fetched: Result<ApplicationProgress, Error>,
) -> (r: Result<Option<StatusChange>, Error>)
    ensures
        r == change_of(*old, fetched),
{
    match fetched {
        Ok(progress) => {
            let same = match old {
                Some(o) => *o == progress,
                None => false,
            };
            if same {
                Ok(None)
            } else {
                Ok(Some(StatusChange::Progress(progress)))
            }
        },
        Err(Error::TokenExpired) => Ok(Some(StatusChange::Expiry)),
        Err(e) => Err(e),
    }
}

/// Folds a reschedule signal, or the interval read when a key has fired,
/// into the queue: with an interval the key is queued (once more, if it is
/// already queued); without one nothing is done, so a pending node fires once
/// more and is then not re-armed.
pub fn apply<ID: Copy>(queue: &mut Watcher<ID>, key: ID, interval: Option<u64>)
    requires
        old(queue).wf(),
    ensures
        final(queue).wf(),
        final(queue)@ == applied(old(queue)@, key, interval),
        final(queue).waiters() == old(queue).waiters(),
{
    if let Some(d) = interval {
        queue.push(key, d);
    }
}

/// The polling interval for a choice of minutes, in milliseconds: `None`
/// turns polling off.
pub fn interval_from_minutes(minutes: u32) -> (r: Option<u64>)
    ensures
        r == interval_of(minutes),
{
    if minutes == 0 {
        None
    } else {
        Some(minutes as u64 * MINUTE_MS)
    }
}

/// A signal without an interval changes nothing; one with an interval for a
/// key that already has a pending node leaves two independent nodes for it.
pub proof fn lemma_apply_signal<ID>(s: Seq<(ID, u64)>, key: ID, interval: Option<u64>)
    ensures
        interval is None ==> applied(s, key, interval) == s,
        interval is Some ==> key_count(applied(s, key, interval), key) == key_count(s, key) + 1,
        interval is Some && key_count(s, key) >= 1 ==> key_count(applied(s, key, interval), key)
            >= 2,
{
    if let Some(d) = interval {
        lemma_push_adds_node(s, (key, d));
    }
}

} // verus!
