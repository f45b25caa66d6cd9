//! The status log: the latest few messages, each with its time.

use std::collections::VecDeque;
use vstd::prelude::*;
use vstd::string::*;
use crate::clock::{elapsed, elapsed_since};
use crate::text::text_of;

verus! {

/// A status message is forgotten once it is older than this many
/// milliseconds.
pub const STATUS_TTL_MS: u64 = 10000;

/// The status log keeps this many messages.
pub const STATUS_LOG_SIZE: usize = 5;

/// The messages of a log, in order.
pub open spec fn messages_of(log: Seq<(String, u64)>) -> Seq<(Seq<char>, u64)> {
    log.map_values(|entry: (String, u64)| (entry.0@, entry.1))
}

/// The log with one more message, cut down to the latest few.
pub open spec fn with_status(
    log: Seq<(Seq<char>, u64)>,
    message: Seq<char>,
    now: u64,
) -> Seq<(Seq<char>, u64)> {
    let longer = log.push((message, now));
    if longer.len() > STATUS_LOG_SIZE {
        longer.skip(longer.len() - STATUS_LOG_SIZE)
    } else {
        longer
    }
}

/// The log without the messages at its front that have expired at `now`.
pub open spec fn without_expired(log: Seq<(Seq<char>, u64)>, now: u64) -> Seq<(Seq<char>, u64)>
    decreases log.len(),
{
    if log.len() > 0 && elapsed(now, log[0].1) > STATUS_TTL_MS {
        without_expired(log.skip(1), now)
    } else {
        log
    }
}

/// The message to show: the latest of the log, if it has any.
pub open spec fn latest_status(log: Seq<(Seq<char>, u64)>) -> Option<Seq<char>> {
    if log.len() > 0 {
        Some(log.last().0)
    } else {
        None
    }
}

/// The log never holds more than its size, and the message that was added
/// last is its latest.
pub proof fn status_log_is_bounded(log: Seq<(Seq<char>, u64)>, message: Seq<char>, now: u64)
    ensures
        with_status(log, message, now).len() <= STATUS_LOG_SIZE,
        with_status(log, message, now).len() > 0,
        with_status(log, message, now).last() == (message, now),
        latest_status(with_status(log, message, now)) == Some(message),
{
}

/// A message is on display until it is older than its time to live: the
/// latest message of a log is shown at `now` if no more than the time to
/// live has passed since it and since every message before it.
pub proof fn young_status_is_shown(log: Seq<(Seq<char>, u64)>, now: u64)
    requires
        log.len() > 0,
        forall|i: int| 0 <= i < log.len() ==> elapsed(now, (#[trigger] log[i]).1) <= STATUS_TTL_MS,
    ensures
        without_expired(log, now) == log,
        latest_status(without_expired(log, now)) == Some(log.last().0),
{
    assert(elapsed(now, log[0].1) <= STATUS_TTL_MS);
}

/// A log whose every message is older than the time to live shows nothing.
pub proof fn expired_status_is_dropped(log: Seq<(Seq<char>, u64)>, now: u64)
    requires
        forall|i: int| 0 <= i < log.len() ==> elapsed(now, (#[trigger] log[i]).1) > STATUS_TTL_MS,
    ensures
        without_expired(log, now).len() == 0,
        latest_status(without_expired(log, now)) is None,
    decreases log.len(),
{
    if log.len() > 0 {
        let rest = log.skip(1);
        assert(elapsed(now, log[0].1) > STATUS_TTL_MS);
        assert forall|i: int| 0 <= i < rest.len() implies elapsed(now, (#[trigger] rest[i]).1)
            > STATUS_TTL_MS by {
            assert(rest[i] == log[i + 1]);
        }
        expired_status_is_dropped(rest, now);
    }
}

/// Adds a message to the log at `now`, and drops the oldest messages until
/// the log is down to its size.
pub fn push_status(log: &mut VecDeque<(String, u64)>, message: String, now: u64)
    ensures
        messages_of(final(log)@) == with_status(messages_of(old(log)@), message@, now),
{
    let ghost before = messages_of(log@);
    assert(messages_of(log@.push((message, now))) =~= before.push((message@, now)));
    log.push_back((message, now));
    let ghost longer = messages_of(log@);
    let ghost mut dropped: int = 0;
    assert(longer.skip(0) =~= longer);
    while log.len() > STATUS_LOG_SIZE
        invariant
            0 <= dropped <= longer.len(),
            messages_of(log@) == longer.skip(dropped),
            log@.len() == longer.len() - dropped,
            dropped > 0 ==> log@.len() >= STATUS_LOG_SIZE,
        decreases log.len(),
    {
        proof {
            let rest = log@.subrange(1, log@.len() as int);
            assert forall|i: int| 0 <= i < rest.len() implies messages_of(rest)[i] == longer.skip(
                dropped + 1,
            )[i] by {
                assert(messages_of(rest)[i] == messages_of(log@)[i + 1]);
                assert(longer.skip(dropped)[i + 1] == longer.skip(dropped + 1)[i]);
            }
            assert(messages_of(rest) =~= longer.skip(dropped + 1));
            dropped = dropped + 1;
        }
        log.pop_front();
    }
}

/// Drops the messages at the front of the log that are older than their
/// time to live at `now`.
pub fn drop_expired(log: &mut VecDeque<(String, u64)>, now: u64)
    ensures
        messages_of(final(log)@) == without_expired(messages_of(old(log)@), now),
{
    let ghost before = messages_of(log@);
    loop
        invariant
            without_expired(before, now) == without_expired(messages_of(log@), now),
        ensures
            messages_of(log@) == without_expired(before, now),
        decreases log.len(),
    {
        if log.len() == 0 {
            break;
        }
        let expired = elapsed_since(now, log[0].1) > STATUS_TTL_MS;
        if !expired {
            break;
        }
        proof {
            assert(messages_of(log@.subrange(1, log@.len() as int)) =~= messages_of(log@).skip(1));
        }
        log.pop_front();
    }
}

/// The latest message of the log.
pub fn latest_message(log: &VecDeque<(String, u64)>) -> (message: Option<String>)
    ensures
        text_of(message) == latest_status(messages_of(log@)),
{
    let count = log.len();
    if count > 0 {
        Some(log[count - 1].0.clone())
    } else {
        None
    }
}

} // verus!
