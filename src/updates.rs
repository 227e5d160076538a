//! The poller's bookkeeping: the cursor of the next update to ask for, and
//! the messages of a batch to hand to the session registry.
use vstd::prelude::*;
use crate::model::TelegramUserId;
use crate::responses::{TelegramMessageData, TelegramUpdateData};

verus! {

/// The cursor a poller starts from, and restarts from after an error.
pub const INITIAL_UPDATE_ID: i64 = 0;

/// Seconds the platform may hold a long poll open before it answers.
pub const LONG_POLL_TIMEOUT_SECS: u64 = 60;

/// Seconds the poller waits before it restarts after an error.
pub const RESTART_DELAY_SECS: u64 = 10;

/// The user and text of a message, when it has both: what is dispatched.
pub open spec fn message_dispatch(m: TelegramMessageData) -> Option<(TelegramUserId, Seq<char>)> {
    match (m.from, m.text) {
        (Some(from), Some(text)) => Some((from.id, text@)),
        _ => None,
    }
}

pub open spec fn update_dispatch(u: TelegramUpdateData) -> Option<(TelegramUserId, Seq<char>)> {
    match u.message {
        Some(m) => message_dispatch(m),
        None => None,
    }
}

/// The cursor after a batch: the largest of `cursor` and each update id plus one.
pub open spec fn cursor_after(cursor: int, updates: Seq<TelegramUpdateData>) -> int
    decreases updates.len(),
{
    if updates.len() == 0 {
        cursor
    } else {
        let before = cursor_after(cursor, updates.drop_last());
        let next = updates.last().update_id + 1;
        if next > before {
            next
        } else {
            before
        }
    }
}

/// What a batch dispatches, in delivery order: one entry per update whose
/// message has a sender and a text, duplicates included.
pub open spec fn dispatches_of(updates: Seq<TelegramUpdateData>) -> Seq<(TelegramUserId, Seq<char>)>
    decreases updates.len(),
{
    if updates.len() == 0 {
        Seq::empty()
    } else {
        let before = dispatches_of(updates.drop_last());
        match update_dispatch(updates.last()) {
            Some(d) => before.push(d),
            None => before,
        }
    }
}

pub open spec fn dispatch_view(d: Seq<(TelegramUserId, String)>) -> Seq<(TelegramUserId, Seq<char>)> {
    d.map_values(|p: (TelegramUserId, String)| (p.0, p.1@))
}

/// The cursor after seeing update `update_id`: never lower than before.
pub fn advance_cursor(last_update_id: i64, update_id: i64) -> (r: i64)
    requires
        update_id < i64::MAX,
    ensures
        r == (if update_id + 1 > last_update_id { update_id + 1 } else { last_update_id as int }),
        r >= last_update_id,
{
    let next = update_id + 1;
    if next > last_update_id {
        next
    } else {
        last_update_id
    }
}

/// The user and text to dispatch for `message`, when it has both.
pub fn dispatch_of_message(message: &TelegramMessageData) -> (r: Option<(TelegramUserId, String)>)
    ensures
        match r {
            Some(p) => message_dispatch(*message) == Some((p.0, p.1@)),
            None => message_dispatch(*message) is None,
        },
{
    match (&message.from, &message.text) {
        (Some(from), Some(text)) => Some((from.id, text.clone())),
        _ => None,
    }
}

/// Takes a batch in delivery order: returns the cursor to poll from next and
/// the (user, text) pairs to dispatch, one for each update whose message has
/// a sender and a text.
pub fn plan_updates(last_update_id: i64, updates: &Vec<TelegramUpdateData>) -> (r: (
    i64,
    Vec<(TelegramUserId, String)>,
))
    requires
        forall|i: int| 0 <= i < updates@.len() ==> updates@[i].update_id < i64::MAX,
    ensures
        r.0 == cursor_after(last_update_id as int, updates@),
        r.0 >= last_update_id,
        dispatch_view(r.1@) == dispatches_of(updates@),
{
    let mut cursor: i64 = last_update_id;
    let mut out: Vec<(TelegramUserId, String)> = Vec::new();
    let mut i: usize = 0;
    while i < updates.len()
        invariant
            0 <= i <= updates@.len(),
            forall|j: int| 0 <= j < updates@.len() ==> updates@[j].update_id < i64::MAX,
            cursor == cursor_after(last_update_id as int, updates@.take(i as int)),
            cursor >= last_update_id,
            dispatch_view(out@) == dispatches_of(updates@.take(i as int)),
        decreases updates@.len() - i,
    {
        let update = &updates[i];
        proof {
            assert(updates@.take(i + 1).drop_last() =~= updates@.take(i as int));
            assert(updates@.take(i + 1).last() == updates@[i as int]);
        }
        cursor = advance_cursor(cursor, update.update_id);
        match &update.message {
            Some(message) => {
                match dispatch_of_message(message) {
                    Some(d) => {
                        proof {
                            assert(dispatch_view(out@.push(d)) =~= dispatch_view(out@).push((d.0, d.1@)));
                        }
                        out.push(d);
                    },
                    None => {},
                }
            },
            None => {},
        }
        i = i + 1;
    }
    assert(updates@.take(updates@.len() as int) =~= updates@);
    (cursor, out)
}

} // verus!
