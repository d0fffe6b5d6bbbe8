use vstd::prelude::*;
use vstd::string::StringExecFns;
use crate::telegram::types::{UpdateEvent, UpdateResponse};

verus! {

/// Whether the cursor admits an update id: with no cursor every update is
/// admitted; with cursor `v`, only ids strictly greater than `v`.
pub open spec fn admits(last: Option<i64>, id: i64) -> bool {
    match last {
        None => true,
        Some(v) => id > v,
    }
}

/// The updates of `batch` the cursor admits, in arrival order.
pub open spec fn admitted_updates(last: Option<i64>, batch: Seq<UpdateResponse>) -> Seq<
    UpdateResponse,
>
    decreases batch.len(),
{
    if batch.len() == 0 {
        Seq::empty()
    } else {
        let rest = admitted_updates(last, batch.drop_last());
        if admits(last, batch.last().update_id) {
            rest.push(batch.last())
        } else {
            rest
        }
    }
}

/// The events of the admitted updates, in arrival order.
pub open spec fn admitted_events(last: Option<i64>, batch: Seq<UpdateResponse>) -> Seq<
    UpdateEvent,
> {
    admitted_updates(last, batch).map_values(|u: UpdateResponse| u.event)
}

/// Where the cursor stands after a batch: on the last update of a non-empty
/// batch, unchanged otherwise.
pub open spec fn next_cursor(last: Option<i64>, batch: Seq<UpdateResponse>) -> Option<i64> {
    if batch.len() == 0 {
        last
    } else {
        Some(batch.last().update_id)
    }
}

/// The long-poll cursor: the id of the last update already taken from the
/// server, if any.
#[derive(Debug)]
pub struct PollCursor {
    pub last: Option<i64>,
}

impl PollCursor {
    /// A fresh cursor: the first poll carries no offset.
    pub fn new() -> (r: Self)
        ensures
            r.last is None,
    {
        PollCursor { last: None }
    }

    /// The `offset` field for the next poll request: one past the last seen
    /// id, or absent before anything was seen.
    pub fn request_offset(&self) -> (r: Option<i64>)
        requires
            self.last matches Some(v) ==> v < i64::MAX,
        ensures
            self.last is None ==> r is None,
            self.last matches Some(v) ==> r == Some((v + 1) as i64),
    {
        match self.last {
            None => None,
            Some(v) => Some(v + 1),
        }
    }

    /// Consume one poll batch: advance the cursor to the batch's last update
    /// and hand out, in arrival order, the events of exactly those updates
    /// whose id the old cursor admits.
    pub fn process_batch(&mut self, batch: Vec<UpdateResponse>) -> (events: Vec<UpdateEvent>)
        ensures
            final(self).last == next_cursor(old(self).last, batch@),
            events@ == admitted_events(old(self).last, batch@),
    {
        let ghost all: Seq<UpdateResponse> = batch@;
        let prev: Option<i64> = self.last;
        if batch.len() > 0 {
            self.last = Some(batch[batch.len() - 1].update_id);
        }
        let mut events: Vec<UpdateEvent> = Vec::new();
        let mut rest = batch;
        let mut i: usize = 0;
        while rest.len() > 0
            invariant
                all.len() <= usize::MAX,
                i + rest@.len() == all.len(),
                rest@ == all.skip(i as int),
                events@ == admitted_events(prev, all.take(i as int)),
            decreases rest@.len(),
        {
            let u = rest.remove(0);
            proof {
                assert(all.skip(i as int).remove(0) =~= all.skip(i as int + 1));
                assert(u == all[i as int]);
                lemma_admitted_take_step(prev, all, i as int);
            }
            let accepted: bool = match prev {
                None => true,
                Some(v) => u.update_id > v,
            };
            if accepted {
                events.push(u.event);
            }
            proof {
                assert(events@ =~= admitted_events(prev, all.take(i as int + 1)));
            }
            i += 1;
        }
        proof {
            assert(all.take(i as int) =~= all);
        }
        events
    }

    /// One poll cycle's outcome: an `ok: false` envelope counts as "no new
    /// events" and leaves the cursor alone; an `ok: true` envelope is
    /// consumed as a batch.
    pub fn handle_poll(&mut self, ok: bool, batch: Vec<UpdateResponse>) -> (events: Vec<
        UpdateEvent,
    >)
        ensures
            !ok ==> *final(self) == *old(self) && events@ == Seq::<UpdateEvent>::empty(),
            ok ==> final(self).last == next_cursor(old(self).last, batch@) && events@
                == admitted_events(old(self).last, batch@),
    {
        if ok {
            self.process_batch(batch)
        } else {
            Vec::new()
        }
    }
}

/// Taking one more update of the batch extends the admitted events by that
/// update's event exactly when the cursor admits its id.
proof fn lemma_admitted_take_step(last: Option<i64>, batch: Seq<UpdateResponse>, k: int)
    requires
        0 <= k < batch.len(),
    ensures
        admitted_events(last, batch.take(k + 1)) == if admits(last, batch[k].update_id) {
            admitted_events(last, batch.take(k)).push(batch[k].event)
        } else {
            admitted_events(last, batch.take(k))
        },
{
    assert(batch.take(k + 1).drop_last() =~= batch.take(k));
    assert(batch.take(k + 1).last() == batch[k]);
    if admits(last, batch[k].update_id) {
        assert(admitted_updates(last, batch.take(k + 1)) == admitted_updates(
            last,
            batch.take(k),
        ).push(batch[k]));
        assert(admitted_events(last, batch.take(k + 1)) =~= admitted_events(
            last,
            batch.take(k),
        ).push(batch[k].event));
    } else {
        assert(admitted_updates(last, batch.take(k + 1)) == admitted_updates(last, batch.take(k)));
    }
}

/// Law: a poll never hands out an update at or below the cursor — every
/// admitted update's id strictly exceeds it.
pub proof fn lemma_no_update_at_or_below_cursor(last: Option<i64>, batch: Seq<UpdateResponse>)
    ensures
        forall|i: int|
            0 <= i < admitted_updates(last, batch).len() ==> admits(
                last,
                (#[trigger] admitted_updates(last, batch)[i]).update_id,
            ),
    decreases batch.len(),
{
    if batch.len() > 0 {
        let rest = batch.drop_last();
        lemma_no_update_at_or_below_cursor(last, rest);
        let au = admitted_updates(last, batch);
        let aur = admitted_updates(last, rest);
        assert forall|i: int| 0 <= i < au.len() implies admits(
            last,
            (#[trigger] au[i]).update_id,
        ) by {
            if admits(last, batch.last().update_id) {
                if i < aur.len() {
                    assert(au[i] == aur[i]);
                } else {
                    assert(au[i] == batch.last());
                }
            } else {
                assert(au[i] == aur[i]);
            }
        }
    }
}

/// Law: after a non-empty batch the cursor stands exactly on the id of the
/// batch's last update, so the next poll is keyed one past that id.
pub proof fn lemma_cursor_follows_batch(last: Option<i64>, batch: Seq<UpdateResponse>)
    requires
        batch.len() > 0,
    ensures
        next_cursor(last, batch) == Some(batch.last().update_id),
{
}

/// The bot API endpoint for one method: the fixed base, then the bot token,
/// a slash and the method name.
pub fn get_request_url(token: &str, method_name: &str) -> (r: String)
    ensures
        r@ == "https://api.telegram.org/bot"@ + token@ + "/"@ + method_name@,
{
    let mut s = String::from_str("https://api.telegram.org/bot");
    s.append(token);
    s.append("/");
    s.append(method_name);
    s
}

} // verus!
