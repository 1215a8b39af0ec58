//! What the store guarantees across operations, proved from the model.

use vstd::prelude::*;

use crate::database::model::{
    belongs_to, lemma_session_at, lemma_slot, lemma_slot_unique, lemma_transcript,
    lemma_with_block, lemma_with_session, lemma_with_session_replaced, ordered_by_time, slot,
    EngineData,
};
use crate::sdk::agent::structure::DefaultsData;
use crate::sdk::interactions::{BlockData, SessionData};

verus! {

/// A new transcript entry enters the transcript of its own session, at its
/// place by creation time, and no other transcript changes.
pub proof fn lemma_entry_enters_one_transcript(e: EngineData, row: BlockData)
    requires
        e.wf(),
    ensures
        e.with_block(row).transcript(row.interaction_id) == e.transcript(
            row.interaction_id,
        ).insert(slot(e.transcript(row.interaction_id), row.created_at), row),
        0 <= slot(e.transcript(row.interaction_id), row.created_at) <= e.transcript(
            row.interaction_id,
        ).len(),
        forall|other: u128|
            other != row.interaction_id ==> #[trigger] e.with_block(row).transcript(other)
                == e.transcript(other),
{
    let t = row.created_at;
    let k = slot(e.blocks, t);
    lemma_slot(e.blocks, t);
    let head = e.blocks.take(k);
    let tail = e.blocks.skip(k);
    let one = seq![row];
    let n = e.with_block(row);
    assert(e.blocks =~= head + tail);
    assert(n.blocks =~= head + one + tail);
    assert forall|id: u128|
        #![trigger one.filter(belongs_to(id))]
        one.filter(belongs_to(id)) == if id == row.interaction_id {
            one
        } else {
            Seq::<BlockData>::empty()
        } by {
        reveal_with_fuel(Seq::filter, 2);
    }
    let id = row.interaction_id;
    let a = head.filter(belongs_to(id));
    let b = tail.filter(belongs_to(id));
    lemma_transcript(head, id);
    lemma_transcript(tail, id);
    let old_rows = a + b;
    lemma_slot_unique(old_rows, t, a.len() as int);
}

/// The transcript is append-only: a write of a new entry keeps every stored
/// entry as it is, and in the same order.
pub proof fn lemma_entries_are_kept(e: EngineData, row: BlockData)
    requires
        e.wf(),
    ensures
        forall|i: int|
            0 <= i < e.blocks.len() ==> e.with_block(row).blocks.contains(#[trigger] e.blocks[i]),
        e.with_block(row).blocks.remove(slot(e.blocks, row.created_at)) == e.blocks,
        e.with_block(row).sessions == e.sessions,
        e.with_block(row).agents == e.agents,
        e.with_block(row).meta == e.meta,
{
    let k = slot(e.blocks, row.created_at);
    lemma_slot(e.blocks, row.created_at);
    let n = e.with_block(row);
    assert forall|i: int| 0 <= i < e.blocks.len() implies n.blocks.contains(#[trigger] e.blocks[i]) by {
        let ni = if i < k { i } else { i + 1 };
        assert(n.blocks[ni] == e.blocks[i]);
    }
}

/// A turn stores exactly two transcript entries, both in the transcript of
/// its session, and changes no other transcript and no other session. Where
/// the outbound entry was not created before the inbound entry, the inbound
/// entry stands before it in the transcript.
pub proof fn lemma_turn_stores_two_entries(
    e: EngineData,
    id: u128,
    inbound: BlockData,
    outbound: BlockData,
    now: i64,
)
    requires
        e.wf(),
        e.has_session(id),
        inbound.interaction_id == id,
        outbound.interaction_id == id,
        !e.has_block(inbound.id),
        !e.has_block(outbound.id),
        inbound.id != outbound.id,
    ensures
        e.after_turn(id, inbound, outbound, now).wf(),
        e.after_turn(id, inbound, outbound, now).blocks.len() == e.blocks.len() + 2,
        e.after_turn(id, inbound, outbound, now).transcript(id).len() == e.transcript(id).len() + 2,
        e.after_turn(id, inbound, outbound, now).transcript(id).contains(inbound),
        e.after_turn(id, inbound, outbound, now).transcript(id).contains(outbound),
        forall|other: u128|
            other != id ==> #[trigger] e.after_turn(id, inbound, outbound, now).transcript(other)
                == e.transcript(other),
        e.after_turn(id, inbound, outbound, now).session(id) == (SessionData {
            updated_at: now,
            ..e.session(id)
        }),
        forall|other: u128|
            other != id && e.has_session(other) ==> #[trigger] e.after_turn(
                id,
                inbound,
                outbound,
                now,
            ).session(other) == e.session(other),
        inbound.created_at <= outbound.created_at ==> exists|i: int, j: int|
            0 <= i < j < e.after_turn(id, inbound, outbound, now).transcript(id).len()
                && #[trigger] e.after_turn(id, inbound, outbound, now).transcript(id)[i] == inbound
                && #[trigger] e.after_turn(id, inbound, outbound, now).transcript(id)[j]
                == outbound,
{
    let with_inbound = e.with_block(inbound);
    let with_both = with_inbound.with_block(outbound);
    let n = e.after_turn(id, inbound, outbound, now);
    lemma_with_block(e, inbound);
    lemma_with_block(with_inbound, outbound);
    lemma_entry_enters_one_transcript(e, inbound);
    lemma_entry_enters_one_transcript(with_inbound, outbound);
    let row = SessionData { updated_at: now, ..with_both.session(id) };
    lemma_with_session_replaced(with_both, id, row);
    let before = e.transcript(id);
    let middle = with_inbound.transcript(id);
    let after = with_both.transcript(id);
    let inbound_at = slot(before, inbound.created_at);
    let outbound_at = slot(middle, outbound.created_at);
    assert(after[outbound_at] == outbound);
    let inbound_then = if inbound_at < outbound_at { inbound_at } else { inbound_at + 1 };
    assert(after[inbound_then] == inbound);
    assert forall|other: u128| other != id implies #[trigger] n.transcript(other) == e.transcript(
        other,
    ) by {
        assert(with_both.transcript(other) == with_inbound.transcript(other));
    }
    if inbound.created_at <= outbound.created_at {
        lemma_transcript(with_inbound.blocks, id);
        lemma_slot(middle, outbound.created_at);
    }
}

/// Asking for the default session twice gives the same session both times:
/// once the first call has gone through, a second call writes nothing and
/// finds the meta row that the first left, whatever identities and time it
/// brings along.
pub proof fn lemma_default_interaction_is_stable(
    e: EngineData,
    defaults: DefaultsData,
    session_id: u128,
    meta_id: u128,
    now: i64,
    later_defaults: DefaultsData,
    later_session_id: u128,
    later_meta_id: u128,
    later: i64,
)
    requires
        e.wf(),
        e.meta.is_some() || !e.has_session(session_id),
    ensures
        e.bootstrapped(defaults, session_id, meta_id, now).wf(),
        e.bootstrapped(defaults, session_id, meta_id, now).meta.is_some(),
        e.bootstrapped(defaults, session_id, meta_id, now).has_session(
            e.bootstrapped(defaults, session_id, meta_id, now).meta.unwrap().default_interaction_id,
        ),
        e.bootstrapped(defaults, session_id, meta_id, now).bootstrapped(
            later_defaults,
            later_session_id,
            later_meta_id,
            later,
        ) == e.bootstrapped(defaults, session_id, meta_id, now),
{
    if e.meta.is_none() {
        lemma_with_session(
            e,
            SessionData::fresh(
                session_id,
                now,
                defaults.user_name,
                defaults.constitution,
                defaults.memory_size,
            ),
        );
    }
}

/// There is never more than one default session: once a meta row is there,
/// no later request for the default session makes another session or
/// another meta row.
pub proof fn lemma_one_default_interaction(
    e: EngineData,
    defaults: DefaultsData,
    session_id: u128,
    meta_id: u128,
    now: i64,
)
    requires
        e.wf(),
        e.meta.is_some(),
    ensures
        e.bootstrapped(defaults, session_id, meta_id, now) == e,
{
}

/// A new persona is what the session holds from then on, and so what the
/// next turn hands to the backend; the transcript, and with it every
/// transcript window, stays as it was stored, and so does every other
/// session.
pub proof fn lemma_persona_update_keeps_transcript(
    e: EngineData,
    id: u128,
    text: Seq<char>,
    now: i64,
)
    requires
        e.wf(),
        e.has_session(id),
    ensures
        e.with_constitution(id, text, now).wf(),
        e.with_constitution(id, text, now).has_session(id),
        e.with_constitution(id, text, now).session(id) == (SessionData {
            constitution: text,
            updated_at: now,
            ..e.session(id)
        }),
        e.with_constitution(id, text, now).blocks == e.blocks,
        forall|any: u128, limit: usize| #[trigger]
            e.with_constitution(id, text, now).window(any, limit) == e.window(any, limit),
        forall|other: u128|
            other != id && e.has_session(other) ==> #[trigger] e.with_constitution(
                id,
                text,
                now,
            ).session(other) == e.session(other),
{
    let k = e.session_index(id);
    lemma_session_at(e, k);
    let row = SessionData { constitution: text, updated_at: now, ..e.session(id) };
    lemma_with_session_replaced(e, id, row);
}

/// A session that is not stored has no transcript: no entry is ever stored
/// for it, so every window of it is empty.
pub proof fn lemma_unknown_session_has_no_transcript(e: EngineData, id: u128, limit: usize)
    requires
        e.wf(),
        !e.has_session(id),
    ensures
        e.transcript(id).len() == 0,
        e.window(id, limit).len() == 0,
{
    lemma_transcript(e.blocks, id);
    let all = e.transcript(id);
    if all.len() > 0 {
        assert(e.blocks.contains(all[0]));
    }
}

} // verus!
