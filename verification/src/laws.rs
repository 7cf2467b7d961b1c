//! Laws of the registry's state machine, stated over the same model the
//! handlers' contracts use: a successfully resolved appeared event inserts
//! its id into the registry's map, and a removed event removes it —
//! exactly the `insert` and `remove` the handlers' `ensures` state.
use vstd::prelude::*;

use crate::errors::ErrorKind;
use crate::registry::NoteAction;
use crate::registry::appeared_step;
use crate::registry::pty_name_id;
use crate::registry::removed_step;

verus! {

/// One well-formed, successfully resolved event, in the registry's model:
/// an appeared event carries the id and the owner name it resolved to, a
/// removed event the id.
pub enum RegEvent {
    Appeared { id: u32, owner: Seq<char> },
    Removed { id: u32 },
}

/// What one event does to the registry's model — the transition the
/// handlers' contracts state through `insert` and `remove`.
pub open spec fn apply_event(m: Map<u32, Seq<char>>, e: RegEvent) -> Map<u32, Seq<char>> {
    match e {
        RegEvent::Appeared { id, owner } => m.insert(id, owner),
        RegEvent::Removed { id } => m.remove(id),
    }
}

/// A whole event sequence applied in order, oldest first.
pub open spec fn apply_events(m: Map<u32, Seq<char>>, es: Seq<RegEvent>) -> Map<u32, Seq<char>>
    decreases es.len(),
{
    if es.len() == 0 {
        m
    } else {
        apply_event(apply_events(m, es.drop_last()), es.last())
    }
}

/// The event opens a session for `id`.
pub open spec fn event_opens(e: RegEvent, id: u32) -> bool {
    e matches RegEvent::Appeared { id: i, .. } && i == id
}

/// The event closes the session for `id`.
pub open spec fn event_closes(e: RegEvent, id: u32) -> bool {
    e matches RegEvent::Removed { id: i } && i == id
}

/// `id` has an appeared event not yet followed by a matching removed event.
pub open spec fn open_after(es: Seq<RegEvent>, id: u32) -> bool {
    exists|i: int|
        0 <= i < es.len() && event_opens(#[trigger] es[i], id) && (forall|j: int|
            i < j < es.len() ==> !event_closes(#[trigger] es[j], id))
}

/// After processing any sequence of well-formed appeared and removed
/// events, the registry's set of open ids is exactly the set of ids with an
/// appeared event not yet followed by a matching removed event.
pub proof fn lemma_registry_tracks_events(es: Seq<RegEvent>, id: u32)
    ensures
        apply_events(Map::<u32, Seq<char>>::empty(), es).contains_key(id) <==> open_after(es, id),
    decreases es.len(),
{
    if es.len() == 0 {
        assert(!Map::<u32, Seq<char>>::empty().contains_key(id));
    } else {
        let init = es.drop_last();
        let e = es.last();
        lemma_registry_tracks_events(init, id);
        if event_opens(e, id) {
            assert(event_opens(es[es.len() - 1], id));
            assert(open_after(es, id));
        } else if event_closes(e, id) {
            assert(!apply_events(Map::<u32, Seq<char>>::empty(), es).contains_key(id));
            assert forall|i: int| !(0 <= i < es.len() && event_opens(#[trigger] es[i], id)
                && (forall|j: int| i < j < es.len() ==> !event_closes(#[trigger] es[j], id))) by {
                if 0 <= i < es.len() && event_opens(es[i], id) {
                    assert(i < es.len() - 1 < es.len());
                    assert(event_closes(es[es.len() - 1], id));
                }
            }
        } else {
            assert(apply_events(Map::<u32, Seq<char>>::empty(), es).contains_key(id)
                <==> apply_events(Map::<u32, Seq<char>>::empty(), init).contains_key(id));
            if open_after(init, id) {
                let i = choose|i: int|
                    0 <= i < init.len() && event_opens(#[trigger] init[i], id) && (forall|j: int|
                        i < j < init.len() ==> !event_closes(#[trigger] init[j], id));
                assert(event_opens(es[i], id));
                assert forall|j: int| i < j < es.len() implies !event_closes(
                    #[trigger] es[j],
                    id,
                ) by {
                    if j < es.len() - 1 {
                        assert(es[j] == init[j]);
                    }
                }
                assert(open_after(es, id));
            }
            if open_after(es, id) {
                let i = choose|i: int|
                    0 <= i < es.len() && event_opens(#[trigger] es[i], id) && (forall|j: int|
                        i < j < es.len() ==> !event_closes(#[trigger] es[j], id));
                assert(i < es.len() - 1);
                assert(event_opens(init[i], id));
                assert forall|j: int| i < j < init.len() implies !event_closes(
                    #[trigger] init[j],
                    id,
                ) by {
                    assert(init[j] == es[j]);
                }
                assert(open_after(init, id));
            }
        }
    }
}

/// A successful appeared event takes the registry model exactly one
/// `apply_event` step, for the appeared event with the parsed id and the
/// owner name the session ended up with.
pub proof fn lemma_appeared_is_one_step(
    pre_m: Map<u32, Seq<char>>,
    post_m: Map<u32, Seq<char>>,
    pre_n: Seq<NoteAction>,
    post_n: Seq<NoteAction>,
    name: Seq<char>,
    uid: Option<u32>,
    msg: Seq<char>,
)
    requires
        appeared_step(pre_m, post_m, pre_n, post_n, name, uid, Ok(msg)),
    ensures
        post_m == apply_event(
            pre_m,
            RegEvent::Appeared { id: pty_name_id(name), owner: post_m[pty_name_id(name)] },
        ),
{
}

/// A successful removed event takes the registry model exactly one
/// `apply_event` step, for the removed event with the parsed id — whether
/// or not a session was open for it.
pub proof fn lemma_removed_is_one_step(
    pre_m: Map<u32, Seq<char>>,
    post_m: Map<u32, Seq<char>>,
    pre_n: Seq<NoteAction>,
    post_n: Seq<NoteAction>,
    name: Seq<char>,
    msg: Seq<char>,
)
    requires
        removed_step(pre_m, post_m, pre_n, post_n, name, Ok(msg)),
    ensures
        post_m == apply_event(pre_m, RegEvent::Removed { id: pty_name_id(name) }),
{
    if !pre_m.contains_key(pty_name_id(name)) {
        assert(pre_m.remove(pty_name_id(name)) =~= pre_m);
    }
}

/// An event that fails to resolve commits nothing: the model is unchanged
/// by any handler error.
pub proof fn lemma_failed_event_is_no_step(
    pre_m: Map<u32, Seq<char>>,
    post_m: Map<u32, Seq<char>>,
    pre_n: Seq<NoteAction>,
    post_n: Seq<NoteAction>,
    name: Seq<char>,
    uid: Option<u32>,
    e: ErrorKind,
)
    requires
        appeared_step(pre_m, post_m, pre_n, post_n, name, uid, Err(e)) || removed_step(
            pre_m,
            post_m,
            pre_n,
            post_n,
            name,
            Err(e),
        ),
    ensures
        post_m == pre_m,
        post_n == pre_n,
{
}

/// Removal is idempotent in the registry's model: processing a removed
/// event for an id twice in a row leaves exactly the state the first
/// removal left, so the second removal falls into the unknown-id path and
/// never violates consistency.
pub proof fn lemma_removal_idempotent(m: Map<u32, Seq<char>>, id: u32)
    ensures
        apply_event(apply_event(m, RegEvent::Removed { id }), RegEvent::Removed { id })
            == apply_event(m, RegEvent::Removed { id }),
        !apply_event(m, RegEvent::Removed { id }).contains_key(id),
{
    assert(m.remove(id).remove(id) =~= m.remove(id));
}

} // verus!
