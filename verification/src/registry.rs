//! The session registry: the mapping from pseudo-terminal id to open
//! session, and the event handlers that drive it.
//!
//! The registry is generic in the notification handle it stores, so the
//! state machine itself is independent of the desktop transport; the
//! handlers that actually create and mutate desktop notifications are
//! provided for registries over `notify_rust::NotificationHandle`.
use vstd::prelude::*;

use std::collections::HashMap;

use crate::desktop::note_set_body;
use crate::desktop::note_set_summary;
use crate::desktop::note_update;
use crate::desktop::show_notification;
use crate::errors::ErrorKind;
use crate::identity::find_user;
use crate::identity::user_display_name;
use crate::messages::close_message;
use crate::messages::close_msg;
use crate::messages::close_unknown_message;
use crate::messages::close_unknown_msg;
use crate::messages::open_message;
use crate::messages::open_msg;
use crate::numbers::dec_val;
use crate::numbers::is_dec_string;
use crate::numbers::parse_pty_id;

verus! {

broadcast use vstd::std_specs::hash::group_hash_axioms;

/// The kind of a directory change, as the registry distinguishes them: a
/// direct child entry appeared, one was removed, or anything else (which the
/// registry ignores).
#[derive(Clone, Copy, Debug, PartialEq, Eq, Structural)]
pub enum ChangeKind {
    Appeared,
    Removed,
    Other,
}

/// One notification action the registry has driven, in the registry's
/// mathematical model: `Shown` records a freshly created and displayed
/// notification, `Updated` an in-place mutation (summary and body rewritten,
/// display refreshed) of the one notification shown earlier for the same id.
pub enum NoteAction {
    Shown { id: u32, summary: Seq<char>, body: Seq<char> },
    Updated { id: u32, summary: Seq<char>, body: Seq<char> },
}

/// One currently-open pseudo-terminal: its id, its owner's display name, and
/// the live notification handle the session owns for its whole lifetime.
pub struct Session<H> {
    pub id: u32,
    pub owner: String,
    pub note: H,
}

/// The id-to-session mapping. A key is present exactly while the
/// corresponding pseudo-terminal is believed open: inserted by a
/// successfully resolved appeared event, removed by the matching removed
/// event.
#[verifier::reject_recursive_types(H)]
pub struct Registry<H> {
    sessions: HashMap<u32, Session<H>>,
    trace: Ghost<Seq<NoteAction>>,
}

/// A name is acceptable as a pseudo-terminal id: all decimal digits, with a
/// value that fits in a `u32`.
pub open spec fn pty_name_ok(name: Seq<char>) -> bool {
    is_dec_string(name) && dec_val(name) <= u32::MAX
}

/// The id an acceptable name denotes.
pub open spec fn pty_name_id(name: Seq<char>) -> u32 {
    dec_val(name) as u32
}

/// The notification action that accompanies opening a session.
pub open spec fn opened_note(id: u32, owner: Seq<char>) -> NoteAction {
    NoteAction::Shown { id, summary: "PTY Opened"@, body: open_msg(id, owner) }
}

/// The notification action that accompanies closing a remembered session.
pub open spec fn closed_note(id: u32, owner: Seq<char>) -> NoteAction {
    NoteAction::Updated { id, summary: "PTY Closed"@, body: close_msg(id, owner) }
}

/// What one appeared event does: relates registry model and notification
/// trace before and after, the entry name, the metadata-read result, and
/// the handler's outcome. On success the owner in the new session is
/// whatever display name the identity lookup returned, so it is pinned only
/// through the final state.
pub open spec fn appeared_step(
    pre_m: Map<u32, Seq<char>>,
    post_m: Map<u32, Seq<char>>,
    pre_n: Seq<NoteAction>,
    post_n: Seq<NoteAction>,
    name: Seq<char>,
    uid: Option<u32>,
    r: Result<Seq<char>, ErrorKind>,
) -> bool {
    match r {
        Ok(msg) => {
            &&& pty_name_ok(name)
            &&& uid is Some
            &&& post_m.contains_key(pty_name_id(name))
            &&& post_m == pre_m.insert(pty_name_id(name), post_m[pty_name_id(name)])
            &&& msg == open_msg(pty_name_id(name), post_m[pty_name_id(name)])
            &&& post_n == pre_n.push(opened_note(pty_name_id(name), post_m[pty_name_id(name)]))
        },
        Err(e) => {
            &&& post_m == pre_m
            &&& post_n == pre_n
            &&& (e == ErrorKind::IdParseFailure <==> !pty_name_ok(name))
            &&& (e == ErrorKind::MetadataFailure <==> pty_name_ok(name) && uid is None)
            &&& (e == ErrorKind::IdentityLookupFailure || e == ErrorKind::NotificationFailure
                ==> pty_name_ok(name) && uid is Some)
            &&& (e == ErrorKind::IdParseFailure || e == ErrorKind::MetadataFailure || e
                == ErrorKind::IdentityLookupFailure || e == ErrorKind::NotificationFailure)
        },
    }
}

/// What one removed event does: an id that is open loses its session and
/// gets its notification mutated; an unknown id changes nothing and yields
/// the owner-less line; a name that is no id is the one error.
pub open spec fn removed_step(
    pre_m: Map<u32, Seq<char>>,
    post_m: Map<u32, Seq<char>>,
    pre_n: Seq<NoteAction>,
    post_n: Seq<NoteAction>,
    name: Seq<char>,
    r: Result<Seq<char>, ErrorKind>,
) -> bool {
    match r {
        Ok(msg) => {
            &&& pty_name_ok(name)
            &&& (pre_m.contains_key(pty_name_id(name)) ==> {
                &&& msg == close_msg(pty_name_id(name), pre_m[pty_name_id(name)])
                &&& post_m == pre_m.remove(pty_name_id(name))
                &&& post_n == pre_n.push(
                    closed_note(pty_name_id(name), pre_m[pty_name_id(name)]),
                )
            })
            &&& (!pre_m.contains_key(pty_name_id(name)) ==> {
                &&& msg == close_unknown_msg(pty_name_id(name))
                &&& post_m == pre_m
                &&& post_n == pre_n
            })
        },
        Err(e) => {
            &&& e == ErrorKind::IdParseFailure
            &&& !pty_name_ok(name)
            &&& post_m == pre_m
            &&& post_n == pre_n
        },
    }
}

impl<H> View for Registry<H> {
    type V = Map<u32, Seq<char>>;

    /// The registry's model: which ids are open, and the owner name
    /// remembered for each.
    closed spec fn view(&self) -> Map<u32, Seq<char>> {
        self.sessions@.map_values(|s: Session<H>| s.owner@)
    }
}

impl<H> Registry<H> {
    /// Every session is filed under its own id.
    pub closed spec fn wf(&self) -> bool {
        forall|k: u32| #[trigger]
            self.sessions@.contains_key(k) ==> self.sessions@[k].id == k
    }

    /// The sequence of notification actions the registry has driven so far,
    /// oldest first.
    pub closed spec fn notes(&self) -> Seq<NoteAction> {
        self.trace@
    }

    /// The session filed under `id` (meaningful while `self@` has the key):
    /// the whole record, notification handle included.
    pub closed spec fn spec_session(&self, id: u32) -> Session<H> {
        self.sessions@[id]
    }

    /// An empty registry: no terminal is believed open, no notification has
    /// been driven.
    pub fn new() -> (r: Registry<H>)
        ensures
            r.wf(),
            r@ == Map::<u32, Seq<char>>::empty(),
            r.notes() == Seq::<NoteAction>::empty(),
    {
        let r = Registry { sessions: HashMap::new(), trace: Ghost(Seq::empty()) };
        proof {
            assert(r@ =~= Map::<u32, Seq<char>>::empty());
        }
        r
    }

    /// How many terminals are currently believed open.
    pub fn len(&self) -> (r: usize)
        ensures
            r == self@.len(),
    {
        proof {
            assert(self@.dom() =~= self.sessions@.dom());
        }
        self.sessions.len()
    }

    /// Whether a session for `id` is currently open.
    pub fn contains(&self, id: u32) -> (r: bool)
        ensures
            r == self@.contains_key(id),
    {
        self.sessions.contains_key(&id)
    }

    /// The owner name remembered for `id`, if a session for it is open.
    pub fn owner_of(&self, id: u32) -> (r: Option<String>)
        ensures
            match r {
                Some(owner) => self@.contains_key(id) && owner@ == self@[id],
                None => !self@.contains_key(id),
            },
    {
        match self.sessions.get(&id) {
            Some(s) => Some(s.owner.clone()),
            None => None,
        }
    }

    /// Files a freshly opened session under its id. An id already open is
    /// overwritten, owner and handle replaced.
    pub fn insert_open(&mut self, id: u32, owner: String, note: H)
        requires
            old(self).wf(),
        ensures
            final(self).wf(),
            final(self)@ == old(self)@.insert(id, owner@),
            final(self).notes() == old(self).notes(),
            final(self).spec_session(id) == (Session { id, owner, note }),
            forall|k: u32| k != id && old(self)@.contains_key(k)
                ==> final(self).spec_session(k) == old(self).spec_session(k),
    {
        let ghost o = owner@;
        let session = Session { id, owner, note };
        self.sessions.insert(id, session);
        proof {
            assert(self@ =~= old(self)@.insert(id, o));
        }
    }

    /// Takes the session for `id` out of the registry, if one is open; the
    /// caller receives the remembered owner and the session's notification
    /// handle.
    pub fn take_session(&mut self, id: u32) -> (r: Option<Session<H>>)
        requires
            old(self).wf(),
        ensures
            final(self).wf(),
            final(self).notes() == old(self).notes(),
            match r {
                Some(s) => {
                    &&& old(self)@.contains_key(id)
                    &&& s == old(self).spec_session(id)
                    &&& s.id == id
                    &&& s.owner@ == old(self)@[id]
                    &&& final(self)@ == old(self)@.remove(id)
                    &&& forall|k: u32| k != id && old(self)@.contains_key(k)
                        ==> final(self).spec_session(k) == old(self).spec_session(k)
                },
                None => {
                    &&& !old(self)@.contains_key(id)
                    &&& final(self)@ == old(self)@
                },
            },
    {
        let r = self.sessions.remove(&id);
        proof {
            if r is Some {
                assert(self@ =~= old(self)@.remove(id));
            } else {
                assert(self@ =~= old(self)@);
            }
        }
        r
    }
}

impl Registry<notify_rust::NotificationHandle> {
    /// Opens a session for `id` with the already-resolved owner name:
    /// creates and shows the one notification the session will own, then
    /// files the session. On a notification failure nothing is committed and
    /// `ErrorKind::NotificationFailure` is returned; otherwise the returned
    /// line reports the opened terminal and its owner.
    pub fn open_session(&mut self, id: u32, owner: &str) -> (r: Result<String, ErrorKind>)
        requires
            old(self).wf(),
        ensures
            final(self).wf(),
            match r {
                Ok(msg) => {
                    &&& msg@ == open_msg(id, owner@)
                    &&& final(self)@ == old(self)@.insert(id, owner@)
                    &&& final(self).notes() == old(self).notes().push(opened_note(id, owner@))
                },
                Err(e) => {
                    &&& e == ErrorKind::NotificationFailure
                    &&& final(self)@ == old(self)@
                    &&& final(self).notes() == old(self).notes()
                },
            },
    {
        let msg = open_message(id, owner);
        match show_notification("PTY Notify", "PTY Opened", msg.as_str()) {
            Ok(handle) => {
                self.insert_open(id, String::from_str(owner), handle);
                self.trace = Ghost(self.trace@.push(opened_note(id, owner@)));
                Ok(msg)
            },
            Err(_) => Err(ErrorKind::NotificationFailure),
        }
    }

    /// Closes the session for `id`. If one is open, it is taken out and its
    /// own notification is mutated in place — summary and body rewritten to
    /// report the close, display refreshed — and the returned line names the
    /// remembered owner. If none is open, no notification is touched and the
    /// returned line reports the close without an owner.
    pub fn close_session(&mut self, id: u32) -> (r: String)
        requires
            old(self).wf(),
        ensures
            final(self).wf(),
            old(self)@.contains_key(id) ==> {
                &&& r@ == close_msg(id, old(self)@[id])
                &&& final(self)@ == old(self)@.remove(id)
                &&& final(self).notes() == old(self).notes().push(
                    closed_note(id, old(self)@[id]),
                )
            },
            !old(self)@.contains_key(id) ==> {
                &&& r@ == close_unknown_msg(id)
                &&& final(self)@ == old(self)@
                &&& final(self).notes() == old(self).notes()
            },
    {
        match self.take_session(id) {
            Some(mut session) => {
                let msg = close_message(id, session.owner.as_str());
                note_set_summary(&mut session.note, "PTY Closed");
                note_set_body(&mut session.note, msg.as_str());
                let _ = note_update(&mut session.note);
                self.trace = Ghost(self.trace@.push(closed_note(id, old(self)@[id])));
                msg
            },
            None => close_unknown_message(id),
        }
    }

    /// Handles an appeared event: resolves the entry name to an id, the
    /// metadata-read result to an owning user, and the user to a display
    /// name, then opens the session. Each resolution step that fails aborts
    /// the event with its own error kind and commits nothing.
    ///
    /// `uid` is the numeric owning-user id read from the entry's metadata,
    /// or `None` when that read failed.
    pub fn process_appeared(&mut self, name: &str, uid: Option<u32>) -> (r: Result<
        String,
        ErrorKind,
    >)
        requires
            old(self).wf(),
        ensures
            final(self).wf(),
            appeared_step(
                old(self)@,
                final(self)@,
                old(self).notes(),
                final(self).notes(),
                name@,
                uid,
                match r {
                    Ok(msg) => Ok(msg@),
                    Err(e) => Err(e),
                },
            ),
    {
        let id = match parse_pty_id(name) {
            Some(id) => id,
            None => {
                return Err(ErrorKind::IdParseFailure);
            },
        };
        let uid = match uid {
            Some(uid) => uid,
            None => {
                return Err(ErrorKind::MetadataFailure);
            },
        };
        let user = match find_user(uid) {
            Some(user) => user,
            None => {
                return Err(ErrorKind::IdentityLookupFailure);
            },
        };
        let owner = user_display_name(&user);
        self.open_session(id, owner.as_str())
    }

    /// Handles a removed event: resolves the entry name to an id and closes
    /// its session. A name that is no id aborts the event with
    /// `ErrorKind::IdParseFailure`; an id with no open session is not an
    /// error and yields the owner-less line.
    pub fn process_removed(&mut self, name: &str) -> (r: Result<String, ErrorKind>)
        requires
            old(self).wf(),
        ensures
            final(self).wf(),
            removed_step(
                old(self)@,
                final(self)@,
                old(self).notes(),
                final(self).notes(),
                name@,
                match r {
                    Ok(msg) => Ok(msg@),
                    Err(e) => Err(e),
                },
            ),
    {
        match parse_pty_id(name) {
            Some(id) => Ok(self.close_session(id)),
            None => Err(ErrorKind::IdParseFailure),
        }
    }

    /// Dispatches one directory change by kind: appeared and removed events
    /// go to their handlers (whose line, if any, is returned for logging);
    /// every other kind is a no-op.
    pub fn handle_event(&mut self, kind: ChangeKind, name: &str, uid: Option<u32>) -> (r: Result<
        Option<String>,
        ErrorKind,
    >)
        requires
            old(self).wf(),
        ensures
            final(self).wf(),
            match kind {
                ChangeKind::Appeared => match r {
                    Ok(line) => line is Some && appeared_step(
                        old(self)@,
                        final(self)@,
                        old(self).notes(),
                        final(self).notes(),
                        name@,
                        uid,
                        Ok(line->0@),
                    ),
                    Err(e) => appeared_step(
                        old(self)@,
                        final(self)@,
                        old(self).notes(),
                        final(self).notes(),
                        name@,
                        uid,
                        Err(e),
                    ),
                },
                ChangeKind::Removed => match r {
                    Ok(line) => line is Some && removed_step(
                        old(self)@,
                        final(self)@,
                        old(self).notes(),
                        final(self).notes(),
                        name@,
                        Ok(line->0@),
                    ),
                    Err(e) => removed_step(
                        old(self)@,
                        final(self)@,
                        old(self).notes(),
                        final(self).notes(),
                        name@,
                        Err(e),
                    ),
                },
                ChangeKind::Other => {
                    &&& r == Ok::<Option<String>, ErrorKind>(None)
                    &&& final(self)@ == old(self)@
                    &&& final(self).notes() == old(self).notes()
                },
            },
    {
        match kind {
            ChangeKind::Appeared => match self.process_appeared(name, uid) {
                Ok(msg) => Ok(Some(msg)),
                Err(e) => Err(e),
            },
            ChangeKind::Removed => match self.process_removed(name) {
                Ok(msg) => Ok(Some(msg)),
                Err(e) => Err(e),
            },
            ChangeKind::Other => Ok(None),
        }
    }
}

} // verus!
