mod desktop;
mod errors;
mod identity;
mod laws;
mod messages;
mod numbers;
mod registry;

pub use errors::ErrorKind;
pub use laws::RegEvent;
pub use laws::apply_event;
pub use laws::apply_events;
pub use laws::event_closes;
pub use laws::event_opens;
pub use laws::lemma_appeared_is_one_step;
pub use laws::lemma_failed_event_is_no_step;
pub use laws::lemma_registry_tracks_events;
pub use laws::lemma_removed_is_one_step;
pub use laws::lemma_removal_idempotent;
pub use laws::open_after;
pub use messages::close_message;
pub use messages::close_msg;
pub use messages::close_unknown_message;
pub use messages::close_unknown_msg;
pub use messages::open_message;
pub use messages::open_msg;
pub use numbers::dec_str;
pub use numbers::dec_val;
pub use numbers::is_dec_string;
pub use numbers::lemma_dec_str_round_trip;
pub use numbers::parse_pty_id;
pub use numbers::u32_to_string;
pub use registry::ChangeKind;
pub use registry::NoteAction;
pub use registry::Registry;
pub use registry::Session;
pub use registry::appeared_step;
pub use registry::closed_note;
pub use registry::opened_note;
pub use registry::pty_name_id;
pub use registry::pty_name_ok;
pub use registry::removed_step;
