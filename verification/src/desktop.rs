//! The desktop notification collaborator, at its interface boundary:
//! create-and-show, and the three mutating operations on a live handle.
//! Every call into notify_rust goes through the trusted wrappers here.
use vstd::prelude::*;

verus! {

#[verifier::external_type_specification]
#[verifier::external_body]
pub struct ExNotificationHandle(notify_rust::NotificationHandle);

#[verifier::external_type_specification]
#[verifier::external_body]
pub struct ExNotifyError(notify_rust::error::Error);

/// Relies on notify_rust's create-and-show chain
/// `Notification::new().appname(..).summary(..).body(..).show()`: builds a
/// notification with the given texts and asks the desktop to display it,
/// returning the handle to the live notification, or the transport's error.
/// Whether it succeeds depends on the desktop environment, so nothing is
/// promised of the outcome.
#[verifier::external_body]
pub(crate) fn show_notification(appname: &str, summary: &str, body: &str) -> (r: Result<
    notify_rust::NotificationHandle,
    notify_rust::error::Error,
>) {
    notify_rust::Notification::new().appname(appname).summary(summary).body(body).show()
}

/// Relies on notify_rust::Notification::summary, reached through the
/// handle's `DerefMut`: overwrites the summary text of the notification the
/// handle owns, in place.
#[verifier::external_body]
pub(crate) fn note_set_summary(handle: &mut notify_rust::NotificationHandle, summary: &str) {
    handle.summary(summary);
}

/// Relies on notify_rust::Notification::body, reached through the handle's
/// `DerefMut`: overwrites the body text of the notification the handle
/// owns, in place.
#[verifier::external_body]
pub(crate) fn note_set_body(handle: &mut notify_rust::NotificationHandle, body: &str) {
    handle.body(body);
}

/// Relies on notify_rust::NotificationHandle::update: asks the desktop to
/// refresh the displayed notification with the handle's current content,
/// replacing it on screen rather than adding a new one.
#[verifier::external_body]
pub(crate) fn note_update(handle: &mut notify_rust::NotificationHandle) -> (r: Result<
    (),
    notify_rust::error::Error,
>) {
    handle.update()
}

} // verus!
