use vstd::prelude::*;

verus! {

/// The completion-alert capability: fire a user-visible notification.  The
/// engine tolerates its failure, so implementations promise nothing; `Err`
/// carries a description of what went wrong.
pub trait Notifier {
    fn notify(&mut self, summary: &str, body: &str) -> Result<(), String>;
}

/// The audio-cue capability: play an opaque encoded audio asset through to
/// its end.  The engine tolerates its failure; `Err` carries a description.
pub trait SoundPlayer {
    fn play(&mut self, asset: &[u8]) -> Result<(), String>;
}

/// The notifier the real tool runs with: the desktop notification service.
pub struct DesktopNotifier;

/// Relies on notify_rust's `Notification::show`, with `summary` and `body`
/// set, to display the desktop alert.
#[verifier::external_body]
fn show_desktop_notification(summary: &str, body: &str) -> (r: Result<(), String>) {
    let outcome = notify_rust::Notification::new().summary(summary).body(body).show();
    match outcome {
        Ok(_) => Ok(()),
        Err(e) => Err(e.to_string()),
    }
}

impl Notifier for DesktopNotifier {
    fn notify(&mut self, summary: &str, body: &str) -> Result<(), String> {
        show_desktop_notification(summary, body)
    }
}

} // verus!
