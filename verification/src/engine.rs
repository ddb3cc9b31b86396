use vstd::prelude::*;
use vstd::string::*;
use crate::countdown::Countdown;
use crate::duration::{duration_ticks, spec_duration_ticks};
use crate::effects::{Notifier, SoundPlayer};
use crate::mode::Mode;
use crate::policy::{run_succeeds, ActionOutcome, OnFailure};
use crate::session::{now_rfc3339, Session};
use crate::store::{SessionStore, StoreError};

verus! {

/// Why a session could not start.
#[derive(Debug)]
pub enum InputError {
    /// The requested duration is not a positive decimal number of minutes
    /// the timer accepts.
    InvalidDuration,
}

impl InputError {
    /// The message reported for this input error.
    pub fn describe(&self) -> (r: &'static str)
        ensures
            r@ == "invalid duration: expected a positive number of minutes"@,
    {
        "invalid duration: expected a positive number of minutes"
    }
}

/// Start a session: validate the requested duration, take the start
/// timestamp, and set up the countdown.  Rejected input fails fast, before
/// any side effect; accepted input yields a countdown of exactly the
/// duration's tick count and a well-formed session record.
pub fn start_session(mode: Mode, minutes_text: String) -> (r: Result<
    (Session, Countdown),
    InputError,
>)
    ensures
        r is Ok <==> spec_duration_ticks(minutes_text@) is Some,
        r is Ok ==> {
            &&& r->Ok_0.1.wf()
            &&& r->Ok_0.1.total == spec_duration_ticks(minutes_text@)->Some_0
            &&& r->Ok_0.1.elapsed == 0
            &&& r->Ok_0.0.wf()
            &&& r->Ok_0.0.minutes_text@ == minutes_text@
            &&& r->Ok_0.0.mode == mode
        },
{
    let ticks = match duration_ticks(minutes_text.as_str()) {
        Some(t) => t,
        None => {
            return Err(InputError::InvalidDuration);
        },
    };
    let start_iso = now_rfc3339();
    let session = Session { start_iso, minutes_text, mode };
    let countdown = Countdown::new(ticks);
    Ok((session, countdown))
}

/// The recorded outcomes of one completion pipeline run, in the fixed order
/// the actions were attempted: notify, then sound, then persist.
pub struct CompletionReport {
    pub notify: Result<(), String>,
    pub sound: Result<(), String>,
    pub persist: Result<(), StoreError>,
}

fn clone_effect_outcome(r: &Result<(), String>) -> (c: Result<(), String>)
    ensures
        c is Ok <==> r is Ok,
{
    match r {
        Ok(()) => Ok(()),
        Err(detail) => Err(detail.clone()),
    }
}

impl CompletionReport {
    /// The run succeeded exactly when the session was durably recorded.
    pub open spec fn spec_success(self) -> bool {
        self.persist is Ok
    }

    /// The report as the engine's ordered policy table: the two best-effort
    /// actions carry `Continue`, persistence carries `Abort`.
    pub fn outcomes(&self) -> (r: Vec<ActionOutcome>)
        ensures
            r@.len() == 3,
            r@[0].on_failure is Continue && (r@[0].succeeded() <==> self.notify is Ok),
            r@[1].on_failure is Continue && (r@[1].succeeded() <==> self.sound is Ok),
            r@[2].on_failure is Abort && (r@[2].succeeded() <==> self.persist is Ok),
    {
        let persist: Result<(), String> = match &self.persist {
            Ok(()) => Ok(()),
            Err(e) => Err(e.detail()),
        };
        let mut table: Vec<ActionOutcome> = Vec::new();
        table.push(
            ActionOutcome {
                on_failure: OnFailure::Continue,
                result: clone_effect_outcome(&self.notify),
            },
        );
        table.push(
            ActionOutcome {
                on_failure: OnFailure::Continue,
                result: clone_effect_outcome(&self.sound),
            },
        );
        table.push(ActionOutcome { on_failure: OnFailure::Abort, result: persist });
        table
    }

    /// Evaluate the failure policy uniformly over the report: the run
    /// counts as a success exactly when persistence succeeded, whatever the
    /// best-effort actions did.
    pub fn is_success(&self) -> (r: bool)
        ensures
            r == self.spec_success(),
    {
        let table = self.outcomes();
        let succeeded = run_succeeds(&table);
        proof {
            if self.persist is Ok {
                assert forall|i: int| 0 <= i < table@.len() implies !table@[i].fatal_failure() by {
                    if i != 2 {
                        assert(table@[i].on_failure is Continue);
                    }
                }
            } else {
                assert(table@[2].fatal_failure());
            }
        }
        succeeded
    }

    /// Process status for a finished run: zero exactly when the session was
    /// durably recorded; notifier or sound failures never change it.
    pub fn exit_code(&self) -> (r: i32)
        ensures
            r == 0 <==> self.spec_success(),
    {
        if self.is_success() {
            0
        } else {
            1
        }
    }

    /// The run's failure notice: nothing when the run succeeded, otherwise a
    /// message that names persistence as the cause and carries the store's
    /// own detail.
    pub fn failure_notice(&self) -> (r: Option<String>)
        ensures
            r is None <==> self.spec_success(),
            !self.spec_success() ==> r->Some_0@ == "the completed session could not be recorded: "@
                + self.persist->Err_0.spec_detail(),
    {
        match &self.persist {
            Ok(()) => None,
            Err(e) => {
                let mut msg = String::from_str("the completed session could not be recorded: ");
                let detail = e.detail();
                msg.append(detail.as_str());
                Some(msg)
            },
        }
    }
}

/// Notifier and sound failures are isolated: two completed runs that agree
/// on the persistence outcome succeed or fail together, whatever their
/// best-effort actions did.
pub proof fn lemma_best_effort_cannot_fail_run(a: CompletionReport, b: CompletionReport)
    requires
        a.persist is Ok <==> b.persist is Ok,
    ensures
        a.spec_success() == b.spec_success(),
{
}

/// For every accepted duration, a completed countdown started from it has
/// handed the progress reporter exactly the duration's tick count —
/// `minutes * 60`, rounded — as ticks 1, 2, ..., strictly increasing, with
/// no duplicates and no gaps.
pub proof fn lemma_accepted_duration_delivery(text: Seq<char>, c: Countdown)
    requires
        spec_duration_ticks(text) is Some,
        c.wf(),
        c.total == spec_duration_ticks(text)->Some_0,
        c.spec_is_complete(),
    ensures
        c.delivered().len() == spec_duration_ticks(text)->Some_0,
        forall|i: int| 0 <= i < c.delivered().len() ==> c.delivered()[i] == i + 1,
        forall|i: int, j: int|
            0 <= i < j < c.delivered().len() ==> c.delivered()[i] < c.delivered()[j],
{
    crate::countdown::lemma_complete_countdown_delivery(c);
}

/// Run the completion pipeline for a finished countdown: fire the
/// notification, play the audio cue, then append the session to the durable
/// store — in that fixed order, each action attempted whatever the earlier
/// ones did.  The store is only ever touched here, after the countdown has
/// consumed its final tick.
pub fn complete_session<N: Notifier, P: SoundPlayer>(
    notifier: &mut N,
    player: &mut P,
    store: &SessionStore,
    session: &Session,
    countdown: &Countdown,
    asset: &[u8],
) -> (r: CompletionReport)
    requires
        countdown.wf(),
        countdown.spec_is_complete(),
        session.wf(),
    ensures
        r.persist is Err ==> r.persist->Err_0 is Append,
{
    let body = session.mode.completion_body();
    let notify = notifier.notify("Timer up!", body.as_str());
    let sound = player.play(asset);
    let persist = store.append(session);
    CompletionReport { notify, sound, persist }
}

} // verus!
