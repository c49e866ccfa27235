//! The lifecycle controller: translates user intents — open, hide,
//! quit-with-confirmation — into directives for the shell, and enforces the
//! one piece of real control flow in the system: a quit only proceeds after
//! the human confirms it.
//!
//! The shell emits intents from its tray menu and window events, carries out
//! each directive (showing or hiding the window, presenting the confirmation
//! dialog), and feeds the human's answer back into [`on_confirmation`],
//! which alone decides whether the worker is stopped and the application
//! exits.

use crate::supervisor::occupant;
use crate::supervisor::ProcessId;
use crate::supervisor::SlotState;
use crate::supervisor::Supervisor;
use vstd::prelude::*;

verus! {

/// A discrete user-triggered lifecycle request, consumed immediately.
#[derive(Clone, Copy, PartialEq, Eq, Structural, Debug)]
pub enum Intent {
    /// Bring the main window to the front.
    Open,
    /// Hide the main window; the tray and the worker keep running.
    Hide,
    /// Ask to quit the application.
    Quit,
}

/// What the quit confirmation dialog must present: a binary choice with
/// this title and message.
#[derive(Clone, PartialEq, Eq, Debug)]
pub struct ConfirmationRequest {
    pub title: String,
    pub body: String,
}

/// What the shell must do in response to an intent.
#[derive(Clone, PartialEq, Eq, Debug)]
pub enum Directive {
    /// Make the main window visible and give it input focus.
    ShowWindow,
    /// Hide the main window without destroying it.
    HideWindow,
    /// Present the quit confirmation and resume via [`on_confirmation`]
    /// when the human answers.
    Confirm(ConfirmationRequest),
}

/// How the shell must answer a window-close request.
#[derive(Clone, Copy, PartialEq, Eq, Structural, Debug)]
pub struct CloseResponse {
    /// Hide the window.
    pub hide_window: bool,
    /// Veto the close itself, so the window is never destroyed.
    pub prevent_close: bool,
}

/// What a confirmed quit obliges the shell to do.
#[derive(Clone, Copy, PartialEq, Eq, Structural, Debug)]
pub struct ShutdownPlan {
    /// The worker the shell must now kill and reap, if one was tracked.
    pub reap: Option<ProcessId>,
    /// The status the application process must exit with.
    pub exit_code: i32,
}

/// Title of the quit confirmation.
pub open spec fn quit_title() -> Seq<char> {
    "Quit Stasis?"@
}

/// Message of the quit confirmation, describing the consequence.
pub open spec fn quit_body() -> Seq<char> {
    "Quitting Stasis will immediately stop all activity tracking and digital wellbeing monitoring.\n\nAre you sure you want to exit?"@
}

/// Maps a tray menu action identifier to the intent it stands for; an
/// unknown identifier means nothing and is ignored.
pub open spec fn intent_of_id(id: Seq<char>) -> Option<Intent> {
    if id == "open"@ {
        Some(Intent::Open)
    } else if id == "close"@ {
        Some(Intent::Hide)
    } else if id == "quit"@ {
        Some(Intent::Quit)
    } else {
        None
    }
}

/// Translates the identifier of a clicked tray menu item into an intent.
pub fn intent_of_menu_id(id: &str) -> (r: Option<Intent>)
    ensures
        r == intent_of_id(id@),
{
    let owned: String = id.to_owned();
    if owned == String::from_str("open") {
        Some(Intent::Open)
    } else if owned == String::from_str("close") {
        Some(Intent::Hide)
    } else if owned == String::from_str("quit") {
        Some(Intent::Quit)
    } else {
        None
    }
}

/// Translates an intent into the shell's next action. Only a quit touches
/// the confirmation gate; open and hide never involve the supervisor.
pub fn on_intent(intent: Intent) -> (r: Directive)
    ensures
        intent is Open ==> r == Directive::ShowWindow,
        intent is Hide ==> r == Directive::HideWindow,
        intent is Quit ==> (r matches Directive::Confirm(req) && req.title@ == quit_title()
            && req.body@ == quit_body()),
{
    match intent {
        Intent::Open => Directive::ShowWindow,
        Intent::Hide => Directive::HideWindow,
        Intent::Quit => {
            let title = String::from_str("Quit Stasis?");
            let body = String::from_str(
                "Quitting Stasis will immediately stop all activity tracking and digital wellbeing monitoring.\n\nAre you sure you want to exit?",
            );
            Directive::Confirm(ConfirmationRequest { title, body })
        },
    }
}

/// The supervisor's slot after the human answers the quit confirmation: an
/// affirmative answer stops the worker, a negative one changes nothing.
pub open spec fn slot_after_confirmation(s: SlotState, confirmed: bool) -> SlotState {
    if confirmed {
        crate::supervisor::slot_after_stop(s)
    } else {
        s
    }
}

/// The continuation of a quit intent, run when the human answers the
/// confirmation. A negative or dismissed answer changes nothing and the
/// application keeps running. An affirmative answer empties the supervisor's
/// slot — one stop, the worker it tracked handed back for the shell to
/// reap — and obliges the shell to exit the application with status 0.
pub fn on_confirmation(supervisor: &mut Supervisor, confirmed: bool) -> (r: Option<ShutdownPlan>)
    ensures
        final(supervisor)@ == slot_after_confirmation(old(supervisor)@, confirmed),
        !confirmed ==> r is None,
        confirmed ==> r == Some(
            ShutdownPlan { reap: occupant(old(supervisor)@), exit_code: 0 },
        ),
{
    if confirmed {
        let reap = supervisor.stop();
        Some(ShutdownPlan { reap, exit_code: 0 })
    } else {
        None
    }
}

/// The response to the window's close affordance: the window is hidden,
/// never destroyed — the worker and the tray keep running, the supervisor is
/// not involved and the application does not exit.
pub fn on_close_requested() -> (r: CloseResponse)
    ensures
        r == (CloseResponse { hide_window: true, prevent_close: true }),
{
    CloseResponse { hide_window: true, prevent_close: true }
}

/// Quit confirmation gating: a negative answer leaves any slot exactly as
/// it was — the worker is not stopped — while an affirmative answer always
/// leaves it empty.
pub proof fn lemma_confirmation_gating(s: SlotState)
    ensures
        slot_after_confirmation(s, false) == s,
        slot_after_confirmation(s, true) is Empty,
{
}

} // verus!
