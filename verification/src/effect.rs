//! What the shell does to its window, its log and its process slot.

use vstd::prelude::*;

verus! {

/// Event that carries a status line to the loading page.
pub const BOOT_STATUS: &'static str = "boot-status";

/// Event that carries the URL of the web interface once it is served.
pub const DSH_READY: &'static str = "dsh-ready";

/// Event that carries the message of a failure.
pub const DSH_ERROR: &'static str = "dsh-error";

/// Event that asks the page to restart DSH.
pub const DSH_RESTART_REQUESTED: &'static str = "dsh-restart-requested";

/// One thing to do. Effects are carried out in the order in which they are listed.
#[derive(Debug, PartialEq, Eq)]
pub enum Effect {
    /// Send an event with a text to the page.
    Emit { event: String, payload: String },
    /// Send an event that carries nothing to the page.
    Signal { event: String },
    /// Append a message to the log file.
    Log(String),
    /// Record the URL that the running process serves.
    StoreUrl(String),
    /// Point the main window at a URL, if the text is one.
    Navigate(String),
    /// Put the process just spawned into the slot.
    KeepProcess,
    /// Empty the slot, which kills the process in it.
    DropProcess,
    /// Make the main window visible.
    ShowWindow,
    /// Give the main window the focus.
    FocusWindow,
    /// Hide the main window.
    HideWindow,
    /// Keep the window from being closed.
    PreventClose,
    /// Run a script in the page.
    Evaluate(String),
    /// Leave the application with an exit code.
    Exit(i32),
}

/// An effect with its texts as character sequences.
#[verifier::ext_equal]
pub enum EffectData {
    Emit { event: Seq<char>, payload: Seq<char> },
    Signal { event: Seq<char> },
    Log(Seq<char>),
    StoreUrl(Seq<char>),
    Navigate(Seq<char>),
    KeepProcess,
    DropProcess,
    ShowWindow,
    FocusWindow,
    HideWindow,
    PreventClose,
    Evaluate(Seq<char>),
    Exit(i32),
}

impl View for Effect {
    type V = EffectData;

    open spec fn view(&self) -> EffectData {
        match self {
            Effect::Emit { event, payload } => EffectData::Emit {
                event: event@,
                payload: payload@,
            },
            Effect::Signal { event } => EffectData::Signal { event: event@ },
            Effect::Log(message) => EffectData::Log(message@),
            Effect::StoreUrl(url) => EffectData::StoreUrl(url@),
            Effect::Navigate(url) => EffectData::Navigate(url@),
            Effect::KeepProcess => EffectData::KeepProcess,
            Effect::DropProcess => EffectData::DropProcess,
            Effect::ShowWindow => EffectData::ShowWindow,
            Effect::FocusWindow => EffectData::FocusWindow,
            Effect::HideWindow => EffectData::HideWindow,
            Effect::PreventClose => EffectData::PreventClose,
            Effect::Evaluate(script) => EffectData::Evaluate(script@),
            Effect::Exit(code) => EffectData::Exit(*code),
        }
    }
}

/// A list of effects with its texts as character sequences.
pub open spec fn listed(effects: Vec<Effect>) -> Seq<EffectData> {
    effects@.map_values(|e: Effect| e@)
}

/// The effect that shows a status line on the loading page.
pub open spec fn status_data(message: Seq<char>) -> EffectData {
    EffectData::Emit { event: BOOT_STATUS@, payload: message }
}

/// Send an event with a text to the page.
pub fn emit(event: &str, payload: &str) -> (effect: Effect)
    ensures
        effect@ == (EffectData::Emit { event: event@, payload: payload@ }),
{
    Effect::Emit { event: event.to_owned(), payload: payload.to_owned() }
}

/// Send a plain status line to the loading page.
pub fn status(message: &str) -> (effect: Effect)
    ensures
        effect@ == status_data(message@),
{
    emit(BOOT_STATUS, message)
}

/// An effect carries what its data carries, and is of the same sort.
pub proof fn law_effect_carries(effect: Effect)
    ensures
        match effect {
            Effect::Emit { event, payload } => effect@ == (EffectData::Emit {
                event: event@,
                payload: payload@,
            }),
            Effect::Signal { event } => effect@ == (EffectData::Signal { event: event@ }),
            Effect::Log(message) => effect@ == EffectData::Log(message@),
            Effect::StoreUrl(url) => effect@ == EffectData::StoreUrl(url@),
            Effect::Navigate(url) => effect@ == EffectData::Navigate(url@),
            Effect::KeepProcess => effect@ is KeepProcess,
            Effect::DropProcess => effect@ is DropProcess,
            Effect::ShowWindow => effect@ is ShowWindow,
            Effect::FocusWindow => effect@ is FocusWindow,
            Effect::HideWindow => effect@ is HideWindow,
            Effect::PreventClose => effect@ is PreventClose,
            Effect::Evaluate(script) => effect@ == EffectData::Evaluate(script@),
            Effect::Exit(code) => effect@ == EffectData::Exit(code),
        },
{
}

/// A list of effects is listed one by one, in its order.
pub proof fn law_effects_are_listed_in_order(effects: Vec<Effect>)
    ensures
        listed(effects).len() == effects@.len(),
        forall|i: int| 0 <= i < effects@.len() ==> #[trigger] listed(effects)[i] == effects@[i]@,
{
}

/// Whatever the status line, the page gets it as it is, under one event.
pub proof fn law_status_line_is_shown(message: Seq<char>)
    ensures
        status_data(message) == (EffectData::Emit { event: "boot-status"@, payload: message }),
{
}

} // verus!
