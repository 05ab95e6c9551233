//! The status channel: what one inbound message does to the launcher's state.
//!
//! The worker pushes one JSON text per status event. Receiving is left to the
//! caller, which hands each outcome of a receive to [`on_receive`] and then
//! carries out the effects that come back, before it receives again.
use vstd::prelude::*;
use vstd::string::*;
use crate::state::AppState;
use crate::state::ZanshinStatus;

verus! {

/// Seconds between the worker's start message and the moment the window is
/// hidden and the web UI opened.
pub const REVEAL_DELAY_SECS: u64 = 5;

/// The string that the JSON document `text` holds under `key` at its top
/// level; `None` where `text` is no JSON document, is no object, lacks the
/// key, or holds something other than a string under it.
pub uninterp spec fn json_string_field(text: Seq<char>, key: Seq<char>) -> Option<Seq<char>>;

/// Parses `text` with `serde_json::from_str` into a `serde_json::Value`, looks
/// `key` up with `Value::get` and reads the entry with `Value::as_str`.
/// Trusted: the result is the named field of the document, a function of the
/// two texts alone.
#[verifier::external_body]
fn read_string_field(text: &str, key: &str) -> (field: Option<String>)
    ensures
        field.is_some() == json_string_field(text@, key@).is_some(),
        field matches Some(s) ==> json_string_field(text@, key@) == Some(s@),
{
    match serde_json::from_str::<serde_json::Value>(text) {
        Ok(document) => match document.get(key) {
            Some(entry) => match entry.as_str() {
                Some(s) => Some(s.to_string()),
                None => None,
            },
            None => None,
        },
        Err(_) => None,
    }
}

/// What the caller has to do after a message was handled.
pub struct StatusEffects {
    /// The support directory in which the first-run marker is to be created.
    pub create_marker_in: Option<String>,
    /// After how many seconds the window is hidden and the web UI opened.
    pub reveal_ui_after: Option<u64>,
}

/// What one call of receive gave.
pub enum Inbound {
    /// A text message.
    Text(String),
    /// A message that is not valid text.
    NotText,
    /// The receive call itself failed.
    Failed,
}

/// Whether the listener goes on to receive.
#[derive(Debug, Clone, Copy, PartialEq, Eq, Structural)]
pub enum ListenerPhase {
    Receiving,
    Stopped,
}

/// The status that a status text stands for.
pub open spec fn status_of(text: Seq<char>) -> ZanshinStatus {
    if text == "started app"@ {
        ZanshinStatus::RUNNING
    } else if text == "processor warmed up"@ {
        ZanshinStatus::PROCESSOR_WARMED_UP
    } else {
        ZanshinStatus::UNKNOWN
    }
}

/// Where the marker is to be created when `text` arrives in state `pre`.
pub open spec fn marker_dir<P>(pre: AppState<P>, text: Seq<char>) -> Option<String> {
    if text == "started app"@ && pre.first_run == Some(true) {
        pre.app_support
    } else {
        None
    }
}

/// The delay before the UI is revealed when `text` arrives.
pub open spec fn reveal_delay(text: Seq<char>) -> Option<u64> {
    if text == "started app"@ {
        Some(REVEAL_DELAY_SECS)
    } else {
        None
    }
}

/// A status text takes `pre` to `post` with `effects`.
pub open spec fn status_applied<P>(
    pre: AppState<P>,
    post: AppState<P>,
    effects: StatusEffects,
    text: Seq<char>,
) -> bool {
    &&& post == (AppState { status: Some(status_of(text)), ..pre })
    &&& effects.create_marker_in == marker_dir(pre, text)
    &&& effects.reveal_ui_after == reveal_delay(text)
}

/// Nothing changed and nothing is to be done.
pub open spec fn dropped<P>(pre: AppState<P>, post: AppState<P>, effects: StatusEffects) -> bool {
    &&& post == pre
    &&& effects.create_marker_in.is_none()
    &&& effects.reveal_ui_after.is_none()
}

/// A message whose status field decodes to `decoded` takes `pre` to `post`
/// with `effects`: without a status it is dropped.
pub open spec fn message_handled<P>(
    pre: AppState<P>,
    post: AppState<P>,
    effects: StatusEffects,
    decoded: Option<Seq<char>>,
) -> bool {
    match decoded {
        Some(text) => status_applied(pre, post, effects, text),
        None => dropped(pre, post, effects),
    }
}

/// Whether two texts are the same.
pub fn same_text(a: &str, b: &str) -> (same: bool)
    ensures
        same == (a@ == b@),
{
    let left = String::from_str(a);
    let right = String::from_str(b);
    left == right
}

/// Applies a decoded status text: writes the status it stands for, whatever
/// the status was before, and says what else is to be done.
pub fn apply_status<P>(state: &mut AppState<P>, status: &str) -> (effects: StatusEffects)
    ensures
        status_applied(*old(state), *final(state), effects, status@),
{
    if same_text(status, "started app") {
        state.status = Some(ZanshinStatus::RUNNING);
        let create_marker_in = match state.first_run {
            Some(true) => match &state.app_support {
                Some(dir) => Some(dir.clone()),
                None => None,
            },
            _ => None,
        };
        StatusEffects { create_marker_in, reveal_ui_after: Some(REVEAL_DELAY_SECS) }
    } else if same_text(status, "processor warmed up") {
        state.status = Some(ZanshinStatus::PROCESSOR_WARMED_UP);
        StatusEffects { create_marker_in: None, reveal_ui_after: None }
    } else {
        state.status = Some(ZanshinStatus::UNKNOWN);
        StatusEffects { create_marker_in: None, reveal_ui_after: None }
    }
}

/// Handles one text message: decodes it as JSON, reads its `status` string
/// and applies it. A message that does not decode, or has no such string,
/// is dropped.
pub fn handle_message<P>(state: &mut AppState<P>, message: &str) -> (effects: StatusEffects)
    ensures
        message_handled(
            *old(state),
            *final(state),
            effects,
            json_string_field(message@, "status"@),
        ),
{
    match read_string_field(message, "status") {
        Some(status) => apply_status(state, status.as_str()),
        None => StatusEffects { create_marker_in: None, reveal_ui_after: None },
    }
}

/// Handles one outcome of a receive. Only a text message can change
/// anything; the listener goes on after every outcome.
pub fn on_receive<P>(state: &mut AppState<P>, inbound: &Inbound) -> (effects: StatusEffects)
    ensures
        match *inbound {
            Inbound::Text(message) => message_handled(
                *old(state),
                *final(state),
                effects,
                json_string_field(message@, "status"@),
            ),
            _ => dropped(*old(state), *final(state), effects),
        },
{
    match inbound {
        Inbound::Text(message) => handle_message(state, message.as_str()),
        _ => StatusEffects { create_marker_in: None, reveal_ui_after: None },
    }
}

/// The address at which the listener binds its endpoint.
pub fn listener_endpoint() -> (address: &'static str)
    ensures
        address@ == "tcp://127.0.0.1:5555"@,
{
    "tcp://127.0.0.1:5555"
}

/// Whether the listener receives at all: only with a socket that was created
/// and bound. Neither is tried a second time.
pub fn start_zmq_listener(socket_created: bool, bound: bool) -> (phase: ListenerPhase)
    ensures
        phase == (if socket_created && bound {
            ListenerPhase::Receiving
        } else {
            ListenerPhase::Stopped
        }),
{
    if socket_created && bound {
        ListenerPhase::Receiving
    } else {
        ListenerPhase::Stopped
    }
}

/// The start message makes the worker `RUNNING`, once for each message and
/// from any state; on a first run the marker is to be created in the support
/// directory, and the UI is revealed after the delay.
pub proof fn started_app_runs<P>(pre: AppState<P>, post: AppState<P>, effects: StatusEffects)
    requires
        status_applied(pre, post, effects, "started app"@),
    ensures
        post.status == Some(ZanshinStatus::RUNNING),
        post.first_run == pre.first_run,
        post.app_support == pre.app_support,
        post.python_process == pre.python_process,
        pre.first_run == Some(true) ==> effects.create_marker_in == pre.app_support,
        pre.first_run != Some(true) ==> effects.create_marker_in.is_none(),
        effects.reveal_ui_after == Some(REVEAL_DELAY_SECS),
{
}

/// The warm-up message makes the worker `PROCESSOR_WARMED_UP` from any
/// state, and asks for nothing else.
pub proof fn warmed_up_from_any_state<P>(
    pre: AppState<P>,
    post: AppState<P>,
    effects: StatusEffects,
)
    requires
        status_applied(pre, post, effects, "processor warmed up"@),
    ensures
        post.status == Some(ZanshinStatus::PROCESSOR_WARMED_UP),
        effects.create_marker_in.is_none(),
        effects.reveal_ui_after.is_none(),
{
    reveal_strlit("started app");
    reveal_strlit("processor warmed up");
    assert("started app"@.len() != "processor warmed up"@.len());
}

/// Any other status text makes the worker `UNKNOWN`, also after it was
/// running, and asks for nothing else.
pub proof fn unrecognized_status_is_unknown<P>(
    pre: AppState<P>,
    post: AppState<P>,
    effects: StatusEffects,
    text: Seq<char>,
)
    requires
        text != "started app"@,
        text != "processor warmed up"@,
        status_applied(pre, post, effects, text),
    ensures
        post.status == Some(ZanshinStatus::UNKNOWN),
        effects.create_marker_in.is_none(),
        effects.reveal_ui_after.is_none(),
{
}

/// A message without a decodable status leaves the state as it was and asks
/// for nothing.
pub proof fn undecodable_message_changes_nothing<P>(
    pre: AppState<P>,
    post: AppState<P>,
    effects: StatusEffects,
)
    requires
        message_handled(pre, post, effects, None),
    ensures
        post == pre,
        effects.create_marker_in.is_none(),
        effects.reveal_ui_after.is_none(),
{
}

} // verus!
