use vstd::prelude::*;
use vstd::utf8::{encode_utf8, encode_utf8_decode_utf8};

use crate::text::{append_decimal, append_pane_type, append_bool, bool_text, decimal, pane_type_text};
use crate::types::{
    PaneInfo, PaneTarget, PaneType, PipeCommand, SendKeysMessage, SendKeysPlan, MAX_TEXT_BYTES,
};

verus! {

/// The command that a pipe message's name selects: exactly `send_keys` or
/// `list_panes` (lower case), anything else is unknown.
pub open spec fn spec_dispatch_pipe_command(name: Seq<char>) -> PipeCommand {
    if name == "send_keys"@ {
        PipeCommand::SendKeys
    } else if name == "list_panes"@ {
        PipeCommand::ListPanes
    } else {
        PipeCommand::Unknown
    }
}

/// Some cached pane has the requested id and type.
pub open spec fn pane_listed(panes: Seq<PaneInfo>, pane_id: u32, pane_type: PaneType) -> bool {
    exists|i: int| 0 <= i < panes.len() && #[trigger] panes[i].spec_matches(pane_id, pane_type)
}

/// Some cached pane is the given target.
pub open spec fn target_listed(panes: Seq<PaneInfo>, target: PaneTarget) -> bool {
    exists|i: int|
        0 <= i < panes.len() && target.spec_matches_pane(#[trigger] panes[i].id, panes[i].is_plugin)
}

/// `Pane ID {id} (type: {type:?}) not found in cached panes`
pub open spec fn not_found_message(pane_id: u32, pane_type: PaneType) -> Seq<char> {
    "Pane ID "@ + decimal(pane_id as nat) + " (type: "@ + pane_type_text(pane_type)
        + ") not found in cached panes"@
}

/// `Sending to pane {id} (type: {type:?}, enter: {send_enter})`
pub open spec fn summary_message(pane_id: u32, pane_type: PaneType, send_enter: bool) -> Seq<
    char,
> {
    "Sending to pane "@ + decimal(pane_id as nat) + " (type: "@ + pane_type_text(pane_type)
        + ", enter: "@ + bool_text(send_enter) + ")"@
}

/// `Failed to parse JSON: {detail}`
pub open spec fn parse_failure_message(detail: Seq<char>) -> Seq<char> {
    "Failed to parse JSON: "@ + detail
}

/// `Text too long: {len} bytes (max: 65536 bytes)`
pub open spec fn too_long_message(len: nat) -> Seq<char> {
    "Text too long: "@ + decimal(len) + " bytes (max: "@ + decimal(MAX_TEXT_BYTES as nat)
        + " bytes)"@
}

/// The number of bytes of the UTF-8 encoding of a text.
pub open spec fn utf8_len(text: Seq<char>) -> nat {
    encode_utf8(text).len()
}

/// What reading a decoded `send_keys` payload gives: the message itself, or
/// the text of the error that refuses it.
pub open spec fn spec_check_send_keys_message(decoded: Result<SendKeysMessage, String>) -> Result<
    SendKeysMessage,
    Seq<char>,
> {
    match decoded {
        Err(detail) => Err(parse_failure_message(detail@)),
        Ok(msg) => if utf8_len(msg.text@) > MAX_TEXT_BYTES {
            Err(too_long_message(utf8_len(msg.text@)))
        } else {
            Ok(msg)
        },
    }
}

fn str_eq(a: &str, b: &str) -> (res: bool)
    ensures
        res == (a@ == b@),
{
    let ab = a.as_bytes();
    let bb = b.as_bytes();
    if ab.len() != bb.len() {
        return false;
    }
    let mut i: usize = 0;
    while i < ab.len()
        invariant
            ab@ == encode_utf8(a@),
            bb@ == encode_utf8(b@),
            ab@.len() == bb@.len(),
            0 <= i <= ab@.len(),
            forall|j: int| 0 <= j < i ==> ab@[j] == bb@[j],
        decreases ab@.len() - i,
    {
        if ab[i] != bb[i] {
            return false;
        }
        i = i + 1;
    }
    proof {
        assert(ab@ =~= bb@);
        encode_utf8_decode_utf8(a@);
        encode_utf8_decode_utf8(b@);
    }
    true
}

fn any_pane_matches(panes: &[PaneInfo], pane_id: u32, pane_type: PaneType) -> (res: bool)
    ensures
        res == pane_listed(panes@, pane_id, pane_type),
{
    let mut i: usize = 0;
    while i < panes.len()
        invariant
            0 <= i <= panes@.len(),
            forall|j: int| 0 <= j < i ==> !(#[trigger] panes@[j].spec_matches(pane_id, pane_type)),
        decreases panes@.len() - i,
    {
        if panes[i].matches(pane_id, pane_type) {
            return true;
        }
        i = i + 1;
    }
    false
}

/// Map a raw pipe command name to a known `PipeCommand`.
pub fn dispatch_pipe_command(name: &str) -> (res: PipeCommand)
    ensures
        res == spec_dispatch_pipe_command(name@),
{
    if str_eq(name, "send_keys") {
        PipeCommand::SendKeys
    } else if str_eq(name, "list_panes") {
        PipeCommand::ListPanes
    } else {
        PipeCommand::Unknown
    }
}

/// Resolve a parsed `send_keys` message against the cached pane list into a
/// concrete plan of side effects, or an error describing why it cannot run.
///
/// The caller is responsible for actually writing to the pane and scheduling
/// the timer.
pub fn resolve_send_keys(msg: &SendKeysMessage, panes: &[PaneInfo]) -> (res: Result<
    SendKeysPlan,
    String,
>)
    ensures
        res is Ok <==> pane_listed(panes@, msg.pane_id, msg.pane_type),
        res matches Ok(plan) ==> {
            &&& plan.text_bytes@ == encode_utf8(msg.text@)
            &&& plan.target == PaneTarget::spec_from_type(msg.pane_id, msg.pane_type)
            &&& plan.schedule_enter == msg.send_enter
            &&& plan.summary@ == summary_message(msg.pane_id, msg.pane_type, msg.send_enter)
        },
        res matches Err(e) ==> e@ == not_found_message(msg.pane_id, msg.pane_type),
{
    let found = any_pane_matches(panes, msg.pane_id, msg.pane_type);
    if !found {
        let mut err = String::new();
        err.append("Pane ID ");
        append_decimal(&mut err, msg.pane_id as u64);
        err.append(" (type: ");
        append_pane_type(&mut err, msg.pane_type);
        err.append(") not found in cached panes");
        return Err(err);
    }
    let target = PaneTarget::from_type(msg.pane_id, msg.pane_type);
    let mut summary = String::new();
    summary.append("Sending to pane ");
    append_decimal(&mut summary, msg.pane_id as u64);
    summary.append(" (type: ");
    append_pane_type(&mut summary, msg.pane_type);
    summary.append(", enter: ");
    append_bool(&mut summary, msg.send_enter);
    summary.append(")");
    let text_bytes = vstd::slice::slice_to_vec(msg.text.as_str().as_bytes());
    Ok(SendKeysPlan { text_bytes, target, schedule_enter: msg.send_enter, summary })
}

/// Decide whether a queued Enter should still be delivered to `target`,
/// given the currently cached panes. Used by the Timer handler to avoid
/// writing to a pane that has since closed.
pub fn pending_enter_target_exists(target: PaneTarget, panes: &[PaneInfo]) -> (res: bool)
    ensures
        res == target_listed(panes@, target),
{
    let mut i: usize = 0;
    while i < panes.len()
        invariant
            0 <= i <= panes@.len(),
            forall|j: int|
                0 <= j < i ==> !target.spec_matches_pane(#[trigger] panes@[j].id, panes@[j].is_plugin),
        decreases panes@.len() - i,
    {
        if target.matches_pane(panes[i].id, panes[i].is_plugin) {
            return true;
        }
        i = i + 1;
    }
    false
}

/// The last step of reading a `send_keys` payload: `decoded` is what the JSON
/// decoder made of it, an error carrying the decoder's own description.
///
/// A decoder error is reported as `Failed to parse JSON: ...`; a message whose
/// text is longer than `MAX_TEXT_BYTES` bytes (UTF-8 encoded) is refused with
/// `Text too long: ...`; any other message is accepted unchanged.
pub fn check_send_keys_message(decoded: Result<SendKeysMessage, String>) -> (res: Result<
    SendKeysMessage,
    String,
>)
    ensures
        res is Ok <==> spec_check_send_keys_message(decoded) is Ok,
        res matches Ok(msg) ==> spec_check_send_keys_message(decoded) == Ok::<
            SendKeysMessage,
            Seq<char>,
        >(msg),
        res matches Err(e) ==> spec_check_send_keys_message(decoded) == Err::<
            SendKeysMessage,
            Seq<char>,
        >(e@),
{
    match decoded {
        Err(detail) => {
            let mut err = String::new();
            err.append("Failed to parse JSON: ");
            err.append(detail.as_str());
            assert(err@ =~= parse_failure_message(detail@));
            Err(err)
        },
        Ok(msg) => {
            let len = msg.text.as_str().as_bytes().len();
            if len > MAX_TEXT_BYTES {
                let mut err = String::new();
                err.append("Text too long: ");
                append_decimal(&mut err, len as u64);
                err.append(" bytes (max: ");
                append_decimal(&mut err, MAX_TEXT_BYTES as u64);
                err.append(" bytes)");
                Err(err)
            } else {
                Ok(msg)
            }
        },
    }
}

} // verus!
