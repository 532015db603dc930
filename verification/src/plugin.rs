use std::collections::VecDeque;

use vstd::prelude::*;
use vstd::utf8::encode_utf8;

use crate::resolve::{
    check_send_keys_message, not_found_message, pane_listed, resolve_send_keys,
    spec_check_send_keys_message, summary_message, target_listed, pending_enter_target_exists,
};
use crate::text::{append_bool, append_decimal, append_pane_type, bool_text, decimal, pane_type_text};
use crate::types::{PaneInfo, PaneTarget, SendKeysMessage};

verus! {

/// What the plugin reads of one pane in a pane update from Zellij.
#[derive(Clone, Debug)]
pub struct PaneRecord {
    pub id: u32,
    pub title: String,
    pub is_focused: bool,
    pub is_plugin: bool,
    pub is_suppressed: bool,
}

/// The cache entry kept for a pane record: its title becomes its name.
pub open spec fn pane_info_of(record: PaneRecord) -> PaneInfo {
    PaneInfo {
        id: record.id,
        name: Some(record.title),
        is_focused: record.is_focused,
        is_plugin: record.is_plugin,
    }
}

/// The panes a pane update leaves in the cache: every pane that is not
/// suppressed, plugin and terminal alike, in the order of the update.
pub open spec fn visible_panes(records: Seq<PaneRecord>) -> Seq<PaneInfo>
    decreases records.len(),
{
    if records.len() == 0 {
        Seq::empty()
    } else {
        let rest = visible_panes(records.drop_last());
        if records.last().is_suppressed {
            rest
        } else {
            rest.push(pane_info_of(records.last()))
        }
    }
}

/// The terminal (non-plugin) panes of a list, in order.
pub open spec fn terminal_panes(panes: Seq<PaneInfo>) -> Seq<PaneInfo>
    decreases panes.len(),
{
    if panes.len() == 0 {
        Seq::empty()
    } else {
        let rest = terminal_panes(panes.drop_last());
        if panes.last().is_plugin {
            rest
        } else {
            rest.push(panes.last())
        }
    }
}

/// The plugin's state between events.
pub struct PluginState {
    /// Summary of the last request that was carried out (for the display).
    pub last_message: Option<String>,
    /// Cached pane list (includes plugin panes, excludes suppressed).
    pub panes: Vec<PaneInfo>,
    /// Targets that still wait for their delayed Enter key, oldest first.
    pub pending_enter: VecDeque<PaneTarget>,
}

/// What the plugin does when its timer fires.
#[derive(Debug)]
pub enum TimerAction {
    /// No Enter key was waiting.
    Nothing,
    /// Write `bytes` (a carriage return) to the target pane.
    SendEnter { target: PaneTarget, bytes: Vec<u8> },
    /// The target pane has closed since: its Enter is dropped.
    PaneClosed { target: PaneTarget },
}

/// What the plugin does with a `send_keys` request.
#[derive(Debug)]
pub enum SendKeysOutcome {
    /// Nothing is written; `log` says why.
    Refused { log: String },
    /// Write `text_bytes` to `target`; when `start_enter_timer` holds, start
    /// the timer that later delivers the Enter key queued for `target`.
    Deliver { text_bytes: Vec<u8>, target: PaneTarget, start_enter_timer: bool, log: String },
}

/// What a `send_keys` request comes to against the cached panes: the message
/// to carry out, or the text of the error that refuses it. `payload` is `None`
/// when the pipe message carried no payload, otherwise what the JSON decoder
/// made of it.
pub open spec fn send_keys_decision(
    payload: Option<Result<SendKeysMessage, String>>,
    panes: Seq<PaneInfo>,
) -> Result<SendKeysMessage, Seq<char>> {
    match payload {
        None => Err("No payload provided"@),
        Some(decoded) => match spec_check_send_keys_message(decoded) {
            Err(e) => Err(e),
            Ok(msg) => if pane_listed(panes, msg.pane_id, msg.pane_type) {
                Ok(msg)
            } else {
                Err(not_found_message(msg.pane_id, msg.pane_type))
            },
        },
    }
}

/// `send_keys: Sent to pane {id} (type: {type:?}, enter: {send_enter})`
pub open spec fn sent_log(msg: SendKeysMessage) -> Seq<char> {
    "send_keys: Sent to pane "@ + decimal(msg.pane_id as nat) + " (type: "@ + pane_type_text(
        msg.pane_type,
    ) + ", enter: "@ + bool_text(msg.send_enter) + ")"@
}

/// The texts of a list of strings.
pub open spec fn texts(lines: Seq<String>) -> Seq<Seq<char>> {
    lines.map_values(|line: String| line@)
}

/// One line of the pane list on the display.
pub open spec fn pane_line(pane: PaneInfo) -> Seq<char> {
    "  - ID: "@ + decimal(pane.id as nat) + ", Name: "@ + match pane.name {
        Some(name) => name@,
        None => "(unnamed)"@,
    } + if pane.is_focused {
        " [focused]"@
    } else {
        ""@
    }
}

/// The lines the plugin shows: a header, the last message if any, the
/// terminal panes, and how to use the plugin.
pub open spec fn display_lines(last_message: Option<String>, panes: Seq<PaneInfo>) -> Seq<
    Seq<char>,
> {
    let terminals = terminal_panes(panes);
    seq!["=== zellij-send-keys ==="@, ""@] + match last_message {
        Some(msg) => seq!["Last message: "@ + msg@],
        None => Seq::empty(),
    } + seq![""@, "Available panes ("@ + decimal(terminals.len()) + "):"@] + terminals.map_values(
        |p: PaneInfo| pane_line(p),
    ) + seq![
        ""@,
        "Usage:"@,
        "  zellij action pipe --plugin file:zellij-send-keys.wasm \\"@,
        "    --name send_keys -- '{\"pane_id\": 1, \"text\": \"hello\", \"send_enter\": true, \"pane_type\": \"terminal\"}'"@,
    ]
}

impl Default for PluginState {
    fn default() -> (s: Self)
        ensures
            s.last_message is None,
            s.panes@.len() == 0,
            s.pending_enter@.len() == 0,
    {
        PluginState { last_message: None, panes: Vec::new(), pending_enter: VecDeque::new() }
    }
}

impl PluginState {
    /// A pane update replaces the cache by the update's unsuppressed panes.
    /// The display is always redrawn.
    pub fn on_pane_update(&mut self, records: &[PaneRecord]) -> (redraw: bool)
        ensures
            redraw,
            final(self).panes@ == visible_panes(records@),
            final(self).last_message == old(self).last_message,
            final(self).pending_enter@ == old(self).pending_enter@,
    {
        let mut panes: Vec<PaneInfo> = Vec::new();
        let mut i: usize = 0;
        while i < records.len()
            invariant
                0 <= i <= records@.len(),
                panes@ == visible_panes(records@.take(i as int)),
            decreases records@.len() - i,
        {
            let record = &records[i];
            proof {
                assert(records@.take(i + 1).drop_last() =~= records@.take(i as int));
            }
            if !record.is_suppressed {
                panes.push(
                    PaneInfo {
                        id: record.id,
                        name: Some(record.title.clone()),
                        is_focused: record.is_focused,
                        is_plugin: record.is_plugin,
                    },
                );
            }
            i = i + 1;
        }
        proof {
            assert(records@.take(records@.len() as int) =~= records@);
        }
        self.panes = panes;
        true
    }

    /// The lines of the plugin's display, in order.
    pub fn display(&self) -> (lines: Vec<String>)
        ensures
            texts(lines@) == display_lines(self.last_message, self.panes@),
    {
        let ghost spec_lines = display_lines(self.last_message, self.panes@);
        let ghost terminals = terminal_panes(self.panes@);
        let mut pane_lines: Vec<String> = Vec::new();
        let mut count: usize = 0;
        let mut i: usize = 0;
        while i < self.panes.len()
            invariant
                0 <= i <= self.panes@.len(),
                count == pane_lines@.len(),
                pane_lines@.len() == terminal_panes(self.panes@.take(i as int)).len(),
                count <= i,
                forall|k: int|
                    0 <= k < pane_lines@.len() ==> #[trigger] pane_lines@[k]@ == pane_line(
                        terminal_panes(self.panes@.take(i as int))[k],
                    ),
            decreases self.panes@.len() - i,
        {
            let pane = &self.panes[i];
            proof {
                assert(self.panes@.take(i + 1).drop_last() =~= self.panes@.take(i as int));
            }
            if !pane.is_plugin {
                let mut line = String::new();
                line.append("  - ID: ");
                append_decimal(&mut line, pane.id as u64);
                line.append(", Name: ");
                match &pane.name {
                    Some(name) => line.append(name.as_str()),
                    None => line.append("(unnamed)"),
                }
                if pane.is_focused {
                    line.append(" [focused]");
                } else {
                    line.append("");
                }
                pane_lines.push(line);
                count = count + 1;
            }
            i = i + 1;
        }
        proof {
            assert(self.panes@.take(self.panes@.len() as int) =~= self.panes@);
        }
        let mut lines: Vec<String> = Vec::new();
        lines.push(String::from_str("=== zellij-send-keys ==="));
        lines.push(String::from_str(""));
        match &self.last_message {
            Some(msg) => {
                let mut line = String::new();
                line.append("Last message: ");
                line.append(msg.as_str());
                lines.push(line);
            },
            None => {},
        }
        lines.push(String::from_str(""));
        let mut header = String::new();
        header.append("Available panes (");
        append_decimal(&mut header, count as u64);
        header.append("):");
        lines.push(header);
        let ghost before = lines@;
        let ghost head = seq!["=== zellij-send-keys ==="@, ""@] + match &self.last_message {
            Some(msg) => seq!["Last message: "@ + msg@],
            None => Seq::<Seq<char>>::empty(),
        } + seq![""@, "Available panes ("@ + decimal(terminals.len()) + "):"@];
        proof {
            assert(texts(before) =~= head);
        }
        let mut k: usize = 0;
        while k < pane_lines.len()
            invariant
                0 <= k <= pane_lines@.len(),
                lines@.len() == before.len() + k,
                forall|j: int| 0 <= j < before.len() ==> #[trigger] lines@[j] == before[j],
                forall|j: int|
                    0 <= j < k ==> #[trigger] lines@[before.len() + j]@ == pane_lines@[j]@,
            decreases pane_lines@.len() - k,
        {
            lines.push(pane_lines[k].clone());
            k = k + 1;
        }
        let ghost mid = lines@;
        proof {
            let tl = terminals.map_values(|p: PaneInfo| pane_line(p));
            assert(texts(pane_lines@) =~= tl);
            assert(texts(mid) =~= head + tl) by {
                assert forall|j: int| 0 <= j < mid.len() implies #[trigger] texts(mid)[j] == (head
                    + tl)[j] by {
                    assert(texts(mid)[j] == mid[j]@);
                    if j < before.len() {
                        assert(texts(before)[j] == before[j]@);
                        assert(mid[j] == before[j]);
                    } else {
                        let jj = j - before.len();
                        assert(mid[before.len() + jj]@ == pane_lines@[jj]@);
                        assert(texts(pane_lines@)[j - before.len()]
                            == pane_lines@[j - before.len()]@);
                    }
                }
            }
        }
        lines.push(String::from_str(""));
        lines.push(String::from_str("Usage:"));
        lines.push(String::from_str("  zellij action pipe --plugin file:zellij-send-keys.wasm \\"));
        lines.push(
            String::from_str(
                "    --name send_keys -- '{\"pane_id\": 1, \"text\": \"hello\", \"send_enter\": true, \"pane_type\": \"terminal\"}'",
            ),
        );
        proof {
            assert(texts(lines@) =~= spec_lines);
        }
        lines
    }

    /// The timer fired: the oldest waiting Enter key leaves the queue and is
    /// delivered only if its pane is still cached.
    pub fn on_timer(&mut self) -> (action: TimerAction)
        ensures
            final(self).panes@ == old(self).panes@,
            final(self).last_message == old(self).last_message,
            old(self).pending_enter@.len() == 0 ==> {
                &&& action is Nothing
                &&& final(self).pending_enter@ == old(self).pending_enter@
            },
            old(self).pending_enter@.len() > 0 ==> {
                let target = old(self).pending_enter@[0];
                &&& final(self).pending_enter@ == old(self).pending_enter@.drop_first()
                &&& target_listed(old(self).panes@, target) ==> (action matches TimerAction::SendEnter {
                    target: t,
                    bytes,
                } && t == target && bytes@ == seq![13u8])
                &&& !target_listed(old(self).panes@, target) ==> action == (TimerAction::PaneClosed {
                    target,
                })
            },
    {
        match self.pending_enter.pop_front() {
            None => TimerAction::Nothing,
            Some(target) => {
                if pending_enter_target_exists(target, self.panes.as_slice()) {
                    let mut bytes: Vec<u8> = Vec::new();
                    bytes.push(13u8);
                    TimerAction::SendEnter { target, bytes }
                } else {
                    TimerAction::PaneClosed { target }
                }
            },
        }
    }

    /// A `send_keys` request: `payload` is `None` when the pipe message had
    /// no payload, otherwise what the JSON decoder made of it.
    ///
    /// A refused request changes nothing. A request that is carried out
    /// records its summary as the last message and, when it asks for Enter,
    /// queues its target for the timer.
    pub fn handle_send_keys(&mut self, payload: Option<Result<SendKeysMessage, String>>) -> (outcome:
        SendKeysOutcome)
        ensures
            final(self).panes@ == old(self).panes@,
            outcome is Refused <==> send_keys_decision(payload, old(self).panes@) is Err,
            outcome matches SendKeysOutcome::Refused { log } ==> {
                &&& log@ == "send_keys: "@ + send_keys_decision(payload, old(self).panes@)->Err_0
                &&& final(self).last_message == old(self).last_message
                &&& final(self).pending_enter@ == old(self).pending_enter@
            },
            outcome matches SendKeysOutcome::Deliver { text_bytes, target, start_enter_timer, log }
                ==> {
                let msg = send_keys_decision(payload, old(self).panes@)->Ok_0;
                &&& text_bytes@ == encode_utf8(msg.text@)
                &&& target == PaneTarget::spec_from_type(msg.pane_id, msg.pane_type)
                &&& start_enter_timer == msg.send_enter
                &&& log@ == sent_log(msg)
                &&& final(self).last_message matches Some(summary) && summary@ == summary_message(
                    msg.pane_id,
                    msg.pane_type,
                    msg.send_enter,
                )
                &&& final(self).pending_enter@ == if msg.send_enter {
                    old(self).pending_enter@.push(target)
                } else {
                    old(self).pending_enter@
                }
            },
    {
        let decoded = match payload {
            None => {
                let mut log = String::new();
                log.append("send_keys: ");
                log.append("No payload provided");
                return SendKeysOutcome::Refused { log };
            },
            Some(decoded) => decoded,
        };
        let msg = match check_send_keys_message(decoded) {
            Ok(msg) => msg,
            Err(e) => {
                let mut log = String::new();
                log.append("send_keys: ");
                log.append(e.as_str());
                return SendKeysOutcome::Refused { log };
            },
        };
        let plan = match resolve_send_keys(&msg, self.panes.as_slice()) {
            Ok(plan) => plan,
            Err(e) => {
                let mut log = String::new();
                log.append("send_keys: ");
                log.append(e.as_str());
                return SendKeysOutcome::Refused { log };
            },
        };
        self.last_message = Some(plan.summary);
        if plan.schedule_enter {
            self.pending_enter.push_back(plan.target);
        }
        let mut log = String::new();
        log.append("send_keys: Sent to pane ");
        append_decimal(&mut log, msg.pane_id as u64);
        log.append(" (type: ");
        append_pane_type(&mut log, msg.pane_type);
        log.append(", enter: ");
        append_bool(&mut log, msg.send_enter);
        log.append(")");
        SendKeysOutcome::Deliver {
            text_bytes: plan.text_bytes,
            target: plan.target,
            start_enter_timer: plan.schedule_enter,
            log,
        }
    }
}

} // verus!
