use vstd::prelude::*;
use vstd::utf8::encode_utf8;

use crate::plugin::{
    display_lines, pane_info_of, pane_line, send_keys_decision, terminal_panes, visible_panes, PaneRecord,
};
use crate::resolve::{pane_listed, spec_check_send_keys_message, target_listed, utf8_len};
use crate::text::{decimal, digit_char};
use crate::types::{PaneInfo, PaneTarget, PaneType, SendKeysMessage, MAX_TEXT_BYTES};

verus! {

/// A cached pane matches an id and a pane type exactly when it is the target
/// that `PaneTarget::from_type` builds from them: the plugin flag of a pane
/// stands for `PaneType::Plugin`, its absence for `PaneType::Terminal`.
pub proof fn pane_match_agrees_with_target(pane: PaneInfo, pane_id: u32, pane_type: PaneType)
    ensures
        pane.spec_matches(pane_id, pane_type) == PaneTarget::spec_from_type(
            pane_id,
            pane_type,
        ).spec_matches_pane(pane.id, pane.is_plugin),
{
}

/// `resolve_send_keys` finds a pane for an id and a type exactly when
/// `pending_enter_target_exists` finds the target built from them in the same
/// cache: an Enter queued for a resolved request is delivered as long as the
/// cache has not changed.
pub proof fn resolved_iff_target_listed(panes: Seq<PaneInfo>, pane_id: u32, pane_type: PaneType)
    ensures
        pane_listed(panes, pane_id, pane_type) == target_listed(
            panes,
            PaneTarget::spec_from_type(pane_id, pane_type),
        ),
{
    let target = PaneTarget::spec_from_type(pane_id, pane_type);
    if pane_listed(panes, pane_id, pane_type) {
        let i = choose|i: int| 0 <= i < panes.len() && #[trigger] panes[i].spec_matches(pane_id, pane_type);
        pane_match_agrees_with_target(panes[i], pane_id, pane_type);
    }
    if target_listed(panes, target) {
        let i = choose|i: int|
            0 <= i < panes.len() && target.spec_matches_pane(#[trigger] panes[i].id, panes[i].is_plugin);
        pane_match_agrees_with_target(panes[i], pane_id, pane_type);
    }
}

/// Every `send_keys` request that the plugin carries out names a target that
/// is in the cache it was checked against, so the Enter key it queues is
/// written, not dropped, when the timer fires before the next pane update.
pub proof fn delivered_target_is_listed(
    payload: Option<Result<SendKeysMessage, String>>,
    panes: Seq<PaneInfo>,
)
    requires
        send_keys_decision(payload, panes) is Ok,
    ensures
        target_listed(
            panes,
            PaneTarget::spec_from_type(
                send_keys_decision(payload, panes)->Ok_0.pane_id,
                send_keys_decision(payload, panes)->Ok_0.pane_type,
            ),
        ),
{
    let msg = send_keys_decision(payload, panes)->Ok_0;
    resolved_iff_target_listed(panes, msg.pane_id, msg.pane_type);
}

/// The text of every `send_keys` message that passes the check is at most
/// `MAX_TEXT_BYTES` bytes long once UTF-8 encoded.
pub proof fn accepted_text_fits(decoded: Result<SendKeysMessage, String>)
    requires
        spec_check_send_keys_message(decoded) is Ok,
    ensures
        utf8_len(spec_check_send_keys_message(decoded)->Ok_0.text@) <= MAX_TEXT_BYTES,
{
}

/// The bytes the plugin writes for a `send_keys` request it carries out (the
/// UTF-8 encoding of the message's text) are never more than
/// `MAX_TEXT_BYTES`.
pub proof fn delivered_text_fits(
    payload: Option<Result<SendKeysMessage, String>>,
    panes: Seq<PaneInfo>,
)
    requires
        send_keys_decision(payload, panes) is Ok,
    ensures
        encode_utf8(send_keys_decision(payload, panes)->Ok_0.text@).len() <= MAX_TEXT_BYTES,
{
}

/// A request is resolved exactly when some cached pane has the requested id
/// and is a plugin pane exactly when a plugin pane is asked for; nothing else
/// about the pane (its focus, its name) plays a part.
pub proof fn listed_iff_same_id_and_kind(panes: Seq<PaneInfo>, pane_id: u32, pane_type: PaneType)
    ensures
        pane_listed(panes, pane_id, pane_type) <==> exists|i: int|
            0 <= i < panes.len() && #[trigger] panes[i].id == pane_id && panes[i].is_plugin == (
            pane_type is Plugin),
{
    if exists|i: int|
        0 <= i < panes.len() && #[trigger] panes[i].id == pane_id && panes[i].is_plugin == (
        pane_type is Plugin)
    {
        let i = choose|i: int|
            0 <= i < panes.len() && #[trigger] panes[i].id == pane_id && panes[i].is_plugin == (
            pane_type is Plugin);
        assert(panes[i].spec_matches(pane_id, pane_type));
    }
}

/// The id that a target names.
pub open spec fn target_id(target: PaneTarget) -> u32 {
    match target {
        PaneTarget::Terminal(id) => id,
        PaneTarget::Plugin(id) => id,
    }
}

/// A queued Enter is delivered exactly when some cached pane has the target's
/// id and the target's kind (plugin or terminal), whatever its focus or name.
pub proof fn target_listed_iff_same_id_and_kind(panes: Seq<PaneInfo>, target: PaneTarget)
    ensures
        target_listed(panes, target) <==> exists|i: int|
            0 <= i < panes.len() && #[trigger] panes[i].id == target_id(target)
                && panes[i].is_plugin == (target is Plugin),
{
    if exists|i: int|
        0 <= i < panes.len() && #[trigger] panes[i].id == target_id(target) && panes[i].is_plugin
            == (target is Plugin)
    {
        let i = choose|i: int|
            0 <= i < panes.len() && #[trigger] panes[i].id == target_id(target)
                && panes[i].is_plugin == (target is Plugin);
        assert(target.spec_matches_pane(panes[i].id, panes[i].is_plugin));
    }
}

/// Reading a decoded message refuses it only for a decoder error or a text of
/// more than `MAX_TEXT_BYTES` UTF-8 bytes: any other message, for any pane id,
/// type and Enter flag, comes back unchanged.
pub proof fn check_accepts_every_small_message(decoded: Result<SendKeysMessage, String>)
    ensures
        decoded is Err ==> spec_check_send_keys_message(decoded) is Err,
        decoded matches Ok(msg) ==> (encode_utf8(msg.text@).len() <= MAX_TEXT_BYTES
            <==> spec_check_send_keys_message(decoded) == Ok::<SendKeysMessage, Seq<char>>(msg)),
        decoded matches Ok(msg) ==> (encode_utf8(msg.text@).len() > MAX_TEXT_BYTES
            ==> spec_check_send_keys_message(decoded) is Err),
{
}

/// A `send_keys` request whose decoded message fits the byte limit and names
/// the id and kind of some cached pane is carried out with that very message,
/// whatever characters its text holds; a request without payload is refused.
pub proof fn send_keys_carried_out_when_listed(
    decoded: Result<SendKeysMessage, String>,
    panes: Seq<PaneInfo>,
    i: int,
)
    requires
        decoded is Ok,
        encode_utf8(decoded->Ok_0.text@).len() <= MAX_TEXT_BYTES,
        0 <= i < panes.len(),
        panes[i].id == decoded->Ok_0.pane_id,
        panes[i].is_plugin == (decoded->Ok_0.pane_type is Plugin),
    ensures
        send_keys_decision(Some(decoded), panes) == Ok::<SendKeysMessage, Seq<char>>(
            decoded->Ok_0,
        ),
        send_keys_decision(None, panes) is Err,
{
    assert(panes[i].spec_matches(decoded->Ok_0.pane_id, decoded->Ok_0.pane_type));
}

/// A record that is not suppressed.
pub open spec fn unsuppressed(r: PaneRecord) -> bool {
    !r.is_suppressed
}

/// A record's id, focus and plugin flag, with its title as name.
pub open spec fn cache_entry(r: PaneRecord) -> PaneInfo {
    PaneInfo { id: r.id, name: Some(r.title), is_focused: r.is_focused, is_plugin: r.is_plugin }
}

/// The pane cache after an update is the update's records that are not
/// suppressed, in order, each with its id, focus and plugin flag unchanged
/// and its title as its name.
pub proof fn cache_is_unsuppressed_records(records: Seq<PaneRecord>)
    ensures
        visible_panes(records) == records.filter(|r: PaneRecord| unsuppressed(r)).map_values(
            |r: PaneRecord| cache_entry(r),
        ),
    decreases records.len(),
{
    reveal_with_fuel(Seq::<PaneRecord>::filter, 1);
    if records.len() > 0 {
        cache_is_unsuppressed_records(records.drop_last());
        let sub = records.drop_last().filter(|r: PaneRecord| unsuppressed(r));
        assert(records.filter(|r: PaneRecord| unsuppressed(r)) == if unsuppressed(records.last()) {
            sub.push(records.last())
        } else {
            sub
        });
        if unsuppressed(records.last()) {
            assert(sub.push(records.last()).map_values(|r: PaneRecord| cache_entry(r))
                =~= sub.map_values(|r: PaneRecord| cache_entry(r)).push(cache_entry(records.last())));
        }
    } else {
        assert(visible_panes(records) =~= records.filter(|r: PaneRecord| unsuppressed(r)).map_values(
            |r: PaneRecord| cache_entry(r),
        ));
    }
}

/// A single unsuppressed record is cached with all its fields.
pub proof fn single_record_is_cached(r: PaneRecord)
    requires
        !r.is_suppressed,
    ensures
        visible_panes(seq![r]) == seq![
            PaneInfo {
                id: r.id,
                name: Some(r.title),
                is_focused: r.is_focused,
                is_plugin: r.is_plugin,
            },
        ],
{
    assert(seq![r].drop_last() =~= Seq::<PaneRecord>::empty());
    assert(seq![r].last() == r);
    assert(visible_panes(Seq::<PaneRecord>::empty()) =~= Seq::<PaneInfo>::empty());
    assert(visible_panes(seq![r]) =~= seq![pane_info_of(r)]);
}

/// The display lists the terminal panes of the cache, that is the panes that
/// are not plugin panes, in order.
pub proof fn terminal_panes_are_non_plugin_panes(panes: Seq<PaneInfo>)
    ensures
        terminal_panes(panes) == panes.filter(|p: PaneInfo| !p.is_plugin),
    decreases panes.len(),
{
    reveal_with_fuel(Seq::<PaneInfo>::filter, 1);
    if panes.len() > 0 {
        terminal_panes_are_non_plugin_panes(panes.drop_last());
        assert(panes.filter(|p: PaneInfo| !p.is_plugin) == if !panes.last().is_plugin {
            panes.drop_last().filter(|p: PaneInfo| !p.is_plugin).push(panes.last())
        } else {
            panes.drop_last().filter(|p: PaneInfo| !p.is_plugin)
        });
    } else {
        assert(terminal_panes(panes) =~= panes.filter(|p: PaneInfo| !p.is_plugin));
    }
}

/// A pane's display line starts with its id and its name (or `(unnamed)`
/// when it has none), whatever its focus; a focused pane's line is the line
/// it would have unfocused followed by ` [focused]`.
pub proof fn pane_line_shows_id_and_name(p: PaneInfo)
    ensures
        ("  - ID: "@ + decimal(p.id as nat) + ", Name: "@ + match p.name {
            Some(n) => n@,
            None => "(unnamed)"@,
        }).is_prefix_of(pane_line(p)),
        p.is_focused ==> pane_line(p) == pane_line(PaneInfo { is_focused: false, ..p })
            + " [focused]"@,
        !p.is_focused ==> pane_line(p).len() == ("  - ID: "@ + decimal(p.id as nat) + ", Name: "@
            + match p.name {
            Some(n) => n@,
            None => "(unnamed)"@,
        }).len(),
{
    reveal_strlit("");
    let head = "  - ID: "@ + decimal(p.id as nat) + ", Name: "@ + match p.name {
        Some(n) => n@,
        None => "(unnamed)"@,
    };
    if p.is_focused {
        assert(pane_line(p) =~= head + " [focused]"@);
        assert(pane_line(PaneInfo { is_focused: false, ..p }) =~= head);
        assert(pane_line(p).subrange(0, head.len() as int) =~= head);
    } else {
        assert(pane_line(p) =~= head);
        assert(pane_line(p).subrange(0, head.len() as int) =~= head);
    }
}

/// The display shows one line per terminal pane, in the cache's order,
/// right after the `Available panes (n):` line, where `n` is their number.
pub proof fn display_lists_each_terminal_pane(last_message: Option<String>, panes: Seq<PaneInfo>)
    ensures
        ({
            let terminals = panes.filter(|p: PaneInfo| !p.is_plugin);
            let lines = display_lines(last_message, panes);
            let k: int = if last_message is Some { 5 } else { 4 };
            &&& lines.len() == k + terminals.len() + 4
            &&& lines[k - 1] == "Available panes ("@ + decimal(terminals.len()) + "):"@
            &&& forall|j: int|
                0 <= j < terminals.len() ==> #[trigger] lines[k + j] == pane_line(terminals[j])
        }),
{
    terminal_panes_are_non_plugin_panes(panes);
}

/// A target built from an id and a pane type names that id, and is a plugin
/// target exactly when a plugin pane type was given; it matches a cached pane
/// exactly when the pane has its id and its kind.
pub proof fn target_carries_id_and_kind(pane_id: u32, pane_type: PaneType, id: u32, is_plugin: bool)
    ensures
        target_id(PaneTarget::spec_from_type(pane_id, pane_type)) == pane_id,
        (PaneTarget::spec_from_type(pane_id, pane_type) is Plugin) == (pane_type is Plugin),
        PaneTarget::spec_from_type(pane_id, pane_type).spec_matches_pane(id, is_plugin) <==> (id
            == pane_id && is_plugin == (pane_type is Plugin)),
{
}

/// The value of a decimal digit, or -1 for any other character.
pub open spec fn digit_value(c: char) -> int {
    if c == '0' {
        0
    } else if c == '1' {
        1
    } else if c == '2' {
        2
    } else if c == '3' {
        3
    } else if c == '4' {
        4
    } else if c == '5' {
        5
    } else if c == '6' {
        6
    } else if c == '7' {
        7
    } else if c == '8' {
        8
    } else if c == '9' {
        9
    } else {
        -1
    }
}

/// The number that a string of decimal digits denotes.
pub open spec fn decimal_value(s: Seq<char>) -> int
    decreases s.len(),
{
    if s.len() == 0 {
        0
    } else {
        decimal_value(s.drop_last()) * 10 + digit_value(s.last())
    }
}

/// The decimal text of a number (as used for pane ids and byte counts in the
/// plugin's messages) is a non-empty string of digits, without a leading
/// zero unless the number is 0, that denotes the number.
pub proof fn decimal_denotes_its_number(n: nat)
    ensures
        decimal(n).len() >= 1,
        forall|i: int| 0 <= i < decimal(n).len() ==> 0 <= #[trigger] digit_value(decimal(n)[i]) <= 9,
        n > 0 ==> decimal(n)[0] != '0',
        decimal_value(decimal(n)) == n,
    decreases n,
{
    if n >= 10 {
        decimal_denotes_its_number(n / 10);
        let d = decimal(n / 10);
        assert(decimal(n) == d.push(digit_char(n % 10)));
        assert(decimal(n).drop_last() =~= d);
        assert(decimal(n)[0] == d[0]);
        assert(n == (n / 10) * 10 + n % 10);
        assert(decimal(n).last() == digit_char(n % 10));
        assert(digit_value(digit_char(n % 10)) == n % 10);
        assert(decimal_value(decimal(n)) == decimal_value(d) * 10 + digit_value(digit_char(n % 10)));
        assert(decimal_value(decimal(n)) == n);
        assert forall|i: int| 0 <= i < decimal(n).len() implies 0 <= #[trigger] digit_value(
            decimal(n)[i],
        ) <= 9 by {
            if i < d.len() {
                assert(decimal(n)[i] == d[i]);
            }
        }
    } else {
        assert(decimal(n) =~= seq![digit_char(n)]);
        assert(decimal(n).drop_last() =~= Seq::<char>::empty());
        assert(digit_value(digit_char(n)) == n);
        assert(decimal(n).last() == digit_char(n));
        assert(decimal_value(Seq::<char>::empty()) == 0);
        assert(decimal_value(decimal(n)) == n);
    }
}

} // verus!
