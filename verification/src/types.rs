use vstd::prelude::*;

verus! {

/// Maximum payload size in bytes (64KB)
pub const MAX_TEXT_BYTES: usize = 65536;

/// Pane type
#[derive(Debug, Clone, Copy, PartialEq, Eq, Structural)]
pub enum PaneType {
    Terminal,
    Plugin,
}

impl Default for PaneType {
    /// A request that names no pane type targets a terminal pane.
    fn default() -> (r: Self)
        ensures
            r == PaneType::Terminal,
    {
        PaneType::Terminal
    }
}

/// Pipe message format for send_keys command
#[derive(Debug)]
pub struct SendKeysMessage {
    /// Target pane ID
    pub pane_id: u32,
    /// Text to send
    pub text: String,
    /// Whether to send Enter key after the text
    pub send_enter: bool,
    /// Pane type (default: terminal)
    pub pane_type: PaneType,
}

/// Pane information
#[derive(Clone, Debug)]
pub struct PaneInfo {
    pub id: u32,
    pub name: Option<String>,
    pub is_focused: bool,
    pub is_plugin: bool,
}

impl Default for PaneInfo {
    fn default() -> (r: Self)
        ensures
            r.id == 0,
            r.name is None,
            !r.is_focused,
            !r.is_plugin,
    {
        PaneInfo { id: 0, name: None, is_focused: false, is_plugin: false }
    }
}

impl PaneInfo {
    /// The pane has the given ID and is of the given type: `is_plugin`
    /// stands for `PaneType::Plugin`, its absence for `PaneType::Terminal`.
    pub open spec fn spec_matches(self, pane_id: u32, pane_type: PaneType) -> bool {
        self.id == pane_id && self.is_plugin == (pane_type == PaneType::Plugin)
    }

    /// Check if this pane matches the given ID and pane type.
    /// is_plugin == true corresponds to PaneType::Plugin; otherwise Terminal.
    pub fn matches(&self, pane_id: u32, pane_type: PaneType) -> (res: bool)
        ensures
            res == self.spec_matches(pane_id, pane_type),
    {
        self.id == pane_id && self.is_plugin == (pane_type == PaneType::Plugin)
    }
}

/// A target pane identifier that mirrors `zellij_tile`'s `PaneId`.
///
/// Defined here (instead of reusing `zellij_tile::PaneId`) so the resolution
/// logic can be checked without the WASM-only `zellij_tile` host functions.
#[derive(Debug, Clone, Copy, PartialEq, Eq, Structural)]
pub enum PaneTarget {
    Terminal(u32),
    Plugin(u32),
}

impl PaneTarget {
    /// The target that an id and a pane type name.
    pub open spec fn spec_from_type(pane_id: u32, pane_type: PaneType) -> PaneTarget {
        match pane_type {
            PaneType::Plugin => PaneTarget::Plugin(pane_id),
            PaneType::Terminal => PaneTarget::Terminal(pane_id),
        }
    }

    /// A cached pane with this id and plugin flag is this target.
    pub open spec fn spec_matches_pane(self, id: u32, is_plugin: bool) -> bool {
        match self {
            PaneTarget::Terminal(t) => t == id && !is_plugin,
            PaneTarget::Plugin(p) => p == id && is_plugin,
        }
    }

    /// Build a `PaneTarget` from an id and the parsed `PaneType`.
    pub fn from_type(pane_id: u32, pane_type: PaneType) -> (res: Self)
        ensures
            res == Self::spec_from_type(pane_id, pane_type),
    {
        match pane_type {
            PaneType::Plugin => PaneTarget::Plugin(pane_id),
            PaneType::Terminal => PaneTarget::Terminal(pane_id),
        }
    }

    /// Does the given cached pane correspond to this target?
    pub fn matches_pane(&self, id: u32, is_plugin: bool) -> (res: bool)
        ensures
            res == self.spec_matches_pane(id, is_plugin),
    {
        match self {
            PaneTarget::Terminal(t) => *t == id && !is_plugin,
            PaneTarget::Plugin(p) => *p == id && is_plugin,
        }
    }
}

/// The pipe commands this plugin understands.
#[derive(Debug, Clone, PartialEq, Eq, Structural)]
pub enum PipeCommand {
    SendKeys,
    ListPanes,
    Unknown,
}

/// The concrete side effects to perform for a validated `send_keys` request.
#[derive(Debug, Clone, PartialEq, Eq)]
pub struct SendKeysPlan {
    /// Bytes to write to the target pane's stdin.
    pub text_bytes: Vec<u8>,
    /// The resolved target pane.
    pub target: PaneTarget,
    /// Whether a delayed Enter key should be scheduled for this target.
    pub schedule_enter: bool,
    /// Human-readable summary for the debug display / logs.
    pub summary: String,
}

} // verus!
