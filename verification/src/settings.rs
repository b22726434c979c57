//! Quick-settings toggle state and the external-state poller.
//!
//! One record per monitored capability (Wi-Fi, Bluetooth) holds an
//! enabled flag and a human-readable label.  On a fixed cadence the
//! surrounding process queries the system utilities and feeds their raw
//! output to the functions here, which parse it and overwrite the records;
//! a failed invocation leaves the previous record untouched.  A
//! user-initiated toggle re-queries at once, bypassing the cadence.

use vstd::prelude::*;
use crate::theme::Colors;
use crate::text::{
    contains_seq,
    find_char,
    index_of_char,
    lemma_index_of_char,
    line_views,
    lines_of,
    split_lines,
    starts_with,
    str_contains,
    str_eq,
    str_starts_with,
    trim,
    trimmed,
};

verus! {

/// Milliseconds that must pass between two polls of the same capability.
pub const POLL_INTERVAL_MS: u64 = 5000;

/// When the external state of one capability was last queried.
pub struct PollTimer {
    /// Time of the last poll, on a monotonic millisecond clock; unset
    /// before the first poll.
    pub last_poll_ms: Option<u64>,
}

impl PollTimer {
    /// A poll is due when none has happened yet or the interval has
    /// elapsed since the last one.
    pub open spec fn due_spec(&self, now_ms: u64) -> bool {
        match self.last_poll_ms {
            None => true,
            Some(t) => now_ms >= t + POLL_INTERVAL_MS,
        }
    }

    pub fn new() -> (t: PollTimer)
        ensures
            t.last_poll_ms is None,
    {
        PollTimer { last_poll_ms: None }
    }

    /// Whether a poll may fire now.
    pub fn due(&self, now_ms: u64) -> (b: bool)
        ensures
            b == self.due_spec(now_ms),
    {
        match self.last_poll_ms {
            None => true,
            Some(t) => now_ms >= t && now_ms - t >= POLL_INTERVAL_MS,
        }
    }
}

/// The radio query reports the capability enabled exactly when its trimmed
/// output is the token `enabled`.
pub open spec fn radio_reports_enabled(out: Seq<char>) -> bool {
    trimmed(out) == "enabled"@
}

/// Parse the output of a radio status query.
pub fn parse_radio_status(out: &str) -> (enabled: bool)
    ensures
        enabled == radio_reports_enabled(out@),
{
    let t = trim(out);
    str_eq(t, "enabled")
}

/// Whether one `name:device` connection line names a wireless device: it
/// has a colon, and the device field after it starts with the wireless
/// interface prefix `wl`.
pub open spec fn connection_line_is_wireless(line: Seq<char>) -> bool {
    let i = index_of_char(line, ':');
    i + 2 < line.len() && line[i + 1] == 'w' && line[i + 2] == 'l'
}

/// The connection name on such a line: the field before the colon.
pub open spec fn connection_line_name(line: Seq<char>) -> Seq<char> {
    line.subrange(0, index_of_char(line, ':'))
}

/// The label of the Wi-Fi capability: the name on the first active
/// connection line whose device is wireless; nothing when no line matches.
pub open spec fn wifi_label(lines: Seq<Seq<char>>) -> Option<Seq<char>>
    decreases lines.len(),
{
    if lines.len() == 0 {
        None
    } else if connection_line_is_wireless(lines[0]) {
        Some(connection_line_name(lines[0]))
    } else {
        wifi_label(lines.drop_first())
    }
}

proof fn lemma_first_match_wins(lines: Seq<Seq<char>>, i: int)
    requires
        0 <= i < lines.len(),
        forall|j: int| 0 <= j < i ==> !connection_line_is_wireless(#[trigger] lines[j]),
        connection_line_is_wireless(lines[i]),
    ensures
        wifi_label(lines) == Some(connection_line_name(lines[i])),
    decreases i,
{
    if i == 0 {
    } else {
        assert(lines.drop_first()[i - 1] == lines[i]);
        assert forall|j: int| 0 <= j < i - 1 implies !connection_line_is_wireless(
            #[trigger] lines.drop_first()[j],
        ) by {
            assert(lines.drop_first()[j] == lines[j + 1]);
        }
        lemma_first_match_wins(lines.drop_first(), i - 1);
    }
}

proof fn lemma_no_match_no_label(lines: Seq<Seq<char>>)
    requires
        forall|j: int| 0 <= j < lines.len() ==> !connection_line_is_wireless(#[trigger] lines[j]),
    ensures
        wifi_label(lines) is None,
    decreases lines.len(),
{
    if lines.len() > 0 {
        assert forall|j: int| 0 <= j < lines.len() - 1 implies !connection_line_is_wireless(
            #[trigger] lines.drop_first()[j],
        ) by {
            assert(lines.drop_first()[j] == lines[j + 1]);
        }
        lemma_no_match_no_label(lines.drop_first());
    }
}

/// Extract the Wi-Fi label from the active-connection listing: the name of
/// the first wireless connection, or the empty string when there is none.
pub fn parse_wifi_label(out: &str) -> (label: String)
    ensures
        match wifi_label(split_lines(out@)) {
            Some(l) => label@ == l,
            None => label@ == Seq::<char>::empty(),
        },
{
    let lines = lines_of(out);
    let count = lines.len();
    let mut li: usize = 0;
    while li < count
        invariant
            li <= count,
            count == lines@.len(),
            line_views(lines@) == split_lines(out@),
            forall|j: int| 0 <= j < li ==> !connection_line_is_wireless(
                #[trigger] line_views(lines@)[j],
            ),
        decreases count - li,
    {
        let s: &str = lines[li].as_str();
        proof {
            assert(line_views(lines@)[li as int] == s@);
        }
        let n = s.unicode_len();
        let ci = find_char(s, ':');
        if ci < n && n - ci > 2 {
            let w = s.get_char(ci + 1);
            let l = s.get_char(ci + 2);
            if w == 'w' && l == 'l' {
                let name = s.substring_char(0, ci);
                proof {
                    lemma_index_of_char(s@, ':');
                    lemma_first_match_wins(split_lines(out@), li as int);
                }
                return name.to_owned();
            }
        }
        li += 1;
    }
    proof {
        lemma_no_match_no_label(split_lines(out@));
    }
    String::new()
}

/// The Bluetooth status output reports the controller powered when it
/// contains the `Powered: yes` line.
pub open spec fn bluetooth_reports_powered(out: Seq<char>) -> bool {
    contains_seq(out, "Powered: yes"@)
}

/// Parse the output of the Bluetooth controller status query.
pub fn parse_bluetooth_status(out: &str) -> (powered: bool)
    ensures
        powered == bluetooth_reports_powered(out@),
{
    str_contains(out, "Powered: yes")
}

/// Whether a device listing line describes one connected device: it starts
/// with the `Device` token and carries at least two blanks, which separate
/// the token, the device id and the name.
pub open spec fn device_line_matches(line: Seq<char>) -> bool {
    starts_with(line, "Device"@) && {
        let i1 = index_of_char(line, ' ');
        i1 < line.len() && {
            let after_id = line.subrange(i1 + 1, line.len() as int);
            index_of_char(after_id, ' ') < after_id.len()
        }
    }
}

/// The device name on such a line: everything after the second blank,
/// which is how the space-separated name fields join back together.
pub open spec fn device_line_name(line: Seq<char>) -> Seq<char> {
    let i1 = index_of_char(line, ' ');
    let after_id = line.subrange(i1 + 1, line.len() as int);
    let i2 = index_of_char(after_id, ' ');
    after_id.subrange(i2 + 1, after_id.len() as int)
}

/// The label of the Bluetooth capability: the name on the first line that
/// describes a connected device; nothing when no line matches.
pub open spec fn bluetooth_label(lines: Seq<Seq<char>>) -> Option<Seq<char>>
    decreases lines.len(),
{
    if lines.len() == 0 {
        None
    } else if device_line_matches(lines[0]) {
        Some(device_line_name(lines[0]))
    } else {
        bluetooth_label(lines.drop_first())
    }
}

proof fn lemma_first_device_wins(lines: Seq<Seq<char>>, i: int)
    requires
        0 <= i < lines.len(),
        forall|j: int| 0 <= j < i ==> !device_line_matches(#[trigger] lines[j]),
        device_line_matches(lines[i]),
    ensures
        bluetooth_label(lines) == Some(device_line_name(lines[i])),
    decreases i,
{
    if i == 0 {
    } else {
        assert(lines.drop_first()[i - 1] == lines[i]);
        assert forall|j: int| 0 <= j < i - 1 implies !device_line_matches(
            #[trigger] lines.drop_first()[j],
        ) by {
            assert(lines.drop_first()[j] == lines[j + 1]);
        }
        lemma_first_device_wins(lines.drop_first(), i - 1);
    }
}

proof fn lemma_no_device_no_label(lines: Seq<Seq<char>>)
    requires
        forall|j: int| 0 <= j < lines.len() ==> !device_line_matches(#[trigger] lines[j]),
    ensures
        bluetooth_label(lines) is None,
    decreases lines.len(),
{
    if lines.len() > 0 {
        assert forall|j: int| 0 <= j < lines.len() - 1 implies !device_line_matches(
            #[trigger] lines.drop_first()[j],
        ) by {
            assert(lines.drop_first()[j] == lines[j + 1]);
        }
        lemma_no_device_no_label(lines.drop_first());
    }
}

/// Extract the Bluetooth label from the connected-device listing: the name
/// on the first device line, or the empty string when there is none.
pub fn parse_bluetooth_label(out: &str) -> (label: String)
    ensures
        match bluetooth_label(split_lines(out@)) {
            Some(l) => label@ == l,
            None => label@ == Seq::<char>::empty(),
        },
{
    let lines = lines_of(out);
    let count = lines.len();
    let mut li: usize = 0;
    while li < count
        invariant
            li <= count,
            count == lines@.len(),
            line_views(lines@) == split_lines(out@),
            forall|j: int| 0 <= j < li ==> !device_line_matches(#[trigger] line_views(lines@)[j]),
        decreases count - li,
    {
        let s: &str = lines[li].as_str();
        proof {
            assert(line_views(lines@)[li as int] == s@);
        }
        if str_starts_with(s, "Device") {
            let n = s.unicode_len();
            let i1 = find_char(s, ' ');
            if i1 < n {
                let after_id = s.substring_char(i1 + 1, n);
                let an = after_id.unicode_len();
                let i2 = find_char(after_id, ' ');
                if i2 < an {
                    let name = after_id.substring_char(i2 + 1, an);
                    proof {
                        lemma_first_device_wins(split_lines(out@), li as int);
                    }
                    return name.to_owned();
                }
            }
        }
        li += 1;
    }
    proof {
        lemma_no_device_no_label(split_lines(out@));
    }
    String::new()
}

/// One toggle record per monitored capability, plus the two local toggles
/// that no external utility backs.
pub struct QuickSettingsState {
    pub wifi_enabled: bool,
    pub wifi_network_name: String,
    pub network_enabled: bool,
    pub bluetooth_enabled: bool,
    pub bluetooth_device_name: String,
    pub airplane_enabled: bool,
}

impl QuickSettingsState {
    /// A label names a connection or device only while its capability is
    /// enabled.
    pub open spec fn wf(&self) -> bool {
        &&& self.wifi_network_name@.len() > 0 ==> self.wifi_enabled
        &&& self.bluetooth_device_name@.len() > 0 ==> self.bluetooth_enabled
    }
}

impl Default for QuickSettingsState {
    /// Everything off and unlabeled.
    fn default() -> (s: QuickSettingsState)
        ensures
            !s.wifi_enabled,
            !s.network_enabled,
            !s.bluetooth_enabled,
            !s.airplane_enabled,
            s.wifi_network_name@ == Seq::<char>::empty(),
            s.bluetooth_device_name@ == Seq::<char>::empty(),
            s.wf(),
    {
        QuickSettingsState {
            wifi_enabled: false,
            wifi_network_name: String::new(),
            network_enabled: false,
            bluetooth_enabled: false,
            bluetooth_device_name: String::new(),
            airplane_enabled: false,
        }
    }
}

/// How a Wi-Fi query outcome rewrites the toggle state.  `radio` is the
/// radio status output, absent when the invocation failed; `conns` is the
/// active-connection listing, absent when it was not run or failed.  A
/// failed radio query leaves everything stale; a disabled radio clears the
/// label; a failed connection listing keeps the old label.
pub open spec fn wifi_refresh_rel(
    pre: QuickSettingsState,
    post: QuickSettingsState,
    radio: Option<&str>,
    conns: Option<&str>,
) -> bool {
    &&& post.network_enabled == pre.network_enabled
    &&& post.airplane_enabled == pre.airplane_enabled
    &&& post.bluetooth_enabled == pre.bluetooth_enabled
    &&& post.bluetooth_device_name == pre.bluetooth_device_name
    &&& match radio {
        None => post == pre,
        Some(r) => {
            &&& post.wifi_enabled == radio_reports_enabled(r@)
            &&& if !radio_reports_enabled(r@) {
                post.wifi_network_name@ == Seq::<char>::empty()
            } else {
                match conns {
                    None => post.wifi_network_name == pre.wifi_network_name,
                    Some(c) => match wifi_label(split_lines(c@)) {
                        Some(l) => post.wifi_network_name@ == l,
                        None => post.wifi_network_name@ == Seq::<char>::empty(),
                    },
                }
            }
        },
    }
}

/// How a Bluetooth query outcome rewrites the toggle state; the shape
/// matches the Wi-Fi relation.
pub open spec fn bluetooth_refresh_rel(
    pre: QuickSettingsState,
    post: QuickSettingsState,
    status: Option<&str>,
    devices: Option<&str>,
) -> bool {
    &&& post.network_enabled == pre.network_enabled
    &&& post.airplane_enabled == pre.airplane_enabled
    &&& post.wifi_enabled == pre.wifi_enabled
    &&& post.wifi_network_name == pre.wifi_network_name
    &&& match status {
        None => post == pre,
        Some(r) => {
            &&& post.bluetooth_enabled == bluetooth_reports_powered(r@)
            &&& if !bluetooth_reports_powered(r@) {
                post.bluetooth_device_name@ == Seq::<char>::empty()
            } else {
                match devices {
                    None => post.bluetooth_device_name == pre.bluetooth_device_name,
                    Some(d) => match bluetooth_label(split_lines(d@)) {
                        Some(l) => post.bluetooth_device_name@ == l,
                        None => post.bluetooth_device_name@ == Seq::<char>::empty(),
                    },
                }
            }
        },
    }
}

/// The quick-settings panel: the toggle records, the colours it is drawn
/// with, and one poll timer per polled capability.
pub struct QuickSettings {
    pub state: QuickSettingsState,
    pub colors: Colors,
    pub wifi_timer: PollTimer,
    pub bluetooth_timer: PollTimer,
}

impl QuickSettings {
    /// Fresh panel state: everything off, no poll recorded yet, so the
    /// first poll of either capability is due at once.
    pub fn new(colors: Colors) -> (qs: QuickSettings)
        ensures
            !qs.state.wifi_enabled,
            !qs.state.network_enabled,
            !qs.state.bluetooth_enabled,
            !qs.state.airplane_enabled,
            qs.state.wifi_network_name@ == Seq::<char>::empty(),
            qs.state.bluetooth_device_name@ == Seq::<char>::empty(),
            qs.state.wf(),
            qs.colors == colors,
            qs.wifi_timer.last_poll_ms is None,
            qs.bluetooth_timer.last_poll_ms is None,
    {
        QuickSettings {
            state: QuickSettingsState::default(),
            colors,
            wifi_timer: PollTimer::new(),
            bluetooth_timer: PollTimer::new(),
        }
    }

    /// Swap in a freshly loaded theme.
    pub fn update_colors(&mut self, colors: Colors)
        ensures
            final(self).colors == colors,
            final(self).state == old(self).state,
            final(self).wifi_timer == old(self).wifi_timer,
            final(self).bluetooth_timer == old(self).bluetooth_timer,
    {
        self.colors = colors;
    }

    /// Read access to the toggle records.
    pub fn state(&self) -> (s: &QuickSettingsState)
        ensures
            *s == self.state,
    {
        &self.state
    }

    /// Exclusive access to the toggle records, for the toggles that flip a
    /// local flag only.
    pub fn state_mut(&mut self) -> (s: &mut QuickSettingsState)
        ensures
            *s == old(self).state,
            final(self).state == *final(s),
            final(self).colors == old(self).colors,
            final(self).wifi_timer == old(self).wifi_timer,
            final(self).bluetooth_timer == old(self).bluetooth_timer,
    {
        &mut self.state
    }

    /// Overwrite the Wi-Fi record from fresh query output, regardless of
    /// the poll timer; the toggle path re-queries right after switching.
    pub fn update_wifi_state(&mut self, radio: Option<&str>, conns: Option<&str>)
        ensures
            wifi_refresh_rel(old(self).state, final(self).state, radio, conns),
            final(self).colors == old(self).colors,
            final(self).wifi_timer == old(self).wifi_timer,
            final(self).bluetooth_timer == old(self).bluetooth_timer,
            old(self).state.wf() ==> final(self).state.wf(),
    {
        match radio {
            None => {},
            Some(r) => {
                let enabled = parse_radio_status(r);
                self.state.wifi_enabled = enabled;
                if enabled {
                    match conns {
                        None => {},
                        Some(c) => {
                            self.state.wifi_network_name = parse_wifi_label(c);
                        },
                    }
                } else {
                    self.state.wifi_network_name = String::new();
                }
            },
        }
    }

    /// Overwrite the Bluetooth record from fresh query output, regardless
    /// of the poll timer.
    pub fn update_bluetooth_state(&mut self, status: Option<&str>, devices: Option<&str>)
        ensures
            bluetooth_refresh_rel(old(self).state, final(self).state, status, devices),
            final(self).colors == old(self).colors,
            final(self).wifi_timer == old(self).wifi_timer,
            final(self).bluetooth_timer == old(self).bluetooth_timer,
            old(self).state.wf() ==> final(self).state.wf(),
    {
        match status {
            None => {},
            Some(r) => {
                let powered = parse_bluetooth_status(r);
                self.state.bluetooth_enabled = powered;
                if powered {
                    match devices {
                        None => {},
                        Some(d) => {
                            self.state.bluetooth_device_name = parse_bluetooth_label(d);
                        },
                    }
                } else {
                    self.state.bluetooth_device_name = String::new();
                }
            },
        }
    }

    /// One Wi-Fi poll tick.  Before the interval has elapsed it is a
    /// no-op: state and timer both stay unchanged.  Once due, it applies
    /// the query outcome and restarts the interval.
    pub fn poll_wifi(&mut self, now_ms: u64, radio: Option<&str>, conns: Option<&str>)
        ensures
            !old(self).wifi_timer.due_spec(now_ms) ==> *final(self) == *old(self),
            old(self).wifi_timer.due_spec(now_ms) ==> {
                &&& wifi_refresh_rel(old(self).state, final(self).state, radio, conns)
                &&& final(self).colors == old(self).colors
                &&& final(self).wifi_timer.last_poll_ms == Some(now_ms)
                &&& final(self).bluetooth_timer == old(self).bluetooth_timer
            },
            old(self).state.wf() ==> final(self).state.wf(),
    {
        if !self.wifi_timer.due(now_ms) {
            return;
        }
        self.update_wifi_state(radio, conns);
        self.wifi_timer.last_poll_ms = Some(now_ms);
    }

    /// One Bluetooth poll tick; the cadence rule matches the Wi-Fi one.
    pub fn poll_bluetooth(&mut self, now_ms: u64, status: Option<&str>, devices: Option<&str>)
        ensures
            !old(self).bluetooth_timer.due_spec(now_ms) ==> *final(self) == *old(self),
            old(self).bluetooth_timer.due_spec(now_ms) ==> {
                &&& bluetooth_refresh_rel(old(self).state, final(self).state, status, devices)
                &&& final(self).colors == old(self).colors
                &&& final(self).bluetooth_timer.last_poll_ms == Some(now_ms)
                &&& final(self).wifi_timer == old(self).wifi_timer
            },
            old(self).state.wf() ==> final(self).state.wf(),
    {
        if !self.bluetooth_timer.due(now_ms) {
            return;
        }
        self.update_bluetooth_state(status, devices);
        self.bluetooth_timer.last_poll_ms = Some(now_ms);
    }

    /// The power state a user-initiated Wi-Fi toggle must request: the
    /// opposite of what is currently shown.
    pub fn wifi_toggle_target(&self) -> (on: bool)
        ensures
            on == !self.state.wifi_enabled,
    {
        !self.state.wifi_enabled
    }

    /// The power state a user-initiated Bluetooth toggle must request.
    pub fn bluetooth_toggle_target(&self) -> (on: bool)
        ensures
            on == !self.state.bluetooth_enabled,
    {
        !self.state.bluetooth_enabled
    }
}

/// A read right after a toggle shows the new state at once: the refresh
/// relation never consults the poll timer, so a radio output that reports
/// the capability disabled takes effect even while no poll is due.
pub proof fn lemma_toggle_refresh_bypasses_poll_timer(
    pre: QuickSettings,
    post: QuickSettings,
    now_ms: u64,
    radio: &str,
    conns: Option<&str>,
)
    requires
        !pre.wifi_timer.due_spec(now_ms),
        wifi_refresh_rel(pre.state, post.state, Some(radio), conns),
        !radio_reports_enabled(radio@),
    ensures
        !post.state.wifi_enabled,
        post.state.wifi_network_name@ == Seq::<char>::empty(),
{
}

} // verus!
