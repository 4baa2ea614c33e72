//! What one draw of the screen shows: made from the latest readings, the
//! registry and the selection, and changing none of them.

use vstd::prelude::*;
use crate::mem::{base10_size_text, usage_text, MemData};
use crate::registry::Registry;
use crate::selection::{Selection, SelectionState};
use crate::server::{unknown_status, ServerState, ServerStateView, ServerStatus, StatusView};
use crate::stats::SystemStats;
use crate::text::{decimal, push_decimal, texts_of};
use crate::usage::{
    bar_color, color_of, ratio_hundredths, rounded_percent, whole_percent, Rgb, Usage,
};

verus! {

/// The share of the width below the system section that the list of
/// servers takes, in percent.
pub const LIST_WIDTH_PERCENT: u16 = 20;

/// The share of that width that the details of the selected server take.
pub const DETAIL_WIDTH_PERCENT: u16 = 80;

/// The rows that the border of the system section takes: one above the
/// bars and one below.
pub const BORDER_ROWS: u16 = 2;

/// One horizontal bar of the system section.
#[derive(Clone, Debug, PartialEq, Eq)]
pub struct Bar {
    /// What the bar stands for.
    pub label: String,
    /// The bar's length, out of 100.
    pub value: u64,
    /// What is written on the bar.
    pub text: String,
    /// The colour of the bar.
    pub color: Rgb,
}

/// A `Bar` as plain values.
pub ghost struct BarView {
    pub label: Seq<char>,
    pub value: u64,
    pub text: Seq<char>,
    pub color: Rgb,
}

impl View for Bar {
    type V = BarView;

    open spec fn view(&self) -> BarView {
        BarView { label: self.label@, value: self.value, text: self.text@, color: self.color }
    }
}

/// What one draw of the screen shows.
#[derive(Clone, Debug, PartialEq, Eq)]
pub struct Frame {
    /// The height of the system section in rows, border included.
    pub system_height: u16,
    /// The bars of the system section, from the top: one for each
    /// processor, then the one for the memory.
    pub bars: Vec<Bar>,
    /// The rows of the list of servers, in the registry's order.
    pub rows: Vec<String>,
    /// The row of the list that is highlighted, if the list has it.
    pub highlighted: Option<usize>,
    /// The lines of the details of the selected server.
    pub details: Vec<String>,
}

/// A `Frame` as plain values.
pub ghost struct FrameView {
    pub system_height: u16,
    pub bars: Seq<BarView>,
    pub rows: Seq<Seq<char>>,
    pub highlighted: Option<usize>,
    pub details: Seq<Seq<char>>,
}

/// The bars as plain values.
pub open spec fn bar_views(bars: Seq<Bar>) -> Seq<BarView> {
    bars.map_values(|bar: Bar| bar@)
}

impl View for Frame {
    type V = FrameView;

    open spec fn view(&self) -> FrameView {
        FrameView {
            system_height: self.system_height,
            bars: bar_views(self.bars@),
            rows: texts_of(self.rows@),
            highlighted: self.highlighted,
            details: texts_of(self.details@),
        }
    }
}

/// A bar with the given label for a reading of `h` hundredths of a
/// percent: as long as the reading has whole percents, with the reading to
/// the nearest percent written on it, in the reading's colour.
pub open spec fn usage_bar(label: Seq<char>, h: int) -> BarView {
    BarView {
        label,
        value: whole_percent(h) as u64,
        text: decimal(rounded_percent(h) as nat),
        color: color_of(h),
    }
}

/// The label of the bar of the processor `i`.
pub open spec fn cpu_label(i: nat) -> Seq<char> {
    "CPU "@ + decimal(i)
}

/// The bar of the memory: as long and of the colour of the share in use,
/// with the bytes in use and all bytes written on it.
pub open spec fn memory_bar(used: u64, total: u64) -> BarView {
    let h = ratio_hundredths(used as int, total as int);
    BarView {
        label: "RAM"@,
        value: whole_percent(h) as u64,
        text: usage_text(base10_size_text(used), base10_size_text(total)),
        color: color_of(h),
    }
}

/// The bars of the system section: one for each processor, in order, then
/// the one for the memory.
pub open spec fn chart_of(cpu_usages: Seq<Usage>, used: u64, total: u64) -> Seq<BarView> {
    Seq::new(cpu_usages.len(), |i: int| usage_bar(cpu_label(i as nat), cpu_usages[i]@)).push(
        memory_bar(used, total),
    )
}

/// The height of a system section of `bars` bars: a row for each bar and
/// the border, but no more than a screen can have.
pub open spec fn height_of(bars: nat) -> u16 {
    if bars + BORDER_ROWS > u16::MAX {
        u16::MAX
    } else {
        (bars + BORDER_ROWS) as u16
    }
}

/// The row of a server in the list: its address and how many players it
/// has.
pub open spec fn row_of(entry: ServerStateView) -> Seq<char> {
    entry.ip + " - "@ + decimal(entry.status.player_count as nat)
}

/// The rows of the list of servers: one for each entry, in order.
pub open spec fn rows_of(entries: Seq<ServerStateView>) -> Seq<Seq<char>> {
    entries.map_values(|entry: ServerStateView| row_of(entry))
}

/// The row to highlight: the selected one, where the list has it.
pub open spec fn highlight_of(rows: nat, selection: Selection) -> Option<usize> {
    if 0 <= selection.selected_index < rows {
        Some(selection.selected_index as usize)
    } else {
        None
    }
}

/// The status that the details show: that of the selected entry, or that
/// of a server of which nothing is known where there is no such entry.
pub open spec fn selected_status(entries: Seq<ServerStateView>, selection: Selection) -> StatusView {
    if 0 <= selection.selected_index < entries.len() {
        entries[selection.selected_index].status
    } else {
        unknown_status()
    }
}

/// The line that says whether the server is online.
pub open spec fn status_line(online: bool) -> Seq<char> {
    if online {
        "Status: Online"@
    } else {
        "Status: Offline"@
    }
}

/// The line that says how many players the server has, and how many it
/// takes.
pub open spec fn count_line(player_count: u64, max_players: u64) -> Seq<char> {
    "Player Count: "@ + decimal(player_count as nat) + " / "@ + decimal(max_players as nat)
}

/// The line of one player: the name behind a tabulator.
pub open spec fn player_line(name: Seq<char>) -> Seq<char> {
    "\t"@ + name
}

/// The lines of the details of a status: whether the server is online, its
/// players counted, a heading, and a line for each player, in order.
pub open spec fn details_of(status: StatusView) -> Seq<Seq<char>> {
    seq![
        status_line(status.online),
        count_line(status.player_count, status.max_players),
        "Players:"@,
    ] + status.players.map_values(|name: Seq<char>| player_line(name))
}

/// What one draw shows of the given readings, entries and selection.
pub open spec fn frame_of(
    cpu_usages: Seq<Usage>,
    used: u64,
    total: u64,
    entries: Seq<ServerStateView>,
    selection: Selection,
) -> FrameView {
    FrameView {
        system_height: height_of(cpu_usages.len() + 1),
        bars: chart_of(cpu_usages, used, total),
        rows: rows_of(entries),
        highlighted: highlight_of(entries.len(), selection),
        details: details_of(selected_status(entries, selection)),
    }
}

/// The system section holds a bar for each processor and one for the
/// memory, and is as high as its bars and its border: no bar is cut off
/// and no row is left empty, as long as a screen can be that high.
pub proof fn lemma_height_fits_bars(
    cpu_usages: Seq<Usage>,
    used: u64,
    total: u64,
    entries: Seq<ServerStateView>,
    selection: Selection,
)
    ensures
        frame_of(cpu_usages, used, total, entries, selection).bars.len() == cpu_usages.len() + 1,
        cpu_usages.len() + 1 + BORDER_ROWS <= u16::MAX ==> frame_of(
            cpu_usages,
            used,
            total,
            entries,
            selection,
        ).system_height == cpu_usages.len() + 1 + BORDER_ROWS,
{
}

/// The list has a row for each entry, in the registry's order, and where
/// the selection is on one of them, that row is highlighted.
pub proof fn lemma_rows_follow_entries(
    cpu_usages: Seq<Usage>,
    used: u64,
    total: u64,
    entries: Seq<ServerStateView>,
    selection: Selection,
)
    ensures
        frame_of(cpu_usages, used, total, entries, selection).rows.len() == entries.len(),
        forall|k: int|
            0 <= k < entries.len() ==> #[trigger] frame_of(
                cpu_usages,
                used,
                total,
                entries,
                selection,
            ).rows[k] == row_of(entries[k]),
        0 <= selection.selected_index < entries.len() ==> frame_of(
            cpu_usages,
            used,
            total,
            entries,
            selection,
        ).highlighted == Some(selection.selected_index as usize),
{
}

/// A bar with the given label for the given reading.
pub fn horizontal_bar(label: String, value: Usage) -> (bar: Bar)
    ensures
        bar@ == usage_bar(label@, value@),
{
    let mut text = String::new();
    push_decimal(&mut text, value.rounded());
    assert(text@ =~= decimal(rounded_percent(value@) as nat));
    Bar { label, value: value.whole(), text, color: bar_color(value) }
}

/// The bar of the memory.
pub fn memory_usage_bar(mem: &MemData) -> (bar: Bar)
    ensures
        bar@ == memory_bar(mem.used, mem.total),
{
    let share = mem.get_percent();
    Bar {
        label: String::from_str("RAM"),
        value: share.whole(),
        text: mem.usage_string(),
        color: bar_color(share),
    }
}

/// The bars of the system section: one for each processor that was read,
/// then the one for the memory.
pub fn cpu_chart(stats: &SystemStats) -> (bars: Vec<Bar>)
    ensures
        bar_views(bars@) == chart_of(stats.cpu_usages@, stats.mem_usage, stats.max_mem),
        bars@.len() == stats.cpu_usages@.len() + 1,
{
    let mut bars: Vec<Bar> = Vec::new();
    let mut i: usize = 0;
    while i < stats.cpu_usages.len()
        invariant
            i <= stats.cpu_usages.len(),
            bars@.len() == i,
            forall|k: int|
                0 <= k < i ==> (#[trigger] bars@[k])@ == usage_bar(
                    cpu_label(k as nat),
                    stats.cpu_usages@[k]@,
                ),
        decreases stats.cpu_usages.len() - i,
    {
        let mut label = String::from_str("CPU ");
        push_decimal(&mut label, i as u64);
        bars.push(horizontal_bar(label, stats.cpu_usages[i]));
        i += 1;
    }
    let mem = MemData { used: stats.mem_usage, total: stats.max_mem };
    bars.push(memory_usage_bar(&mem));
    assert(bar_views(bars@) =~= chart_of(stats.cpu_usages@, stats.mem_usage, stats.max_mem));
    bars
}

/// The height of the system section that holds the given number of bars.
pub fn system_height(bars: usize) -> (rows: u16)
    ensures
        rows == height_of(bars as nat),
{
    if bars > (u16::MAX - BORDER_ROWS) as usize {
        u16::MAX
    } else {
        bars as u16 + BORDER_ROWS
    }
}

/// The row of a server in the list.
pub fn list_row(entry: &ServerState) -> (row: String)
    ensures
        row@ == row_of(entry@),
{
    let mut row = entry.ip.clone();
    row.append(" - ");
    push_decimal(&mut row, entry.player_count);
    assert(row@ =~= row_of(entry@));
    row
}

/// The rows of the list of servers, in the registry's order.
pub fn player_list(registry: &Registry) -> (rows: Vec<String>)
    ensures
        texts_of(rows@) == rows_of(registry@),
        rows@.len() == registry@.len(),
{
    let mut rows: Vec<String> = Vec::new();
    let mut i: usize = 0;
    while i < registry.len()
        invariant
            i <= registry@.len(),
            rows@.len() == i,
            forall|k: int| 0 <= k < i ==> (#[trigger] rows@[k])@ == row_of(registry@[k]),
        decreases registry@.len() - i,
    {
        match registry.get(i) {
            Ok(entry) => {
                rows.push(list_row(entry));
            },
            Err(_) => {
                // `i` is a position of the registry.
                assert(false);
            },
        }
        i += 1;
    }
    assert(texts_of(rows@) =~= rows_of(registry@));
    rows
}

/// The lines of the details of a status.
pub fn status_details(status: &ServerStatus) -> (lines: Vec<String>)
    ensures
        texts_of(lines@) == details_of(status@),
{
    let mut lines: Vec<String> = Vec::new();
    if status.online {
        lines.push(String::from_str("Status: Online"));
    } else {
        lines.push(String::from_str("Status: Offline"));
    }
    let mut counts = String::from_str("Player Count: ");
    push_decimal(&mut counts, status.player_count);
    counts.append(" / ");
    push_decimal(&mut counts, status.max_players);
    lines.push(counts);
    lines.push(String::from_str("Players:"));
    let mut i: usize = 0;
    while i < status.players.len()
        invariant
            i <= status.players.len(),
            lines@.len() == 3 + i,
            lines@[0]@ == status_line(status.online),
            lines@[1]@ == count_line(status.player_count, status.max_players),
            lines@[2]@ == "Players:"@,
            forall|k: int|
                0 <= k < i ==> (#[trigger] lines@[3 + k])@ == player_line(status.players@[k]@),
        decreases status.players.len() - i,
    {
        let mut line = String::from_str("\t");
        line.append(status.players[i].as_str());
        lines.push(line);
        i += 1;
    }
    proof {
        let head = seq![
            status_line(status.online),
            count_line(status.player_count, status.max_players),
            "Players:"@,
        ];
        let tail = status@.players.map_values(|name: Seq<char>| player_line(name));
        assert forall|k: int| 0 <= k < 3 + i implies texts_of(lines@)[k] == (head + tail)[k] by {
            if k >= 3 {
                assert(lines@[3 + (k - 3)]@ == player_line(status.players@[k - 3]@));
                assert(tail[k - 3] == player_line(status@.players[k - 3]));
            }
        }
        assert(texts_of(lines@) =~= head + tail);
    }
    lines
}

/// The lines of the details of the selected server.
pub fn server_details(registry: &Registry, selection: &SelectionState) -> (lines: Vec<String>)
    ensures
        texts_of(lines@) == details_of(selected_status(registry@, selection@)),
{
    let status: ServerStatus = match registry.get(selection.selected_index()) {
        Ok(entry) => entry.get_status(),
        Err(_) => ServerStatus::default(),
    };
    status_details(&status)
}

/// What one draw of the screen shows.
pub fn compose(stats: &SystemStats, registry: &Registry, selection: &SelectionState) -> (frame:
    Frame)
    ensures
        frame@ == frame_of(
            stats.cpu_usages@,
            stats.mem_usage,
            stats.max_mem,
            registry@,
            selection@,
        ),
{
    let bars = cpu_chart(stats);
    let rows = player_list(registry);
    let details = server_details(registry, selection);
    let highlighted: Option<usize> = if selection.selected_index() < rows.len() {
        Some(selection.selected_index())
    } else {
        None
    };
    Frame { system_height: system_height(bars.len()), bars, rows, highlighted, details }
}

} // verus!
