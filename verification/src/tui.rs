use vstd::prelude::*;

use crate::support::text::{decimal, push_decimal, string_push};
use crate::support::time::{duration_between, instant_elapsed, instant_now};
use crate::wisp::plugins::MetricsSnapshot;

verus! {

/// The number of dashboard tabs.
pub const TAB_COUNT: usize = 6;

/// The most log lines the dashboard keeps.
pub const MAX_LOG_LINES: usize = 500;

/// A key the dashboard reacts to.
#[derive(Debug, Clone, Copy, PartialEq, Eq, Structural)]
pub enum TuiKey {
    Char(char),
    Tab,
    BackTab,
    Up,
    Down,
    Home,
    End,
    Other,
}

/// The dashboard's state.
pub struct TuiState {
    pub should_quit: bool,
    pub selected_tab: usize,
    pub scroll_offset: usize,
    pub metrics: MetricsSnapshot,
    pub logs: Vec<String>,
    pub start_time: std::time::Instant,
}

/// The log after one more line: the line is appended and, past the limit,
/// the oldest line dropped.
pub open spec fn logs_after_push(logs: Seq<String>, msg: String) -> Seq<String> {
    let pushed = logs.push(msg);
    if pushed.len() > MAX_LOG_LINES {
        pushed.drop_first()
    } else {
        pushed
    }
}

impl TuiState {
    pub fn new() -> (r: Self)
        ensures
            !r.should_quit,
            r.selected_tab == 0,
            r.scroll_offset == 0,
            r.metrics == (MetricsSnapshot {
                connections_total: 0,
                connections_active: 0,
                streams_total: 0,
                streams_active: 0,
                bytes_in: 0,
                bytes_out: 0,
            }),
            r.logs@.len() == 0,
    {
        TuiState {
            should_quit: false,
            selected_tab: 0,
            scroll_offset: 0,
            metrics: MetricsSnapshot::zero(),
            logs: Vec::new(),
            start_time: instant_now(),
        }
    }

    /// The time since the dashboard started: the span from its start time to
    /// the moment the clock is read.
    pub fn uptime(&self) -> (r: std::time::Duration)
        ensures
            exists|now: std::time::Instant| r == #[trigger] duration_between(now, self.start_time),
    {
        instant_elapsed(&self.start_time)
    }

    pub fn push_log(&mut self, msg: String)
        ensures
            final(self).logs@ == logs_after_push(old(self).logs@, msg),
            final(self).should_quit == old(self).should_quit,
            final(self).selected_tab == old(self).selected_tab,
            final(self).scroll_offset == old(self).scroll_offset,
            final(self).metrics == old(self).metrics,
            final(self).start_time == old(self).start_time,
    {
        self.logs.push(msg);
        if self.logs.len() > MAX_LOG_LINES {
            self.logs.remove(0);
            assert(self.logs@ =~= old(self).logs@.push(msg).drop_first());
        }
    }
}

/// The tab after `Tab`: the next one, wrapping around.
pub open spec fn next_tab(tab: usize) -> usize {
    ((tab + 1) % (TAB_COUNT as int)) as usize
}

/// The tab after `BackTab`: the previous one, wrapping around.
pub open spec fn previous_tab(tab: usize) -> usize {
    if tab == 0 {
        (TAB_COUNT - 1) as usize
    } else {
        (tab - 1) as usize
    }
}

/// The log never holds more than `MAX_LOG_LINES` lines, and the newest line
/// is always the last one pushed.
pub proof fn lemma_log_stays_bounded(logs: Seq<String>, msg: String)
    requires
        logs.len() <= MAX_LOG_LINES,
    ensures
        logs_after_push(logs, msg).len() <= MAX_LOG_LINES,
        logs_after_push(logs, msg).last() == msg,
{
}

/// Switching tabs either way keeps the selected tab among the tabs.
pub proof fn lemma_tab_stays_in_range(tab: usize)
    requires
        tab < TAB_COUNT,
    ensures
        next_tab(tab) < TAB_COUNT,
        previous_tab(tab) < TAB_COUNT,
        previous_tab(next_tab(tab)) == tab,
        next_tab(previous_tab(tab)) == tab,
{
}

/// Reacts to a key press: `q` or Ctrl-C quits; Tab and BackTab switch tabs
/// and scroll back to the top; Up and Down scroll the log by a line, Home and
/// End jump to its ends; `r` notes a refresh in the log.
pub fn handle_input(key: TuiKey, control: bool, state: &mut TuiState)
    requires
        key == TuiKey::Tab ==> old(state).selected_tab < usize::MAX,
    ensures
        final(state).should_quit == (old(state).should_quit || key == TuiKey::Char('q') || (key == TuiKey::Char('c') && control)),
        final(state).selected_tab == (match key {
            TuiKey::Tab => next_tab(old(state).selected_tab),
            TuiKey::BackTab => previous_tab(old(state).selected_tab),
            _ => old(state).selected_tab,
        }),
        final(state).scroll_offset == (match key {
            TuiKey::Tab | TuiKey::BackTab | TuiKey::Home => 0,
            TuiKey::Up => if old(state).scroll_offset < usize::MAX { (old(state).scroll_offset + 1) as usize } else { usize::MAX },
            TuiKey::Down => if old(state).scroll_offset > 0 { (old(state).scroll_offset - 1) as usize } else { 0 },
            TuiKey::End => usize::MAX,
            _ => old(state).scroll_offset,
        }),
        key == TuiKey::Char('r') ==> (exists|m: String| m@ == "Metrics refreshed"@ && final(state).logs@ == logs_after_push(old(state).logs@, m)),
        key != TuiKey::Char('r') ==> final(state).logs@ == old(state).logs@,
        final(state).metrics == old(state).metrics,
        final(state).start_time == old(state).start_time,
{
    match key {
        TuiKey::Char('q') => {
            state.should_quit = true;
        },
        TuiKey::Char('c') if control => {
            state.should_quit = true;
        },
        TuiKey::Tab => {
            state.selected_tab = (state.selected_tab + 1) % TAB_COUNT;
            state.scroll_offset = 0;
        },
        TuiKey::BackTab => {
            state.selected_tab = if state.selected_tab == 0 { TAB_COUNT - 1 } else { state.selected_tab - 1 };
            state.scroll_offset = 0;
        },
        TuiKey::Up => {
            state.scroll_offset = state.scroll_offset.saturating_add(1);
        },
        TuiKey::Down => {
            if state.scroll_offset > 0 {
                state.scroll_offset = state.scroll_offset - 1;
            }
        },
        TuiKey::Home => {
            state.scroll_offset = 0;
        },
        TuiKey::End => {
            state.scroll_offset = usize::MAX;
        },
        TuiKey::Char('r') => {
            let m = "Metrics refreshed".to_owned();
            state.push_log(m);
        },
        _ => {},
    }
}

/// The first of the most recent log lines that fit in `visible` rows.
pub fn recent_logs_start(total: usize, visible: usize) -> (r: usize)
    ensures
        r == (if total > visible { total - visible } else { 0 }),
{
    if total > visible {
        total - visible
    } else {
        0
    }
}

/// The lines `start..end` of the log panel: scrolled `scroll_offset` lines
/// up from the end (from the top when that is past the start), or the last
/// lines that fit when not scrolled; at most `visible` lines.
pub open spec fn log_window_start(total: usize, scroll_offset: usize, visible: usize) -> usize {
    if scroll_offset >= total {
        0
    } else if scroll_offset > 0 {
        (total - scroll_offset) as usize
    } else if total > visible {
        (total - visible) as usize
    } else {
        0
    }
}

pub fn log_window(total: usize, scroll_offset: usize, visible: usize) -> (r: (usize, usize))
    requires
        total + visible <= usize::MAX,
    ensures
        r.0 == log_window_start(total, scroll_offset, visible),
        r.1 == (if r.0 + visible < total { r.0 + visible } else { total as int }),
        r.0 <= r.1 <= total,
{
    let start = if scroll_offset >= total {
        0
    } else if scroll_offset > 0 {
        total - scroll_offset
    } else if total > visible {
        total - visible
    } else {
        0
    };
    let end = if start + visible < total { start + visible } else { total };
    (start, end)
}

/// A number written with at least two digits, as `{:02}` does.
pub open spec fn two_digits(n: nat) -> Seq<char> {
    if n < 10 {
        seq!['0'] + decimal(n)
    } else {
        decimal(n)
    }
}

/// An uptime in seconds as `hh:mm:ss`.
pub open spec fn uptime_text(secs: u64) -> Seq<char> {
    two_digits((secs / 3600) as nat) + seq![':'] + two_digits(((secs % 3600) / 60) as nat) + seq![':'] + two_digits((secs % 60) as nat)
}

fn push_two_digits(out: &mut String, n: u64)
    ensures
        final(out)@ == old(out)@ + two_digits(n as nat),
{
    if n < 10 {
        string_push(out, '0');
    }
    push_decimal(out, n);
    assert(out@ =~= old(out)@ + two_digits(n as nat));
}

pub fn format_uptime(secs: u64) -> (r: String)
    ensures
        r@ == uptime_text(secs),
{
    let mut s = String::new();
    push_two_digits(&mut s, secs / 3600);
    string_push(&mut s, ':');
    push_two_digits(&mut s, (secs % 3600) / 60);
    string_push(&mut s, ':');
    push_two_digits(&mut s, secs % 60);
    assert(s@ =~= uptime_text(secs));
    s
}

} // verus!
