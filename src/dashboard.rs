//! The dashboard state: entity lists, selection and action menu, the log, and
//! the telemetry charts, owned by the UI loop and changed only through these
//! methods.

use crate::log::{level_tag, recorded, recorded_all, rendered, LogList, LogType};
use crate::series::{pushed, SeriesBuffer};
use crate::status::{ends_stream, is_done, line_message, stream_ends, stream_events, StreamLine};
use crate::telemetry::{
    after_sample, after_samples, heartbeat_due, jitter, polled, scaled_rate, started, synthesized, JitterDraws,
    NetData, Sample, TelemetryModel, CPU_SPREAD, HEARTBEAT_MS, MAX_DATA_POINTS, MAX_POINT,
    MEM_SPREAD, NET_FLOOR, NET_SPREAD, SAMPLE_FLOOR, SEED_CPU, SEED_MEM, SEED_POINTS,
};
use crate::text::{decimal, decimal_text, texts};
use crate::workload::{create_args, stream_id, DockerCompose, DockerImage};
use vstd::arithmetic::div_mod::{
    lemma_fundamental_div_mod, lemma_fundamental_div_mod_converse_mod, lemma_mod_bound,
};
use rand::RngCore;
use vstd::prelude::*;

verus! {

/// How many entries the action menu has.
pub const MENU_ITEMS: usize = 3;

/// Horizontal step of the log viewport.
pub const LOG_SCROLL_STEP: u16 = 5;

/// Milliseconds between two steps of the chart scroll.
pub const CHART_SCROLL_MS: u64 = 100;

#[derive(Clone, Copy, Debug, PartialEq, Eq, Structural)]
pub enum Tab {
    Containers,
    Images,
    Deployments,
    Logs,
    Settings,
}

pub open spec fn tab_after(t: Tab) -> Tab {
    match t {
        Tab::Containers => Tab::Images,
        Tab::Images => Tab::Deployments,
        Tab::Deployments => Tab::Logs,
        Tab::Logs => Tab::Settings,
        Tab::Settings => Tab::Containers,
    }
}

pub open spec fn tab_before(t: Tab) -> Tab {
    match t {
        Tab::Containers => Tab::Settings,
        Tab::Images => Tab::Containers,
        Tab::Deployments => Tab::Images,
        Tab::Logs => Tab::Deployments,
        Tab::Settings => Tab::Logs,
    }
}

#[derive(Clone, Copy, Debug, PartialEq, Eq, Structural)]
pub enum MenuAction {
    Start,
    Stop,
    Delete,
}

/// The action at a menu position.
pub open spec fn menu_action_at(m: usize) -> MenuAction {
    if m == 0 {
        MenuAction::Start
    } else if m == 1 {
        MenuAction::Stop
    } else {
        MenuAction::Delete
    }
}

pub open spec fn index_ok(sel: Option<usize>, len: nat) -> bool {
    sel matches Some(i) ==> i < len
}

/// Selection after "next" on a list of `len` entries: wraps from the last to
/// the first; an empty list keeps the selection.
pub open spec fn next_index(sel: Option<usize>, len: nat) -> Option<usize> {
    if len == 0 {
        sel
    } else {
        match sel {
            Some(i) => if i + 1 >= len {
                Some(0)
            } else {
                Some((i + 1) as usize)
            },
            None => Some(0),
        }
    }
}

/// Selection after "previous": wraps from the first to the last; an empty list
/// keeps the selection.
pub open spec fn prev_index(sel: Option<usize>, len: nat) -> Option<usize> {
    if len == 0 {
        sel
    } else {
        match sel {
            Some(i) => if i == 0 {
                Some((len - 1) as usize)
            } else {
                Some((i - 1) as usize)
            },
            None => Some((len - 1) as usize),
        }
    }
}

/// Selection once the list has shrunk to `len` entries: none when empty, the
/// last entry when it pointed past the end.
pub open spec fn clamp_index(sel: Option<usize>, len: nat) -> Option<usize> {
    if len == 0 {
        None
    } else {
        match sel {
            Some(i) => if i >= len {
                Some((len - 1) as usize)
            } else {
                Some(i)
            },
            None => None,
        }
    }
}

/// The menu position after one step down, wrapping from the last entry to the
/// first.
pub open spec fn menu_step(m: usize) -> usize {
    ((m + 1) % (MENU_ITEMS as int)) as usize
}

/// Selection after "next" taken `k` times.
pub open spec fn next_times(sel: Option<usize>, len: nat, k: nat) -> Option<usize>
    decreases k,
{
    if k == 0 {
        sel
    } else {
        next_index(next_times(sel, len, (k - 1) as nat), len)
    }
}

/// Taking "next" as many times as the list is long, from any entry, comes back
/// to that entry; "previous" on an empty list leaves the selection as it is.
pub proof fn lemma_selection_wraps(i: usize, len: nat, sel: Option<usize>)
    requires
        i < len <= usize::MAX,
    ensures
        next_times(Some(i), len, len) == Some(i),
        prev_index(sel, 0) == sel,
{
    lemma_next_times_mod(i, len, len);
    lemma_fundamental_div_mod_converse_mod(i + len, len as int, 1, i as int);
}

proof fn lemma_next_times_mod(i: usize, len: nat, k: nat)
    requires
        i < len <= usize::MAX,
    ensures
        next_times(Some(i), len, k) == Some(((i + k) % (len as int)) as usize),
    decreases k,
{
    if k == 0 {
        lemma_fundamental_div_mod_converse_mod(i as int, len as int, 0, i as int);
    } else {
        lemma_next_times_mod(i, len, (k - 1) as nat);
        let x: int = i + k - 1;
        let j: int = x % (len as int);
        let q: int = x / (len as int);
        lemma_fundamental_div_mod(x, len as int);
        lemma_mod_bound(x, len as int);
        let d: int = len as int;
        if j + 1 >= len {
            assert(x + 1 == (q + 1) * d + 0) by (nonlinear_arith)
                requires
                    x == d * q + j,
                    j + 1 == d,
            ;
            lemma_fundamental_div_mod_converse_mod(x + 1, d, q + 1, 0);
        } else {
            assert(x + 1 == q * d + (j + 1)) by (nonlinear_arith)
                requires
                    x == d * q + j,
            ;
            lemma_fundamental_div_mod_converse_mod(x + 1, d, q, j + 1);
        }
    }
}

/// Three steps down the menu come back to where they started.
pub proof fn lemma_menu_cycle(m: usize)
    requires
        m < MENU_ITEMS,
    ensures
        menu_step(menu_step(menu_step(m))) == m,
{
}

/// The log scroll after one step right on a log whose rendering is `len`
/// characters long.
pub open spec fn scrolled_right(offset: u16, len: nat) -> u16 {
    let want: int = offset + LOG_SCROLL_STEP;
    let capped: int = if want > u16::MAX {
        u16::MAX as int
    } else {
        want
    };
    if capped > len {
        len as u16
    } else {
        capped as u16
    }
}

/// The log scroll after one step left.
pub open spec fn scrolled_left(offset: u16) -> u16 {
    if offset < LOG_SCROLL_STEP {
        0
    } else {
        (offset - LOG_SCROLL_STEP) as u16
    }
}

fn text_list2(a: &str, b: &str) -> (r: Vec<String>)
    ensures
        texts(r@) == seq![a@, b@],
{
    let mut r: Vec<String> = Vec::new();
    r.push(String::from_str(a));
    r.push(String::from_str(b));
    assert(texts(r@) =~= seq![a@, b@]);
    r
}

/// Relies on rand::rngs::OsRng's `try_fill_bytes`: eight bytes from the
/// operating system's random source, read as a little-endian number, or
/// `None` when the source reports an error. Nothing is known of the value.
#[verifier::external_body]
fn os_random_u64() -> (r: Option<u64>) {
    let mut buf = [0u8; 8];
    match rand::rngs::OsRng.try_fill_bytes(&mut buf) {
        Ok(()) => Some(u64::from_le_bytes(buf)),
        Err(_) => None,
    }
}

/// Four fresh random numbers, or `None` when the random source fails.
fn fresh_draws() -> (r: Option<JitterDraws>) {
    let cpu = os_random_u64()?;
    let mem = os_random_u64()?;
    let rx = os_random_u64()?;
    let tx = os_random_u64()?;
    Some(JitterDraws { cpu, mem, rx, tx })
}

/// Draws that stand in where no synthetic point is made, so none is read.
pub open spec fn unused_draws() -> JitterDraws {
    JitterDraws { cpu: 0, mem: 0, rx: 0, tx: 0 }
}

pub struct App {
    pub current_tab: Tab,
    pub containers: Vec<DockerCompose>,
    /// The selected entry of `containers`.
    pub container_idx: Option<usize>,
    pub loading: bool,
    pub log: LogList,
    /// The entry of `containers` whose action menu is open.
    pub expanded_index: Option<usize>,
    pub menu_selection: usize,
    pub details_state: bool,
    pub images: Vec<DockerImage>,
    /// The selected entry of `images`.
    pub image_idx: Option<usize>,
    /// Whether a container-creation stream is attached.
    pub log_stream_active: bool,
    pub log_scroll: u16,
    /// Whether a telemetry stream is attached.
    pub analytics_active: bool,
    /// The newest real reading.
    pub analytics: Sample,
    pub cpu_data: SeriesBuffer<u64>,
    pub mem_data: SeriesBuffer<u64>,
    pub net_data: SeriesBuffer<NetData>,
    /// Network counters of the previous reading of the current stream.
    pub net_baseline: Option<(u64, u64)>,
    pub last_heartbeat_ms: u64,
    pub scroll_offset: usize,
    pub last_scroll_ms: u64,
}

impl App {
    pub open spec fn wf(&self) -> bool {
        &&& index_ok(self.container_idx, self.containers@.len())
        &&& index_ok(self.expanded_index, self.containers@.len())
        &&& self.menu_selection < MENU_ITEMS
        &&& index_ok(self.image_idx, self.images@.len())
        &&& self.log.wf()
        &&& self.cpu_data.wf()
        &&& self.cpu_data.cap() == MAX_POINT
        &&& self.mem_data.wf()
        &&& self.mem_data.cap() == MAX_POINT
        &&& self.net_data.wf()
        &&& self.net_data.cap() == MAX_DATA_POINTS
        &&& self.scroll_offset <= MAX_POINT
    }

    /// The charts and the telemetry stream as plain values.
    pub open spec fn telemetry(&self) -> TelemetryModel {
        TelemetryModel {
            cpu: self.cpu_data@,
            mem: self.mem_data@,
            net: self.net_data@,
            baseline: self.net_baseline,
            last: self.analytics,
            active: self.analytics_active,
            last_heartbeat_ms: self.last_heartbeat_ms,
        }
    }

    /// Whether `self` and `o` agree on the charts and the telemetry stream.
    pub open spec fn same_charts(&self, o: &App) -> bool {
        &&& self.cpu_data == o.cpu_data
        &&& self.mem_data == o.mem_data
        &&& self.net_data == o.net_data
        &&& self.net_baseline == o.net_baseline
        &&& self.analytics == o.analytics
        &&& self.analytics_active == o.analytics_active
        &&& self.last_heartbeat_ms == o.last_heartbeat_ms
        &&& self.scroll_offset == o.scroll_offset
        &&& self.last_scroll_ms == o.last_scroll_ms
    }

    /// Whether `self` and `o` agree on the lists, the tab and the selections.
    pub open spec fn same_lists(&self, o: &App) -> bool {
        &&& self.current_tab == o.current_tab
        &&& self.containers == o.containers
        &&& self.container_idx == o.container_idx
        &&& self.expanded_index == o.expanded_index
        &&& self.menu_selection == o.menu_selection
        &&& self.details_state == o.details_state
        &&& self.images == o.images
        &&& self.image_idx == o.image_idx
    }

    /// Whether `self` and `o` agree on the log and the creation stream.
    pub open spec fn same_log(&self, o: &App) -> bool {
        &&& self.log == o.log
        &&& self.log_scroll == o.log_scroll
        &&& self.loading == o.loading
        &&& self.log_stream_active == o.log_stream_active
    }

    /// An empty dashboard on the containers tab, with nothing selected or
    /// expanded and no stream attached.
    pub fn new() -> (r: App)
        ensures
            r.wf(),
            r.current_tab == Tab::Containers,
            r.containers@.len() == 0,
            r.images@.len() == 0,
            r.container_idx is None,
            r.image_idx is None,
            r.expanded_index is None,
            r.menu_selection == 0,
            !r.loading,
            !r.log_stream_active,
            !r.analytics_active,
            r.telemetry().cpu.len() == 0,
            r.telemetry().mem.len() == 0,
            r.telemetry().net.len() == 0,
            r.net_baseline is None,
            r.log_scroll == 0,
            r.log@ == seq![(Seq::<char>::empty(), Seq::<char>::empty())],
            rendered(r.log@).len() == 0,
    {
        let r = App {
            current_tab: Tab::Containers,
            containers: Vec::new(),
            container_idx: None,
            loading: false,
            log: LogList::new(),
            expanded_index: None,
            menu_selection: 0,
            details_state: false,
            images: Vec::new(),
            image_idx: None,
            log_stream_active: false,
            log_scroll: 0,
            analytics_active: false,
            analytics: Sample::zero(),
            cpu_data: SeriesBuffer::new(MAX_POINT),
            mem_data: SeriesBuffer::new(MAX_POINT),
            net_data: SeriesBuffer::new(MAX_DATA_POINTS),
            net_baseline: None,
            last_heartbeat_ms: 0,
            scroll_offset: 0,
            last_scroll_ms: 0,
        };
        assert(r.log@.drop_last() =~= Seq::<(Seq<char>, Seq<char>)>::empty());
        assert(rendered(r.log@.drop_last()).len() == 0);
        r
    }
}

impl App {
    /// Appends a CPU value, evicting the oldest when the chart is full.
    pub fn cpu_push_data(&mut self, value: u64)
        requires
            old(self).wf(),
        ensures
            final(self).wf(),
            final(self).cpu_data@ == pushed(old(self).cpu_data@, value, MAX_POINT as nat),
            final(self).cpu_data.cap() == MAX_POINT,
            final(self).mem_data == old(self).mem_data,
            final(self).net_data == old(self).net_data,
            final(self).same_lists(old(self)),
            final(self).same_log(old(self)),
            final(self).net_baseline == old(self).net_baseline,
            final(self).analytics == old(self).analytics,
            final(self).analytics_active == old(self).analytics_active,
            final(self).last_heartbeat_ms == old(self).last_heartbeat_ms,
            final(self).scroll_offset == old(self).scroll_offset,
            final(self).last_scroll_ms == old(self).last_scroll_ms,
    {
        self.cpu_data.push(value);
    }

    /// Appends a memory value, evicting the oldest when the chart is full.
    pub fn mem_push_data(&mut self, value: u64)
        requires
            old(self).wf(),
        ensures
            final(self).wf(),
            final(self).mem_data@ == pushed(old(self).mem_data@, value, MAX_POINT as nat),
            final(self).mem_data.cap() == MAX_POINT,
            final(self).cpu_data == old(self).cpu_data,
            final(self).net_data == old(self).net_data,
            final(self).same_lists(old(self)),
            final(self).same_log(old(self)),
            final(self).net_baseline == old(self).net_baseline,
            final(self).analytics == old(self).analytics,
            final(self).analytics_active == old(self).analytics_active,
            final(self).last_heartbeat_ms == old(self).last_heartbeat_ms,
            final(self).scroll_offset == old(self).scroll_offset,
            final(self).last_scroll_ms == old(self).last_scroll_ms,
    {
        self.mem_data.push(value);
    }

    /// The CPU chart, oldest first.
    pub fn cpu_data_as_slice(&self) -> (r: Vec<u64>)
        ensures
            r@ == self.cpu_data@,
    {
        self.cpu_data.snapshot()
    }

    /// The memory chart, oldest first.
    pub fn mem_data_as_slice(&self) -> (r: Vec<u64>)
        ensures
            r@ == self.mem_data@,
    {
        self.mem_data.snapshot()
    }

    /// Advances the chart scroll by one point when more than
    /// `CHART_SCROLL_MS` have passed since its last step; `now_ms` is a
    /// monotonic clock reading.
    pub fn update_cpu_scroll(&mut self, now_ms: u64)
        requires
            old(self).wf(),
        ensures
            final(self).wf(),
            final(self).same_lists(old(self)),
            final(self).same_log(old(self)),
            final(self).telemetry() == old(self).telemetry(),
            final(self).cpu_data == old(self).cpu_data,
            final(self).mem_data == old(self).mem_data,
            final(self).net_data == old(self).net_data,
            ({
                let n = old(self).cpu_data@.len();
                if n > 0 && now_ms > old(self).last_scroll_ms + CHART_SCROLL_MS {
                    &&& final(self).scroll_offset == (old(self).scroll_offset + 1) % (n as int)
                    &&& final(self).last_scroll_ms == now_ms
                } else {
                    &&& final(self).scroll_offset == old(self).scroll_offset
                    &&& final(self).last_scroll_ms == old(self).last_scroll_ms
                }
            }),
    {
        let n = self.cpu_data.len();
        if n == 0 {
            return;
        }
        if now_ms > self.last_scroll_ms && now_ms - self.last_scroll_ms > CHART_SCROLL_MS {
            self.scroll_offset = (self.scroll_offset + 1) % n;
            self.last_scroll_ms = now_ms;
        }
    }

    /// Folds one real reading into the charts.
    fn fold_sample(&mut self, s: Sample)
        requires
            old(self).wf(),
        ensures
            final(self).wf(),
            final(self).telemetry() == after_sample(old(self).telemetry(), s),
            final(self).same_lists(old(self)),
            final(self).same_log(old(self)),
            final(self).scroll_offset == old(self).scroll_offset,
            final(self).last_scroll_ms == old(self).last_scroll_ms,
    {
        let cpu = if s.cpu_hundredths < SAMPLE_FLOOR {
            SAMPLE_FLOOR
        } else {
            s.cpu_hundredths
        };
        self.cpu_data.push(cpu);
        let mem = if s.mem_hundredths < SAMPLE_FLOOR {
            SAMPLE_FLOOR
        } else {
            s.mem_hundredths
        };
        self.mem_data.push(mem);
        match self.net_baseline {
            Some((rx, tx)) => {
                let point = NetData { net_rx: scaled_rate(rx, s.net_rx), net_tx: scaled_rate(tx, s.net_tx) };
                self.net_data.push(point);
            },
            None => {},
        }
        self.net_baseline = Some((s.net_rx, s.net_tx));
        self.analytics = s;
    }

    /// Adds one synthetic point to each chart, a jittered copy of the newest.
    fn synthesize(&mut self, d: JitterDraws)
        requires
            old(self).wf(),
        ensures
            final(self).wf(),
            final(self).telemetry() == synthesized(old(self).telemetry(), d),
            final(self).same_lists(old(self)),
            final(self).same_log(old(self)),
            final(self).scroll_offset == old(self).scroll_offset,
            final(self).last_scroll_ms == old(self).last_scroll_ms,
    {
        let last_cpu = match self.cpu_data.last() {
            Some(v) => v,
            None => 1,
        };
        let last_mem = match self.mem_data.last() {
            Some(v) => v,
            None => 1,
        };
        let new_cpu = jitter(last_cpu, d.cpu, CPU_SPREAD, SAMPLE_FLOOR);
        let new_mem = jitter(last_mem, d.mem, MEM_SPREAD, SAMPLE_FLOOR);
        let net = match self.net_data.last() {
            Some(p) => p,
            None => NetData { net_rx: NET_FLOOR, net_tx: NET_FLOOR },
        };
        let rx_base = if net.net_rx < NET_FLOOR {
            NET_FLOOR
        } else {
            net.net_rx
        };
        let tx_base = if net.net_tx < NET_FLOOR {
            NET_FLOOR
        } else {
            net.net_tx
        };
        let new_rx = jitter(rx_base, d.rx, NET_SPREAD, NET_FLOOR);
        let new_tx = jitter(tx_base, d.tx, NET_SPREAD, NET_FLOOR);
        self.cpu_data.push(new_cpu);
        self.mem_data.push(new_mem);
        self.net_data.push(NetData { net_rx: new_rx, net_tx: new_tx });
    }

    /// One poll of the telemetry stream with given jitter draws: the readings
    /// that arrived are folded in, first to last; with none, a synthetic point
    /// is added when a heartbeat is due. Returns whether readings arrived.
    pub fn poll_analytics_with(&mut self, samples: &Vec<Sample>, now_ms: u64, draws: JitterDraws) -> (r: bool)
        requires
            old(self).wf(),
        ensures
            final(self).wf(),
            r == (samples@.len() > 0),
            final(self).telemetry() == polled(old(self).telemetry(), samples@, now_ms, draws),
            final(self).same_lists(old(self)),
            final(self).same_log(old(self)),
            final(self).scroll_offset == old(self).scroll_offset,
            final(self).last_scroll_ms == old(self).last_scroll_ms,
    {
        let n = samples.len();
        let mut i: usize = 0;
        assert(samples@.subrange(0, n as int) =~= samples@);
        while i < n
            invariant
                n == samples@.len(),
                i <= n,
                self.wf(),
                after_samples(self.telemetry(), samples@.subrange(i as int, n as int))
                    == after_samples(old(self).telemetry(), samples@),
                self.same_lists(old(self)),
                self.same_log(old(self)),
                self.scroll_offset == old(self).scroll_offset,
                self.last_scroll_ms == old(self).last_scroll_ms,
            decreases n - i,
        {
            let ghost rest = samples@.subrange(i as int, n as int);
            assert(rest[0] == samples@[i as int]);
            assert(rest.drop_first() =~= samples@.subrange(i as int + 1, n as int));
            self.fold_sample(samples[i]);
            i = i + 1;
        }
        assert(samples@.subrange(n as int, n as int) =~= Seq::<Sample>::empty());
        if n > 0 {
            self.last_heartbeat_ms = now_ms;
        } else if !self.cpu_data.is_empty() && now_ms >= self.last_heartbeat_ms
            && now_ms - self.last_heartbeat_ms >= HEARTBEAT_MS {
            self.synthesize(draws);
            self.last_heartbeat_ms = now_ms;
        }
        self.cpu_data.drain_excess(MAX_DATA_POINTS);
        self.mem_data.drain_excess(MAX_DATA_POINTS);
        self.net_data.drain_excess(MAX_DATA_POINTS);
        n > 0
    }

    /// One poll of the telemetry stream. When no reading arrived and a
    /// heartbeat is due, random draws are taken for the synthetic point; if the
    /// random source fails, the poll changes nothing and the heartbeat stays
    /// due. Returns whether readings arrived.
    pub fn poll_analytics(&mut self, samples: &Vec<Sample>, now_ms: u64) -> (r: bool)
        requires
            old(self).wf(),
        ensures
            final(self).wf(),
            r == (samples@.len() > 0),
            (samples@.len() > 0 || !heartbeat_due(old(self).telemetry(), now_ms))
                ==> final(self).telemetry() == polled(old(self).telemetry(), samples@, now_ms, unused_draws()),
            (samples@.len() == 0 && heartbeat_due(old(self).telemetry(), now_ms)) ==> (
                final(self).telemetry() == old(self).telemetry()
                || exists|d: JitterDraws| final(self).telemetry() == polled(old(self).telemetry(), samples@, now_ms, d)
            ),
            final(self).same_lists(old(self)),
            final(self).same_log(old(self)),
            final(self).scroll_offset == old(self).scroll_offset,
            final(self).last_scroll_ms == old(self).last_scroll_ms,
    {
        let due = samples.len() == 0 && !self.cpu_data.is_empty() && now_ms >= self.last_heartbeat_ms
            && now_ms - self.last_heartbeat_ms >= HEARTBEAT_MS;
        if !due {
            let none = JitterDraws { cpu: 0, mem: 0, rx: 0, tx: 0 };
            return self.poll_analytics_with(samples, now_ms, none);
        }
        match fresh_draws() {
            Some(draws) => self.poll_analytics_with(samples, now_ms, draws),
            None => false,
        }
    }

    /// Starts a telemetry stream for `container_id`: the charts are cleared and
    /// seeded, and the worker arguments to run are returned. While a stream is
    /// active nothing changes and nothing is returned.
    pub fn start_analytics_stream(&mut self, container_id: &str) -> (r: Option<Vec<String>>)
        requires
            old(self).wf(),
        ensures
            final(self).wf(),
            final(self).telemetry() == started(old(self).telemetry()),
            old(self).analytics_active ==> r is None,
            !old(self).analytics_active ==> (r matches Some(args) && texts(args@) == seq!["stream"@, container_id@]),
            final(self).same_lists(old(self)),
            final(self).same_log(old(self)),
            final(self).scroll_offset == old(self).scroll_offset,
            final(self).last_scroll_ms == old(self).last_scroll_ms,
    {
        if self.analytics_active {
            return None;
        }
        self.cpu_data.clear();
        self.mem_data.clear();
        self.net_data.clear();
        self.net_baseline = None;
        let mut i: usize = 0;
        while i < SEED_POINTS
            invariant
                i <= SEED_POINTS,
                self.wf(),
                self.cpu_data@ =~= Seq::new(i as nat, |j: int| SEED_CPU),
                self.mem_data@ =~= Seq::new(i as nat, |j: int| SEED_MEM),
                self.net_data@ =~= Seq::new(i as nat, |j: int| NetData { net_rx: NET_FLOOR, net_tx: NET_FLOOR }),
                self.net_baseline is None,
                !self.analytics_active,
                self.analytics == old(self).analytics,
                self.last_heartbeat_ms == old(self).last_heartbeat_ms,
                self.same_lists(old(self)),
                self.same_log(old(self)),
                self.scroll_offset == old(self).scroll_offset,
                self.last_scroll_ms == old(self).last_scroll_ms,
            decreases SEED_POINTS - i,
        {
            self.cpu_data.push(SEED_CPU);
            self.mem_data.push(SEED_MEM);
            self.net_data.push(NetData { net_rx: NET_FLOOR, net_tx: NET_FLOOR });
            i = i + 1;
        }
        self.analytics_active = true;
        Some(text_list2("stream", container_id))
    }
}

impl App {
    pub fn next_tab(&mut self)
        requires
            old(self).wf(),
        ensures
            final(self).wf(),
            final(self).current_tab == tab_after(old(self).current_tab),
            final(self).containers == old(self).containers,
            final(self).container_idx == old(self).container_idx,
            final(self).expanded_index == old(self).expanded_index,
            final(self).menu_selection == old(self).menu_selection,
            final(self).details_state == old(self).details_state,
            final(self).images == old(self).images,
            final(self).image_idx == old(self).image_idx,
            final(self).same_log(old(self)),
            final(self).same_charts(old(self)),
    {
        self.current_tab = match self.current_tab {
            Tab::Containers => Tab::Images,
            Tab::Images => Tab::Deployments,
            Tab::Deployments => Tab::Logs,
            Tab::Logs => Tab::Settings,
            Tab::Settings => Tab::Containers,
        };
    }

    pub fn prev_tab(&mut self)
        requires
            old(self).wf(),
        ensures
            final(self).wf(),
            final(self).current_tab == tab_before(old(self).current_tab),
            final(self).containers == old(self).containers,
            final(self).container_idx == old(self).container_idx,
            final(self).expanded_index == old(self).expanded_index,
            final(self).menu_selection == old(self).menu_selection,
            final(self).details_state == old(self).details_state,
            final(self).images == old(self).images,
            final(self).image_idx == old(self).image_idx,
            final(self).same_log(old(self)),
            final(self).same_charts(old(self)),
    {
        self.current_tab = match self.current_tab {
            Tab::Containers => Tab::Settings,
            Tab::Images => Tab::Containers,
            Tab::Deployments => Tab::Images,
            Tab::Logs => Tab::Deployments,
            Tab::Settings => Tab::Logs,
        };
    }

    /// Removes the last container; the selection is clamped and an open menu
    /// on a removed entry is closed.
    pub fn delete(&mut self)
        requires
            old(self).wf(),
        ensures
            final(self).wf(),
            final(self).containers@ == (if old(self).containers@.len() == 0 {
                old(self).containers@
            } else {
                old(self).containers@.drop_last()
            }),
            final(self).container_idx == clamp_index(old(self).container_idx, final(self).containers@.len()),
            (old(self).expanded_index matches Some(i) && i >= final(self).containers@.len()) ==> {
                &&& final(self).expanded_index is None
                &&& final(self).menu_selection == 0
            },
            !(old(self).expanded_index matches Some(i) && i >= final(self).containers@.len()) ==> {
                &&& final(self).expanded_index == old(self).expanded_index
                &&& final(self).menu_selection == old(self).menu_selection
            },
            final(self).current_tab == old(self).current_tab,
            final(self).details_state == old(self).details_state,
            final(self).images == old(self).images,
            final(self).image_idx == old(self).image_idx,
            final(self).same_log(old(self)),
            final(self).same_charts(old(self)),
    {
        let _ = self.containers.pop();
        let len = self.containers.len();
        self.container_idx = match self.container_idx {
            Some(i) => if len == 0 {
                None
            } else if i >= len {
                Some(len - 1)
            } else {
                Some(i)
            },
            None => None,
        };
        match self.expanded_index {
            Some(i) => if i >= len {
                self.expanded_index = None;
                self.menu_selection = 0;
            },
            None => {},
        }
    }

    /// Selects the next container, wrapping from the last to the first; the
    /// selection stays while the action menu is open.
    pub fn select_next_container(&mut self)
        requires
            old(self).wf(),
        ensures
            final(self).wf(),
            final(self).container_idx == (if old(self).expanded_index is Some {
                old(self).container_idx
            } else {
                next_index(old(self).container_idx, old(self).containers@.len())
            }),
            final(self).current_tab == old(self).current_tab,
            final(self).containers == old(self).containers,
            final(self).expanded_index == old(self).expanded_index,
            final(self).menu_selection == old(self).menu_selection,
            final(self).details_state == old(self).details_state,
            final(self).images == old(self).images,
            final(self).image_idx == old(self).image_idx,
            final(self).same_log(old(self)),
            final(self).same_charts(old(self)),
    {
        let len = self.containers.len();
        if len == 0 || self.expanded_index.is_some() {
            return;
        }
        self.container_idx = match self.container_idx {
            Some(i) => if i >= len - 1 {
                Some(0)
            } else {
                Some(i + 1)
            },
            None => Some(0),
        };
    }

    /// Selects the previous container, wrapping from the first to the last;
    /// the selection stays while the action menu is open.
    pub fn select_prev_container(&mut self)
        requires
            old(self).wf(),
        ensures
            final(self).wf(),
            final(self).container_idx == (if old(self).expanded_index is Some {
                old(self).container_idx
            } else {
                prev_index(old(self).container_idx, old(self).containers@.len())
            }),
            final(self).current_tab == old(self).current_tab,
            final(self).containers == old(self).containers,
            final(self).expanded_index == old(self).expanded_index,
            final(self).menu_selection == old(self).menu_selection,
            final(self).details_state == old(self).details_state,
            final(self).images == old(self).images,
            final(self).image_idx == old(self).image_idx,
            final(self).same_log(old(self)),
            final(self).same_charts(old(self)),
    {
        let len = self.containers.len();
        if len == 0 || self.expanded_index.is_some() {
            return;
        }
        self.container_idx = match self.container_idx {
            Some(i) => if i == 0 {
                Some(len - 1)
            } else {
                Some(i - 1)
            },
            None => Some(len - 1),
        };
    }

    /// Selects the next image, wrapping from the last to the first.
    pub fn select_next_image(&mut self)
        requires
            old(self).wf(),
        ensures
            final(self).wf(),
            final(self).image_idx == next_index(old(self).image_idx, old(self).images@.len()),
            final(self).current_tab == old(self).current_tab,
            final(self).containers == old(self).containers,
            final(self).container_idx == old(self).container_idx,
            final(self).expanded_index == old(self).expanded_index,
            final(self).menu_selection == old(self).menu_selection,
            final(self).details_state == old(self).details_state,
            final(self).images == old(self).images,
            final(self).same_log(old(self)),
            final(self).same_charts(old(self)),
    {
        let len = self.images.len();
        if len == 0 {
            return;
        }
        self.image_idx = match self.image_idx {
            Some(i) => if i >= len - 1 {
                Some(0)
            } else {
                Some(i + 1)
            },
            None => Some(0),
        };
    }

    /// Selects the previous image, wrapping from the first to the last.
    pub fn select_prev_image(&mut self)
        requires
            old(self).wf(),
        ensures
            final(self).wf(),
            final(self).image_idx == prev_index(old(self).image_idx, old(self).images@.len()),
            final(self).current_tab == old(self).current_tab,
            final(self).containers == old(self).containers,
            final(self).container_idx == old(self).container_idx,
            final(self).expanded_index == old(self).expanded_index,
            final(self).menu_selection == old(self).menu_selection,
            final(self).details_state == old(self).details_state,
            final(self).images == old(self).images,
            final(self).same_log(old(self)),
            final(self).same_charts(old(self)),
    {
        let len = self.images.len();
        if len == 0 {
            return;
        }
        self.image_idx = match self.image_idx {
            Some(i) => if i == 0 {
                Some(len - 1)
            } else {
                Some(i - 1)
            },
            None => Some(len - 1),
        };
    }

    /// Opens the action menu on the selected container at its first entry, or
    /// closes it when it is open on that container already.
    pub fn toggle_expand(&mut self)
        requires
            old(self).wf(),
        ensures
            final(self).wf(),
            old(self).container_idx is None ==> {
                &&& final(self).expanded_index == old(self).expanded_index
                &&& final(self).menu_selection == old(self).menu_selection
            },
            old(self).container_idx matches Some(sel) ==> {
                &&& final(self).expanded_index == (if old(self).expanded_index == Some(sel) {
                    None
                } else {
                    Some(sel)
                })
                &&& final(self).menu_selection == 0
            },
            final(self).current_tab == old(self).current_tab,
            final(self).containers == old(self).containers,
            final(self).container_idx == old(self).container_idx,
            final(self).details_state == old(self).details_state,
            final(self).images == old(self).images,
            final(self).image_idx == old(self).image_idx,
            final(self).same_log(old(self)),
            final(self).same_charts(old(self)),
    {
        if let Some(selected) = self.container_idx {
            if self.expanded_index == Some(selected) {
                self.expanded_index = None;
            } else {
                self.expanded_index = Some(selected);
            }
            self.menu_selection = 0;
        }
    }

    /// Moves the menu highlight down, from the last entry back to the first;
    /// nothing happens while the menu is closed.
    pub fn menu_next(&mut self)
        requires
            old(self).wf(),
        ensures
            final(self).wf(),
            final(self).menu_selection == (if old(self).expanded_index is Some {
                menu_step(old(self).menu_selection)
            } else {
                old(self).menu_selection
            }),
            final(self).current_tab == old(self).current_tab,
            final(self).containers == old(self).containers,
            final(self).container_idx == old(self).container_idx,
            final(self).expanded_index == old(self).expanded_index,
            final(self).details_state == old(self).details_state,
            final(self).images == old(self).images,
            final(self).image_idx == old(self).image_idx,
            final(self).same_log(old(self)),
            final(self).same_charts(old(self)),
    {
        if self.expanded_index.is_some() {
            self.menu_selection = (self.menu_selection + 1) % MENU_ITEMS;
        }
    }

    /// Moves the menu highlight up, from the first entry to the last; nothing
    /// happens while the menu is closed.
    pub fn menu_prev(&mut self)
        requires
            old(self).wf(),
        ensures
            final(self).wf(),
            final(self).menu_selection == (if old(self).expanded_index is Some {
                ((old(self).menu_selection + MENU_ITEMS - 1) % (MENU_ITEMS as int)) as usize
            } else {
                old(self).menu_selection
            }),
            final(self).current_tab == old(self).current_tab,
            final(self).containers == old(self).containers,
            final(self).container_idx == old(self).container_idx,
            final(self).expanded_index == old(self).expanded_index,
            final(self).details_state == old(self).details_state,
            final(self).images == old(self).images,
            final(self).image_idx == old(self).image_idx,
            final(self).same_log(old(self)),
            final(self).same_charts(old(self)),
    {
        if self.expanded_index.is_some() {
            self.menu_selection = if self.menu_selection == 0 {
                MENU_ITEMS - 1
            } else {
                self.menu_selection - 1
            };
        }
    }

    /// Closes the action menu, whatever state it is in.
    pub fn cancel_menu(&mut self)
        requires
            old(self).wf(),
        ensures
            final(self).wf(),
            final(self).expanded_index is None,
            final(self).menu_selection == 0,
            final(self).current_tab == old(self).current_tab,
            final(self).containers == old(self).containers,
            final(self).container_idx == old(self).container_idx,
            final(self).details_state == old(self).details_state,
            final(self).images == old(self).images,
            final(self).image_idx == old(self).image_idx,
            final(self).same_log(old(self)),
            final(self).same_charts(old(self)),
    {
        self.expanded_index = None;
        self.menu_selection = 0;
    }

    /// The highlighted action while the menu is open.
    pub fn get_menu_action(&self) -> (r: Option<MenuAction>)
        ensures
            r == (if self.expanded_index is Some {
                Some(menu_action_at(self.menu_selection))
            } else {
                None
            }),
    {
        if self.expanded_index.is_some() {
            Some(
                if self.menu_selection == 0 {
                    MenuAction::Start
                } else if self.menu_selection == 1 {
                    MenuAction::Stop
                } else {
                    MenuAction::Delete
                },
            )
        } else {
            None
        }
    }

    /// The identifier of the selected container that the telemetry tab
    /// follows, if a container is selected.
    pub fn selected_container_id(&self) -> (r: Option<String>)
        requires
            self.wf(),
        ensures
            self.container_idx is None ==> r is None,
            self.container_idx matches Some(i) ==> (r matches Some(id) && id@ == stream_id(
                self.containers@[i as int],
            )),
    {
        match self.container_idx {
            Some(i) => Some(self.containers[i].stream_id()),
            None => None,
        }
    }

    /// Marks the details pane as shown.
    pub fn toggle_details(&mut self)
        requires
            old(self).wf(),
        ensures
            final(self).wf(),
            final(self).details_state,
            final(self).current_tab == old(self).current_tab,
            final(self).containers == old(self).containers,
            final(self).container_idx == old(self).container_idx,
            final(self).expanded_index == old(self).expanded_index,
            final(self).menu_selection == old(self).menu_selection,
            final(self).images == old(self).images,
            final(self).image_idx == old(self).image_idx,
            final(self).same_log(old(self)),
            final(self).same_charts(old(self)),
    {
        self.details_state = true;
    }
}

impl App {
    /// Performs the highlighted action on the container whose menu is open,
    /// then closes the menu. Start records the intent, marks the dashboard
    /// busy and returns the worker arguments to run, unless a creation stream
    /// is attached already, in which case it does nothing else. Stop records
    /// the intent. Delete records the intent, removes the entry and clamps the
    /// selection. With the menu closed nothing changes.
    pub fn execute_menu_action(&mut self) -> (r: Option<Vec<String>>)
        requires
            old(self).wf(),
        ensures
            final(self).wf(),
            old(self).expanded_index is None ==> r is None && *final(self) == *old(self),
            old(self).expanded_index matches Some(idx) ==> ({
                let c = old(self).containers@[idx as int];
                let action = menu_action_at(old(self).menu_selection);
                &&& final(self).expanded_index is None
                &&& final(self).menu_selection == 0
                &&& final(self).current_tab == old(self).current_tab
                &&& final(self).details_state == old(self).details_state
                &&& final(self).images == old(self).images
                &&& final(self).image_idx == old(self).image_idx
                &&& final(self).log_scroll == old(self).log_scroll
                &&& final(self).same_charts(old(self))
                &&& action != MenuAction::Delete ==> {
                    &&& final(self).containers == old(self).containers
                    &&& final(self).container_idx == old(self).container_idx
                }
                &&& (action == MenuAction::Start && !old(self).log_stream_active) ==> {
                    &&& r matches Some(args) && texts(args@) == create_args(c)
                    &&& final(self).log@ == recorded(old(self).log@, (level_tag(LogType::Info), "Creating container: "@ + c.name@))
                    &&& final(self).loading
                    &&& final(self).log_stream_active
                }
                &&& (action == MenuAction::Start && old(self).log_stream_active) ==> {
                    &&& r is None
                    &&& final(self).log == old(self).log
                    &&& final(self).loading == old(self).loading
                    &&& final(self).log_stream_active
                }
                &&& action == MenuAction::Stop ==> {
                    &&& r is None
                    &&& final(self).log@ == recorded(old(self).log@, (level_tag(LogType::Info), "Stopping: "@ + c.name@))
                    &&& final(self).loading == old(self).loading
                    &&& final(self).log_stream_active == old(self).log_stream_active
                }
                &&& action == MenuAction::Delete ==> {
                    &&& r is None
                    &&& final(self).log@ == recorded(old(self).log@, (level_tag(LogType::Info), "Deleting: "@ + c.name@))
                    &&& final(self).containers@ == old(self).containers@.remove(idx as int)
                    &&& final(self).container_idx == clamp_index(old(self).container_idx, final(self).containers@.len())
                    &&& final(self).loading == old(self).loading
                    &&& final(self).log_stream_active == old(self).log_stream_active
                }
            }),
    {
        let idx = match self.expanded_index {
            Some(i) => i,
            None => {
                return None;
            },
        };
        let action = self.get_menu_action();
        let mut command: Option<Vec<String>> = None;
        match action {
            Some(MenuAction::Start) => {
                if !self.log_stream_active {
                    let container = &self.containers[idx];
                    let message = String::from_str("Creating container: ").concat(container.name.as_str());
                    let args = container.create_args();
                    self.log.print_mes(LogType::Info, message.as_str());
                    self.loading = true;
                    self.log_stream_active = true;
                    command = Some(args);
                }
            },
            Some(MenuAction::Stop) => {
                let message = String::from_str("Stopping: ").concat(self.containers[idx].name.as_str());
                self.log.print_mes(LogType::Info, message.as_str());
            },
            Some(MenuAction::Delete) => {
                let message = String::from_str("Deleting: ").concat(self.containers[idx].name.as_str());
                self.log.print_mes(LogType::Info, message.as_str());
                let _ = self.containers.remove(idx);
                let len = self.containers.len();
                self.container_idx = match self.container_idx {
                    Some(i) => if len == 0 {
                        None
                    } else if i >= len {
                        Some(len - 1)
                    } else {
                        Some(i)
                    },
                    None => None,
                };
            },
            None => {},
        }
        self.expanded_index = None;
        self.menu_selection = 0;
        command
    }

    /// Takes the lines that the attached creation stream produced since the
    /// last poll. Each line before the end marker becomes one log event; the
    /// end marker detaches the stream and clears the busy flag. Without an
    /// attached stream nothing changes. Returns whether any line arrived.
    pub fn poll_logs(&mut self, lines: &Vec<StreamLine>) -> (r: bool)
        requires
            old(self).wf(),
        ensures
            final(self).wf(),
            !old(self).log_stream_active ==> !r && *final(self) == *old(self),
            old(self).log_stream_active ==> {
                &&& r == (lines@.len() > 0)
                &&& final(self).log@ == recorded_all(old(self).log@, stream_events(lines@))
                &&& final(self).log_stream_active == !stream_ends(lines@)
                &&& final(self).loading == (old(self).loading && !stream_ends(lines@))
                &&& final(self).log_scroll == old(self).log_scroll
                &&& final(self).same_lists(old(self))
                &&& final(self).same_charts(old(self))
            },
    {
        if !self.log_stream_active {
            return false;
        }
        let n = lines.len();
        let mut i: usize = 0;
        let mut ended = false;
        assert(lines@.subrange(0, n as int) =~= lines@);
        while i < n && !ended
            invariant
                n == lines@.len(),
                i <= n,
                ended ==> i < n && is_done(lines@[i as int]),
                forall|j: int| 0 <= j < i ==> !is_done(#[trigger] lines@[j]),
                recorded_all(self.log@, stream_events(lines@.subrange(i as int, n as int)))
                    == recorded_all(old(self).log@, stream_events(lines@)),
                self.log.wf(),
                self.log_stream_active == !ended,
                self.loading == (old(self).loading && !ended),
                self.log_scroll == old(self).log_scroll,
                self.same_lists(old(self)),
                self.same_charts(old(self)),
            decreases n - i + (if ended { 0int } else { 1int }),
        {
            let line = &lines[i];
            let ghost rest = lines@.subrange(i as int, n as int);
            assert(rest[0] == lines@[i as int]);
            if ends_stream(line) {
                self.loading = false;
                self.log_stream_active = false;
                ended = true;
            } else {
                let (kind, message) = line_message(line);
                let ghost e = (level_tag(kind), message@);
                assert(rest.drop_first() =~= lines@.subrange(i as int + 1, n as int));
                assert(stream_events(rest) == seq![e] + stream_events(rest.drop_first()));
                assert((seq![e] + stream_events(rest.drop_first())).drop_first() =~= stream_events(rest.drop_first()));
                self.log.print_mes(kind, message.as_str());
                i = i + 1;
            }
        }
        proof {
            if ended {
                assert(stream_ends(lines@));
            } else {
                assert(lines@.subrange(n as int, n as int) =~= Seq::<StreamLine>::empty());
                assert(!stream_ends(lines@));
            }
        }
        n > 0
    }

    /// Moves the log viewport five characters left, stopping at the start.
    pub fn scroll_log_left(&mut self)
        requires
            old(self).wf(),
        ensures
            final(self).wf(),
            final(self).log_scroll == scrolled_left(old(self).log_scroll),
            final(self).log == old(self).log,
            final(self).loading == old(self).loading,
            final(self).log_stream_active == old(self).log_stream_active,
            final(self).same_lists(old(self)),
            final(self).same_charts(old(self)),
    {
        self.log_scroll = self.log_scroll.saturating_sub(LOG_SCROLL_STEP);
    }

    /// Moves the log viewport five characters right, stopping at the end of
    /// the rendered log.
    pub fn scroll_log_right(&mut self)
        requires
            old(self).wf(),
        ensures
            final(self).wf(),
            final(self).log_scroll == scrolled_right(old(self).log_scroll, rendered(old(self).log@).len()),
            final(self).log == old(self).log,
            final(self).loading == old(self).loading,
            final(self).log_stream_active == old(self).log_stream_active,
            final(self).same_lists(old(self)),
            final(self).same_charts(old(self)),
    {
        let len = self.log.to_display_string().as_str().unicode_len();
        let want = self.log_scroll.saturating_add(LOG_SCROLL_STEP);
        self.log_scroll = if (want as usize) > len {
            len as u16
        } else {
            want
        };
    }
}

impl App {
    /// Starts a refresh of the container list: the list is emptied, the
    /// selection cleared, the menu closed and the dashboard marked busy.
    pub fn begin_container_fetch(&mut self)
        requires
            old(self).wf(),
        ensures
            final(self).wf(),
            final(self).loading,
            final(self).containers@.len() == 0,
            final(self).container_idx is None,
            final(self).expanded_index is None,
            final(self).menu_selection == 0,
            final(self).current_tab == old(self).current_tab,
            final(self).details_state == old(self).details_state,
            final(self).images == old(self).images,
            final(self).image_idx == old(self).image_idx,
            final(self).log == old(self).log,
            final(self).log_scroll == old(self).log_scroll,
            final(self).log_stream_active == old(self).log_stream_active,
            final(self).same_charts(old(self)),
    {
        self.loading = true;
        self.containers.clear();
        self.container_idx = None;
        self.expanded_index = None;
        self.menu_selection = 0;
    }

    /// Takes one line of a compose read: the line is logged, and the service
    /// it describes, if it describes one, is added to the list.
    pub fn add_compose_output(&mut self, line: &str, parsed: Option<DockerCompose>)
        requires
            old(self).wf(),
        ensures
            final(self).wf(),
            final(self).log@ == recorded(old(self).log@, (level_tag(LogType::Info), line@)),
            final(self).containers@ == (match parsed {
                Some(c) => old(self).containers@.push(c),
                None => old(self).containers@,
            }),
            final(self).current_tab == old(self).current_tab,
            final(self).container_idx == old(self).container_idx,
            final(self).expanded_index == old(self).expanded_index,
            final(self).menu_selection == old(self).menu_selection,
            final(self).details_state == old(self).details_state,
            final(self).images == old(self).images,
            final(self).image_idx == old(self).image_idx,
            final(self).log_scroll == old(self).log_scroll,
            final(self).loading == old(self).loading,
            final(self).log_stream_active == old(self).log_stream_active,
            final(self).same_charts(old(self)),
    {
        self.log.print_mes(LogType::Info, line);
        match parsed {
            Some(c) => self.containers.push(c),
            None => {},
        }
    }

    /// Ends a refresh of the container list: the first entry is selected when
    /// there is one, and the busy flag is cleared.
    pub fn finish_container_fetch(&mut self)
        requires
            old(self).wf(),
        ensures
            final(self).wf(),
            !final(self).loading,
            final(self).container_idx == (if old(self).containers@.len() == 0 {
                None
            } else {
                Some(0usize)
            }),
            final(self).current_tab == old(self).current_tab,
            final(self).containers == old(self).containers,
            final(self).expanded_index == old(self).expanded_index,
            final(self).menu_selection == old(self).menu_selection,
            final(self).details_state == old(self).details_state,
            final(self).images == old(self).images,
            final(self).image_idx == old(self).image_idx,
            final(self).log == old(self).log,
            final(self).log_scroll == old(self).log_scroll,
            final(self).log_stream_active == old(self).log_stream_active,
            final(self).same_charts(old(self)),
    {
        self.container_idx = if self.containers.len() == 0 {
            None
        } else {
            Some(0)
        };
        self.loading = false;
    }

    /// Starts a refresh of the image list: the list is emptied, the selection
    /// cleared and the dashboard marked busy.
    pub fn begin_image_fetch(&mut self)
        requires
            old(self).wf(),
        ensures
            final(self).wf(),
            final(self).loading,
            final(self).images@.len() == 0,
            final(self).image_idx is None,
            final(self).current_tab == old(self).current_tab,
            final(self).containers == old(self).containers,
            final(self).container_idx == old(self).container_idx,
            final(self).expanded_index == old(self).expanded_index,
            final(self).menu_selection == old(self).menu_selection,
            final(self).details_state == old(self).details_state,
            final(self).log == old(self).log,
            final(self).log_scroll == old(self).log_scroll,
            final(self).log_stream_active == old(self).log_stream_active,
            final(self).same_charts(old(self)),
    {
        self.loading = true;
        self.images.clear();
        self.image_idx = None;
    }

    /// Adds one image to the list.
    pub fn add_image(&mut self, image: DockerImage)
        requires
            old(self).wf(),
        ensures
            final(self).wf(),
            final(self).images@ == old(self).images@.push(image),
            final(self).current_tab == old(self).current_tab,
            final(self).containers == old(self).containers,
            final(self).container_idx == old(self).container_idx,
            final(self).expanded_index == old(self).expanded_index,
            final(self).menu_selection == old(self).menu_selection,
            final(self).details_state == old(self).details_state,
            final(self).image_idx == old(self).image_idx,
            final(self).same_log(old(self)),
            final(self).same_charts(old(self)),
    {
        self.images.push(image);
    }

    /// Ends a refresh of the image list: the count is logged, the first entry
    /// selected when there is one, and the busy flag cleared.
    pub fn finish_image_fetch(&mut self)
        requires
            old(self).wf(),
        ensures
            final(self).wf(),
            !final(self).loading,
            old(self).images@.len() == 0 ==> {
                &&& final(self).log@ == recorded(old(self).log@, (level_tag(LogType::Info), "No Docker images found"@))
                &&& final(self).image_idx == old(self).image_idx
            },
            old(self).images@.len() > 0 ==> {
                &&& final(self).log@ == recorded(
                    old(self).log@,
                    (level_tag(LogType::Info), "Found "@ + decimal(old(self).images@.len()) + " images"@),
                )
                &&& final(self).image_idx == Some(0usize)
            },
            final(self).current_tab == old(self).current_tab,
            final(self).containers == old(self).containers,
            final(self).container_idx == old(self).container_idx,
            final(self).expanded_index == old(self).expanded_index,
            final(self).menu_selection == old(self).menu_selection,
            final(self).details_state == old(self).details_state,
            final(self).images == old(self).images,
            final(self).log_scroll == old(self).log_scroll,
            final(self).log_stream_active == old(self).log_stream_active,
            final(self).same_charts(old(self)),
    {
        let n = self.images.len();
        if n == 0 {
            self.log.print_mes(LogType::Info, "No Docker images found");
        } else {
            let message = String::from_str("Found ").concat(decimal_text(n).as_str()).concat(" images");
            self.log.print_mes(LogType::Info, message.as_str());
            self.image_idx = Some(0);
        }
        self.loading = false;
    }
}

impl Default for App {
    fn default() -> (r: App)
        ensures
            r.wf(),
            r.current_tab == Tab::Containers,
            r.containers@.len() == 0,
            r.images@.len() == 0,
            r.container_idx is None,
            r.image_idx is None,
            r.expanded_index is None,
            r.menu_selection == 0,
            !r.loading,
            !r.log_stream_active,
            !r.analytics_active,
            r.telemetry().cpu.len() == 0,
            r.telemetry().mem.len() == 0,
            r.telemetry().net.len() == 0,
            r.net_baseline is None,
            r.log_scroll == 0,
            r.log@ == seq![(Seq::<char>::empty(), Seq::<char>::empty())],
            rendered(r.log@).len() == 0,
    {
        App::new()
    }
}

} // verus!
