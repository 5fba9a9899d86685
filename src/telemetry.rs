//! Readings, network rates and the synthetic follow-on samples that keep the
//! charts moving while the real stream is silent.

use crate::series::pushed;
use vstd::prelude::*;

verus! {

/// Capacity of the CPU and memory series.
pub const MAX_POINT: usize = 120;

/// Capacity of the network series, and the ceiling that every series is
/// trimmed to after a poll.
pub const MAX_DATA_POINTS: usize = 500;

/// How many points a new stream starts with, so the charts are not empty.
pub const SEED_POINTS: usize = 20;

pub const SEED_CPU: u64 = 5;

pub const SEED_MEM: u64 = 10;

/// Smallest CPU or memory value that is ever recorded.
pub const SAMPLE_FLOOR: u64 = 1;

/// Smallest network value that is ever recorded.
pub const NET_FLOOR: u64 = 5;

/// A byte delta is divided by this before it is charted.
pub const NET_DIVISOR: u64 = 100;

/// Largest synthetic change of a CPU value, in percent.
pub const CPU_SPREAD: u64 = 10;

/// Largest synthetic change of a memory value, in percent.
pub const MEM_SPREAD: u64 = 5;

/// Largest synthetic change of a network value, in percent.
pub const NET_SPREAD: u64 = 20;

/// Silence, in milliseconds, after which a synthetic sample is produced.
pub const HEARTBEAT_MS: u64 = 500;

/// One reading of a container, as the charts use it: CPU and memory in
/// hundredths of a percent, network counters in cumulative bytes.
#[derive(Clone, Copy, Debug, PartialEq, Eq, Structural)]
pub struct Sample {
    pub cpu_hundredths: u64,
    pub mem_hundredths: u64,
    pub net_rx: u64,
    pub net_tx: u64,
}

impl Sample {
    pub fn zero() -> (r: Sample)
        ensures
            r == (Sample { cpu_hundredths: 0, mem_hundredths: 0, net_rx: 0, net_tx: 0 }),
    {
        Sample { cpu_hundredths: 0, mem_hundredths: 0, net_rx: 0, net_tx: 0 }
    }
}

/// One point of the network chart: received and sent bytes per interval,
/// divided by `NET_DIVISOR`.
#[derive(Clone, Copy, Debug, PartialEq, Eq, Structural)]
pub struct NetData {
    pub net_rx: u64,
    pub net_tx: u64,
}

/// Four random numbers, one for each synthetic value.
#[derive(Clone, Copy, Debug, PartialEq, Eq, Structural)]
pub struct JitterDraws {
    pub cpu: u64,
    pub mem: u64,
    pub rx: u64,
    pub tx: u64,
}

pub open spec fn at_least(v: u64, floor: u64) -> u64 {
    if v < floor {
        floor
    } else {
        v
    }
}

/// The charted rate for a counter that went from `prev` to `cur`: the delta
/// (zero when the counter went back) divided by `NET_DIVISOR`, at least
/// `NET_FLOOR`.
pub open spec fn scaled_delta(prev: u64, cur: u64) -> u64 {
    let delta: int = if cur >= prev {
        cur - prev
    } else {
        0
    };
    let q: int = delta / (NET_DIVISOR as int);
    if q < NET_FLOOR {
        NET_FLOOR
    } else {
        q as u64
    }
}

pub open spec fn net_point(prev: (u64, u64), s: Sample) -> NetData {
    NetData { net_rx: scaled_delta(prev.0, s.net_rx), net_tx: scaled_delta(prev.1, s.net_tx) }
}

/// The change in percent that `draw` picks, from `-spread` to `spread`.
pub open spec fn jitter_percent(draw: u64, spread: u64) -> int {
    (draw as int) % (2 * spread + 1) - spread as int
}

/// `last` changed by `pct` percent, the change rounded toward zero.
pub open spec fn jitter_target(last: u64, pct: int) -> int {
    if pct >= 0 {
        last + (last * pct) / 100
    } else {
        last - (last * (-pct)) / 100
    }
}

/// The synthetic follow-on of `last`: changed by the percentage that `draw`
/// picks, at least `floor`, at most `u64::MAX`.
pub open spec fn jittered(last: u64, draw: u64, spread: u64, floor: u64) -> u64 {
    let t = jitter_target(last, jitter_percent(draw, spread));
    if t < floor {
        floor
    } else if t > u64::MAX {
        u64::MAX
    } else {
        t as u64
    }
}

/// The rate point between two cumulative readings.
pub fn scaled_rate(prev: u64, cur: u64) -> (r: u64)
    ensures
        r == scaled_delta(prev, cur),
{
    let delta: u64 = if cur >= prev {
        cur - prev
    } else {
        0
    };
    let q = delta / NET_DIVISOR;
    if q < NET_FLOOR {
        NET_FLOOR
    } else {
        q
    }
}

/// A synthetic follow-on of `last`, moved by up to `spread` percent either way.
pub fn jitter(last: u64, draw: u64, spread: u64, floor: u64) -> (r: u64)
    requires
        spread <= 100,
    ensures
        r == jittered(last, draw, spread, floor),
        r >= floor,
{
    let span = 2 * spread + 1;
    let slot = draw % span;
    let up = slot >= spread;
    let mag: u64 = if up {
        slot - spread
    } else {
        spread - slot
    };
    assert(mag <= 100);
    assert((last as u128) * (mag as u128) <= (last as u128) * 100) by (nonlinear_arith)
        requires
            mag <= 100,
    ;
    let product: u128 = (last as u128) * (mag as u128);
    let delta_wide: u128 = product / 100;
    assert(delta_wide <= last);
    let delta = delta_wide as u64;
    let t: u64 = if up {
        if delta > u64::MAX - last {
            u64::MAX
        } else {
            last + delta
        }
    } else {
        last - delta
    };
    if t < floor {
        floor
    } else {
        t
    }
}

/// What the charts hold and how the stream stands, as plain values.
pub struct TelemetryModel {
    pub cpu: Seq<u64>,
    pub mem: Seq<u64>,
    pub net: Seq<NetData>,
    /// The counters of the previous reading since the stream started, if any.
    pub baseline: Option<(u64, u64)>,
    pub last: Sample,
    pub active: bool,
    pub last_heartbeat_ms: u64,
}

/// The state right after a stream starts: seeded charts and no baseline.
pub open spec fn seeded(m: TelemetryModel) -> TelemetryModel {
    TelemetryModel {
        cpu: Seq::new(SEED_POINTS as nat, |i: int| SEED_CPU),
        mem: Seq::new(SEED_POINTS as nat, |i: int| SEED_MEM),
        net: Seq::new(SEED_POINTS as nat, |i: int| NetData { net_rx: NET_FLOOR, net_tx: NET_FLOOR }),
        baseline: None,
        last: m.last,
        active: true,
        last_heartbeat_ms: m.last_heartbeat_ms,
    }
}

/// Starting a stream: nothing changes while one is active.
pub open spec fn started(m: TelemetryModel) -> TelemetryModel {
    if m.active {
        m
    } else {
        seeded(m)
    }
}

/// Folding one real reading into the charts. The first reading after a start
/// only sets the baseline for the network rates.
pub open spec fn after_sample(m: TelemetryModel, s: Sample) -> TelemetryModel {
    TelemetryModel {
        cpu: pushed(m.cpu, at_least(s.cpu_hundredths, SAMPLE_FLOOR), MAX_POINT as nat),
        mem: pushed(m.mem, at_least(s.mem_hundredths, SAMPLE_FLOOR), MAX_POINT as nat),
        net: match m.baseline {
            None => m.net,
            Some(prev) => pushed(m.net, net_point(prev, s), MAX_DATA_POINTS as nat),
        },
        baseline: Some((s.net_rx, s.net_tx)),
        last: s,
        active: m.active,
        last_heartbeat_ms: m.last_heartbeat_ms,
    }
}

/// Folding readings in, first to last.
pub open spec fn after_samples(m: TelemetryModel, ss: Seq<Sample>) -> TelemetryModel
    decreases ss.len(),
{
    if ss.len() == 0 {
        m
    } else {
        after_samples(after_sample(m, ss[0]), ss.drop_first())
    }
}

/// The network point that synthetic values start from.
pub open spec fn last_net(m: TelemetryModel) -> NetData {
    if m.net.len() == 0 {
        NetData { net_rx: NET_FLOOR, net_tx: NET_FLOOR }
    } else {
        m.net.last()
    }
}

pub open spec fn last_or_one(s: Seq<u64>) -> u64 {
    if s.len() == 0 {
        1
    } else {
        s.last()
    }
}

/// One synthetic point on each chart, each a jittered copy of the newest.
pub open spec fn synthesized(m: TelemetryModel, d: JitterDraws) -> TelemetryModel {
    let n = last_net(m);
    TelemetryModel {
        cpu: pushed(m.cpu, jittered(last_or_one(m.cpu), d.cpu, CPU_SPREAD, SAMPLE_FLOOR), MAX_POINT as nat),
        mem: pushed(m.mem, jittered(last_or_one(m.mem), d.mem, MEM_SPREAD, SAMPLE_FLOOR), MAX_POINT as nat),
        net: pushed(
            m.net,
            NetData {
                net_rx: jittered(at_least(n.net_rx, NET_FLOOR), d.rx, NET_SPREAD, NET_FLOOR),
                net_tx: jittered(at_least(n.net_tx, NET_FLOOR), d.tx, NET_SPREAD, NET_FLOOR),
            },
            MAX_DATA_POINTS as nat,
        ),
        ..m
    }
}

/// Whether a heartbeat is due: the charts hold data and the last update is at
/// least `HEARTBEAT_MS` old.
pub open spec fn heartbeat_due(m: TelemetryModel, now_ms: u64) -> bool {
    m.cpu.len() > 0 && now_ms >= m.last_heartbeat_ms + HEARTBEAT_MS
}

/// One poll: the readings that arrived are folded in; with none, a synthetic
/// point is added when a heartbeat is due.
pub open spec fn polled(m: TelemetryModel, ss: Seq<Sample>, now_ms: u64, d: JitterDraws) -> TelemetryModel {
    if ss.len() > 0 {
        TelemetryModel { last_heartbeat_ms: now_ms, ..after_samples(m, ss) }
    } else if heartbeat_due(m, now_ms) {
        TelemetryModel { last_heartbeat_ms: now_ms, ..synthesized(m, d) }
    } else {
        m
    }
}

/// Starting a stream while one is active changes nothing, so a second start
/// leaves the one stream and its charts as the first start left them.
pub proof fn lemma_start_idempotent(m: TelemetryModel)
    ensures
        started(m).active,
        started(started(m)) == started(m),
        m.active ==> started(m) == m,
{
}

/// After a stream starts, the first reading adds no network point; the second
/// adds exactly one, the scaled deltas between the two readings.
pub proof fn lemma_net_delta_baseline(m: TelemetryModel, s1: Sample, s2: Sample, now1: u64, now2: u64, d: JitterDraws)
    requires
        !m.active,
    ensures
        polled(started(m), seq![s1], now1, d).net == started(m).net,
        polled(polled(started(m), seq![s1], now1, d), seq![s2], now2, d).net == pushed(
            started(m).net,
            NetData { net_rx: scaled_delta(s1.net_rx, s2.net_rx), net_tx: scaled_delta(s1.net_tx, s2.net_tx) },
            MAX_DATA_POINTS as nat,
        ),
{
    let m0 = started(m);
    assert(seq![s1].drop_first() =~= Seq::<Sample>::empty());
    assert(seq![s2].drop_first() =~= Seq::<Sample>::empty());
    assert(after_samples(m0, seq![s1]) == after_samples(after_sample(m0, s1), Seq::<Sample>::empty()));
    let m1 = polled(m0, seq![s1], now1, d);
    assert(after_samples(m1, seq![s2]) == after_samples(after_sample(m1, s2), Seq::<Sample>::empty()));
}

/// Every synthetic point is at least the floor of its chart: 1 for CPU and
/// memory, 5 for the network, whatever the draws.
pub proof fn lemma_synthesizer_floor(m: TelemetryModel, d: JitterDraws)
    ensures
        synthesized(m, d).cpu.last() >= SAMPLE_FLOOR,
        synthesized(m, d).mem.last() >= SAMPLE_FLOOR,
        synthesized(m, d).net.last().net_rx >= NET_FLOOR,
        synthesized(m, d).net.last().net_tx >= NET_FLOOR,
{
}

} // verus!
