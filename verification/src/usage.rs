//! Usage accounting: the per-CPU counters that the data plane keeps are
//! added up per session and per usage reporting rule (URR), and a URR whose
//! volume threshold is reached or whose period has run out is reported to
//! the SMF in a Session Report Request (3GPP TS 29.244 §5.2.2).
use vstd::prelude::*;
use std::collections::HashMap;
use std::time::Instant;
use crate::builder::{build_session_report_request, spec_build_session_report_request};
use crate::clock::elapsed_millis;
use crate::dataplane::SessionStats;
use crate::net::SocketAddr;
use crate::types::{
    REPORTING_TRIGGER_PERIO, REPORTING_TRIGGER_VOLTH, USAGE_REPORT_TRIGGER_PERIO,
    USAGE_REPORT_TRIGGER_VOLTH,
};

verus! {

broadcast use vstd::std_specs::hash::group_hash_axioms;

/// Counters of one URR on one CPU.
#[derive(Clone, Copy, Debug, PartialEq, Eq, Structural)]
pub struct UrrStats {
    pub ul_bytes: u64,
    pub dl_bytes: u64,
    pub ul_packets: u64,
    pub dl_packets: u64,
}

/// URR map key: (seid, urr_id) composed into one u64 as rule keys are.
#[derive(Clone, Copy, Debug, PartialEq, Eq, Structural)]
pub struct UrrKey {
    pub key: u64,
}

/// The sum of a sequence of counters.
pub open spec fn sum_of(v: Seq<u64>) -> int
    decreases v.len(),
{
    if v.len() == 0 {
        0
    } else {
        sum_of(v.drop_last()) + v.last()
    }
}

pub open spec fn ul_bytes_of(v: Seq<UrrStats>) -> Seq<u64> {
    v.map_values(|s: UrrStats| s.ul_bytes)
}

pub open spec fn dl_bytes_of(v: Seq<UrrStats>) -> Seq<u64> {
    v.map_values(|s: UrrStats| s.dl_bytes)
}

pub open spec fn ul_packets_of(v: Seq<UrrStats>) -> Seq<u64> {
    v.map_values(|s: UrrStats| s.ul_packets)
}

pub open spec fn dl_packets_of(v: Seq<UrrStats>) -> Seq<u64> {
    v.map_values(|s: UrrStats| s.dl_packets)
}

proof fn lemma_sum_prefix(v: Seq<u64>, i: int)
    requires
        0 <= i <= v.len(),
    ensures
        sum_of(v.take(i)) <= sum_of(v),
        i < v.len() ==> sum_of(v.take(i + 1)) == sum_of(v.take(i)) + v[i],
    decreases v.len(),
{
    if i < v.len() {
        assert(v.take(i + 1).drop_last() =~= v.take(i));
        let init = v.drop_last();
        if i < v.len() - 1 {
            assert(v.take(i) =~= init.take(i));
            lemma_sum_prefix(init, i);
        } else {
            assert(v.take(i) =~= init);
        }
    } else {
        assert(v.take(i) =~= v);
    }
}

/// The counters of one URR over all CPUs (each sum must fit in 64 bits).
pub fn total_urr_stats(per_cpu: &[UrrStats]) -> (r: UrrStats)
    requires
        sum_of(ul_bytes_of(per_cpu@)) <= u64::MAX,
        sum_of(dl_bytes_of(per_cpu@)) <= u64::MAX,
        sum_of(ul_packets_of(per_cpu@)) <= u64::MAX,
        sum_of(dl_packets_of(per_cpu@)) <= u64::MAX,
    ensures
        r.ul_bytes == sum_of(ul_bytes_of(per_cpu@)),
        r.dl_bytes == sum_of(dl_bytes_of(per_cpu@)),
        r.ul_packets == sum_of(ul_packets_of(per_cpu@)),
        r.dl_packets == sum_of(dl_packets_of(per_cpu@)),
{
    let mut sum = UrrStats { ul_bytes: 0, dl_bytes: 0, ul_packets: 0, dl_packets: 0 };
    let mut i: usize = 0;
    let ghost v = per_cpu@;
    while i < per_cpu.len()
        invariant
            0 <= i <= v.len(),
            v == per_cpu@,
            sum_of(ul_bytes_of(v)) <= u64::MAX,
            sum_of(dl_bytes_of(v)) <= u64::MAX,
            sum_of(ul_packets_of(v)) <= u64::MAX,
            sum_of(dl_packets_of(v)) <= u64::MAX,
            sum.ul_bytes == sum_of(ul_bytes_of(v).take(i as int)),
            sum.dl_bytes == sum_of(dl_bytes_of(v).take(i as int)),
            sum.ul_packets == sum_of(ul_packets_of(v).take(i as int)),
            sum.dl_packets == sum_of(dl_packets_of(v).take(i as int)),
        decreases v.len() - i,
    {
        proof {
            lemma_sum_prefix(ul_bytes_of(v), i + 1);
            lemma_sum_prefix(dl_bytes_of(v), i + 1);
            lemma_sum_prefix(ul_packets_of(v), i + 1);
            lemma_sum_prefix(dl_packets_of(v), i + 1);
            lemma_sum_prefix(ul_bytes_of(v), i as int);
            lemma_sum_prefix(dl_bytes_of(v), i as int);
            lemma_sum_prefix(ul_packets_of(v), i as int);
            lemma_sum_prefix(dl_packets_of(v), i as int);
        }
        let s = per_cpu[i];
        sum.ul_bytes = sum.ul_bytes + s.ul_bytes;
        sum.dl_bytes = sum.dl_bytes + s.dl_bytes;
        sum.ul_packets = sum.ul_packets + s.ul_packets;
        sum.dl_packets = sum.dl_packets + s.dl_packets;
        i += 1;
    }
    proof {
        assert(ul_bytes_of(v).take(v.len() as int) =~= ul_bytes_of(v));
        assert(dl_bytes_of(v).take(v.len() as int) =~= dl_bytes_of(v));
        assert(ul_packets_of(v).take(v.len() as int) =~= ul_packets_of(v));
        assert(dl_packets_of(v).take(v.len() as int) =~= dl_packets_of(v));
    }
    sum
}

pub open spec fn rx_bytes_of(v: Seq<SessionStats>) -> Seq<u64> {
    v.map_values(|s: SessionStats| s.rx_bytes)
}

pub open spec fn rx_packets_of(v: Seq<SessionStats>) -> Seq<u64> {
    v.map_values(|s: SessionStats| s.rx_packets)
}

pub open spec fn tx_bytes_of(v: Seq<SessionStats>) -> Seq<u64> {
    v.map_values(|s: SessionStats| s.tx_bytes)
}

pub open spec fn tx_packets_of(v: Seq<SessionStats>) -> Seq<u64> {
    v.map_values(|s: SessionStats| s.tx_packets)
}

/// The traffic counters of one session over all CPUs (each sum must fit in
/// 64 bits).
pub fn total_session_stats(per_cpu: &[SessionStats]) -> (r: SessionStats)
    requires
        sum_of(rx_bytes_of(per_cpu@)) <= u64::MAX,
        sum_of(rx_packets_of(per_cpu@)) <= u64::MAX,
        sum_of(tx_bytes_of(per_cpu@)) <= u64::MAX,
        sum_of(tx_packets_of(per_cpu@)) <= u64::MAX,
    ensures
        r.rx_bytes == sum_of(rx_bytes_of(per_cpu@)),
        r.rx_packets == sum_of(rx_packets_of(per_cpu@)),
        r.tx_bytes == sum_of(tx_bytes_of(per_cpu@)),
        r.tx_packets == sum_of(tx_packets_of(per_cpu@)),
{
    let mut sum = SessionStats { rx_bytes: 0, rx_packets: 0, tx_bytes: 0, tx_packets: 0 };
    let mut i: usize = 0;
    let ghost v = per_cpu@;
    while i < per_cpu.len()
        invariant
            0 <= i <= v.len(),
            v == per_cpu@,
            sum_of(rx_bytes_of(v)) <= u64::MAX,
            sum_of(rx_packets_of(v)) <= u64::MAX,
            sum_of(tx_bytes_of(v)) <= u64::MAX,
            sum_of(tx_packets_of(v)) <= u64::MAX,
            sum.rx_bytes == sum_of(rx_bytes_of(v).take(i as int)),
            sum.rx_packets == sum_of(rx_packets_of(v).take(i as int)),
            sum.tx_bytes == sum_of(tx_bytes_of(v).take(i as int)),
            sum.tx_packets == sum_of(tx_packets_of(v).take(i as int)),
        decreases v.len() - i,
    {
        proof {
            lemma_sum_prefix(rx_bytes_of(v), i + 1);
            lemma_sum_prefix(rx_packets_of(v), i + 1);
            lemma_sum_prefix(tx_bytes_of(v), i + 1);
            lemma_sum_prefix(tx_packets_of(v), i + 1);
            lemma_sum_prefix(rx_bytes_of(v), i as int);
            lemma_sum_prefix(rx_packets_of(v), i as int);
            lemma_sum_prefix(tx_bytes_of(v), i as int);
            lemma_sum_prefix(tx_packets_of(v), i as int);
        }
        let s = per_cpu[i];
        sum.rx_bytes = sum.rx_bytes + s.rx_bytes;
        sum.rx_packets = sum.rx_packets + s.rx_packets;
        sum.tx_bytes = sum.tx_bytes + s.tx_bytes;
        sum.tx_packets = sum.tx_packets + s.tx_packets;
        i += 1;
    }
    proof {
        assert(rx_bytes_of(v).take(v.len() as int) =~= rx_bytes_of(v));
        assert(rx_packets_of(v).take(v.len() as int) =~= rx_packets_of(v));
        assert(tx_bytes_of(v).take(v.len() as int) =~= tx_bytes_of(v));
        assert(tx_packets_of(v).take(v.len() as int) =~= tx_packets_of(v));
    }
    sum
}

// ── Reporting ───────────────────────────────────────────────────────────

/// What the UPF keeps of one URR of a session.
#[derive(Clone, Copy)]
pub struct UrrConfig {
    pub cp_seid: u64,
    pub reporting_triggers: u8,
    pub volume_threshold_total: Option<u64>,
    pub measurement_period: Option<u32>,
    /// The volume threshold was reported already (it is reported once).
    pub threshold_reported: bool,
    pub last_report: Instant,
    /// The next UR-SEQN.
    pub ur_seqn: u32,
}

/// The usage report trigger of a URR and its state afterwards, for a total
/// volume `total_vol`, `elapsed_ms` after its last periodic report: the
/// volume threshold fires once the total reaches it (once per URR); the
/// period fires once it has elapsed, and restarts at `now`.
pub open spec fn spec_urr_trigger(cfg: UrrConfig, total_vol: u64, elapsed_ms: u64, now: Instant) -> (u8, UrrConfig) {
    let volth = cfg.reporting_triggers & REPORTING_TRIGGER_VOLTH != 0 && (match cfg.volume_threshold_total {
        Some(th) => total_vol >= th && !cfg.threshold_reported,
        None => false,
    });
    let perio = cfg.reporting_triggers & REPORTING_TRIGGER_PERIO != 0 && (match cfg.measurement_period {
        Some(p) => elapsed_ms >= p * 1000,
        None => false,
    });
    let trigger: u8 = (if volth {
        USAGE_REPORT_TRIGGER_VOLTH
    } else {
        0u8
    }) | (if perio {
        USAGE_REPORT_TRIGGER_PERIO
    } else {
        0u8
    });
    (
        trigger,
        UrrConfig {
            threshold_reported: cfg.threshold_reported || volth,
            last_report: if perio {
                now
            } else {
                cfg.last_report
            },
            ..cfg
        },
    )
}

pub fn urr_trigger(cfg: &mut UrrConfig, total_vol: u64, elapsed_ms: u64, now: Instant) -> (r: u8)
    ensures
        (r, *final(cfg)) == spec_urr_trigger(*old(cfg), total_vol, elapsed_ms, now),
{
    let mut trigger: u8 = 0;
    let mut volth = false;
    if cfg.reporting_triggers & REPORTING_TRIGGER_VOLTH != 0 {
        if let Some(th) = cfg.volume_threshold_total {
            if total_vol >= th && !cfg.threshold_reported {
                trigger = trigger | USAGE_REPORT_TRIGGER_VOLTH;
                cfg.threshold_reported = true;
                volth = true;
            }
        }
    }
    let mut perio = false;
    if cfg.reporting_triggers & REPORTING_TRIGGER_PERIO != 0 {
        if let Some(p) = cfg.measurement_period {
            if elapsed_ms >= p as u64 * 1000 {
                trigger = trigger | USAGE_REPORT_TRIGGER_PERIO;
                cfg.last_report = now;
                perio = true;
            }
        }
    }
    proof {
        let t: u8 = (if volth {
            USAGE_REPORT_TRIGGER_VOLTH
        } else {
            0u8
        }) | (if perio {
            USAGE_REPORT_TRIGGER_PERIO
        } else {
            0u8
        });
        assert(trigger == t) by {
            assert(0u8 | 0x01u8 == 0x01u8) by (bit_vector);
            assert(0u8 | 0x02u8 == 0x02u8) by (bit_vector);
            assert(0x02u8 | 0x01u8 == 0x03u8) by (bit_vector);
            assert(0u8 | 0u8 == 0u8) by (bit_vector);
            assert(0x02u8 | 0u8 == 0x02u8) by (bit_vector);
        }
    }
    trigger
}

/// One URR's turn in a reporting round, over the configurations `configs`
/// and the next sequence number `seq`, for the summed counters `sum` of the
/// URR under `key`, `elapsed_ms` after its last periodic report: a URR
/// without configuration, or whose UR-SEQN or the sequence numbers are used
/// up, is passed over; otherwise its trigger is evaluated, and where one
/// fires a Session Report Request is made, taking the URR's UR-SEQN and the
/// sequence number.
pub open spec fn spec_report_step(
    configs: Map<u64, UrrConfig>,
    seq: u32,
    key: u64,
    sum: UrrStats,
    elapsed_ms: u64,
    now: Instant,
) -> (Map<u64, UrrConfig>, u32, Option<Seq<u8>>) {
    if !configs.contains_key(key) || configs[key].ur_seqn == u32::MAX || seq == u32::MAX {
        (configs, seq, None)
    } else {
        let cfg = configs[key];
        let total = (sum.ul_bytes + sum.dl_bytes) as u64;
        let (trigger, cfg2) = spec_urr_trigger(cfg, total, elapsed_ms, now);
        if trigger == 0 {
            (configs.insert(key, cfg2), seq, None)
        } else {
            (
                configs.insert(key, UrrConfig { ur_seqn: (cfg.ur_seqn + 1) as u32, ..cfg2 }),
                (seq + 1) as u32,
                Some(
                    spec_build_session_report_request(
                        seq,
                        cfg.cp_seid,
                        (key & 0xFFFF) as u32,
                        cfg.ur_seqn,
                        trigger,
                        total,
                        sum.ul_bytes,
                        sum.dl_bytes,
                    ),
                ),
            )
        }
    }
}

/// A reporting round over `totals` in order, the `i`-th URR `elapsed[i]`
/// milliseconds after its last periodic report: the configurations and the
/// next sequence number after it, and the requests made, in order.
pub open spec fn spec_report_round(
    configs: Map<u64, UrrConfig>,
    seq: u32,
    totals: Seq<(u64, UrrStats)>,
    elapsed: Seq<u64>,
    now: Instant,
) -> (Map<u64, UrrConfig>, u32, Seq<Seq<u8>>)
    decreases totals.len(),
{
    if totals.len() == 0 {
        (configs, seq, Seq::empty())
    } else {
        let n = totals.len() - 1;
        let (c1, s1, msgs) = spec_report_round(configs, seq, totals.drop_last(), elapsed.take(n), now);
        let (c2, s2, m) = spec_report_step(c1, s1, totals[n].0, totals[n].1, elapsed[n], now);
        (
            c2,
            s2,
            match m {
                Some(x) => msgs.push(x),
                None => msgs,
            },
        )
    }
}

/// The URR configurations, by composed (SEID, URR ID) key, and the
/// sequence numbers of the Session Report Requests.
pub struct UrrReporter {
    pub configs: HashMap<u64, UrrConfig>,
    pub next_report_seq: u32,
}

impl UrrReporter {
    pub fn new() -> (r: Self)
        ensures
            r.configs@ == Map::<u64, UrrConfig>::empty(),
            r.next_report_seq == 1,
    {
        Self { configs: HashMap::new(), next_report_seq: 1 }
    }

    /// The Session Report Request for the URR under `key`, given its summed
    /// counters and the time since its last periodic report, where one is
    /// due: a URR without configuration, or with no trigger firing, gives
    /// none. A report takes the URR's next UR-SEQN and the reporter's next
    /// sequence number, and carries the total, uplink and downlink volumes.
    pub fn report_for(&mut self, key: u64, sum: UrrStats, elapsed_ms: u64, now: Instant) -> (r: Option<Vec<u8>>)
        requires
            sum.ul_bytes + sum.dl_bytes <= u64::MAX,
            old(self).next_report_seq < u32::MAX,
            old(self).configs@.contains_key(key) ==> old(self).configs@[key].ur_seqn < u32::MAX,
        ensures
            !old(self).configs@.contains_key(key) ==> r is None && final(self).configs@ == old(self).configs@
                && final(self).next_report_seq == old(self).next_report_seq,
            old(self).configs@.contains_key(key) ==> ({
                let cfg = old(self).configs@[key];
                let total = (sum.ul_bytes + sum.dl_bytes) as u64;
                let (trigger, cfg2) = spec_urr_trigger(cfg, total, elapsed_ms, now);
                if trigger == 0 {
                    &&& r is None
                    &&& final(self).configs@ == old(self).configs@.insert(key, cfg2)
                    &&& final(self).next_report_seq == old(self).next_report_seq
                } else {
                    &&& r matches Some(msg) && msg@ == spec_build_session_report_request(
                        old(self).next_report_seq,
                        cfg.cp_seid,
                        (key & 0xFFFF) as u32,
                        cfg.ur_seqn,
                        trigger,
                        total,
                        sum.ul_bytes,
                        sum.dl_bytes,
                    )
                    &&& final(self).configs@ == old(self).configs@.insert(
                        key,
                        UrrConfig { ur_seqn: (cfg.ur_seqn + 1) as u32, ..cfg2 },
                    )
                    &&& final(self).next_report_seq == old(self).next_report_seq + 1
                }
            }),
    {
        let mut cfg = match self.configs.get(&key) {
            Some(c) => *c,
            None => {
                return None;
            },
        };
        let total = sum.ul_bytes + sum.dl_bytes;
        let trigger = urr_trigger(&mut cfg, total, elapsed_ms, now);
        if trigger == 0 {
            self.configs.insert(key, cfg);
            return None;
        }
        let ur_seqn = cfg.ur_seqn;
        cfg.ur_seqn = cfg.ur_seqn + 1;
        self.configs.insert(key, cfg);
        let seq = self.next_report_seq;
        self.next_report_seq = self.next_report_seq + 1;
        let urr_id = (key & 0xFFFF) as u32;
        Some(build_session_report_request(seq, cfg.cp_seid, urr_id, ur_seqn, trigger, total, sum.ul_bytes, sum.dl_bytes))
    }

    /// The Session Report Requests due for the summed counters `totals`, to
    /// the SMF at `peer`, each URR's elapsed time read from the clock: with
    /// no SMF address nothing is sent and nothing changes; with one, the
    /// configurations, the sequence numbers and the requests (all to `peer`,
    /// in order) are those of the reporting round over `totals` for the
    /// elapsed times that the clock gave.
    pub fn collect_reports(&mut self, totals: &Vec<(u64, UrrStats)>, peer: Option<SocketAddr>, now: Instant) -> (r:
        Vec<(SocketAddr, Vec<u8>)>)
        requires
            forall|i: int| 0 <= i < totals@.len() ==> #[trigger] totals@[i].1.ul_bytes + totals@[i].1.dl_bytes <= u64::MAX,
        ensures
            peer is None ==> r@.len() == 0 && final(self).configs@ == old(self).configs@
                && final(self).next_report_seq == old(self).next_report_seq,
            peer matches Some(p) ==> exists|elapsed: Seq<u64>|
                {
                    let round = #[trigger] spec_report_round(
                        old(self).configs@,
                        old(self).next_report_seq,
                        totals@,
                        elapsed,
                        now,
                    );
                    &&& elapsed.len() == totals@.len()
                    &&& final(self).configs@ == round.0
                    &&& final(self).next_report_seq == round.1
                    &&& r@.len() == round.2.len()
                    &&& forall|i: int| 0 <= i < r@.len() ==> (#[trigger] r@[i]).0 == p && r@[i].1@ == round.2[i]
                },
    {
        let mut out: Vec<(SocketAddr, Vec<u8>)> = Vec::new();
        let p = match peer {
            Some(p) => p,
            None => {
                return out;
            },
        };
        let ghost configs0 = self.configs@;
        let ghost seq0 = self.next_report_seq;
        let ghost mut elapsed: Seq<u64> = Seq::empty();
        let mut i: usize = 0;
        while i < totals.len()
            invariant
                0 <= i <= totals@.len(),
                elapsed.len() == i,
                forall|j: int| 0 <= j < totals@.len() ==> #[trigger] totals@[j].1.ul_bytes + totals@[j].1.dl_bytes <= u64::MAX,
                ({
                    let round = spec_report_round(configs0, seq0, totals@.take(i as int), elapsed, now);
                    &&& self.configs@ == round.0
                    &&& self.next_report_seq == round.1
                    &&& out@.len() == round.2.len()
                    &&& forall|k: int| 0 <= k < out@.len() ==> (#[trigger] out@[k]).0 == p && out@[k].1@ == round.2[k]
                }),
            decreases totals@.len() - i,
        {
            let (key, sum) = totals[i];
            let ghost before = self.configs@;
            let ghost seq_before = self.next_report_seq;
            let ghost out_before = out@;
            let last = match self.configs.get(&key) {
                Some(c) => Some((c.last_report, c.ur_seqn)),
                None => None,
            };
            let mut e: u64 = 0;
            let mut made: Option<Vec<u8>> = None;
            if let Some((last_report, ur_seqn)) = last {
                if ur_seqn < u32::MAX && self.next_report_seq < u32::MAX {
                    e = elapsed_millis(&last_report);
                    made = self.report_for(key, sum, e, now);
                }
            }
            proof {
                let step = spec_report_step(before, seq_before, key, sum, e, now);
                assert(self.configs@ == step.0);
                assert(self.next_report_seq == step.1);
                assert(match made {
                    Some(m) => step.2 == Some(m@),
                    None => step.2 is None,
                });
            }
            if let Some(msg) = made {
                out.push((p, msg));
            }
            proof {
                let t2 = totals@.take(i + 1);
                let e_old = elapsed;
                assert(t2.drop_last() =~= totals@.take(i as int));
                assert(t2[i as int] == totals@[i as int]);
                elapsed = elapsed.push(e);
                assert(elapsed.take(i as int) =~= e_old);
                let prev = spec_report_round(configs0, seq0, totals@.take(i as int), e_old, now);
                assert(prev.0 == before && prev.1 == seq_before && prev.2.len() == out_before.len());
                let step = spec_report_step(before, seq_before, key, sum, e, now);
                assert(spec_report_round(configs0, seq0, t2, elapsed, now) == (
                    step.0,
                    step.1,
                    match step.2 {
                        Some(x) => prev.2.push(x),
                        None => prev.2,
                    },
                ));
                assert forall|k: int| 0 <= k < out@.len() implies (#[trigger] out@[k]).0 == p && out@[k].1@
                    == spec_report_round(configs0, seq0, t2, elapsed, now).2[k] by {
                    if k < out_before.len() {
                        assert(out@[k] == out_before[k]);
                    }
                }
            }
            i += 1;
        }
        proof {
            assert(totals@.take(totals@.len() as int) =~= totals@);
        }
        out
    }
}

} // verus!
