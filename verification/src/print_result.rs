//! The reporter for paired candidates: picks the member of a couple that
//! satisfied the target, renders one record per satisfied target, and
//! throttles its log sink like the plain reporter.

use vstd::prelude::*;

use crate::address::{BitcoinAddress, Couple, prefix_matches};
use crate::output::{WriteOutput, minutes_since, should_flush};
use crate::records::{couple_record, couple_record_spec, log_message, log_message_spec};
use crate::sat_add;

verus! {

/// Whether the couple's compressed member satisfies the target; when it
/// does not, the uncompressed member is the one reported.
pub open spec fn chosen_is_compressed(c: Couple, target: Seq<char>, case_sensitive: bool) -> bool {
    prefix_matches(c.compressed.address@, target, case_sensitive)
}

/// The member of the couple a report for `target` describes.
pub open spec fn chosen_member(c: Couple, target: Seq<char>, case_sensitive: bool) -> BitcoinAddress {
    if chosen_is_compressed(c, target, case_sensitive) {
        c.compressed
    } else {
        c.uncompressed
    }
}

/// Whether either member of the couple satisfies the target.
pub open spec fn couple_matches_target(c: Couple, target: Seq<char>, case_sensitive: bool) -> bool {
    prefix_matches(c.compressed.address@, target, case_sensitive) || prefix_matches(
        c.uncompressed.address@,
        target,
        case_sensitive,
    )
}

/// The subsequence of `targets` that the couple satisfies, in order.
pub open spec fn matched_targets(c: Couple, targets: Seq<String>, case_sensitive: bool) -> Seq<
    String,
>
    decreases targets.len(),
{
    if targets.len() == 0 {
        Seq::empty()
    } else {
        let pre = matched_targets(c, targets.drop_last(), case_sensitive);
        if couple_matches_target(c, targets.last()@, case_sensitive) {
            pre.push(targets.last())
        } else {
            pre
        }
    }
}

/// The reporter's state: when the log was last flushed, how many results
/// have gone unlogged since, how many output sinks are configured, and
/// whether a log sink is configured.
pub struct Output {
    pub last_print_millis: u64,
    pub results_since_last_print: u64,
    pub output_streams: usize,
    pub log_stream: bool,
}

/// The throttle state after `k` consecutive reports at `now`.
pub open spec fn ticks(o: Output, now: u64, k: nat) -> Output
    decreases k,
{
    if k == 0 {
        o
    } else {
        ticks(o, now, (k - 1) as nat).throttle_next(now)
    }
}

impl Output {
    /// Whether a report at `now` flushes the log summary.
    pub open spec fn flush_due(self, now: u64) -> bool {
        self.log_stream && should_flush(
            minutes_since(now, self.last_print_millis),
            self.results_since_last_print,
        )
    }

    /// The throttle state after one report at `now`.
    pub open spec fn throttle_next(self, now: u64) -> Output {
        if !self.log_stream {
            self
        } else if self.flush_due(now) {
            Output { last_print_millis: now, results_since_last_print: 0, ..self }
        } else {
            Output {
                results_since_last_print: sat_add(self.results_since_last_print, 1),
                ..self
            }
        }
    }

    /// The log line one report at `now` emits, if any.
    pub open spec fn tick_log(self, now: u64) -> Option<Seq<char>> {
        if self.flush_due(now) {
            Some(
                log_message_spec(
                    self.results_since_last_print,
                    minutes_since(now, self.last_print_millis),
                ),
            )
        } else {
            None
        }
    }

    /// A fresh reporter with no sinks, counting from `now_millis`.
    pub fn new(now_millis: u64) -> (o: Output)
        ensures
            o == (Output {
                last_print_millis: now_millis,
                results_since_last_print: 0,
                output_streams: 0,
                log_stream: false,
            }),
    {
        Output {
            last_print_millis: now_millis,
            results_since_last_print: 0,
            output_streams: 0,
            log_stream: false,
        }
    }

    /// Registers one more output sink; every later report carries one more
    /// copy of the record line.
    pub fn add_output_stream(&mut self)
        requires
            old(self).output_streams < usize::MAX,
        ensures
            *final(self) == (Output {
                output_streams: (old(self).output_streams + 1) as usize,
                ..*old(self)
            }),
    {
        self.output_streams = self.output_streams + 1;
    }

    /// Configures whether a rate-limited log sink is attached.
    pub fn set_log_stream(&mut self, enabled: bool)
        ensures
            *final(self) == (Output { log_stream: enabled, ..*old(self) }),
    {
        self.log_stream = enabled;
    }

    /// One throttle step: emits the summary line when it is due and resets
    /// the counters, otherwise counts the result as unlogged.
    fn tick(&mut self, now_millis: u64) -> (r: Option<String>)
        ensures
            *final(self) == old(self).throttle_next(now_millis),
            r is Some <==> old(self).tick_log(now_millis) is Some,
            r matches Some(s) ==> old(self).tick_log(now_millis) == Some(s@),
    {
        if self.log_stream {
            let minutes = now_millis.saturating_sub(self.last_print_millis) / 60000;
            if minutes >= 5 || self.results_since_last_print >= 100 {
                let line = log_message(self.results_since_last_print, minutes);
                self.results_since_last_print = 0;
                self.last_print_millis = now_millis;
                Some(line)
            } else {
                self.results_since_last_print = self.results_since_last_print.saturating_add(1);
                None
            }
        } else {
            None
        }
    }

    /// Reports the member of the couple that `starts_with` selected: the
    /// compressed member when its address satisfies the target, the
    /// uncompressed member otherwise.
    pub fn write(
        &mut self,
        couple: &Couple,
        now_millis: u64,
        elapsed_secs: u64,
        elapsed_nanos: u32,
        starts_with: &str,
        is_case_sensitive: bool,
    ) -> (r: WriteOutput)
        ensures
            *final(self) == old(self).throttle_next(now_millis),
            r.records@.len() == old(self).output_streams,
            forall|i: int|
                0 <= i < r.records@.len() ==> r.records@[i]@ == couple_record_spec(
                    chosen_member(*couple, starts_with@, is_case_sensitive),
                    chosen_is_compressed(*couple, starts_with@, is_case_sensitive),
                    elapsed_secs,
                    elapsed_nanos,
                ) + "\n"@,
            r.log_line is Some <==> old(self).tick_log(now_millis) is Some,
            r.log_line matches Some(s) ==> old(self).tick_log(now_millis) == Some(s@),
    {
        let is_compressed = couple.compressed.starts_with(starts_with, is_case_sensitive);
        let member = if is_compressed {
            &couple.compressed
        } else {
            &couple.uncompressed
        };
        let log_line = self.tick(now_millis);
        let line = couple_record(member, is_compressed, elapsed_secs, elapsed_nanos).concat("\n");
        let n = self.output_streams;
        let mut records: Vec<String> = Vec::new();
        let mut i: usize = 0;
        while i < n
            invariant
                i <= n,
                records@.len() == i,
                line@ == couple_record_spec(
                    chosen_member(*couple, starts_with@, is_case_sensitive),
                    chosen_is_compressed(*couple, starts_with@, is_case_sensitive),
                    elapsed_secs,
                    elapsed_nanos,
                ) + "\n"@,
                forall|j: int| 0 <= j < i ==> records@[j]@ == line@,
            decreases n - i,
        {
            records.push(line.clone());
            i = i + 1;
        }
        WriteOutput { records, log_line }
    }

    /// Reports once for every target in `addresses` that either member of
    /// the couple satisfies, in order, and for no other target. A single
    /// found couple can so yield several records.
    pub fn write_from_multiple_addresses(
        &mut self,
        couple: &Couple,
        now_millis: u64,
        elapsed_secs: u64,
        elapsed_nanos: u32,
        addresses: Vec<String>,
        is_case_sensitive: bool,
    ) -> (r: Vec<WriteOutput>)
        ensures
            r@.len() == matched_targets(*couple, addresses@, is_case_sensitive).len(),
            *final(self) == ticks(
                *old(self),
                now_millis,
                matched_targets(*couple, addresses@, is_case_sensitive).len(),
            ),
            forall|i: int|
                0 <= i < r@.len() ==> {
                    let mc = matched_targets(*couple, addresses@, is_case_sensitive);
                    let state = ticks(*old(self), now_millis, i as nat);
                    &&& (#[trigger] r@[i]).records@.len() == old(self).output_streams
                    &&& forall|j: int|
                        0 <= j < r@[i].records@.len() ==> r@[i].records@[j]@
                            == couple_record_spec(
                            chosen_member(*couple, mc[i]@, is_case_sensitive),
                            chosen_is_compressed(*couple, mc[i]@, is_case_sensitive),
                            elapsed_secs,
                            elapsed_nanos,
                        ) + "\n"@
                    &&& (r@[i].log_line is Some <==> state.tick_log(now_millis) is Some)
                    &&& (r@[i].log_line matches Some(s) ==> state.tick_log(now_millis) == Some(
                        s@,
                    ))
                },
    {
        let n = addresses.len();
        let mut out: Vec<WriteOutput> = Vec::new();
        let mut i: usize = 0;
        proof {
            assert(addresses@.subrange(0, 0) =~= Seq::<String>::empty());
        }
        while i < n
            invariant
                i <= n,
                n == addresses@.len(),
                out@.len() == matched_targets(
                    *couple,
                    addresses@.subrange(0, i as int),
                    is_case_sensitive,
                ).len(),
                *self == ticks(*old(self), now_millis, out@.len() as nat),
                self.output_streams == old(self).output_streams,
                forall|t: int|
                    0 <= t < out@.len() ==> {
                        let mc = matched_targets(
                            *couple,
                            addresses@.subrange(0, i as int),
                            is_case_sensitive,
                        );
                        let state = ticks(*old(self), now_millis, t as nat);
                        &&& (#[trigger] out@[t]).records@.len() == old(self).output_streams
                        &&& forall|j: int|
                            0 <= j < out@[t].records@.len() ==> out@[t].records@[j]@
                                == couple_record_spec(
                                chosen_member(*couple, mc[t]@, is_case_sensitive),
                                chosen_is_compressed(*couple, mc[t]@, is_case_sensitive),
                                elapsed_secs,
                                elapsed_nanos,
                            ) + "\n"@
                        &&& (out@[t].log_line is Some <==> state.tick_log(now_millis) is Some)
                        &&& (out@[t].log_line matches Some(s) ==> state.tick_log(now_millis)
                            == Some(s@))
                    },
            decreases n - i,
        {
            let ghost pre = addresses@.subrange(0, i as int);
            let ghost cur = addresses@.subrange(0, i as int + 1);
            proof {
                assert(cur.drop_last() =~= pre);
                assert(cur.last() == addresses@[i as int]);
            }
            let target = &addresses[i];
            let hit = couple.compressed.starts_with(target.as_str(), is_case_sensitive)
                || couple.uncompressed.starts_with(target.as_str(), is_case_sensitive);
            if hit {
                let ghost k = out@.len();
                let w = self.write(
                    couple,
                    now_millis,
                    elapsed_secs,
                    elapsed_nanos,
                    target.as_str(),
                    is_case_sensitive,
                );
                out.push(w);
                proof {
                    let mc_cur = matched_targets(*couple, cur, is_case_sensitive);
                    let mc_pre = matched_targets(*couple, pre, is_case_sensitive);
                    assert(mc_cur == mc_pre.push(addresses@[i as int]));
                    assert(mc_cur[k as int] == addresses@[i as int]);
                    assert(ticks(*old(self), now_millis, (k + 1) as nat) == ticks(
                        *old(self),
                        now_millis,
                        k as nat,
                    ).throttle_next(now_millis));
                }
            } else {
                proof {
                    assert(matched_targets(*couple, cur, is_case_sensitive) == matched_targets(
                        *couple,
                        pre,
                        is_case_sensitive,
                    ));
                }
            }
            i = i + 1;
        }
        proof {
            assert(addresses@.subrange(0, n as int) =~= addresses@);
        }
        out
    }
}

} // verus!
