//! The throttled result reporter: decides what to write to the configured
//! output sinks and when the rate-limited log sink gets its summary line.
//! The sinks themselves are outside this library; the reporter hands back
//! the exact lines each should receive.

use vstd::prelude::*;

use crate::address::BitcoinAddress;
use crate::records::{log_message, log_message_spec, search_record, search_record_spec};
use crate::sat_add;

verus! {

/// Whole minutes elapsed between the last flush and now; a clock that
/// moved backwards counts as no elapsed time.
pub open spec fn minutes_since(now: u64, last: u64) -> u64 {
    if now >= last {
        (((now - last) as u64) / 60000) as u64
    } else {
        0
    }
}

/// Whether the log summary is due: five minutes have passed since the last
/// flush, or a hundred results have gone unlogged.
pub open spec fn should_flush(minutes: u64, pending: u64) -> bool {
    minutes >= 5 || pending >= 100
}

/// What one report produces: the identical record line for every
/// configured output sink, and at most one log summary line.
pub struct WriteOutput {
    pub records: Vec<String>,
    pub log_line: Option<String>,
}

/// The reporter's state: when the log was last flushed, how many results
/// have gone unlogged since, how many output sinks are configured, and
/// whether a log sink is configured.
pub struct Output {
    pub last_print_millis: u64,
    pub results_since_last_print: u64,
    pub output_streams: usize,
    pub log_stream: bool,
}

impl Output {
    /// Whether a report at `now` flushes the log summary.
    pub open spec fn flush_due(self, now: u64) -> bool {
        self.log_stream && should_flush(
            minutes_since(now, self.last_print_millis),
            self.results_since_last_print,
        )
    }

    /// The throttle state after one report at `now`.
    pub open spec fn throttle_next(self, now: u64) -> Output {
        if !self.log_stream {
            self
        } else if self.flush_due(now) {
            Output { last_print_millis: now, results_since_last_print: 0, ..self }
        } else {
            Output {
                results_since_last_print: sat_add(self.results_since_last_print, 1),
                ..self
            }
        }
    }

    /// The log line one report at `now` emits, if any.
    pub open spec fn tick_log(self, now: u64) -> Option<Seq<char>> {
        if self.flush_due(now) {
            Some(
                log_message_spec(
                    self.results_since_last_print,
                    minutes_since(now, self.last_print_millis),
                ),
            )
        } else {
            None
        }
    }

    /// A fresh reporter with no sinks, counting from `now_millis`.
    pub fn new(now_millis: u64) -> (o: Output)
        ensures
            o == (Output {
                last_print_millis: now_millis,
                results_since_last_print: 0,
                output_streams: 0,
                log_stream: false,
            }),
    {
        Output {
            last_print_millis: now_millis,
            results_since_last_print: 0,
            output_streams: 0,
            log_stream: false,
        }
    }

    /// Registers one more output sink; every later report carries one more
    /// copy of the record line.
    pub fn add_output_stream(&mut self)
        requires
            old(self).output_streams < usize::MAX,
        ensures
            *final(self) == (Output {
                output_streams: (old(self).output_streams + 1) as usize,
                ..*old(self)
            }),
    {
        self.output_streams = self.output_streams + 1;
    }

    /// Configures whether a rate-limited log sink is attached.
    pub fn set_log_stream(&mut self, enabled: bool)
        ensures
            *final(self) == (Output { log_stream: enabled, ..*old(self) }),
    {
        self.log_stream = enabled;
    }

    /// One throttle step: emits the summary line when it is due and resets
    /// the counters, otherwise counts the result as unlogged.
    pub(crate) fn tick(&mut self, now_millis: u64) -> (r: Option<String>)
        ensures
            *final(self) == old(self).throttle_next(now_millis),
            r is Some <==> old(self).tick_log(now_millis) is Some,
            r matches Some(s) ==> old(self).tick_log(now_millis) == Some(s@),
    {
        if self.log_stream {
            let minutes = now_millis.saturating_sub(self.last_print_millis) / 60000;
            if minutes >= 5 || self.results_since_last_print >= 100 {
                let line = log_message(self.results_since_last_print, minutes);
                self.results_since_last_print = 0;
                self.last_print_millis = now_millis;
                Some(line)
            } else {
                self.results_since_last_print = self.results_since_last_print.saturating_add(1);
                None
            }
        } else {
            None
        }
    }

    /// Reports one found address: the record line for every configured
    /// sink, and the log summary when its throttle says it is due.
    pub fn write(
        &mut self,
        bitcoin_address: &BitcoinAddress,
        now_millis: u64,
        elapsed_seconds: u64,
        iterations: u64,
    ) -> (r: WriteOutput)
        ensures
            *final(self) == old(self).throttle_next(now_millis),
            r.records@.len() == old(self).output_streams,
            forall|i: int|
                0 <= i < r.records@.len() ==> r.records@[i]@ == search_record_spec(
                    *bitcoin_address,
                    elapsed_seconds,
                    iterations,
                ) + "\n"@,
            r.log_line is Some <==> old(self).tick_log(now_millis) is Some,
            r.log_line matches Some(s) ==> old(self).tick_log(now_millis) == Some(s@),
    {
        let log_line = self.tick(now_millis);
        let line = search_record(bitcoin_address, elapsed_seconds, iterations).concat("\n");
        let n = self.output_streams;
        let mut records: Vec<String> = Vec::new();
        let mut i: usize = 0;
        while i < n
            invariant
                i <= n,
                records@.len() == i,
                line@ == search_record_spec(*bitcoin_address, elapsed_seconds, iterations)
                    + "\n"@,
                forall|j: int| 0 <= j < i ==> records@[j]@ == line@,
            decreases n - i,
        {
            records.push(line.clone());
            i = i + 1;
        }
        WriteOutput { records, log_line }
    }
}

} // verus!
