//! Grouping commands into batches by size and by age.

use vstd::prelude::*;
use std::collections::VecDeque;
use std::time::{Duration, Instant};
use crate::types::{Command, CommandBatch};
use crate::error::RabiaError;
use crate::clock::{duration_at_least, duration_from_millis, duration_nanos, instant_elapsed, instant_now};

verus! {

/// How commands are grouped into batches.
#[derive(Debug, Clone)]
pub struct BatchConfig {
    /// Maximum number of commands per batch
    pub max_batch_size: usize,
    /// Maximum time to wait before flushing a partial batch
    pub max_batch_delay: Duration,
    /// Buffer size for incoming commands
    pub buffer_capacity: usize,
    /// Enable adaptive batching based on load
    pub adaptive: bool,
}

impl Default for BatchConfig {
    /// Batches of up to 100 commands, flushed after 10 ms, a buffer of 1000
    /// commands, adaptive sizing on.
    fn default() -> (r: BatchConfig)
        ensures
            r.max_batch_size == 100,
            duration_nanos(r.max_batch_delay) == 10_000_000,
            r.buffer_capacity == 1000,
            r.adaptive,
    {
        BatchConfig {
            max_batch_size: 100,
            max_batch_delay: duration_from_millis(10),
            buffer_capacity: 1000,
            adaptive: true,
        }
    }
}

/// Counters of batch processing.
#[derive(Debug, Clone, Default)]
pub struct BatchStats {
    pub total_commands: usize,
    pub total_batches: usize,
    pub commands_dropped: usize,
    pub flush_timeouts: usize,
    pub adaptive_adjustments: usize,
}

impl BatchStats {
    /// Counts one batch of `batch_size` commands.
    pub fn record_batch(&mut self, batch_size: usize)
        requires
            old(self).total_commands + batch_size <= usize::MAX,
            old(self).total_batches < usize::MAX,
        ensures
            final(self).total_commands == old(self).total_commands + batch_size,
            final(self).total_batches == old(self).total_batches + 1,
            final(self).commands_dropped == old(self).commands_dropped,
            final(self).flush_timeouts == old(self).flush_timeouts,
            final(self).adaptive_adjustments == old(self).adaptive_adjustments,
    {
        self.total_commands = self.total_commands + batch_size;
        self.total_batches = self.total_batches + 1;
    }
}

/// The adaptive batch size after a flush, and whether it changed: it grows
/// by a tenth (up to the maximum) when flushes are mostly size-triggered
/// (more than two batches per timeout), and shrinks by a tenth (down to 10)
/// when they are mostly timeout-triggered (fewer than half a batch per
/// timeout).
pub open spec fn adjusted_batch_size(current: nat, max: nat, batches: nat, timeouts: nat) -> (nat, bool) {
    if batches > 2 * (timeouts + 1) && current < max {
        (if current * 11 / 10 <= max { current * 11 / 10 } else { max }, true)
    } else if 2 * batches < timeouts + 1 && current > 10 {
        (if current * 9 / 10 >= 10 { current * 9 / 10 } else { 10 }, true)
    } else {
        (current, false)
    }
}

/// The counters and adaptive size after a batch of `k` commands leaves a
/// batcher with counters `s`, adaptive size `size` and configuration
/// `config`: one more batch and `k` more commands, and in adaptive mode the
/// size adjusted as `adjusted_batch_size` says, counting an adjustment when
/// it changed.
pub open spec fn after_flush(s: BatchStats, k: nat, size: nat, config: BatchConfig) -> (BatchStats, nat) {
    let s1 = BatchStats {
        total_commands: (s.total_commands + k) as usize,
        total_batches: (s.total_batches + 1) as usize,
        ..s
    };
    let (adjusted, changed) = adjusted_batch_size(size, config.max_batch_size as nat, s1.total_batches as nat, s1.flush_timeouts as nat);
    if config.adaptive {
        (BatchStats { adaptive_adjustments: (s1.adaptive_adjustments + if changed { 1nat } else { 0nat }) as usize, ..s1 }, adjusted)
    } else {
        (s1, size)
    }
}

/// Groups commands into batches: a batch leaves when the buffer reaches the
/// batch size, or when the oldest buffered command has waited too long.
pub struct CommandBatcher {
    config: BatchConfig,
    buffer: VecDeque<Command>,
    stats: BatchStats,
    last_flush: Instant,
    adaptive_batch_size: usize,
}

impl CommandBatcher {
    /// The configuration in force.
    pub closed spec fn config_view(&self) -> BatchConfig {
        self.config
    }

    /// The buffered commands, oldest first.
    pub closed spec fn buffered(&self) -> Seq<Command> {
        self.buffer@
    }

    /// The counters.
    pub closed spec fn stats_view(&self) -> BatchStats {
        self.stats
    }

    /// The adaptive batch size.
    pub closed spec fn adaptive_size(&self) -> nat {
        self.adaptive_batch_size as nat
    }

    /// The size at which the buffer is flushed: the adaptive size in adaptive
    /// mode, else the configured maximum.
    pub open spec fn batch_size_now(&self) -> nat {
        if self.config_view().adaptive { self.adaptive_size() } else { self.config_view().max_batch_size as nat }
    }

    /// The counters cannot overflow during the next operation.
    pub open spec fn counters_have_room(&self) -> bool {
        &&& self.stats_view().total_commands + self.buffered().len() + 1 <= usize::MAX
        &&& self.stats_view().total_batches < usize::MAX
        &&& self.stats_view().commands_dropped < usize::MAX
        &&& self.stats_view().flush_timeouts + 2 < usize::MAX
        &&& self.stats_view().adaptive_adjustments < usize::MAX
    }

    /// The counters cannot overflow while the buffer is flushed.
    pub open spec fn flush_has_room(&self) -> bool {
        &&& self.stats_view().total_commands + self.buffered().len() <= usize::MAX
        &&& self.stats_view().total_batches < usize::MAX
        &&& self.stats_view().flush_timeouts + 1 < usize::MAX
        &&& self.stats_view().adaptive_adjustments < usize::MAX
    }

    /// A batcher with an empty buffer, zero counters, and the adaptive size
    /// set to the configured maximum.
    pub fn new(config: BatchConfig) -> (r: CommandBatcher)
        ensures
            r.config_view() == config,
            r.buffered().len() == 0,
            r.stats_view() == (BatchStats {
                total_commands: 0,
                total_batches: 0,
                commands_dropped: 0,
                flush_timeouts: 0,
                adaptive_adjustments: 0,
            }),
            r.adaptive_size() == config.max_batch_size,
    {
        let adaptive_batch_size = config.max_batch_size;
        let buffer_capacity = config.buffer_capacity;
        CommandBatcher {
            config,
            buffer: VecDeque::with_capacity(buffer_capacity),
            stats: BatchStats {
                total_commands: 0,
                total_batches: 0,
                commands_dropped: 0,
                flush_timeouts: 0,
                adaptive_adjustments: 0,
            },
            last_flush: instant_now(),
            adaptive_batch_size,
        }
    }

    fn current_batch_size(&self) -> (r: usize)
        ensures
            r == self.batch_size_now(),
    {
        if self.config.adaptive { self.adaptive_batch_size } else { self.config.max_batch_size }
    }

    fn adjust_adaptive_batch_size(&mut self)
        requires
            old(self).stats.flush_timeouts + 1 < usize::MAX,
            old(self).stats.adaptive_adjustments < usize::MAX,
        ensures
            ({
                let (size, changed) = adjusted_batch_size(
                    old(self).adaptive_batch_size as nat,
                    old(self).config.max_batch_size as nat,
                    old(self).stats.total_batches as nat,
                    old(self).stats.flush_timeouts as nat,
                );
                &&& final(self).adaptive_batch_size == size
                &&& final(self).stats.adaptive_adjustments == old(self).stats.adaptive_adjustments + if changed { 1nat } else { 0nat }
            }),
            final(self).config == old(self).config,
            final(self).buffer@ == old(self).buffer@,
            final(self).last_flush == old(self).last_flush,
            final(self).stats.total_commands == old(self).stats.total_commands,
            final(self).stats.total_batches == old(self).stats.total_batches,
            final(self).stats.commands_dropped == old(self).stats.commands_dropped,
            final(self).stats.flush_timeouts == old(self).stats.flush_timeouts,
    {
        let batches = self.stats.total_batches as u128;
        let timeouts = self.stats.flush_timeouts as u128;
        let current = self.adaptive_batch_size;
        let max = self.config.max_batch_size;
        if batches > 2 * (timeouts + 1) && current < max {
            let grown = current as u128 * 11 / 10;
            self.adaptive_batch_size = if grown <= max as u128 { grown as usize } else { max };
            self.stats.adaptive_adjustments = self.stats.adaptive_adjustments + 1;
        } else if 2 * batches < timeouts + 1 && current > 10 {
            let shrunk = current as u128 * 9 / 10;
            self.adaptive_batch_size = if shrunk >= 10 { shrunk as usize } else { 10 };
            self.stats.adaptive_adjustments = self.stats.adaptive_adjustments + 1;
        }
    }

    fn flush_batch(&mut self) -> (r: CommandBatch)
        requires
            old(self).flush_has_room(),
        ensures
            ({
                let k = if old(self).batch_size_now() <= old(self).buffered().len() {
                    old(self).batch_size_now()
                } else {
                    old(self).buffered().len()
                };
                let stats1 = BatchStats {
                    total_commands: (old(self).stats_view().total_commands + k) as usize,
                    total_batches: (old(self).stats_view().total_batches + 1) as usize,
                    ..old(self).stats_view()
                };
                let (size, changed) = adjusted_batch_size(
                    old(self).adaptive_size(),
                    old(self).config_view().max_batch_size as nat,
                    stats1.total_batches as nat,
                    stats1.flush_timeouts as nat,
                );
                &&& r.commands@ == old(self).buffered().take(k as int)
                &&& final(self).buffered() == old(self).buffered().skip(k as int)
                &&& final(self).config_view() == old(self).config_view()
                &&& if old(self).config_view().adaptive {
                    &&& final(self).adaptive_size() == size
                    &&& final(self).stats_view() == (BatchStats {
                        adaptive_adjustments: (stats1.adaptive_adjustments + if changed { 1nat } else { 0nat }) as usize,
                        ..stats1
                    })
                } else {
                    &&& final(self).adaptive_size() == old(self).adaptive_size()
                    &&& final(self).stats_view() == stats1
                }
            }),
    {
        let cbs = self.current_batch_size();
        let batch_size = if cbs <= self.buffer.len() { cbs } else { self.buffer.len() };
        let ghost b = self.buffer@;
        let mut commands: Vec<Command> = Vec::with_capacity(batch_size);
        let mut i: usize = 0;
        while i < batch_size
            invariant
                i <= batch_size,
                batch_size <= b.len(),
                commands@ == b.take(i as int),
                self.buffer@ == b.skip(i as int),
                self.config == old(self).config,
                self.stats == old(self).stats,
                self.adaptive_batch_size == old(self).adaptive_batch_size,
            decreases batch_size - i,
        {
            let c = self.buffer.pop_front();
            match c {
                Some(c) => {
                    commands.push(c);
                },
                None => {
                    assert(false);
                },
            }
            i = i + 1;
            assert(commands@ =~= b.take(i as int));
            assert(self.buffer@ =~= b.skip(i as int));
        }
        let batch = CommandBatch::new(commands);
        self.stats.record_batch(batch.commands.len());
        self.last_flush = instant_now();
        if self.config.adaptive {
            self.adjust_adaptive_batch_size();
        }
        batch
    }

    /// Adds a command to the buffer. A full buffer drops the command with
    /// an error. Otherwise a batch of the batch size leaves when the buffer
    /// reaches that size; short of it, the whole buffer may leave as a batch
    /// when the delay since the last flush has passed. Commands leave in the
    /// order they came: the old buffer followed by the command is always the
    /// batch followed by the new buffer.
    pub fn add_command(&mut self, command: Command) -> (r: Result<Option<CommandBatch>, RabiaError>)
        requires
            old(self).counters_have_room(),
        ensures
            final(self).config_view() == old(self).config_view(),
            old(self).buffered().len() >= old(self).config_view().buffer_capacity ==> {
                &&& r matches Err(RabiaError::Internal { message: m }) && m@ == "Command buffer overflow"@
                &&& final(self).buffered() == old(self).buffered()
                &&& final(self).stats_view() == (BatchStats {
                    commands_dropped: (old(self).stats_view().commands_dropped + 1) as usize,
                    ..old(self).stats_view()
                })
                &&& final(self).adaptive_size() == old(self).adaptive_size()
            },
            r matches Ok(None) ==> final(self).stats_view() == old(self).stats_view()
                && final(self).adaptive_size() == old(self).adaptive_size(),
            r matches Ok(Some(batch)) ==> {
                let s0 = if old(self).buffered().len() + 1 >= old(self).batch_size_now() {
                    old(self).stats_view()
                } else {
                    BatchStats { flush_timeouts: (old(self).stats_view().flush_timeouts + 1) as usize, ..old(self).stats_view() }
                };
                let (s1, size) = after_flush(s0, batch.commands@.len(), old(self).adaptive_size(), old(self).config_view());
                &&& final(self).stats_view() == s1
                &&& final(self).adaptive_size() == size
            },
            old(self).buffered().len() < old(self).config_view().buffer_capacity ==> {
                let b = old(self).buffered().push(command);
                &&& r is Ok
                &&& (b.len() >= old(self).batch_size_now() ==> (r matches Ok(Some(batch))
                    && batch.commands@ == b.take(old(self).batch_size_now() as int)))
                &&& (r matches Ok(None) ==> final(self).buffered() == b && b.len() < old(self).batch_size_now())
                &&& (r matches Ok(Some(batch)) ==> (batch.commands@ + final(self).buffered() == b
                    && batch.commands@.len() == if b.len() >= old(self).batch_size_now() {
                        old(self).batch_size_now()
                    } else {
                        b.len()
                    }))
            },
    {
        if self.buffer.len() >= self.config.buffer_capacity {
            self.stats.commands_dropped = self.stats.commands_dropped + 1;
            return Err(RabiaError::internal("Command buffer overflow"));
        }
        self.buffer.push_back(command);
        let ghost b = self.buffer@;
        let ghost k = self.batch_size_now();
        if self.buffer.len() >= self.current_batch_size() {
            let batch = self.flush_batch();
            proof {
                assert(b.take(k as int) + b.skip(k as int) =~= b);
            }
            return Ok(Some(batch));
        }
        let elapsed = instant_elapsed(&self.last_flush);
        if duration_at_least(&elapsed, &self.config.max_batch_delay) && self.buffer.len() != 0 {
            self.stats.flush_timeouts = self.stats.flush_timeouts + 1;
            let batch = self.flush_batch();
            proof {
                assert(b.take(b.len() as int) =~= b);
                assert(b.skip(b.len() as int) =~= Seq::<Command>::empty());
            }
            return Ok(Some(batch));
        }
        Ok(None)
    }

    /// Empties the buffer into a batch of at most the batch size; `None`
    /// when the buffer is empty.
    pub fn flush(&mut self) -> (r: Option<CommandBatch>)
        requires
            old(self).counters_have_room(),
        ensures
            old(self).buffered().len() == 0 <==> r is None,
            r is None ==> final(self).buffered() == old(self).buffered(),
            r matches Some(batch) ==> (batch.commands@ + final(self).buffered() == old(self).buffered()
                && batch.commands@.len() == if old(self).buffered().len() >= old(self).batch_size_now() {
                    old(self).batch_size_now()
                } else {
                    old(self).buffered().len()
                }),
            final(self).config_view() == old(self).config_view(),
    {
        if self.buffer.len() == 0 {
            None
        } else {
            let ghost b = self.buffer@;
            let batch = self.flush_batch();
            proof {
                let k = batch.commands@.len();
                assert(b.take(k as int) + b.skip(k as int) =~= b);
            }
            Some(batch)
        }
    }

    /// The counters.
    pub fn stats(&self) -> (r: &BatchStats)
        ensures
            *r == self.stats_view(),
    {
        &self.stats
    }

    /// Replaces the configuration; the adaptive size restarts at the new
    /// maximum.
    pub fn update_config(&mut self, config: BatchConfig)
        ensures
            final(self).config_view() == config,
            final(self).adaptive_size() == config.max_batch_size,
            final(self).buffered() == old(self).buffered(),
            final(self).stats_view() == old(self).stats_view(),
    {
        self.adaptive_batch_size = config.max_batch_size;
        self.config = config;
    }

    /// Number of buffered commands.
    pub fn buffer_len(&self) -> (r: usize)
        ensures
            r == self.buffered().len(),
    {
        self.buffer.len()
    }

    /// Whether the buffer is empty.
    pub fn is_empty(&self) -> (r: bool)
        ensures
            r == (self.buffered().len() == 0),
    {
        self.buffer.len() == 0
    }

    /// Whether the counters cannot overflow during the next operation.
    pub fn has_counter_room(&self) -> (r: bool)
        ensures
            r == self.counters_have_room(),
    {
        let s = &self.stats;
        let n = self.buffer.len();
        n < usize::MAX
            && s.total_commands <= usize::MAX - 1 - n
            && s.total_batches < usize::MAX
            && s.commands_dropped < usize::MAX
            && s.flush_timeouts < usize::MAX - 2
            && s.adaptive_adjustments < usize::MAX
    }
}

} // verus!
