use std::collections::BTreeSet;
use vstd::prelude::*;

verus! {

broadcast use vstd::std_specs::btree::group_btree_axioms, vstd::laws_cmp::group_laws_cmp;

/// Progress counters shared by the block handlers and the periodic logger.
#[derive(Debug, Clone)]
pub struct Stats {
    /// Heights of the blocks that are being handled right now.
    pub block_heights_processing: BTreeSet<u64>,
    /// How many blocks have completed since start.
    pub blocks_processed_count: u64,
    /// The highest height among the completed blocks.
    pub last_processed_block_height: u64,
}

impl Stats {
    /// Empty counters, as created once at process start.
    pub fn new() -> (r: Self)
        ensures
            r.block_heights_processing@ == Set::<u64>::empty(),
            r.blocks_processed_count == 0,
            r.last_processed_block_height == 0,
    {
        Stats {
            block_heights_processing: BTreeSet::new(),
            blocks_processed_count: 0,
            last_processed_block_height: 0,
        }
    }

    /// Block entry: records `block_height` as in flight.
    pub fn start_block(&mut self, block_height: u64)
        ensures
            final(self).block_heights_processing@ == old(self).block_heights_processing@.insert(block_height),
            final(self).blocks_processed_count == old(self).blocks_processed_count,
            final(self).last_processed_block_height == old(self).last_processed_block_height,
    {
        self.block_heights_processing.insert(block_height);
    }

    /// Block exit: the height is no longer in flight, one more block has
    /// completed, and the highest completed height is kept.
    pub fn end_block(&mut self, block_height: u64)
        requires
            old(self).blocks_processed_count < u64::MAX,
        ensures
            final(self).block_heights_processing@ == old(self).block_heights_processing@.remove(block_height),
            final(self).blocks_processed_count == old(self).blocks_processed_count + 1,
            final(self).last_processed_block_height == if block_height > old(self).last_processed_block_height {
                block_height
            } else {
                old(self).last_processed_block_height
            },
    {
        self.block_heights_processing.remove(&block_height);
        self.blocks_processed_count = self.blocks_processed_count + 1;
        if block_height > self.last_processed_block_height {
            self.last_processed_block_height = block_height;
        }
    }

    /// Blocks completed since a previous count; none if the count is not
    /// above it.
    pub fn blocks_since(&self, prev_count: u64) -> (r: u64)
        ensures
            r == if self.blocks_processed_count > prev_count {
                self.blocks_processed_count - prev_count
            } else {
                0
            },
    {
        if self.blocks_processed_count > prev_count {
            self.blocks_processed_count - prev_count
        } else {
            0
        }
    }
}

/// How long, in milliseconds, it takes to go from `last` to `tip` at `done`
/// blocks per `interval_secs` seconds (none when nothing was done); at most
/// the largest `u64`.
pub open spec fn catch_up_millis_of(done: u64, interval_secs: u32, last: u64, tip: u64) -> Option<u64> {
    if done == 0 {
        None
    } else {
        let gap: int = if tip > last { tip - last } else { 0 };
        let ms: int = gap * interval_secs * 1000 / (done as int);
        Some(if ms > u64::MAX { u64::MAX } else { ms as u64 })
    }
}

/// How long it takes to reach the node's finalized height `tip` from the
/// last completed height, at the pace of `done` blocks per `interval_secs`
/// seconds; none when nothing was done.
pub fn catch_up_millis(done: u64, interval_secs: u32, last: u64, tip: u64) -> (r: Option<u64>)
    ensures
        r == catch_up_millis_of(done, interval_secs, last, tip),
{
    if done == 0 {
        return None;
    }
    let gap: u64 = if tip > last { tip - last } else { 0 };
    assert((gap as int) * (interval_secs as int) <= 0xffff_ffff_ffff_ffffint * 0xffff_ffffint)
        by (nonlinear_arith)
        requires
            gap <= 0xffff_ffff_ffff_ffffint,
            interval_secs <= 0xffff_ffffint,
    ;
    let a: u128 = (gap as u128) * (interval_secs as u128);
    assert((a as int) * 1000 <= 0xffff_ffff_ffff_ffffint * 0xffff_ffffint * 1000)
        by (nonlinear_arith)
        requires
            a as int <= 0xffff_ffff_ffff_ffffint * 0xffff_ffffint,
    ;
    let ms: u128 = a * 1000 / (done as u128);
    if ms > u64::MAX as u128 {
        Some(u64::MAX)
    } else {
        Some(ms as u64)
    }
}

/// The text that humantime writes for a duration of this many milliseconds.
pub uninterp spec fn human_duration(millis: int) -> Seq<char>;

/// Relies on `humantime::format_duration` and its `Display`: a readable
/// text for the duration, which depends on the duration alone.
#[verifier::external_body]
fn format_millis(millis: u64) -> (r: String)
    ensures
        r@ == human_duration(millis as int),
{
    humantime::format_duration(std::time::Duration::from_millis(millis)).to_string()
}

/// One line of the progress log, as values.
#[derive(Debug, Clone)]
pub struct ProgressReport {
    pub last_processed_block_height: u64,
    /// How many blocks are in flight.
    pub blocks_processing: usize,
    pub blocks_processed_count: u64,
    /// Blocks completed in the last interval.
    pub blocks_done_in_interval: u64,
    /// The time left to reach the node's finalized height, when it is known.
    pub catch_up: Option<String>,
}

/// The progress of a snapshot since the previous count. `tip` is the node's
/// finalized height, when it could be had; the time to reach it is given
/// only when blocks were done in the interval.
pub fn progress_report(snapshot: &Stats, prev_count: u64, interval_secs: u32, tip: Option<u64>) -> (r:
    ProgressReport)
    ensures
        r.last_processed_block_height == snapshot.last_processed_block_height,
        r.blocks_processing == snapshot.block_heights_processing@.len(),
        r.blocks_processed_count == snapshot.blocks_processed_count,
        r.blocks_done_in_interval == if snapshot.blocks_processed_count > prev_count {
            snapshot.blocks_processed_count - prev_count
        } else {
            0
        },
        match tip {
            Some(t) => match catch_up_millis_of(
                r.blocks_done_in_interval,
                interval_secs,
                snapshot.last_processed_block_height,
                t,
            ) {
                Some(ms) => r.catch_up is Some && r.catch_up.unwrap()@ == human_duration(ms as int),
                None => r.catch_up is None,
            },
            None => r.catch_up is None,
        },
{
    let done = snapshot.blocks_since(prev_count);
    let catch_up = match tip {
        Some(t) => match catch_up_millis(done, interval_secs, snapshot.last_processed_block_height, t) {
            Some(ms) => Some(format_millis(ms)),
            None => None,
        },
        None => None,
    };
    ProgressReport {
        last_processed_block_height: snapshot.last_processed_block_height,
        blocks_processing: snapshot.block_heights_processing.len(),
        blocks_processed_count: snapshot.blocks_processed_count,
        blocks_done_in_interval: done,
        catch_up,
    }
}

} // verus!
