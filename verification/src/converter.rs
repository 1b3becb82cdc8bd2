//! Batch conversion: the jobs handed to the background worker, the events it sends
//! back, and the bookkeeping on both sides.
use vstd::prelude::*;

use crate::codec::static_codec::TargetFormat;
use crate::frame::Frame;

verus! {

/// One file to write: its frames and the output path.
pub struct ConvertItem {
    pub frames: Vec<Frame>,
    pub out_path: String,
}

/// A conversion job: the items and the settings they are all written with.
pub struct ConvertJob {
    pub items: Vec<ConvertItem>,
    pub format: TargetFormat,
    pub quality: u8,
    pub custom_delay_ms: Option<u32>,
    pub repeat_count: u32,
}

impl ConvertJob {
    /// A job of one item.
    pub fn single(
        frames: Vec<Frame>,
        out_path: String,
        format: TargetFormat,
        quality: u8,
        custom_delay_ms: Option<u32>,
        repeat_count: u32,
    ) -> (job: ConvertJob)
        ensures
            job.items@.len() == 1,
            job.items@[0].frames == frames,
            job.items@[0].out_path == out_path,
            job.format == format,
            job.quality == quality,
            job.custom_delay_ms == custom_delay_ms,
            job.repeat_count == repeat_count,
    {
        let mut items: Vec<ConvertItem> = Vec::new();
        items.push(ConvertItem { frames, out_path });
        ConvertJob { items, format, quality, custom_delay_ms, repeat_count }
    }
}

/// What the worker reports.
pub enum ConvertEvent {
    /// Item `current` of `total` was written to `out_path`.
    ItemSuccess { out_path: String, current: usize, total: usize },
    /// Item `current` of `total` failed; `error` names the path and the reason.
    ItemError { out_path: String, error: String, current: usize, total: usize },
    /// All items are done: the paths written and the errors, in order.
    AllFinished { successful: Vec<String>, errors: Vec<String>, duration_ms: u64 },
}

/// The worker's record of a job in progress.
pub struct BatchProgress {
    total: usize,
    done: usize,
    successful: Vec<String>,
    errors: Vec<String>,
}

/// The error message of an item: its path, ": " and the reason.
pub open spec fn item_error_text(out_path: Seq<char>, reason: Seq<char>) -> Seq<char> {
    out_path + ": "@ + reason
}

impl BatchProgress {
    /// Items in the job.
    pub closed spec fn spec_total(&self) -> nat {
        self.total as nat
    }

    /// Items done so far.
    pub closed spec fn spec_done(&self) -> nat {
        self.done as nat
    }

    /// Paths written so far, in order.
    pub closed spec fn spec_successful(&self) -> Seq<String> {
        self.successful@
    }

    /// Error messages so far, in order.
    pub closed spec fn spec_errors(&self) -> Seq<String> {
        self.errors@
    }

    /// What every record keeps: each item done is counted once, as written or as
    /// failed, and no more items are done than the job has.
    pub open spec fn consistent(&self) -> bool {
        &&& self.spec_done() <= self.spec_total()
        &&& self.spec_successful().len() + self.spec_errors().len() == self.spec_done()
    }

    /// A record of a job of `total` items, none done.
    pub fn new(total: usize) -> (p: BatchProgress)
        ensures
            p.consistent(),
            p.spec_total() == total,
            p.spec_done() == 0,
            p.spec_successful().len() == 0,
            p.spec_errors().len() == 0,
    {
        BatchProgress { total, done: 0, successful: Vec::new(), errors: Vec::new() }
    }

    /// Records the outcome of the next item, written to `out_path` or failed for
    /// `Err(reason)`, and returns the event that reports it, numbered from 1.
    pub fn record(&mut self, out_path: String, outcome: Result<(), String>) -> (event: ConvertEvent)
        requires
            old(self).consistent(),
            old(self).spec_done() < old(self).spec_total(),
        ensures
            final(self).consistent(),
            final(self).spec_total() == old(self).spec_total(),
            final(self).spec_done() == old(self).spec_done() + 1,
            match outcome {
                Ok(()) => {
                    &&& final(self).spec_successful() == old(self).spec_successful().push(out_path)
                    &&& final(self).spec_errors() == old(self).spec_errors()
                    &&& event matches ConvertEvent::ItemSuccess { out_path: p, current, total }
                        && p == out_path && current == final(self).spec_done() && total == final(self).spec_total()
                },
                Err(reason) => {
                    &&& final(self).spec_successful() == old(self).spec_successful()
                    &&& final(self).spec_errors().len() == old(self).spec_errors().len() + 1
                    &&& final(self).spec_errors().drop_last() == old(self).spec_errors()
                    &&& final(self).spec_errors().last()@ == item_error_text(out_path@, reason@)
                    &&& event matches ConvertEvent::ItemError { out_path: p, error, current, total }
                        && p == out_path && error@ == item_error_text(out_path@, reason@)
                        && current == final(self).spec_done() && total == final(self).spec_total()
                },
            },
    {
        self.done = self.done + 1;
        match outcome {
            Ok(()) => {
                self.successful.push(out_path.clone());
                ConvertEvent::ItemSuccess { out_path, current: self.done, total: self.total }
            },
            Err(reason) => {
                let mut msg = out_path.clone();
                msg.append(": ");
                msg.append(reason.as_str());
                self.errors.push(msg.clone());
                proof {
                    assert(self.errors@.drop_last() =~= old(self).errors@);
                }
                ConvertEvent::ItemError { out_path, error: msg, current: self.done, total: self.total }
            },
        }
    }

    /// The event that closes the job: the paths written and the errors.
    pub fn finish(self, duration_ms: u64) -> (event: ConvertEvent)
        ensures
            event matches ConvertEvent::AllFinished { successful, errors, duration_ms: d }
                && successful@ == self.spec_successful() && errors@ == self.spec_errors() && d == duration_ms,
    {
        ConvertEvent::AllFinished { successful: self.successful, errors: self.errors, duration_ms }
    }
}

/// The interface's view of a background conversion.
pub struct AsyncConverter {
    /// Whether the events of a job are being received.
    pub receiving: bool,
    pub is_converting: bool,
    /// Items done and items in the job, while it runs.
    pub progress: Option<(usize, usize)>,
}

impl AsyncConverter {
    /// An idle converter.
    pub fn new() -> (c: AsyncConverter)
        ensures
            !c.receiving,
            !c.is_converting,
            c.progress is None,
    {
        AsyncConverter { receiving: false, is_converting: false, progress: None }
    }

    /// A job of `total` items was handed to the worker: events are received, the
    /// converter is busy, and no item is done yet.
    pub fn start(&mut self, total: usize)
        ensures
            final(self).receiving,
            final(self).is_converting,
            final(self).progress == Some((0usize, total)),
    {
        self.receiving = true;
        self.is_converting = true;
        self.progress = Some((0, total));
    }

    /// Takes in the event the worker sent, if any, and hands it on. While no job's
    /// events are received nothing is taken in. An item event sets the progress to its
    /// numbers; the final event makes the converter idle and stops receiving.
    pub fn poll(&mut self, incoming: Option<ConvertEvent>) -> (out: Option<ConvertEvent>)
        ensures
            !old(self).receiving ==> out is None && *final(self) == *old(self),
            old(self).receiving && incoming is None ==> out is None && *final(self) == *old(self),
            old(self).receiving && incoming is Some ==> out == incoming && match incoming.unwrap() {
                ConvertEvent::ItemSuccess { current, total, .. } => {
                    &&& final(self).progress == Some((current, total))
                    &&& final(self).receiving
                    &&& final(self).is_converting == old(self).is_converting
                },
                ConvertEvent::ItemError { current, total, .. } => {
                    &&& final(self).progress == Some((current, total))
                    &&& final(self).receiving
                    &&& final(self).is_converting == old(self).is_converting
                },
                ConvertEvent::AllFinished { .. } => {
                    &&& final(self).progress is None
                    &&& !final(self).receiving
                    &&& !final(self).is_converting
                },
            },
    {
        if !self.receiving {
            return None;
        }
        match incoming {
            None => None,
            Some(event) => {
                match &event {
                    ConvertEvent::ItemSuccess { current, total, .. } => {
                        self.progress = Some((*current, *total));
                    },
                    ConvertEvent::ItemError { current, total, .. } => {
                        self.progress = Some((*current, *total));
                    },
                    ConvertEvent::AllFinished { .. } => {
                        self.is_converting = false;
                        self.receiving = false;
                        self.progress = None;
                    },
                }
                Some(event)
            },
        }
    }
}

impl Default for AsyncConverter {
    /// An idle converter, as `new` makes.
    fn default() -> (c: AsyncConverter)
        ensures
            !c.receiving,
            !c.is_converting,
            c.progress is None,
    {
        AsyncConverter::new()
    }
}

/// Every item of a job is reported once: when all items are recorded, the paths
/// written and the errors together number the items of the job.
pub proof fn lemma_batch_accounts_for_every_item(p: BatchProgress)
    requires
        p.consistent(),
        p.spec_done() == p.spec_total(),
    ensures
        p.spec_successful().len() + p.spec_errors().len() == p.spec_total(),
{
}

} // verus!
