//! The monitor core: one batch of raw payloads in, decoded and cleaned
//! records out — pushed to the bounded sink without blocking, or returned
//! directly in pull-only mode — plus the per-cycle decision of the
//! long-running loop (what aborts a cycle and what does not).

use vstd::prelude::*;

use crate::channel::try_send_process;
use crate::decode::{DecodeError, decode_event, spec_decode};
use crate::raw::{RawEvent, RawEventView};
use crate::record::{Process, ProcessView, spec_clean};

verus! {

/// The views of a batch of raw events, in pull order.
pub open spec fn event_views(evs: Seq<RawEvent>) -> Seq<RawEventView> {
    evs.map_values(|e: RawEvent| e@)
}

/// The views of a sequence of records, in order.
pub open spec fn record_views(ps: Seq<Process>) -> Seq<ProcessView> {
    ps.map_values(|p: Process| p@)
}

/// What one batch decodes and cleans to: every payload decoded and cleaned,
/// in batch order, or the error of the first payload that fails to decode.
pub open spec fn spec_collect(batch: Seq<RawEventView>) -> Result<Seq<ProcessView>, DecodeError>
    decreases batch.len(),
{
    if batch.len() == 0 {
        Ok(Seq::empty())
    } else {
        match spec_collect(batch.drop_last()) {
            Err(e) => Err(e),
            Ok(rest) => match spec_decode(batch.last()) {
                Err(e) => Err(e),
                Ok(p) => Ok(rest.push(spec_clean(p))),
            },
        }
    }
}

/// A batch whose prefix already fails keeps failing the same way however the
/// batch goes on.
proof fn lemma_collect_err_extends(s: Seq<RawEventView>, t: Seq<RawEventView>)
    requires
        spec_collect(s) is Err,
    ensures
        spec_collect(s + t) == spec_collect(s),
    decreases t.len(),
{
    if t.len() == 0 {
        assert(s + t =~= s);
    } else {
        lemma_collect_err_extends(s, t.drop_last());
        assert((s + t).drop_last() =~= s + t.drop_last());
        assert((s + t).len() > 0);
    }
}

/// Transport failure: the OS instrumentation connection could not be
/// established or a pull from it failed; the platform layer's description
/// travels along.
#[derive(Debug)]
pub struct ConnectionError {
    /// What the platform layer said went wrong.
    pub message: String,
}

/// A fatal failure of one monitoring cycle. Delivery failures are absent by
/// design: a record the channel cannot accept is dropped and monitoring
/// continues.
#[derive(Debug)]
pub enum MonitorError {
    /// The pull failed: the connection was lost or never established.
    Connection(ConnectionError),
    /// A payload in the pulled batch failed to decode.
    Decode(DecodeError),
}

/// Process space sensor: decodes, cleans and hands off creation events.
pub struct ProcessMonitor {
    /// The sending half of the bounded delivery channel, or `None` for the
    /// pull-only mode in which `collect` returns the records directly.
    pub tx: Option<crossbeam_channel::Sender<Process>>,
}

impl ProcessMonitor {
    /// Binds a monitor to a delivery sink, or to none for pull-only use.
    /// No side effects; nothing is connected yet.
    pub fn new(tx: Option<crossbeam_channel::Sender<Process>>) -> (m: ProcessMonitor)
        ensures
            m.tx == tx,
    {
        ProcessMonitor { tx }
    }

    /// Decodes and cleans one batch of raw payloads, aborting on the first
    /// payload that fails to decode. With a sink, every record is pushed to
    /// it without blocking — a full or closed channel loses that record and
    /// the batch goes on — and the result is empty; without a sink the
    /// records come back in batch order.
    pub fn collect(&self, batch: Vec<RawEvent>) -> (r: Result<Vec<Process>, DecodeError>)
        ensures
            match spec_collect(event_views(batch@)) {
                Err(e) => r == Err::<Vec<Process>, DecodeError>(e),
                Ok(records) => match r {
                    Ok(ps) => record_views(ps@) == if self.tx is Some {
                        Seq::<ProcessView>::empty()
                    } else {
                        records
                    },
                    Err(_) => false,
                },
            },
    {
        let mut out: Vec<Process> = Vec::new();
        let mut i: usize = 0;
        while i < batch.len()
            invariant
                0 <= i <= batch@.len(),
                spec_collect(event_views(batch@.subrange(0, i as int))) is Ok,
                self.tx is Some ==> out@.len() == 0,
                record_views(out@) == if self.tx is Some {
                    Seq::<ProcessView>::empty()
                } else {
                    spec_collect(event_views(batch@.subrange(0, i as int)))->Ok_0
                },
            decreases batch@.len() - i,
        {
            let ghost prefix = event_views(batch@.subrange(0, i as int));
            let ghost prefix1 = event_views(batch@.subrange(0, i as int + 1));
            proof {
                assert(batch@.subrange(0, i as int + 1).drop_last() =~= batch@.subrange(
                    0,
                    i as int,
                ));
                assert(prefix1.drop_last() =~= prefix);
                assert(prefix1.last() == batch@[i as int]@);
            }
            match decode_event(&batch[i]) {
                Err(e) => {
                    proof {
                        assert(spec_collect(prefix1) == Err::<Seq<ProcessView>, DecodeError>(e));
                        let suffix = event_views(
                            batch@.subrange(i as int + 1, batch@.len() as int),
                        );
                        assert(event_views(batch@) =~= prefix1 + suffix);
                        lemma_collect_err_extends(prefix1, suffix);
                    }
                    return Err(e);
                },
                Ok(p) => {
                    let mut p = p;
                    p.clean();
                    proof {
                        assert(spec_collect(prefix1) == Ok::<Seq<ProcessView>, DecodeError>(
                            spec_collect(prefix)->Ok_0.push(p@),
                        ));
                    }
                    match &self.tx {
                        Some(tx) => {
                            // a rejected push loses only this record; the batch goes on
                            match try_send_process(tx, p) {
                                Ok(_) => {
                                },
                                Err(_) => {
                                },
                            }
                        },
                        None => {
                            let ghost out_before = out@;
                            out.push(p);
                            proof {
                                assert(record_views(out@) =~= record_views(out_before).push(p@));
                            }
                        },
                    }
                },
            }
            i += 1;
        }
        proof {
            assert(batch@.subrange(0, batch@.len() as int) =~= batch@);
            if self.tx is Some {
                assert(record_views(out@) =~= Seq::<ProcessView>::empty());
            }
        }
        Ok(out)
    }

    /// One cycle of the long-running loop, taking what the pull produced: a
    /// transport failure aborts the cycle, a batch is decoded, cleaned and
    /// delivered as `collect` does, and the first payload that fails to
    /// decode aborts the cycle; a delivery failure never does.
    pub fn step(&self, pulled: Result<Vec<RawEvent>, ConnectionError>) -> (r: Result<
        (),
        MonitorError,
    >)
        ensures
            match pulled {
                Err(e) => r == Err::<(), MonitorError>(MonitorError::Connection(e)),
                Ok(batch) => match spec_collect(event_views(batch@)) {
                    Err(e) => r == Err::<(), MonitorError>(MonitorError::Decode(e)),
                    Ok(_) => r == Ok::<(), MonitorError>(()),
                },
            },
    {
        match pulled {
            Err(e) => Err(MonitorError::Connection(e)),
            Ok(batch) => match self.collect(batch) {
                Err(e) => Err(MonitorError::Decode(e)),
                Ok(_) => Ok(()),
            },
        }
    }
}

} // verus!
