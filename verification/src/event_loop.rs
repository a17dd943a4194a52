//! One tick of the poll loop: check every media in registry order and fan
//! each fresh update out to every registered sink conduit.
//!
//! A sink conduit is an unbounded, non-blocking channel whose consumer runs
//! on its own; the dispatcher never waits for acknowledgement. One sink's
//! failure never keeps a message from the other sinks, and one media's
//! failure never keeps the other media from being checked in the same tick.
//! The caller owns the surrounding loop: it supplies what durable storage
//! holds for each media and persists the ids of the updates reported here.

use vstd::prelude::*;
use crate::{check_for_update, spec_message, CheckError, Feed, Media, Update};
use crate::watermark::WatermarkStore;

verus! {

/// Sink conduits are `crossbeam_channel` senders; the type is opaque here.
#[verifier::external_type_specification]
#[verifier::external_body]
#[verifier::reject_recursive_types(T)]
pub struct ExSender<T>(crossbeam_channel::Sender<T>);

/// Relies on `crossbeam_channel::Sender::send`: pushing a message into the
/// channel, which fails only when every receiver has been dropped. Whether
/// the consumer on the far end is still listening cannot be promised here,
/// so nothing is: callers learn the outcome from the returned flag alone.
#[verifier::external_body]
fn send_message(sender: &crossbeam_channel::Sender<String>, message: &String) -> (delivered: bool)
{
    sender.send(message.clone()).is_ok()
}

/// Pushes `message` onto every sink conduit, in order, and reports per sink
/// whether the push was taken. Every sink is attempted: a failed push never
/// keeps the message from the sinks after it.
pub fn fan_out(senders: &Vec<crossbeam_channel::Sender<String>>, message: &String)
    -> (delivered: Vec<bool>)
    ensures
        delivered@.len() == senders@.len(),
{
    let mut delivered: Vec<bool> = Vec::new();
    let mut i: usize = 0;
    while i < senders.len()
        invariant
            i <= senders@.len(),
            delivered@.len() == i,
        decreases senders@.len() - i,
    {
        let taken = send_message(&senders[i], message);
        delivered.push(taken);
        i += 1;
    }
    delivered
}

/// What one media's check came to within a tick.
pub enum TickOutcome {
    /// A fresh update: the formatted message was pushed to every sink; the
    /// caller should persist `update.id` as the media's new watermark.
    Notified { update: Update, message: String, delivered: Vec<bool> },
    /// Nothing new, or nothing fetched.
    Quiet,
    /// The check failed; only this media is affected.
    Failed(CheckError),
}

/// A reported outcome is well-formed against the sink count: a notification
/// carries exactly the formatted text of its update and one delivery flag
/// per registered sink.
pub open spec fn outcome_wf(o: TickOutcome, sink_count: int) -> bool {
    o matches TickOutcome::Notified { update, message, delivered }
        ==> delivered@.len() == sink_count && message@ == spec_message(update@)
}

/// One full tick: checks every media of `media_list` in order through the
/// source `F` and fans each fresh update out to every sender. `persisted`
/// carries, positionally, what durable storage holds for each media (used
/// only for a media whose watermark is not loaded yet). Every media gets
/// exactly one outcome: an error for one media never skips the media after
/// it, and a failed sink push never blocks the remaining sinks.
pub fn run_tick<F: Feed>(
    media_list: &Vec<Media>,
    store: &mut WatermarkStore,
    persisted: &Vec<Option<u64>>,
    senders: &Vec<crossbeam_channel::Sender<String>>,
) -> (report: Vec<TickOutcome>)
    requires
        old(store).wf(),
        persisted@.len() == media_list@.len(),
    ensures
        final(store).wf(),
        report@.len() == media_list@.len(),
        forall|i: int| 0 <= i < report@.len()
            ==> #[trigger] outcome_wf(report@[i], senders@.len() as int),
{
    let mut report: Vec<TickOutcome> = Vec::new();
    let mut i: usize = 0;
    while i < media_list.len()
        invariant
            store.wf(),
            persisted@.len() == media_list@.len(),
            i <= media_list@.len(),
            report@.len() == i,
            forall|j: int| 0 <= j < i
                ==> #[trigger] outcome_wf(report@[j], senders@.len() as int),
        decreases media_list@.len() - i,
    {
        let media = media_list[i];
        let persisted_here = persisted[i];
        match check_for_update::<F>(&media, store, persisted_here) {
            Ok(Some(update)) => {
                let message = update.format_message();
                let delivered = fan_out(senders, &message);
                report.push(TickOutcome::Notified { update, message, delivered });
            },
            Ok(None) => {
                report.push(TickOutcome::Quiet);
            },
            Err(e) => {
                report.push(TickOutcome::Failed(e));
            },
        }
        i += 1;
    }
    report
}

} // verus!
