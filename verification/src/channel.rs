//! Delivery of stream chunks on the output channel.
//!
//! The supervisor hands every non-empty read to the downstream consumer
//! as one chunk — the byte buffer and its valid length — over a
//! `crossbeam_channel` sender. The send itself is an outside call; the
//! decision that follows it (keep draining, or terminate the whole
//! subsystem because the consumer is gone) is verified here.

use vstd::prelude::*;

use crate::supervisor::{event_allowed, spec_step, Action, Event, Phase, Supervisor};
use crate::CHUNK_SIZE;

verus! {

/// The channel sender of `crossbeam_channel`, opaque to the proofs.
#[verifier::external_type_specification]
#[verifier::external_body]
#[verifier::reject_recursive_types(T)]
pub struct ExSender<T>(crossbeam_channel::Sender<T>);

/// One stream chunk as it travels on the channel: the number of valid
/// bytes, then the fixed-capacity buffer.
pub type Chunk = (usize, [u8; CHUNK_SIZE]);

/// Relies on `crossbeam_channel::Sender::send`: it blocks until the
/// message is delivered into the channel and returns an error exactly
/// when every receiver is gone. Whether that happens depends on the
/// consumer, so nothing more is promised of the outcome.
#[verifier::external_body]
fn send_on_channel(sender: &crossbeam_channel::Sender<Chunk>, len: usize, data: &[u8; CHUNK_SIZE]) -> (r:
    Result<(), ()>)
{
    sender.send((len, *data)).map_err(|_| ())
}

/// Sends the chunk just read and advances the supervisor by the outcome:
/// on delivery the machine asks for the next read; if the consumer is
/// gone, it sets the termination flag and stops the whole loop.
pub fn forward_chunk(
    sup: &mut Supervisor,
    sender: &crossbeam_channel::Sender<Chunk>,
    len: usize,
    data: &[u8; CHUNK_SIZE],
) -> (a: Action)
    requires
        old(sup).phase == Phase::Draining,
        old(sup).pending_send,
    ensures
        (*final(sup), a) == spec_step(*old(sup), Event::SendOk) || (*final(sup), a) == spec_step(
            *old(sup),
            Event::SendErr,
        ),
        a == Action::Read ==> *final(sup) == (Supervisor {
            pending_send: false,
            ..*old(sup)
        }),
        a == Action::SetTerminatedStop ==> *final(sup) == (Supervisor {
            phase: Phase::Terminated,
            pending_send: false,
            ..*old(sup)
        }),
        a == Action::Read || a == Action::SetTerminatedStop,
{
    match send_on_channel(sender, len, data) {
        Ok(_) => sup.step(Event::SendOk),
        Err(_) => sup.step(Event::SendErr),
    }
}

} // verus!
