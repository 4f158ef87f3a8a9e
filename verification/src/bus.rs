//! The termination bus: the broadcast channel on which any faker may ask for
//! the end of the scenario.
//!
//! The channel is tokio's. Its state is shared by every handle and changed by
//! other tasks, so nothing is claimed here about the messages it holds. What
//! the contracts speak of is which bus a handle is on, and how many messages
//! a bus retains.

use vstd::prelude::*;
use vstd::arithmetic::power2::is_pow2;
use tokio::sync::broadcast::error::SendError;
use tokio::sync::broadcast::{Receiver, Sender};

verus! {

/// Slots of the termination bus. A subscriber that falls further behind than
/// this loses the oldest messages; publishers never wait.
pub const TERMINATION_BUS_CAPACITY: usize = 16;

/// The publishing half of tokio's broadcast channel, carried as an opaque value.
#[verifier::external_type_specification]
#[verifier::external_body]
#[verifier::reject_recursive_types(T)]
pub struct ExSender<T>(Sender<T>);

/// A subscriber's cursor into tokio's broadcast channel, carried as an opaque value.
#[verifier::external_type_specification]
#[verifier::external_body]
#[verifier::reject_recursive_types(T)]
pub struct ExReceiver<T>(Receiver<T>);

/// The error of tokio's `Sender::send`, carried as an opaque value.
#[verifier::external_type_specification]
#[verifier::external_body]
#[verifier::reject_recursive_types(T)]
pub struct ExSendError<T>(SendError<T>);

/// The bus that a sender publishes on. Every handle of one channel names
/// the same bus, and no handle of another channel does.
pub uninterp spec fn sender_bus(tx: Sender<bool>) -> int;

/// The bus that a cursor reads.
pub uninterp spec fn cursor_bus(rx: Receiver<bool>) -> int;

/// The number of messages that a bus retains: the limit that its ring buffer
/// was made with, after which a cursor that has not kept up loses the oldest.
pub uninterp spec fn bus_slots(bus: int) -> nat;

/// `tokio::sync::broadcast::channel`: trusted, for a capacity between 1 and
/// `usize::MAX / 2` (outside of which it panics), to return a sender and a
/// cursor on one new channel, whose ring buffer has the capacity rounded up
/// to the next power of two, as its documentation says.
#[verifier::external_body]
fn new_channel(capacity: usize) -> (halves: (Sender<bool>, Receiver<bool>))
    requires
        0 < capacity <= usize::MAX / 2,
    ensures
        cursor_bus(halves.1) == sender_bus(halves.0),
        is_pow2(bus_slots(sender_bus(halves.0)) as int),
        capacity <= bus_slots(sender_bus(halves.0)) < 2 * capacity,
{
    tokio::sync::broadcast::channel(capacity)
}

/// `Sender::subscribe`: trusted to hand out a cursor on the sender's
/// channel. The cursor sees only what is published after the call, which
/// cannot be said here. tokio panics once a channel has `usize::MAX >> 2`
/// live receivers.
#[verifier::external_body]
fn subscribe(tx: &Sender<bool>) -> (rx: Receiver<bool>)
    ensures
        cursor_bus(rx) == sender_bus(*tx),
{
    tx.subscribe()
}

/// `Sender::clone`: trusted to return another handle on the same channel.
#[verifier::external_body]
fn clone_sender(tx: &Sender<bool>) -> (copy: Sender<bool>)
    ensures
        sender_bus(copy) == sender_bus(*tx),
{
    tx.clone()
}

/// `Sender::send`: trusted to count at least one receiver whenever it
/// succeeds; it fails exactly when there is none, which depends on what the
/// other handles have done and is left open.
pub assume_specification<T>[ Sender::<T>::send ](tx: &Sender<T>, value: T) -> (sent: Result<
    usize,
    SendError<T>,
>)
    ensures
        sent matches Ok(heard) ==> heard >= 1,
;

/// Why a message could not be published.
#[derive(Debug, Clone, Copy, PartialEq, Eq, Structural)]
pub enum BusError {
    /// Nobody holds a cursor on the bus any more.
    NoSubscriber,
}

/// Both halves of the bus as one faker receives them.
pub struct Link {
    pub tx: Sender<bool>,
    pub rx: Receiver<bool>,
}

/// The only power of two from 16 up to, but not including, 32 is 16.
proof fn sixteen_is_the_power_of_two(slots: int)
    requires
        is_pow2(slots),
        16 <= slots < 32,
    ensures
        slots == 16,
{
    reveal_with_fuel(is_pow2, 6);
}

/// Opens the bus: a new channel of `TERMINATION_BUS_CAPACITY` slots, with
/// its sender and its first cursor. The cursor exists from the start, so it
/// sees every message that is ever published.
pub fn open() -> (halves: (Sender<bool>, Receiver<bool>))
    ensures
        cursor_bus(halves.1) == sender_bus(halves.0),
        bus_slots(sender_bus(halves.0)) == TERMINATION_BUS_CAPACITY,
{
    let halves = new_channel(TERMINATION_BUS_CAPACITY);
    proof {
        sixteen_is_the_power_of_two(bus_slots(sender_bus(halves.0)) as int);
    }
    halves
}

/// A link to the bus of `tx` for one faker: a sender clone, and a cursor
/// created now.
pub fn link(tx: &Sender<bool>) -> (link: Link)
    ensures
        sender_bus(link.tx) == sender_bus(*tx),
        cursor_bus(link.rx) == sender_bus(*tx),
{
    let sender = clone_sender(tx);
    let rx = subscribe(&sender);
    Link { tx: sender, rx }
}

/// What publishing came to, given what tokio's `send` returned: the number
/// of cursors that will see the message, or that there was none.
pub fn reception(sent: Result<usize, SendError<bool>>) -> (heard: Result<usize, BusError>)
    ensures
        match sent {
            Ok(count) => heard == Ok::<usize, BusError>(count),
            Err(_) => heard == Err::<usize, BusError>(BusError::NoSubscriber),
        },
{
    match sent {
        Ok(count) => Ok(count),
        Err(_) => Err(BusError::NoSubscriber),
    }
}

/// Asks for the end of the scenario by sending `true`. Never waits: where
/// the bus is full, the oldest message makes room. Whether a cursor is left
/// to see the message is up to the other handles; where one is, the result
/// is how many there are.
pub fn publish(tx: &Sender<bool>) -> (heard: Result<usize, BusError>)
    ensures
        heard matches Ok(count) ==> count >= 1,
{
    reception(tx.send(true))
}

} // verus!
