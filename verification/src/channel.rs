//! The two paths between the simulation and its readers: request tokens one
//! way, copies of the traffic picture the other way.

use crate::flight::{all_in_bounds, all_on_map, Flight};
use crate::simulation::Simulation;
use std::sync::mpsc::{Receiver, Sender};
use std::sync::{Arc, Mutex, MutexGuard};
use std::time::Duration;
use vstd::prelude::*;

verus! {

/// Longest wait for a copy of the traffic picture, in milliseconds.
pub const REQUEST_TIMEOUT_MS: u64 = 3000;

/// The sending half of a channel of `std::sync::mpsc`.
#[verifier::external_type_specification]
#[verifier::external_body]
#[verifier::reject_recursive_types(T)]
pub struct ExSender<T>(Sender<T>);

/// The receiving half of a channel of `std::sync::mpsc`.
#[verifier::external_type_specification]
#[verifier::external_body]
#[verifier::reject_recursive_types(T)]
pub struct ExReceiver<T>(Receiver<T>);

/// The mutual-exclusion lock of `std::sync`.
#[verifier::external_type_specification]
#[verifier::external_body]
#[verifier::reject_recursive_types(T)]
pub struct ExMutex<T: ?Sized>(Mutex<T>);

/// The guard that holds a `std::sync::Mutex` locked.
#[verifier::external_type_specification]
#[verifier::external_body]
#[verifier::reject_recursive_types(T)]
pub struct ExMutexGuard<'a, T: ?Sized + 'a>(MutexGuard<'a, T>);

/// Puts an item on a path with `Sender::send`, which does not wait for a
/// receiver. The result tells whether the item was accepted, which it is
/// unless the receiving half is gone.
#[verifier::external_body]
fn send_on<T>(path: &Sender<T>, item: T) -> (accepted: bool) {
    path.send(item).is_ok()
}

/// Takes one request token off the request path with `Receiver::try_recv`,
/// without waiting. The result tells whether there was one.
#[verifier::external_body]
fn take_token(requests: &Receiver<()>) -> (pending: bool) {
    requests.try_recv().is_ok()
}

/// The receiving end of the data path, as all readers share it. The lock
/// that lets one reader at a time wait on it stays inside: it is taken and
/// let go within `get_latest_traffic_data`, and no guard of it exists outside
/// that call.
pub struct DataPath {
    receiver: Mutex<Receiver<Vec<Flight>>>,
}

/// Puts the receiving end of the data path behind a lock with `Mutex::new`,
/// which makes the lock unlocked.
#[verifier::external_body]
fn new_lock(receiver: Receiver<Vec<Flight>>) -> (lock: Mutex<Receiver<Vec<Flight>>>) {
    Mutex::new(receiver)
}

/// Locks the receiving end of the data path with `Mutex::lock`, waiting until
/// no other reader holds it. A lock that a panicking reader left poisoned is
/// taken all the same, with `PoisonError::into_inner`. `Mutex::lock` may
/// panic or never return on a thread that holds the lock already. No thread
/// does on entry: the lock is private to `DataPath`, and the one caller lets
/// its guard go before it returns.
#[verifier::external_body]
fn lock_receiver<'a>(path: &'a DataPath) -> (guard: MutexGuard<'a, Receiver<Vec<Flight>>>) {
    match path.receiver.lock() {
        Ok(guard) => guard,
        Err(poisoned) => poisoned.into_inner(),
    }
}

/// Waits with `Receiver::recv_timeout` for the next copy on the data path, at
/// most the given number of milliseconds, which is the request timeout. There
/// is no copy if none arrived in time or the sending half is gone.
#[verifier::external_body]
fn receive_within(guard: &MutexGuard<Receiver<Vec<Flight>>>, millis: u64) -> (snapshot: Option<
    Vec<Flight>,
>)
    requires
        millis == REQUEST_TIMEOUT_MS,
{
    guard.recv_timeout(Duration::from_millis(millis)).ok()
}

/// Makes the receiving end of the data path ready to be shared by the
/// readers.
pub fn share_data_path(receiver: Receiver<Vec<Flight>>) -> (path: DataPath) {
    DataPath { receiver: new_lock(receiver) }
}

/// The request path has lost its receiving half: no simulation is listening.
#[derive(Clone, Copy, Debug, PartialEq, Eq)]
pub struct RequestPathClosed;

/// Asks the simulation for the latest traffic picture: puts one token on the
/// request path and, if it was accepted, waits on the data path, alone among
/// the readers, for at most the request timeout. What arrives is passed on
/// only as `accept_picture` allows, and the reply is what `round_trip_reply`
/// makes of the two outcomes.
///
/// Whether the token is accepted and which copy arrives, if any, is decided
/// by the simulation and the other readers. Whatever they do, a picture that
/// is handed on has every aircraft on the map.
pub fn get_latest_traffic_data(
    data_requester: &Sender<()>,
    data_receiver: Arc<DataPath>,
) -> (reply: Result<Option<Vec<Flight>>, RequestPathClosed>)
    ensures
        reply matches Ok(Some(picture)) ==> all_in_bounds(picture@),
{
    let token_accepted = send_on(data_requester, ());
    let received = if token_accepted {
        let guard = lock_receiver(&data_receiver);
        accept_picture(receive_within(&guard, REQUEST_TIMEOUT_MS))
    } else {
        None
    };
    round_trip_reply(token_accepted, received)
}

/// Decides whether what the data path gave is passed on to the reader: a
/// copy of the traffic picture is, if every aircraft in it is on the map. A
/// copy with an aircraft off the map is no picture of the simulation and
/// counts as nothing received.
pub fn accept_picture(received: Option<Vec<Flight>>) -> (accepted: Option<Vec<Flight>>)
    ensures
        accepted == match received {
            Some(picture) => if all_in_bounds(picture@) {
                Some(picture)
            } else {
                None
            },
            None => None,
        },
{
    match received {
        Some(picture) => if all_on_map(picture.as_slice()) {
            Some(picture)
        } else {
            None
        },
        None => None,
    }
}

/// What a reader reports of its round trip, given whether the request path
/// accepted its token and what the data path then gave it: a closed request
/// path where the token was refused, whatever was received with it; else the
/// copy that arrived, or nothing where none arrived in time.
pub fn round_trip_reply(token_accepted: bool, received: Option<Vec<Flight>>) -> (reply: Result<
    Option<Vec<Flight>>,
    RequestPathClosed,
>)
    ensures
        reply == if token_accepted {
            Ok::<Option<Vec<Flight>>, RequestPathClosed>(received)
        } else {
            Err::<Option<Vec<Flight>>, RequestPathClosed>(RequestPathClosed)
        },
{
    if token_accepted {
        Ok(received)
    } else {
        Err(RequestPathClosed)
    }
}

/// Runs one tick of the simulation against the two paths: takes at most one
/// token off the request path, ticks, and hands the copy that the tick made,
/// if any, to the data path. A copy that no reader can receive any more is
/// dropped; the simulation goes on.
pub fn run_tick(sim: &mut Simulation, requests: &Receiver<()>, data: &Sender<Vec<Flight>>)
    ensures
        old(sim)@.wf(),
        final(sim)@ == old(sim)@.ticked(),
        final(sim)@.wf(),
{
    let pending = take_token(requests);
    match sim.tick(pending) {
        Some(snapshot) => {
            send_on(data, snapshot);
        },
        None => {},
    }
}

} // verus!
