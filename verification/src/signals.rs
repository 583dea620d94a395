//! What the bot does when it is told to end.
use vstd::prelude::*;
use crate::protocol::Request;

verus! {

/// The signals the bot listens for.
#[derive(Debug, PartialEq, Eq)]
pub enum ShutdownSignal {
    Terminate,
    Interrupt,
    Quit,
}

/// On any of its signals, the bot shuts down all shards and closes the database.
pub fn on_shutdown_signal(signal: ShutdownSignal) -> (requests: Vec<Request>)
    ensures
        requests@ == seq![Request::ShutdownAllShards, Request::CloseDatabase],
{
    let mut requests = Vec::new();
    match signal {
        ShutdownSignal::Terminate | ShutdownSignal::Interrupt | ShutdownSignal::Quit => {
            requests.push(Request::ShutdownAllShards);
            requests.push(Request::CloseDatabase);
        },
    }
    assert(requests@ =~= seq![Request::ShutdownAllShards, Request::CloseDatabase]);
    requests
}

} // verus!
