//! A server running as a background task, shut down on release.
//!
//! A builder creates a server object already listening on an address, and a
//! driver then runs it in a background task until a shutdown signal — a
//! [`Latch`] — is unlocked. The caller gets a handle holding the bound
//! address and the latch; releasing the handle unlocks the latch and hands
//! back the wake handle of the task to rouse, without waiting for the task
//! to finish (fire-and-forget teardown).
//!
//! Only creation can fail, and its failure is propagated before anything
//! is spawned; readiness of the handle means exactly "the socket is
//! bound". The runtime performs the actual bind and task spawning, sharing
//! the latch between the handle and the spawned task.

use vstd::prelude::*;
use vstd::string::StringExecFns;

use crate::address::{decimal_seq, format_decimal, SocketAddress};
use crate::latch::{Latch, PollStatus};

verus! {

/// The base URL of a background server: its host always written in square
/// brackets, as the driver publishes it.
pub open spec fn background_url_view(address: SocketAddress) -> Seq<char> {
    "http://["@ + address.host@ + "]:"@ + decimal_seq(address.port as nat)
}

/// A reference to a server running in the background, which shuts it down
/// on release.
pub struct BackgroundServer<W> {
    address: SocketAddress,
    shutdown: Latch<W>,
}

impl<W> BackgroundServer<W> {
    /// The address the server is bound to.
    pub closed spec fn address(self) -> SocketAddress {
        self.address
    }

    /// The shutdown latch gating the background task's termination.
    pub closed spec fn shutdown(self) -> Latch<W> {
        self.shutdown
    }

    /// The address the server is listening on.
    pub fn local_addr(&self) -> (address: &SocketAddress)
        ensures
            *address == self.address(),
    {
        &self.address
    }

    /// The server's URL, constructed from its address.
    pub fn url(&self) -> (url: String)
        ensures
            url@ == background_url_view(self.address()),
    {
        let mut url = "http://[".to_owned();
        url.append(self.address.host.as_str());
        url.append("]:");
        let digits = format_decimal(self.address.port);
        url.append(digits.as_str());
        url
    }

    /// The background task's side of the shutdown signal: polls the latch,
    /// leaving `waker` behind while it is still locked.
    pub fn poll_shutdown(&mut self, waker: W) -> (status: PollStatus)
        ensures
            final(self).address() == old(self).address(),
            (final(self).shutdown(), status) == old(self).shutdown().spec_poll(waker),
    {
        self.shutdown.poll(waker)
    }

    /// Releases the server: unlocks the shutdown latch, handing back the
    /// background task's wake handle if it was suspended on the latch. The
    /// task is signalled, not awaited — release does not block on it.
    pub fn release(&mut self) -> (woken: Option<W>)
        ensures
            final(self).address() == old(self).address(),
            final(self).shutdown().signalled(),
            final(self).shutdown().waiter() is None,
            woken == old(self).shutdown().waiter(),
    {
        self.shutdown.unlock()
    }
}

/// The driver's decision once the builder has tried to create its server:
/// a creation failure is propagated untouched, with nothing to tear down;
/// otherwise the caller's handle holds exactly the bound address and a
/// still-locked latch with no waiter, ready for the background task to
/// poll.
pub fn serve_in_background<W, E>(created: Result<SocketAddress, E>) -> (r: Result<
    BackgroundServer<W>,
    E,
>)
    ensures
        r is Ok <==> created is Ok,
        created matches Ok(address) ==> r matches Ok(server) && server.address() == address
            && !server.shutdown().signalled() && server.shutdown().waiter() is None,
        created matches Err(error) ==> r matches Err(propagated) && propagated == error,
{
    match created {
        Ok(address) => Ok(BackgroundServer { address, shutdown: Latch::new() }),
        Err(error) => Err(error),
    }
}

} // verus!
