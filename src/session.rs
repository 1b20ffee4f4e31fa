//! The mutable state of one shell session.
use vstd::prelude::*;

verus! {

/// What the shell keeps between input lines: the client once a server has been
/// started, the id of the last request sent, and whether the shell should end.
pub struct Session<C> {
    pub client: Option<C>,
    pub request_id: u64,
    pub exit: bool,
}

impl<C> Session<C> {
    /// A session with no client, no request sent yet, and no exit asked for.
    pub fn new() -> (r: Self)
        ensures
            r.client is None,
            r.request_id == 0,
            !r.exit,
    {
        Session { client: None, request_id: 0, exit: false }
    }

    /// Puts a new client in place of the previous one, if any.
    pub fn set_client(&mut self, client: C)
        ensures
            final(self).client == Some(client),
            final(self).request_id == old(self).request_id,
            final(self).exit == old(self).exit,
    {
        self.client = Some(client);
    }

    /// Whether a server has been started.
    pub fn has_client(&self) -> (r: bool)
        ensures
            r == self.client is Some,
    {
        self.client.is_some()
    }
}

} // verus!
