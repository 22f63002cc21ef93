//! The contract of the transport layer that reaches the agents.

use ecies::SecretKey;
use vstd::prelude::*;

use crate::error::AgentError;
use crate::ident::Id;

verus! {

/// The controller's secret key, which identifies it in the handshake with
/// an agent. Verus carries values of this type through without looking
/// inside.
#[verifier::external_type_specification]
#[verifier::external_body]
pub struct ExSecretKey(SecretKey);

/// The listener that accepts agents and dials out to them.
///
/// The transport layer implements this trait; the contracts say what the
/// rest of the controller relies on.
pub trait Server {
    /// Whether the listener is up.
    spec fn running(&self) -> bool;

    /// Whether the agent `apid` is being dialled or is in the handshake, and
    /// has no session yet.
    spec fn dialing(&self, apid: Id) -> bool;

    /// The address the listener was last brought up on.
    spec fn address(&self) -> String;

    /// The key the listener was last brought up with, if it ever was.
    spec fn identity(&self) -> Option<SecretKey>;

    /// Brings the listener up on `addr`, with `key` as the controller's
    /// identity in the handshake.
    ///
    /// Starting a listener that is up is the error `AlreadyRunning`, which
    /// no other start gives, and leaves it up. A start that succeeds binds
    /// to exactly `addr` with exactly `key`; one that fails leaves address,
    /// key and dials as they were.
    fn start(&mut self, addr: &str, key: SecretKey) -> (r: Result<(), AgentError>)
        ensures
            old(self).running() <==> r == Err::<(), AgentError>(AgentError::AlreadyRunning),
            final(self).running() == (old(self).running() || r is Ok),
            r is Ok ==> final(self).address()@ == addr@ && final(self).identity() == Some(key),
            r is Err ==> final(self).address() == old(self).address() && final(self).identity()
                == old(self).identity(),
            r is Err ==> forall|apid: Id| final(self).dialing(apid) == old(self).dialing(apid),
    ;

    /// Whether the listener is up.
    fn is_running(&self) -> (r: bool)
        ensures
            r == self.running(),
    ;

    /// Brings the listener down and says whether it was up.
    fn stop(&mut self) -> (r: bool)
        ensures
            r == old(self).running(),
            !final(self).running(),
    ;

    /// Asks for a dial to the agent `apid` and says whether the request was
    /// taken up; an agent whose dial was taken up is among those being
    /// dialled.
    fn connect(&mut self, apid: Id) -> (r: bool)
        ensures
            final(self).running() == old(self).running(),
            forall|other: Id|
                final(self).dialing(other) == (old(self).dialing(other) || (r && other == apid)),
    ;

    /// The agents that are being dialled or are in the handshake, each once.
    fn connecting(&self) -> (r: Vec<Id>)
        ensures
            forall|apid: Id| r@.contains(apid) == self.dialing(apid),
            r@.no_duplicates(),
    ;
}

} // verus!
