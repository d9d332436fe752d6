//! Reading a characteristic over a link that may fail.
//!
//! A read that fails is tried once more, after the link was taken down,
//! left alone for a while and brought up again. The caller does the work
//! that each action asks for and reports what came of it.

use super::dbus_bluez::{DBusFault, TypedDbusError};
use super::device::Error;
use vstd::prelude::*;

verus! {

/// How often a read is tried in all.
pub const MAX_ATTEMPTS: u64 = 2;

/// The pause before the first retry, in milliseconds; the pause before the
/// n-th retry is n times as long.
pub const BASE_BACKOFF_MS: u64 = 30_000;

/// The pause after a reconnect, in milliseconds.
pub const SETTLE_MS: u64 = 200;

/// Where a read stands.
#[derive(Clone, Copy, Debug, PartialEq, Eq, Structural)]
pub enum Phase {
    Reading,
    Disconnecting,
    BackingOff,
    Connecting,
    Settling,
    Finished,
}

/// What came of the action that the caller was asked for.
#[derive(Debug)]
pub enum ReadEvent {
    ReadOk(Vec<u8>),
    ReadFailed(Error),
    Disconnected,
    DisconnectFailed(DBusFault),
    Slept,
    Connected,
    ConnectFailed(DBusFault),
}

/// What the caller is asked to do next.
#[derive(Debug)]
pub enum ReadAction {
    Read,
    Disconnect,
    Sleep(u64),
    Connect,
    /// The read is over, with the payload or the failure to report.
    Finish(Result<Vec<u8>, Error>),
}

/// A failure of the broker, sorted by the name of its error.
pub open spec fn typed(cause: DBusFault) -> TypedDbusError {
    TypedDbusError {
        cause,
        kind: super::dbus_bluez::kind_of(super::dbus_bluez::name_view(cause.name)),
    }
}

/// The retry, the phase and the action that follow an event in the
/// `retry`-th retry of a read in `phase`. An event that the phase does not
/// wait for ends the read with a failure.
pub open spec fn next(retry: u64, phase: Phase, event: ReadEvent) -> (u64, Phase, ReadAction) {
    match (phase, event) {
        (Phase::Reading, ReadEvent::ReadOk(payload)) => (
            retry,
            Phase::Finished,
            ReadAction::Finish(Ok(payload)),
        ),
        (Phase::Reading, ReadEvent::ReadFailed(error)) => if retry + 1 < MAX_ATTEMPTS {
            ((retry + 1) as u64, Phase::Disconnecting, ReadAction::Disconnect)
        } else {
            (retry, Phase::Finished, ReadAction::Finish(Err(error)))
        },
        (Phase::Disconnecting, ReadEvent::Disconnected) => (
            retry,
            Phase::BackingOff,
            ReadAction::Sleep((retry * BASE_BACKOFF_MS) as u64),
        ),
        (Phase::Disconnecting, ReadEvent::DisconnectFailed(cause)) => (
            retry,
            Phase::Finished,
            ReadAction::Finish(Err(Error::ErrorDisconnecting { cause: typed(cause) })),
        ),
        (Phase::BackingOff, ReadEvent::Slept) => (retry, Phase::Connecting, ReadAction::Connect),
        (Phase::Connecting, ReadEvent::Connected) => (
            retry,
            Phase::Settling,
            ReadAction::Sleep(SETTLE_MS),
        ),
        (Phase::Connecting, ReadEvent::ConnectFailed(cause)) => (
            retry,
            Phase::Finished,
            ReadAction::Finish(Err(Error::ErrorConnecting { cause: typed(cause) })),
        ),
        (Phase::Settling, ReadEvent::Slept) => (retry, Phase::Reading, ReadAction::Read),
        _ => (retry, Phase::Finished, ReadAction::Finish(Err(Error::ThisShouldNeverHappend))),
    }
}

/// One read of a characteristic, with its retries.
#[derive(Debug)]
pub struct ReadAttr {
    retry: u64,
    phase: Phase,
}

impl ReadAttr {
    #[verifier::type_invariant]
    spec fn bounded(&self) -> bool {
        self.retry < MAX_ATTEMPTS
    }

    /// How many retries were begun.
    pub closed spec fn retry(&self) -> u64 {
        self.retry
    }

    /// Where the read stands.
    pub closed spec fn phase(&self) -> Phase {
        self.phase
    }

    /// A read that is about to be tried for the first time: the caller
    /// reads next.
    pub fn begin() -> (r: (ReadAttr, ReadAction))
        ensures
            r.0.retry() == 0,
            r.0.phase() == Phase::Reading,
            r.1 == ReadAction::Read,
    {
        (ReadAttr { retry: 0, phase: Phase::Reading }, ReadAction::Read)
    }

    /// Tells whether the read is over.
    pub fn is_finished(&self) -> (r: bool)
        ensures
            r == (self.phase() == Phase::Finished),
    {
        self.phase == Phase::Finished
    }

    /// Takes in what came of the last action and says what to do next.
    pub fn step(&mut self, event: ReadEvent) -> (r: ReadAction)
        ensures
            (final(self).retry(), final(self).phase(), r) == next(
                old(self).retry(),
                old(self).phase(),
                event,
            ),
            final(self).retry() < MAX_ATTEMPTS,
    {
        proof {
            use_type_invariant(&*self);
        }
        match (self.phase, event) {
            (Phase::Reading, ReadEvent::ReadOk(payload)) => {
                self.phase = Phase::Finished;
                ReadAction::Finish(Ok(payload))
            },
            (Phase::Reading, ReadEvent::ReadFailed(error)) => {
                if self.retry + 1 < MAX_ATTEMPTS {
                    self.retry = self.retry + 1;
                    self.phase = Phase::Disconnecting;
                    ReadAction::Disconnect
                } else {
                    self.phase = Phase::Finished;
                    ReadAction::Finish(Err(error))
                }
            },
            (Phase::Disconnecting, ReadEvent::Disconnected) => {
                self.phase = Phase::BackingOff;
                ReadAction::Sleep(self.retry * BASE_BACKOFF_MS)
            },
            (Phase::Disconnecting, ReadEvent::DisconnectFailed(cause)) => {
                self.phase = Phase::Finished;
                ReadAction::Finish(
                    Err(Error::ErrorDisconnecting { cause: TypedDbusError::from(cause) }),
                )
            },
            (Phase::BackingOff, ReadEvent::Slept) => {
                self.phase = Phase::Connecting;
                ReadAction::Connect
            },
            (Phase::Connecting, ReadEvent::Connected) => {
                self.phase = Phase::Settling;
                ReadAction::Sleep(SETTLE_MS)
            },
            (Phase::Connecting, ReadEvent::ConnectFailed(cause)) => {
                self.phase = Phase::Finished;
                ReadAction::Finish(
                    Err(Error::ErrorConnecting { cause: TypedDbusError::from(cause) }),
                )
            },
            (Phase::Settling, ReadEvent::Slept) => {
                self.phase = Phase::Reading;
                ReadAction::Read
            },
            _ => {
                self.phase = Phase::Finished;
                ReadAction::Finish(Err(Error::ThisShouldNeverHappend))
            },
        }
    }
}

/// A read that succeeds ends at once with its payload.
pub proof fn success_ends_read(retry: u64, payload: Vec<u8>)
    ensures
        next(retry, Phase::Reading, ReadEvent::ReadOk(payload)) == (
            retry,
            Phase::Finished,
            ReadAction::Finish(Ok(payload)),
        ),
{
}

/// A read that fails is tried again while attempts are left, and ends with
/// its own failure when none is.
pub proof fn failure_is_retried_while_attempts_are_left(retry: u64, error: Error)
    ensures
        retry + 1 < MAX_ATTEMPTS ==> next(retry, Phase::Reading, ReadEvent::ReadFailed(error)) == (
            (retry + 1) as u64,
            Phase::Disconnecting,
            ReadAction::Disconnect,
        ),
        retry + 1 >= MAX_ATTEMPTS ==> next(retry, Phase::Reading, ReadEvent::ReadFailed(error))
            == (retry, Phase::Finished, ReadAction::Finish(Err(error))),
{
}

/// The pause before a retry is as many times the base pause as retries
/// were begun.
pub proof fn backoff_is_linear(retry: u64)
    requires
        retry < MAX_ATTEMPTS,
    ensures
        next(retry, Phase::Disconnecting, ReadEvent::Disconnected).2 == ReadAction::Sleep(
            (retry * BASE_BACKOFF_MS) as u64,
        ),
        retry * BASE_BACKOFF_MS <= u64::MAX,
{
}

/// However a read goes, no more retries are begun than attempts are
/// allowed, and a read that is over stays over.
pub proof fn attempts_are_bounded(retry: u64, phase: Phase, event: ReadEvent)
    requires
        retry < MAX_ATTEMPTS,
    ensures
        next(retry, phase, event).0 < MAX_ATTEMPTS,
        next(retry, phase, event).0 >= retry,
        phase == Phase::Finished ==> next(retry, phase, event).1 == Phase::Finished,
{
}

} // verus!
