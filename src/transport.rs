//! The decisions of a channel transport: what a driver status means, which
//! filter setting to write, and the channel's open/close lifecycle. The
//! driver calls themselves are made by the caller, which hands the results in.

use vstd::prelude::*;

use crate::error::Error;
use crate::filter::Filter;
use crate::frame::{Frame, WireMsg};

verus! {

/// Driver status: the operation succeeded.
pub const STATUS_OK: u32 = 0x00000;

/// Driver status: the receive queue is empty.
pub const STATUS_RECEIVE_QUEUE_EMPTY: u32 = 0x00020;

/// Driver status: the channel handle is not a valid one.
pub const STATUS_ILLEGAL_HANDLE: u32 = 0x01C00;

/// Device filter state: no frame passes.
pub const FILTER_CLOSED: u32 = 0;

/// Device filter state: every frame passes.
pub const FILTER_OPEN: u32 = 1;

/// Device filter state: a custom acceptance filter is installed.
pub const FILTER_CUSTOM: u32 = 2;

/// The failing status of a driver call, if it failed.
pub fn status_error(status: u32) -> (r: Option<u32>)
    ensures
        r == (if status == STATUS_OK { None::<u32> } else { Some(status) }),
{
    if status == STATUS_OK {
        None
    } else {
        Some(status)
    }
}

/// What one poll of the receive queue gave.
#[derive(Clone, Debug)]
pub enum ReadOutcome {
    /// A frame was queued; here it is, decoded.
    Received(Frame),
    /// The queue was empty: not a failure. A blocking receiver waits for the
    /// channel's receive event and polls again.
    WouldBlock,
    /// The driver failed with this status; a blocking receiver stops here.
    Failed(u32),
}

/// Interprets the status and message of one read from the driver.
pub fn read_outcome(status: u32, msg: WireMsg) -> (r: ReadOutcome)
    ensures
        status == STATUS_OK ==> (r matches ReadOutcome::Received(f) && f.wire() == msg),
        status == STATUS_RECEIVE_QUEUE_EMPTY ==> r is WouldBlock,
        status != STATUS_OK && status != STATUS_RECEIVE_QUEUE_EMPTY ==> r == ReadOutcome::Failed(
            status,
        ),
{
    if status == STATUS_OK {
        ReadOutcome::Received(Frame::from_wire(msg))
    } else if status == STATUS_RECEIVE_QUEUE_EMPTY {
        ReadOutcome::WouldBlock
    } else {
        ReadOutcome::Failed(status)
    }
}

/// The device setting that installs a filter.
#[derive(Clone, Copy, Debug, PartialEq, Eq, Structural)]
pub enum FilterSetting {
    /// Open the channel to every frame.
    Open,
    /// An acceptance code and mask for one identifier format.
    Acceptance { extended: bool, code: u32, mask: u32 },
}

/// The setting that installs `filter`, given the filter state read back
/// from the device; fails with `FilterAlreadyConfigured` when a custom
/// filter is already installed, since a channel holds at most one.
pub fn filter_setting(current: u32, filter: &Filter) -> (r: Result<FilterSetting, Error>)
    ensures
        r is Err <==> current == FILTER_CUSTOM,
        r matches Err(e) ==> e is FilterAlreadyConfigured,
        r matches Ok(s) ==> s == (if filter@.accept_all {
            FilterSetting::Open
        } else {
            FilterSetting::Acceptance {
                extended: filter@.extended,
                code: filter@.id,
                mask: filter@.mask,
            }
        }),
{
    if current == FILTER_CUSTOM {
        return Err(Error::FilterAlreadyConfigured);
    }
    if filter.is_accept_all() {
        Ok(FilterSetting::Open)
    } else {
        Ok(
            FilterSetting::Acceptance {
                extended: filter.is_extended(),
                code: filter.id(),
                mask: filter.mask(),
            },
        )
    }
}

/// What a freshly opened channel lets through before any filter is added.
#[derive(Clone, Copy, Debug, PartialEq, Eq, Structural)]
pub enum FilterPolicy {
    RejectAll,
    AcceptAll,
}

/// The device filter state that realises a policy. Clearing the filters
/// returns a channel to `RejectAll`.
pub fn policy_setting(policy: FilterPolicy) -> (r: u32)
    ensures
        r == (match policy {
            FilterPolicy::RejectAll => FILTER_CLOSED,
            FilterPolicy::AcceptAll => FILTER_OPEN,
        }),
{
    match policy {
        FilterPolicy::RejectAll => FILTER_CLOSED,
        FilterPolicy::AcceptAll => FILTER_OPEN,
    }
}

/// Where a channel is in its life; `Closed` is terminal.
#[derive(Clone, Copy, Debug, PartialEq, Eq, Structural)]
pub enum ChannelState {
    Uninitialized,
    Open,
    Closed,
}

/// The state after a release: an open channel closes, any other stays.
pub open spec fn released(s: ChannelState) -> ChannelState {
    if s is Open {
        ChannelState::Closed
    } else {
        s
    }
}

/// The lifecycle of one native channel. It says when the native resource
/// is to be released, so that it is released once and only once.
#[derive(Debug)]
pub struct Lifecycle {
    state: ChannelState,
}

impl View for Lifecycle {
    type V = ChannelState;

    closed spec fn view(&self) -> ChannelState {
        self.state
    }
}

impl Lifecycle {
    pub fn new() -> (r: Lifecycle)
        ensures
            r@ == ChannelState::Uninitialized,
    {
        Lifecycle { state: ChannelState::Uninitialized }
    }

    /// Records how the driver answered the channel's initialization: the
    /// channel is open if it succeeded, and stays uninitialized, with the
    /// failing status returned, if not.
    pub fn initialized(&mut self, status: u32) -> (r: Option<u32>)
        requires
            old(self)@ is Uninitialized,
        ensures
            r == (if status == STATUS_OK { None::<u32> } else { Some(status) }),
            final(self)@ == (if status == STATUS_OK {
                ChannelState::Open
            } else {
                ChannelState::Uninitialized
            }),
    {
        let r = status_error(status);
        if r.is_none() {
            self.state = ChannelState::Open;
        }
        r
    }

    /// Releases the channel; returns whether the native resource must be
    /// released now, which is so only for an open channel.
    pub fn release(&mut self) -> (r: bool)
        ensures
            r == (old(self)@ is Open),
            final(self)@ == released(old(self)@),
    {
        if self.state == ChannelState::Open {
            self.state = ChannelState::Closed;
            true
        } else {
            false
        }
    }

    pub fn state(&self) -> (r: ChannelState)
        ensures
            r == self@,
    {
        self.state
    }
}

/// Releasing is idempotent: after one release the channel is not open, so
/// a second release changes nothing and frees no native resource again.
pub proof fn lemma_release_idempotent(s: ChannelState)
    ensures
        !(released(s) is Open),
        released(released(s)) == released(s),
{
}

} // verus!
