use std::time::Instant;

use vstd::prelude::*;

use crate::event::{event_views, step, EventDetector};
use crate::protocol::{decoded_state, occurs_in, ButtonEvent, DEVICE_NAME_PREFIX, is_turn_touch_name};

verus! {

/// Why a connection to the remote is given up and made anew.
#[derive(Debug, Clone, Copy, PartialEq, Eq, Structural)]
pub enum DisconnectReason {
    /// The stream of notifications ended.
    StreamEnded,
    /// The adapter reported that a Turn Touch remote disconnected.
    DisconnectEvent,
    /// The periodic check found the remote no longer connected.
    ConnectivityLost,
}

impl DisconnectReason {
    /// A short description for the log.
    pub fn describe(&self) -> (r: &'static str)
        ensures
            r@ == (match self {
                DisconnectReason::StreamEnded => "notification stream ended"@,
                DisconnectReason::DisconnectEvent => "disconnect event received"@,
                DisconnectReason::ConnectivityLost => "connectivity check failed"@,
            }),
    {
        match self {
            DisconnectReason::StreamEnded => "notification stream ended",
            DisconnectReason::DisconnectEvent => "disconnect event received",
            DisconnectReason::ConnectivityLost => "connectivity check failed",
        }
    }
}

/// What happens to a connected remote, as seen by the listening loop.
pub enum SessionEvent {
    /// A notification of characteristic `uuid` carrying `value`.
    Notification { uuid: u128, value: Vec<u8> },
    /// The notification stream ended.
    NotificationsEnded,
    /// The adapter reported that a device disconnected; `name` is its local
    /// name, when it could be read.
    DeviceDisconnected { name: Option<String> },
    /// The periodic connectivity check ran; `connected` is its answer.
    ConnectivityChecked { connected: bool },
    /// The user asked to stop.
    Interrupted,
}

/// What the listening loop does next.
pub enum SessionAction {
    /// Run the commands of these events (possibly none) and keep listening.
    Continue(Vec<ButtonEvent>),
    /// Disconnect and connect anew.
    Reconnect(DisconnectReason),
    /// Disconnect and stop.
    Shutdown,
}

/// A connection to a remote: the characteristic that carries its button
/// reports and the detector that interprets them.
pub struct Session {
    pub button_uuid: u128,
    pub detector: EventDetector,
}

/// The disconnected device's name shows it is a Turn Touch remote.
pub open spec fn names_remote(name: Option<String>) -> bool {
    match name {
        Some(n) => occurs_in(n@, DEVICE_NAME_PREFIX@),
        None => false,
    }
}

impl Session {
    /// A session listening to characteristic `button_uuid`, with a fresh detector.
    pub fn new(button_uuid: u128) -> (r: Self)
        ensures
            r.button_uuid == button_uuid,
            r.detector@ == crate::event::initial_view(),
    {
        Session { button_uuid, detector: EventDetector::new() }
    }

    /// Decides what to do with one happening of the listening loop. Only
    /// notifications of the button characteristic reach the detector; a
    /// disconnect of a Turn Touch remote, the end of the notifications and a
    /// failed connectivity check call for a new connection.
    pub fn handle(&mut self, event: SessionEvent) -> (action: SessionAction)
        ensures
            final(self).button_uuid == old(self).button_uuid,
            match event {
                SessionEvent::Notification { uuid, value } => if uuid == old(self).button_uuid {
                    exists|elapsed_ms: Option<u128>, now: Instant|
                        {
                            &&& final(self).detector@ == #[trigger] step(old(self).detector@, decoded_state(value@), elapsed_ms, now).0
                            &&& (action matches SessionAction::Continue(es)
                                && event_views(es@) == step(old(self).detector@, decoded_state(value@), elapsed_ms, now).1)
                            &&& (old(self).detector@.last_press is None <==> elapsed_ms is None)
                        }
                } else {
                    final(self).detector@ == old(self).detector@
                    && (action matches SessionAction::Continue(es) && es@.len() == 0)
                },
                SessionEvent::NotificationsEnded => final(self).detector@ == old(self).detector@
                    && action == SessionAction::Reconnect(DisconnectReason::StreamEnded),
                SessionEvent::DeviceDisconnected { name } => final(self).detector@ == old(self).detector@
                    && if names_remote(name) {
                        action == SessionAction::Reconnect(DisconnectReason::DisconnectEvent)
                    } else {
                        action matches SessionAction::Continue(es) && es@.len() == 0
                    },
                SessionEvent::ConnectivityChecked { connected } => final(self).detector@ == old(self).detector@
                    && if connected {
                        action matches SessionAction::Continue(es) && es@.len() == 0
                    } else {
                        action == SessionAction::Reconnect(DisconnectReason::ConnectivityLost)
                    },
                SessionEvent::Interrupted => final(self).detector@ == old(self).detector@
                    && action == SessionAction::Shutdown,
            },
    {
        match event {
            SessionEvent::Notification { uuid, value } => {
                if uuid == self.button_uuid {
                    SessionAction::Continue(self.detector.process(value.as_slice()))
                } else {
                    SessionAction::Continue(Vec::new())
                }
            },
            SessionEvent::NotificationsEnded => SessionAction::Reconnect(DisconnectReason::StreamEnded),
            SessionEvent::DeviceDisconnected { name } => {
                let is_remote = match &name {
                    Some(n) => is_turn_touch_name(n.as_str()),
                    None => false,
                };
                if is_remote {
                    SessionAction::Reconnect(DisconnectReason::DisconnectEvent)
                } else {
                    SessionAction::Continue(Vec::new())
                }
            },
            SessionEvent::ConnectivityChecked { connected } => {
                if connected {
                    SessionAction::Continue(Vec::new())
                } else {
                    SessionAction::Reconnect(DisconnectReason::ConnectivityLost)
                }
            },
            SessionEvent::Interrupted => SessionAction::Shutdown,
        }
    }
}

/// A step of setting up a connection that went wrong, or the end of one.
#[derive(Debug, Clone, Copy, PartialEq, Eq, Structural)]
pub enum SetupFailure {
    /// Connecting to the remote failed.
    ConnectFailed,
    /// Discovering its services failed.
    DiscoveryFailed,
    /// It has no button-status characteristic.
    ButtonCharacteristicMissing,
    /// Subscribing to the button notifications failed.
    SubscribeFailed,
    /// A listening session ended with a reason to reconnect.
    ConnectionLost,
}

/// How to start over after a [`SetupFailure`]: whether to disconnect first,
/// and how many seconds to pause before scanning again.
#[derive(Debug, Clone, Copy, PartialEq, Eq, Structural)]
pub struct RetryPlan {
    pub disconnect: bool,
    pub pause_secs: u64,
}

/// The plan after `failure`: a failed connect pauses 2 s; a failure once
/// connected disconnects and pauses 2 s; a lost connection disconnects and
/// pauses 3 s.
pub open spec fn spec_retry_plan(failure: SetupFailure) -> RetryPlan {
    match failure {
        SetupFailure::ConnectFailed => RetryPlan { disconnect: false, pause_secs: 2 },
        SetupFailure::ConnectionLost => RetryPlan { disconnect: true, pause_secs: 3 },
        _ => RetryPlan { disconnect: true, pause_secs: 2 },
    }
}

/// How to start over after `failure`.
pub fn retry_plan(failure: SetupFailure) -> (r: RetryPlan)
    ensures
        r == spec_retry_plan(failure),
{
    match failure {
        SetupFailure::ConnectFailed => RetryPlan { disconnect: false, pause_secs: 2 },
        SetupFailure::ConnectionLost => RetryPlan { disconnect: true, pause_secs: 3 },
        _ => RetryPlan { disconnect: true, pause_secs: 2 },
    }
}

} // verus!
