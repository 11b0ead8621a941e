//! Keep-alive by probing: the timing rules of the default ping stage.

use crate::builder::close_code::PING_TIMEOUT;
use std::time::Duration;
use vstd::prelude::*;

verus! {

/// How long the prober watches the line for inbound activity.
#[derive(Debug, Clone, Copy, PartialEq, Eq, Structural)]
pub enum Watch {
    /// For the long duration: the line is at rest.
    Long,
    /// For the short duration: a probe is on its way.
    Short,
}

/// What the prober saw while it watched the line, or how its probe fared.
#[derive(Debug, Clone, Copy, PartialEq, Eq, Structural)]
pub enum ProbeEvent {
    /// Something arrived before the time was up.
    Activity,
    /// Nothing arrived.
    Silence,
    /// The probe could not be sent.
    SendFailed,
}

/// What the prober does next.
#[derive(Debug, Clone, Copy, PartialEq, Eq, Structural)]
pub enum ProbeAction {
    /// Watch the line for this long.
    Watch(Watch),
    /// Send a probe, then watch the line for the short duration.
    Probe,
    /// Close the connection with this code and end.
    Close(u8),
    /// End.
    Stop,
}

/// What the reader does about a packet.
#[derive(Debug, Clone, Copy, PartialEq, Eq, Structural)]
pub enum PacketAction {
    /// Answer it: the packet is the peer's probe.
    Answer,
    /// Nothing: the packet is the answer to our own probe.
    Nothing,
}

/// What the two loops of the keep-alive stage share.
#[derive(Debug, Clone, Copy, PartialEq, Eq, Structural)]
pub struct PingState {
    /// The peer has been heard of since the last probe.
    pub alive: bool,
    /// A probe is on its way and the line is watched for its answer.
    pub probing: bool,
    /// The prober has ended.
    pub stopped: bool,
}

impl PingState {
    /// The state and the prober's answer after `event`.
    pub open spec fn after_probe(self, event: ProbeEvent) -> (Self, ProbeAction) {
        if self.stopped {
            (self, ProbeAction::Stop)
        } else {
            match event {
                ProbeEvent::SendFailed => (
                    PingState { stopped: true, probing: false, ..self },
                    ProbeAction::Stop,
                ),
                ProbeEvent::Activity => (
                    PingState { probing: false, ..self },
                    ProbeAction::Watch(Watch::Long),
                ),
                ProbeEvent::Silence => if !self.probing {
                    (PingState { alive: false, probing: true, ..self }, ProbeAction::Probe)
                } else if self.alive {
                    (PingState { probing: false, ..self }, ProbeAction::Watch(Watch::Long))
                } else {
                    (
                        PingState { stopped: true, probing: false, ..self },
                        ProbeAction::Close(PING_TIMEOUT),
                    )
                },
            }
        }
    }

    /// The state and the reader's answer after a packet.
    pub open spec fn after_packet(self) -> (Self, PacketAction) {
        if self.alive {
            (self, PacketAction::Answer)
        } else {
            (PingState { alive: true, ..self }, PacketAction::Nothing)
        }
    }

    /// The state at the start: the peer counts as alive, no probe is out.
    pub fn new() -> (state: Self)
        ensures
            state == (PingState { alive: true, probing: false, stopped: false }),
    {
        PingState { alive: true, probing: false, stopped: false }
    }

    /// Takes in what the prober saw and says what it does next.
    ///
    /// After a long silence a probe is sent. If the short wait that follows
    /// is silent too and the reader has heard nothing, the connection is
    /// closed for timeout. Any activity puts the prober back to rest.
    pub fn on_probe(&mut self, event: ProbeEvent) -> (action: ProbeAction)
        ensures
            (*final(self), action) == old(self).after_probe(event),
    {
        if self.stopped {
            return ProbeAction::Stop;
        }
        match event {
            ProbeEvent::SendFailed => {
                self.stopped = true;
                self.probing = false;
                ProbeAction::Stop
            },
            ProbeEvent::Activity => {
                self.probing = false;
                ProbeAction::Watch(Watch::Long)
            },
            ProbeEvent::Silence => {
                if !self.probing {
                    self.alive = false;
                    self.probing = true;
                    ProbeAction::Probe
                } else if self.alive {
                    self.probing = false;
                    ProbeAction::Watch(Watch::Long)
                } else {
                    self.stopped = true;
                    self.probing = false;
                    ProbeAction::Close(PING_TIMEOUT)
                }
            },
        }
    }

    /// Takes in that a packet has arrived and says what the reader does
    /// about it.
    ///
    /// While the peer counts as alive the packet is its probe and is
    /// answered. After a probe of our own the packet is the answer, and the
    /// peer counts as alive again.
    pub fn on_packet(&mut self) -> (action: PacketAction)
        ensures
            (*final(self), action) == old(self).after_packet(),
    {
        if self.alive {
            PacketAction::Answer
        } else {
            self.alive = true;
            PacketAction::Nothing
        }
    }
}

/// The connection is closed for timeout exactly after a long silence, a
/// probe and a short silence with no packet in between; a packet in between
/// saves it.
pub proof fn lemma_timeout_needs_two_silences(state: PingState)
    requires
        !state.stopped,
        !state.probing,
    ensures
        state.after_probe(ProbeEvent::Silence).1 == ProbeAction::Probe,
        state.after_probe(ProbeEvent::Silence).0.after_probe(ProbeEvent::Silence).1
            == ProbeAction::Close(PING_TIMEOUT),
        state.after_probe(ProbeEvent::Silence).0.after_packet().0.after_probe(
            ProbeEvent::Silence,
        ).1 == ProbeAction::Watch(Watch::Long),
        state.after_probe(ProbeEvent::Activity).1 == ProbeAction::Watch(Watch::Long),
{
}

/// Keep-alive settings: how long the line may stay silent before a probe is
/// sent, and how long the answer to a probe may take.
pub struct DefaultPingProvider {
    long_duration: Duration,
    short_duration: Duration,
}

impl DefaultPingProvider {
    /// The silence after which a probe is sent.
    pub closed spec fn spec_long_duration(&self) -> Duration {
        self.long_duration
    }

    /// The time allowed for the answer to a probe.
    pub closed spec fn spec_short_duration(&self) -> Duration {
        self.short_duration
    }

    pub fn new(long_duration: Duration, short_duration: Duration) -> (provider: Self)
        ensures
            provider.spec_long_duration() == long_duration,
            provider.spec_short_duration() == short_duration,
    {
        DefaultPingProvider { long_duration, short_duration }
    }

    /// Returns how long the prober is to watch the line.
    pub fn duration(&self, watch: Watch) -> (duration: Duration)
        ensures
            duration == match watch {
                Watch::Long => self.spec_long_duration(),
                Watch::Short => self.spec_short_duration(),
            },
    {
        match watch {
            Watch::Long => self.long_duration,
            Watch::Short => self.short_duration,
        }
    }

    /// Returns the silence after which a probe is sent.
    pub fn long_duration(&self) -> (duration: Duration)
        ensures
            duration == self.spec_long_duration(),
    {
        self.long_duration
    }

    /// Returns the time allowed for the answer to a probe.
    pub fn short_duration(&self) -> (duration: Duration)
        ensures
            duration == self.spec_short_duration(),
    {
        self.short_duration
    }
}

} // verus!
