//! The reactor: owner of all mutable protocol state.
//!
//! The reactor decides; a driver performs. Every method below either
//! answers a command, digests a message from the socket, or advances an
//! RPC attempt, and its contract says exactly how the state moves and what
//! the driver must do next. The driver owns the socket, timers and task
//! plumbing, and feeds observed events back in.

use crate::error::CommunicationError;
use crate::error::SpError;
use crate::message::InboundMessage;
use crate::message::MgsRequest;
use crate::message::SpResponse;
use crate::rpc::max_attempts_for;
use crate::rpc::spec_max_attempts;
use crate::rpc::Attempt;
use crate::rpc::AttemptEvent;
use crate::rpc::AttemptStep;
use crate::rpc::RpcCall;
use crate::types::HostPhase2Request;
use crate::types::SpAddr;
use crate::types::SpComponent;
use crate::types::SpPort;
use vstd::prelude::*;

verus! {

broadcast use vstd::array::group_array_axioms;

/// Depth of the serial-console receive queue. The SP cannot be
/// back-pressured, so a full queue drops the newest packet.
pub const SERIAL_CONSOLE_CHANNEL_DEPTH: usize = 32;

/// One serial-console packet relayed by the SP.
#[derive(Clone, Debug)]
pub struct ConsolePacket {
    pub offset: u64,
    pub data: Vec<u8>,
}

impl View for ConsolePacket {
    type V = (u64, Seq<u8>);

    open spec fn view(&self) -> (u64, Seq<u8>) {
        (self.offset, self.data@)
    }
}

/// The attached serial-console channel: a bounded queue of packets waiting
/// for the receiver, and whether the receiver half still exists.
#[derive(Clone, Debug)]
pub struct SerialConsoleChannel {
    pub queue: Vec<ConsolePacket>,
    pub receiver_attached: bool,
}

impl SerialConsoleChannel {
    /// The queued packets as mathematical values, oldest first.
    pub open spec fn contents(self) -> Seq<(u64, Seq<u8>)> {
        self.queue@.map_values(|p: ConsolePacket| p@)
    }

    pub open spec fn wf(self) -> bool {
        self.queue@.len() <= SERIAL_CONSOLE_CHANNEL_DEPTH
    }
}

/// What became of one relayed serial-console packet.
#[derive(Clone, Copy, Debug, PartialEq, Eq, Structural)]
pub enum ForwardDisposition {
    /// No receiver exists (never attached, or found gone): packet dropped,
    /// to be logged as "no receiver".
    NoReceiver,
    /// The queue already holds its full depth: packet dropped, to be
    /// logged as "buffer full".
    DroppedBufferFull,
    /// The packet was queued for the receiver.
    Forwarded,
}

/// What an idle-time discovery pass found.
#[derive(Clone, Copy, Debug, PartialEq, Eq)]
pub enum DiscoveryUpdate {
    /// First successful discovery.
    First,
    /// The SP answered from the address we already knew.
    Unchanged,
    /// The SP answered from a different address: the driver must log a
    /// warning; subsequent RPCs go to the new address.
    Changed { previous: SpAddr },
}

/// What a message arriving outside any RPC attempt led to.
#[derive(Clone, Copy, Debug, PartialEq, Eq, Structural)]
pub enum UnsolicitedDisposition {
    /// A host phase-2 request was recorded in the latest-request slot.
    HostPhase2Recorded,
    /// A serial-console packet was handled as `ForwardDisposition` says.
    SerialConsole(ForwardDisposition),
    /// A late RPC response with no attempt to pair with: logged and
    /// discarded.
    ResponseIgnored,
}

/// A command submitted through the reactor's command channel.
#[derive(Clone, Debug)]
pub enum Command {
    Rpc(MgsRequest),
    GetMostRecentHostPhase2Request,
    ClearMostRecentHostPhase2Request,
    SerialConsoleAttach(SpComponent),
    SerialConsoleKeepAlive,
    SerialConsoleDetach(Option<u64>),
}

/// What the reactor does with a command while an SP is known.
#[derive(Clone, Debug)]
pub enum CommandPlan {
    /// Run the RPC machinery for this request and reply with its result.
    IssueRpc(MgsRequest),
    /// Reply at once with the latest host phase-2 request, if any.
    ReplyHostPhase2(Option<HostPhase2Request>),
    /// The slot was cleared; acknowledge.
    HostPhase2Cleared,
    /// A console is already attached: reply with the SP's own error for
    /// this case without any I/O.
    AttachAlreadyAttached,
    /// Issue a serial-console attach RPC; on its ack, finish with
    /// [`Reactor::attach_serial_console_finish`].
    IssueAttachRpc(SpComponent),
    /// Issue a serial-console keepalive RPC and reply with its ack.
    IssueKeepAliveRpc,
    /// The detach names a stale connection key: succeed silently, no RPC.
    DetachSilently,
    /// Issue a serial-console detach RPC; on its ack, finish with
    /// [`Reactor::detach_serial_console_finish`].
    IssueDetachRpc,
}

/// The immediate reply given to a command that arrives before any SP has
/// been discovered.
#[derive(Clone, Copy, Debug, PartialEq, Eq)]
pub enum PendingCommandReply {
    /// RPCs, attaches, keepalives and detaches all fail with the given
    /// error (always "no SP discovered").
    Failed(CommunicationError),
    /// Reads of the host phase-2 slot are still served.
    HostPhase2(Option<HostPhase2Request>),
    /// Clears of the host phase-2 slot are still served.
    HostPhase2Cleared,
}

/// The reactor's state: everything the protocol owns between events.
#[derive(Clone, Debug)]
pub struct Reactor {
    pub max_attempts_per_rpc: usize,
    pub per_attempt_timeout_ms: u64,
    pub message_id: u32,
    pub sp_addr: Option<(SpAddr, SpPort)>,
    pub serial_console: Option<SerialConsoleChannel>,
    pub serial_console_connection_key: u64,
    pub most_recent_host_phase2_request: Option<HostPhase2Request>,
}

/// The message id taken by the next RPC: one more than the last, wrapping.
pub open spec fn spec_next_message_id(id: u32) -> u32 {
    if id == u32::MAX {
        0u32
    } else {
        (id + 1) as u32
    }
}

/// Holds between two reactor states that differ at most in the serial
/// console channel.
pub open spec fn same_but_console(a: Reactor, b: Reactor) -> bool {
    &&& a.max_attempts_per_rpc == b.max_attempts_per_rpc
    &&& a.per_attempt_timeout_ms == b.per_attempt_timeout_ms
    &&& a.message_id == b.message_id
    &&& a.sp_addr == b.sp_addr
    &&& a.serial_console_connection_key == b.serial_console_connection_key
    &&& a.most_recent_host_phase2_request == b.most_recent_host_phase2_request
}

/// How forwarding one serial-console packet moves the reactor: the exact
/// relation between the state before, the state after, and the reported
/// disposition.
pub open spec fn forward_rel(
    pre: Reactor,
    offset: u64,
    data: Seq<u8>,
    post: Reactor,
    d: ForwardDisposition,
) -> bool {
    &&& same_but_console(pre, post)
    &&& match pre.serial_console {
        Option::None => d == ForwardDisposition::NoReceiver && post == pre,
        Option::Some(ch) => {
            if !ch.receiver_attached {
                // The receiver is gone: clear the sender slot.
                &&& d == ForwardDisposition::NoReceiver
                &&& post.serial_console is None
            } else if ch.queue@.len() >= SERIAL_CONSOLE_CHANNEL_DEPTH {
                &&& d == ForwardDisposition::DroppedBufferFull
                &&& post == pre
            } else {
                &&& d == ForwardDisposition::Forwarded
                &&& post.serial_console matches Some(ch2) && ch2.receiver_attached
                    && ch2.contents() == ch.contents().push((offset, data))
            }
        },
    }
}

impl Reactor {
    pub open spec fn wf(self) -> bool {
        match self.serial_console {
            Option::Some(ch) => ch.wf(),
            Option::None => true,
        }
    }

    pub fn new(max_attempts_per_rpc: usize, per_attempt_timeout_ms: u64) -> (r: Reactor)
        ensures
            r == (Reactor {
                max_attempts_per_rpc,
                per_attempt_timeout_ms,
                message_id: 0u32,
                sp_addr: Option::None,
                serial_console: Option::None,
                serial_console_connection_key: 0u64,
                most_recent_host_phase2_request: Option::None,
            }),
            r.wf(),
    {
        Reactor {
            max_attempts_per_rpc,
            per_attempt_timeout_ms,
            message_id: 0,
            sp_addr: None,
            serial_console: None,
            serial_console_connection_key: 0,
            most_recent_host_phase2_request: None,
        }
    }

    /// Starts one logical RPC: takes the next message id (ids increase by
    /// one per RPC, never per retry) and derives the attempt budget.
    pub fn start_rpc(&mut self, kind: &MgsRequest) -> (call: RpcCall)
        ensures
            *final(self) == (Reactor {
                message_id: spec_next_message_id(old(self).message_id),
                ..*old(self)
            }),
            call.message_id == final(self).message_id,
            call.attempts_used == 0,
            call.max_attempts == spec_max_attempts(
                *kind,
                old(self).max_attempts_per_rpc,
                old(self).per_attempt_timeout_ms,
            ),
    {
        self.message_id = self.message_id.wrapping_add(1);
        let max_attempts = max_attempts_for(
            kind,
            self.max_attempts_per_rpc,
            self.per_attempt_timeout_ms,
        );
        RpcCall { message_id: self.message_id, max_attempts, attempts_used: 0 }
    }

    /// Digests one event observed while an attempt was waiting, and says
    /// what the driver must do next.
    ///
    /// Out-of-band messages (host phase-2 requests, serial-console data)
    /// are handled on the side and answered with [`AttemptStep::Wait`]:
    /// the request is not resent and the attempt timer is *not* reset, so
    /// a storm of such traffic still times the attempt out. A busy reply
    /// sleeps and resends within this same attempt; the budget in `call`
    /// is never touched here.
    pub fn attempt_event(
        &mut self,
        call: &RpcCall,
        attempt: &mut Attempt,
        event: AttemptEvent,
    ) -> (step: AttemptStep)
        requires
            old(attempt).backoff.wf(),
            old(self).wf(),
        ensures
            final(self).wf(),
            match event {
                AttemptEvent::TimerExpired => {
                    &&& *final(self) == *old(self)
                    &&& *final(attempt) == *old(attempt)
                    &&& step == AttemptStep::GiveUp
                },
                AttemptEvent::Message(m) => match m {
                    InboundMessage::HostPhase2Request(req) => {
                        &&& *final(self) == (Reactor {
                            most_recent_host_phase2_request: Some(req),
                            ..*old(self)
                        })
                        &&& *final(attempt) == *old(attempt)
                        &&& step == AttemptStep::Wait
                    },
                    InboundMessage::SerialConsole { component, offset, data } => {
                        &&& exists|d: ForwardDisposition|
                            forward_rel(*old(self), offset, data@, *final(self), d)
                        &&& *final(attempt) == *old(attempt)
                        &&& step == AttemptStep::Wait
                    },
                    InboundMessage::SpResponse { peer, message_id, response, data } => {
                        if message_id != call.message_id {
                            &&& *final(self) == *old(self)
                            &&& *final(attempt) == *old(attempt)
                            &&& step == AttemptStep::GiveUp
                        } else {
                            match response {
                                SpResponse::Error(SpError::Busy) => {
                                    &&& *final(self) == *old(self)
                                    &&& final(attempt).backoff == old(
                                        attempt,
                                    ).backoff.spec_advanced()
                                    &&& step == (AttemptStep::SleepThenResend {
                                        ms: old(attempt).backoff.next_ms,
                                    })
                                },
                                SpResponse::Error(err) => {
                                    &&& *final(self) == *old(self)
                                    &&& *final(attempt) == *old(attempt)
                                    &&& step == AttemptStep::Fail(
                                        CommunicationError::SpError(err),
                                    )
                                },
                                _ => {
                                    &&& *final(self) == *old(self)
                                    &&& *final(attempt) == *old(attempt)
                                    &&& step == (AttemptStep::Complete { peer, response, data })
                                },
                            }
                        }
                    },
                },
            },
    {
        match event {
            AttemptEvent::TimerExpired => AttemptStep::GiveUp,
            AttemptEvent::Message(m) => match m {
                InboundMessage::HostPhase2Request(req) => {
                    self.set_most_recent_host_phase2_request(req);
                    AttemptStep::Wait
                },
                InboundMessage::SerialConsole { component: _, offset, data } => {
                    let _ = self.forward_serial_console(offset, data);
                    AttemptStep::Wait
                },
                InboundMessage::SpResponse { peer, message_id, response, data } => {
                    if message_id != call.message_id {
                        AttemptStep::GiveUp
                    } else {
                        match response {
                            SpResponse::Error(SpError::Busy) => {
                                let ms = attempt.backoff.next_backoff();
                                AttemptStep::SleepThenResend { ms }
                            },
                            SpResponse::Error(err) => AttemptStep::Fail(
                                CommunicationError::SpError(err),
                            ),
                            _ => AttemptStep::Complete { peer, response, data },
                        }
                    }
                },
            },
        }
    }

    /// Records the latest host phase-2 request; each arrival overwrites
    /// the previous one.
    pub fn set_most_recent_host_phase2_request(&mut self, request: HostPhase2Request)
        ensures
            *final(self) == (Reactor {
                most_recent_host_phase2_request: Some(request),
                ..*old(self)
            }),
    {
        self.most_recent_host_phase2_request = Some(request);
    }

    /// Empties the latest host phase-2 request slot.
    pub fn clear_most_recent_host_phase2_request(&mut self)
        ensures
            *final(self) == (Reactor { most_recent_host_phase2_request: None, ..*old(self) }),
    {
        self.most_recent_host_phase2_request = None;
    }

    /// Reads the latest host phase-2 request without touching it.
    pub fn most_recent_host_phase2_request(&self) -> (r: Option<HostPhase2Request>)
        ensures
            r == self.most_recent_host_phase2_request,
    {
        self.most_recent_host_phase2_request
    }

    /// Hands one relayed serial-console packet to the attached receiver's
    /// queue, dropping it if there is no receiver or no room.
    pub fn forward_serial_console(&mut self, offset: u64, data: Vec<u8>) -> (d: ForwardDisposition)
        requires
            old(self).wf(),
        ensures
            final(self).wf(),
            forward_rel(*old(self), offset, data@, *final(self), d),
    {
        let channel = self.serial_console.take();
        match channel {
            None => ForwardDisposition::NoReceiver,
            Some(mut ch) => {
                if !ch.receiver_attached {
                    ForwardDisposition::NoReceiver
                } else if ch.queue.len() >= SERIAL_CONSOLE_CHANNEL_DEPTH {
                    self.serial_console = Some(ch);
                    ForwardDisposition::DroppedBufferFull
                } else {
                    let ghost pre_contents = ch.contents();
                    ch.queue.push(ConsolePacket { offset, data });
                    proof {
                        assert(ch.contents() =~= pre_contents.push((offset, data@)));
                    }
                    self.serial_console = Some(ch);
                    ForwardDisposition::Forwarded
                }
            },
        }
    }

    /// Digests a message that arrived outside any RPC attempt. A response
    /// here has nothing to pair with: it is reported for logging and
    /// otherwise dropped.
    pub fn handle_incoming_message(&mut self, message: InboundMessage) -> (d:
        UnsolicitedDisposition)
        requires
            old(self).wf(),
        ensures
            final(self).wf(),
            match message {
                InboundMessage::HostPhase2Request(req) => {
                    &&& d == UnsolicitedDisposition::HostPhase2Recorded
                    &&& *final(self) == (Reactor {
                        most_recent_host_phase2_request: Some(req),
                        ..*old(self)
                    })
                },
                InboundMessage::SerialConsole { component, offset, data } => {
                    &&& d matches UnsolicitedDisposition::SerialConsole(f) && forward_rel(
                        *old(self),
                        offset,
                        data@,
                        *final(self),
                        f,
                    )
                },
                InboundMessage::SpResponse { .. } => {
                    &&& d == UnsolicitedDisposition::ResponseIgnored
                    &&& *final(self) == *old(self)
                },
            },
    {
        match message {
            InboundMessage::HostPhase2Request(req) => {
                self.set_most_recent_host_phase2_request(req);
                UnsolicitedDisposition::HostPhase2Recorded
            },
            InboundMessage::SerialConsole { component: _, offset, data } => {
                let f = self.forward_serial_console(offset, data);
                UnsolicitedDisposition::SerialConsole(f)
            },
            InboundMessage::SpResponse { .. } => UnsolicitedDisposition::ResponseIgnored,
        }
    }

    /// Records the address a discovery pass found. A changed address is
    /// adopted for all later RPCs, and reported so the driver can warn:
    /// the migration is observed, not reconciled.
    pub fn record_discovery(&mut self, addr: SpAddr, port: SpPort) -> (r: DiscoveryUpdate)
        ensures
            *final(self) == (Reactor { sp_addr: Some((addr, port)), ..*old(self) }),
            match old(self).sp_addr {
                Option::None => r == DiscoveryUpdate::First,
                Option::Some(prev) => if prev.0 == addr {
                    r == DiscoveryUpdate::Unchanged
                } else {
                    r == (DiscoveryUpdate::Changed { previous: prev.0 })
                },
            },
    {
        let r = match self.sp_addr {
            None => DiscoveryUpdate::First,
            Some(prev) => {
                if prev.0 == addr {
                    proof {
                        assert(prev.0.octets =~= addr.octets);
                    }
                    DiscoveryUpdate::Unchanged
                } else {
                    DiscoveryUpdate::Changed { previous: prev.0 }
                }
            },
        };
        self.sp_addr = Some((addr, port));
        r
    }

    /// Answers a command that arrived while no SP is discovered yet: reads
    /// and clears of the host phase-2 slot are served, everything else
    /// fails with "no SP discovered".
    pub fn fail_pending_command(&mut self, command: &Command) -> (r: PendingCommandReply)
        ensures
            match command {
                Command::GetMostRecentHostPhase2Request => {
                    &&& r == PendingCommandReply::HostPhase2(
                        old(self).most_recent_host_phase2_request,
                    )
                    &&& *final(self) == *old(self)
                },
                Command::ClearMostRecentHostPhase2Request => {
                    &&& r == PendingCommandReply::HostPhase2Cleared
                    &&& *final(self) == (Reactor {
                        most_recent_host_phase2_request: None,
                        ..*old(self)
                    })
                },
                _ => {
                    &&& r == PendingCommandReply::Failed(CommunicationError::NoSpDiscovered)
                    &&& *final(self) == *old(self)
                },
            },
    {
        match command {
            Command::GetMostRecentHostPhase2Request => PendingCommandReply::HostPhase2(
                self.most_recent_host_phase2_request,
            ),
            Command::ClearMostRecentHostPhase2Request => {
                self.clear_most_recent_host_phase2_request();
                PendingCommandReply::HostPhase2Cleared
            },
            _ => PendingCommandReply::Failed(CommunicationError::NoSpDiscovered),
        }
    }

    /// Decides what to do with a command while an SP is known.
    ///
    /// A detach naming a stale connection key succeeds silently without
    /// any network detach; a missing or current key issues the real
    /// detach RPC. An attach while already attached fails at once with
    /// the SP's own "already attached" error.
    pub fn plan_command(&mut self, command: Command) -> (p: CommandPlan)
        ensures
            match command {
                Command::Rpc(kind) => {
                    &&& p == CommandPlan::IssueRpc(kind)
                    &&& *final(self) == *old(self)
                },
                Command::GetMostRecentHostPhase2Request => {
                    &&& p == CommandPlan::ReplyHostPhase2(
                        old(self).most_recent_host_phase2_request,
                    )
                    &&& *final(self) == *old(self)
                },
                Command::ClearMostRecentHostPhase2Request => {
                    &&& p == CommandPlan::HostPhase2Cleared
                    &&& *final(self) == (Reactor {
                        most_recent_host_phase2_request: None,
                        ..*old(self)
                    })
                },
                Command::SerialConsoleAttach(component) => {
                    &&& *final(self) == *old(self)
                    &&& if old(self).serial_console is Some {
                        p == CommandPlan::AttachAlreadyAttached
                    } else {
                        p == CommandPlan::IssueAttachRpc(component)
                    }
                },
                Command::SerialConsoleKeepAlive => {
                    &&& p == CommandPlan::IssueKeepAliveRpc
                    &&& *final(self) == *old(self)
                },
                Command::SerialConsoleDetach(key) => {
                    &&& *final(self) == *old(self)
                    &&& if key is None || key == Some(old(self).serial_console_connection_key) {
                        p == CommandPlan::IssueDetachRpc
                    } else {
                        p == CommandPlan::DetachSilently
                    }
                },
            },
    {
        match command {
            Command::Rpc(kind) => CommandPlan::IssueRpc(kind),
            Command::GetMostRecentHostPhase2Request => CommandPlan::ReplyHostPhase2(
                self.most_recent_host_phase2_request,
            ),
            Command::ClearMostRecentHostPhase2Request => {
                self.clear_most_recent_host_phase2_request();
                CommandPlan::HostPhase2Cleared
            },
            Command::SerialConsoleAttach(component) => {
                if self.serial_console.is_some() {
                    CommandPlan::AttachAlreadyAttached
                } else {
                    CommandPlan::IssueAttachRpc(component)
                }
            },
            Command::SerialConsoleKeepAlive => CommandPlan::IssueKeepAliveRpc,
            Command::SerialConsoleDetach(key) => match key {
                None => CommandPlan::IssueDetachRpc,
                Some(k) => {
                    if k == self.serial_console_connection_key {
                        CommandPlan::IssueDetachRpc
                    } else {
                        CommandPlan::DetachSilently
                    }
                },
            },
        }
    }

    /// The error an attach refused without I/O reports: the SP's own
    /// "serial console already attached".
    pub fn attach_already_attached_error(&self) -> (e: CommunicationError)
        ensures
            e == CommunicationError::SpError(SpError::SerialConsoleAlreadyAttached),
    {
        CommunicationError::SpError(SpError::SerialConsoleAlreadyAttached)
    }

    /// Finishes a successful attach: installs a fresh, empty console
    /// channel and takes the next connection key.
    pub fn attach_serial_console_finish(&mut self) -> (key: u64)
        requires
            old(self).serial_console_connection_key < u64::MAX,
        ensures
            key == old(self).serial_console_connection_key + 1,
            final(self).serial_console_connection_key == key,
            final(self).serial_console matches Some(ch) && ch.receiver_attached && ch.contents()
                =~= Seq::<(u64, Seq<u8>)>::empty(),
            final(self).max_attempts_per_rpc == old(self).max_attempts_per_rpc,
            final(self).per_attempt_timeout_ms == old(self).per_attempt_timeout_ms,
            final(self).message_id == old(self).message_id,
            final(self).sp_addr == old(self).sp_addr,
            final(self).most_recent_host_phase2_request == old(
                self,
            ).most_recent_host_phase2_request,
            final(self).wf(),
    {
        self.serial_console = Some(
            SerialConsoleChannel { queue: Vec::new(), receiver_attached: true },
        );
        self.serial_console_connection_key = self.serial_console_connection_key + 1;
        proof {
            assert(self.serial_console->Some_0.contents() =~= Seq::<(u64, Seq<u8>)>::empty());
        }
        self.serial_console_connection_key
    }

    /// Finishes a successful detach: drops the console channel.
    pub fn detach_serial_console_finish(&mut self)
        ensures
            *final(self) == (Reactor { serial_console: None, ..*old(self) }),
    {
        self.serial_console = None;
    }

    /// Notes that the receiver half was dropped. The next forward attempt
    /// will find it gone and clear the sender slot.
    pub fn console_receiver_gone(&mut self)
        requires
            old(self).wf(),
        ensures
            final(self).wf(),
            same_but_console(*old(self), *final(self)),
            match old(self).serial_console {
                Option::None => final(self).serial_console is None,
                Option::Some(ch) => final(self).serial_console matches Some(ch2)
                    && !ch2.receiver_attached && ch2.contents() == ch.contents(),
            },
    {
        let channel = self.serial_console.take();
        match channel {
            None => {
            },
            Some(mut ch) => {
                ch.receiver_attached = false;
                self.serial_console = Some(ch);
            },
        }
    }

    /// Pops the oldest queued serial-console packet for the receiver, if
    /// any.
    pub fn take_next_serial_console_packet(&mut self) -> (r: Option<ConsolePacket>)
        requires
            old(self).wf(),
        ensures
            final(self).wf(),
            same_but_console(*old(self), *final(self)),
            match old(self).serial_console {
                Option::None => r is None && *final(self) == *old(self),
                Option::Some(ch) => {
                    if ch.queue@.len() == 0 {
                        r is None && *final(self) == *old(self)
                    } else {
                        &&& r matches Some(p) && p@ == ch.contents()[0]
                        &&& final(self).serial_console matches Some(ch2)
                            && ch2.receiver_attached == ch.receiver_attached && ch2.contents()
                            == ch.contents().drop_first()
                    }
                },
            },
    {
        let channel = self.serial_console.take();
        match channel {
            None => None,
            Some(mut ch) => {
                if ch.queue.len() == 0 {
                    self.serial_console = Some(ch);
                    None
                } else {
                    let ghost pre_contents = ch.contents();
                    let p = ch.queue.remove(0);
                    proof {
                        assert(ch.contents() =~= pre_contents.drop_first());
                    }
                    self.serial_console = Some(ch);
                    Some(p)
                }
            },
        }
    }
}

} // verus!
