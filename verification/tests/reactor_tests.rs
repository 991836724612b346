use gateway_sp_comms::error::{CommunicationError, SpError};
use gateway_sp_comms::message::{InboundMessage, MgsRequest, SpResponse};
use gateway_sp_comms::reactor::{
    Command, CommandPlan, DiscoveryUpdate, ForwardDisposition, PendingCommandReply, Reactor,
    UnsolicitedDisposition, SERIAL_CONSOLE_CHANNEL_DEPTH,
};
use gateway_sp_comms::types::{HostPhase2Request, SpAddr, SpComponent, SpPort};

fn addr(last: u8) -> SpAddr {
    let mut octets = [0xFD; 16];
    octets[15] = last;
    SpAddr { octets, port: 11111, scope_id: 2 }
}

fn phase2(offset: u64) -> HostPhase2Request {
    HostPhase2Request { hash: [7; 32], offset, data_sent: 64, received_at_ms: 5 }
}

#[test]
fn discovery_records_and_reports_address_changes() {
    let mut r = Reactor::new(3, 200);
    assert_eq!(r.record_discovery(addr(1), SpPort::One), DiscoveryUpdate::First);
    assert_eq!(r.record_discovery(addr(1), SpPort::One), DiscoveryUpdate::Unchanged);
    // A different address is adopted and reported for a warning.
    assert_eq!(
        r.record_discovery(addr(2), SpPort::Two),
        DiscoveryUpdate::Changed { previous: addr(1) }
    );
    assert_eq!(r.sp_addr, Some((addr(2), SpPort::Two)));
}

#[test]
fn host_phase2_slot_keeps_the_latest_request() {
    let mut r = Reactor::new(3, 200);
    assert_eq!(r.most_recent_host_phase2_request(), None);
    let d = r.handle_incoming_message(InboundMessage::HostPhase2Request(phase2(0)));
    assert_eq!(d, UnsolicitedDisposition::HostPhase2Recorded);
    r.handle_incoming_message(InboundMessage::HostPhase2Request(phase2(1024)));
    assert_eq!(r.most_recent_host_phase2_request(), Some(phase2(1024)));
    r.clear_most_recent_host_phase2_request();
    assert_eq!(r.most_recent_host_phase2_request(), None);
}

#[test]
fn unsolicited_response_is_ignored() {
    let mut r = Reactor::new(3, 200);
    let d = r.handle_incoming_message(InboundMessage::SpResponse {
        peer: addr(1),
        message_id: 42,
        response: SpResponse::SerialConsoleAttachAck,
        data: Vec::new(),
    });
    assert_eq!(d, UnsolicitedDisposition::ResponseIgnored);
}

#[test]
fn console_queue_drops_the_thirty_third_packet() {
    let mut r = Reactor::new(3, 200);
    r.attach_serial_console_finish();
    for i in 0..SERIAL_CONSOLE_CHANNEL_DEPTH {
        let d = r.forward_serial_console(i as u64, vec![i as u8]);
        assert_eq!(d, ForwardDisposition::Forwarded);
    }
    // The queue holds its full depth of 32: the next packet is dropped.
    let d = r.forward_serial_console(99, vec![99]);
    assert_eq!(d, ForwardDisposition::DroppedBufferFull);
    // The queued packets are intact and in order.
    for i in 0..SERIAL_CONSOLE_CHANNEL_DEPTH {
        let p = r.take_next_serial_console_packet().unwrap();
        assert_eq!(p.offset, i as u64);
        assert_eq!(p.data, vec![i as u8]);
    }
    assert!(r.take_next_serial_console_packet().is_none());
}

#[test]
fn forward_without_receiver_clears_the_sender() {
    let mut r = Reactor::new(3, 200);
    assert_eq!(
        r.forward_serial_console(0, vec![1]),
        ForwardDisposition::NoReceiver
    );
    r.attach_serial_console_finish();
    r.console_receiver_gone();
    // One failed forward finds the receiver gone and clears the slot.
    assert_eq!(
        r.forward_serial_console(0, vec![1]),
        ForwardDisposition::NoReceiver
    );
    assert!(r.serial_console.is_none());
}

#[test]
fn detach_with_stale_key_is_silent() {
    let mut r = Reactor::new(3, 200);
    let key = r.attach_serial_console_finish();
    assert_eq!(key, 1);
    // A stale key detaches nothing and issues no RPC.
    let plan = r.plan_command(Command::SerialConsoleDetach(Some(key - 1)));
    assert!(matches!(plan, CommandPlan::DetachSilently));
    // The current key and the force-detach both issue the real detach.
    let plan = r.plan_command(Command::SerialConsoleDetach(Some(key)));
    assert!(matches!(plan, CommandPlan::IssueDetachRpc));
    let plan = r.plan_command(Command::SerialConsoleDetach(None));
    assert!(matches!(plan, CommandPlan::IssueDetachRpc));
    r.detach_serial_console_finish();
    assert!(r.serial_console.is_none());
}

#[test]
fn attach_while_attached_fails_without_io() {
    let mut r = Reactor::new(3, 200);
    let component = SpComponent { id: [2; 16] };
    let plan = r.plan_command(Command::SerialConsoleAttach(component));
    assert!(matches!(plan, CommandPlan::IssueAttachRpc(_)));
    r.attach_serial_console_finish();
    let plan = r.plan_command(Command::SerialConsoleAttach(component));
    assert!(matches!(plan, CommandPlan::AttachAlreadyAttached));
    assert_eq!(
        r.attach_already_attached_error(),
        CommunicationError::SpError(SpError::SerialConsoleAlreadyAttached)
    );
}

#[test]
fn attach_keys_are_monotonic() {
    let mut r = Reactor::new(3, 200);
    assert_eq!(r.attach_serial_console_finish(), 1);
    r.detach_serial_console_finish();
    assert_eq!(r.attach_serial_console_finish(), 2);
}

#[test]
fn commands_fail_fast_while_undiscovered() {
    let mut r = Reactor::new(3, 200);
    let reply = r.fail_pending_command(&Command::Rpc(MgsRequest::SpState));
    assert_eq!(
        reply,
        PendingCommandReply::Failed(CommunicationError::NoSpDiscovered)
    );
    let reply = r.fail_pending_command(&Command::SerialConsoleKeepAlive);
    assert_eq!(
        reply,
        PendingCommandReply::Failed(CommunicationError::NoSpDiscovered)
    );
    let reply =
        r.fail_pending_command(&Command::SerialConsoleAttach(SpComponent { id: [2; 16] }));
    assert_eq!(
        reply,
        PendingCommandReply::Failed(CommunicationError::NoSpDiscovered)
    );
    let reply = r.fail_pending_command(&Command::SerialConsoleDetach(Some(1)));
    assert_eq!(
        reply,
        PendingCommandReply::Failed(CommunicationError::NoSpDiscovered)
    );
    // Reads and clears of the phase-2 slot are still served.
    r.set_most_recent_host_phase2_request(phase2(0));
    let reply = r.fail_pending_command(&Command::GetMostRecentHostPhase2Request);
    assert_eq!(reply, PendingCommandReply::HostPhase2(Some(phase2(0))));
    let reply = r.fail_pending_command(&Command::ClearMostRecentHostPhase2Request);
    assert_eq!(reply, PendingCommandReply::HostPhase2Cleared);
    assert_eq!(r.most_recent_host_phase2_request(), None);
}

#[test]
fn operating_commands_dispatch_as_planned() {
    let mut r = Reactor::new(3, 200);
    let plan = r.plan_command(Command::Rpc(MgsRequest::GetPowerState));
    assert!(matches!(plan, CommandPlan::IssueRpc(MgsRequest::GetPowerState)));
    let plan = r.plan_command(Command::SerialConsoleKeepAlive);
    assert!(matches!(plan, CommandPlan::IssueKeepAliveRpc));
    r.set_most_recent_host_phase2_request(phase2(3));
    let plan = r.plan_command(Command::GetMostRecentHostPhase2Request);
    assert!(matches!(plan, CommandPlan::ReplyHostPhase2(Some(_))));
    let plan = r.plan_command(Command::ClearMostRecentHostPhase2Request);
    assert!(matches!(plan, CommandPlan::HostPhase2Cleared));
    assert_eq!(r.most_recent_host_phase2_request(), None);
}
