//! Decisions of the USB device server: whether the SoC can run the HID core,
//! how U2F packets travel between the USB interface and the one process that
//! may use it, and the debug-port status reports.
use vstd::prelude::*;
use std::collections::VecDeque;

verus! {

/// Length of one U2F HID packet.
pub const U2F_PACKET_LEN: usize = 64;

/// One U2F HID packet.
pub type U2fPacket = [u8; 64];

/// A version is at least another one, comparing major, minor, revision and
/// commit count in that order.
pub open spec fn version_at_least(v: (u32, u32, u32, u32), w: (u32, u32, u32, u32)) -> bool {
    ||| v.0 > w.0
    ||| v.0 == w.0 && v.1 > w.1
    ||| v.0 == w.0 && v.1 == w.1 && v.2 > w.2
    ||| v.0 == w.0 && v.1 == w.1 && v.2 == w.2 && v.3 >= w.3
}

/// The HID core needs SoC version 0.9.8+20 or later.
pub fn soc_supports_hid(major: u32, minor: u32, rev: u32, extra: u32) -> (ok: bool)
    ensures
        ok == version_at_least((major, minor, rev, extra), (0, 9, 8, 20)),
{
    if major != 0 {
        true
    } else if minor != 9 {
        minor > 9
    } else if rev != 8 {
        rev > 8
    } else {
        extra >= 20
    }
}

/// A request that reaches the USB server while the SoC cannot run the HID
/// core.
#[derive(Clone, Copy, Debug, PartialEq, Eq, Structural)]
pub enum RefusedRequest {
    /// The debug-port status request.
    DebugUsbOp,
    /// A U2F receive request.
    U2fRxDeferred,
    /// The question whether the SoC can run the HID core.
    IsSocCompatible,
    /// The request to shut the server down.
    Quit,
    /// Any other request that blocks its sender until answered.
    OtherBlocking,
    /// Any other request.
    Other,
}

/// What the server does with a request while it refuses service.
#[derive(Clone, Copy, Debug, PartialEq, Eq, Structural)]
pub enum RefusalAction {
    /// Answer with these two words.
    ReplyTwo(usize, usize),
    /// Answer with this word.
    Reply(usize),
    /// Keep the request unanswered for good (U2F receives block forever).
    Park,
    /// Leave the message loop.
    Stop,
    /// Answer nothing.
    Ignore,
}

/// How the server treats a request while refusing service: the debug-port
/// status reads unlocked with a forced redraw, compatibility is denied, U2F
/// receives never return, and any other blocking request gets a bogus 0 so
/// that its sender does not hang.
pub fn refusal_action(request: RefusedRequest) -> (action: RefusalAction)
    ensures
        action == match request {
            RefusedRequest::DebugUsbOp => RefusalAction::ReplyTwo(0, 1),
            RefusedRequest::U2fRxDeferred => RefusalAction::Park,
            RefusedRequest::IsSocCompatible => RefusalAction::Reply(0),
            RefusedRequest::Quit => RefusalAction::Stop,
            RefusedRequest::OtherBlocking => RefusalAction::Reply(0),
            RefusedRequest::Other => RefusalAction::Ignore,
        },
{
    match request {
        RefusedRequest::DebugUsbOp => RefusalAction::ReplyTwo(0, 1),
        RefusedRequest::U2fRxDeferred => RefusalAction::Park,
        RefusedRequest::IsSocCompatible => RefusalAction::Reply(0),
        RefusedRequest::Quit => RefusalAction::Stop,
        RefusedRequest::OtherBlocking => RefusalAction::Reply(0),
        RefusedRequest::Other => RefusalAction::Ignore,
    }
}

/// Routing of U2F packets between the USB interface and the one process that
/// may use it (the first one to ask).
pub struct U2fRouter {
    /// The process that owns the U2F interface, fixed on first use.
    pub listener_pid: Option<u8>,
    /// The owner has a receive request parked, waiting for a packet.
    pub listener_waiting: bool,
    /// Packets that arrived while no receive request was parked, oldest first.
    pub rx_queue: VecDeque<U2fPacket>,
    /// The USB link was suspended at the last poll.
    pub was_suspend: bool,
}

/// The answer to a receive request.
#[derive(Clone, Copy, Debug)]
pub enum RxRequestAction {
    /// Answer at once with this queued packet.
    Deliver(U2fPacket),
    /// Park the request until a packet arrives.
    Defer,
    /// The sender is not the owner of the interface.
    Deny,
}

/// What to do with a packet that arrived from the host.
#[derive(Clone, Copy, Debug)]
pub enum ReportAction {
    /// Answer the parked receive request with it.
    Deliver(U2fPacket),
    /// Nobody is waiting: it was queued.
    Queued,
}

/// The owner after a request from `sender`: the first sender becomes the owner.
pub open spec fn owner_after(owner: Option<u8>, sender: Option<u8>) -> Option<u8> {
    match owner {
        None => sender,
        Some(p) => Some(p),
    }
}

/// What a receive request from `sender` does.
pub open spec fn rx_request_outcome(before: U2fRouter, sender: Option<u8>, action: RxRequestAction, after: U2fRouter) -> bool {
    let owner = owner_after(before.listener_pid, sender);
    &&& after.listener_pid == owner
    &&& after.was_suspend == before.was_suspend
    &&& if owner != sender {
        &&& action == RxRequestAction::Deny
        &&& after.listener_waiting == before.listener_waiting
        &&& after.rx_queue@ == before.rx_queue@
    } else if before.rx_queue@.len() > 0 {
        &&& action == RxRequestAction::Deliver(before.rx_queue@[0])
        &&& after.listener_waiting == before.listener_waiting
        &&& after.rx_queue@ == before.rx_queue@.drop_first()
    } else {
        &&& action == RxRequestAction::Defer
        &&& after.listener_waiting
        &&& after.rx_queue@ == before.rx_queue@
    }
}

/// What a transmit request from `sender` does; the result tells whether the
/// packet may go out.
pub open spec fn tx_request_outcome(before: U2fRouter, sender: Option<u8>, allowed: bool, after: U2fRouter) -> bool {
    let owner = owner_after(before.listener_pid, sender);
    &&& after.listener_pid == owner
    &&& allowed == (owner == sender)
    &&& after.listener_waiting == before.listener_waiting
    &&& after.rx_queue@ == before.rx_queue@
    &&& after.was_suspend == before.was_suspend
}

/// What a packet from the host does.
pub open spec fn report_outcome(before: U2fRouter, packet: U2fPacket, action: ReportAction, after: U2fRouter) -> bool {
    &&& after.listener_pid == before.listener_pid
    &&& after.was_suspend == before.was_suspend
    &&& if before.listener_waiting {
        &&& action == ReportAction::Deliver(packet)
        &&& !after.listener_waiting
        &&& after.rx_queue@ == before.rx_queue@
    } else {
        &&& action == ReportAction::Queued
        &&& !after.listener_waiting
        &&& after.rx_queue@ == before.rx_queue@.push(packet)
    }
}

/// What a poll of the link state does; the result tells whether the parked
/// receive request is to be answered with a hang-up (the USB cable was
/// unplugged, so the FIDO state must reset).
pub open spec fn link_outcome(before: U2fRouter, suspended: bool, hang_up: bool, after: U2fRouter) -> bool {
    &&& hang_up == (suspended && !before.was_suspend && before.listener_waiting)
    &&& after.listener_waiting == (before.listener_waiting && !hang_up)
    &&& after.was_suspend == suspended
    &&& after.listener_pid == before.listener_pid
    &&& after.rx_queue@ == before.rx_queue@
}

impl U2fRouter {
    /// No owner, nothing parked or queued, and the link taken as suspended
    /// until the first poll.
    pub fn new() -> (r: U2fRouter)
        ensures
            r.listener_pid is None,
            !r.listener_waiting,
            r.rx_queue@.len() == 0,
            r.was_suspend,
    {
        U2fRouter { listener_pid: None, listener_waiting: false, rx_queue: VecDeque::new(), was_suspend: true }
    }

    /// A receive request from `sender`: the owner gets the oldest queued
    /// packet at once, or is parked until one arrives; anyone else is denied.
    pub fn on_rx_request(&mut self, sender: Option<u8>) -> (action: RxRequestAction)
        ensures
            rx_request_outcome(*old(self), sender, action, *final(self)),
    {
        if self.listener_pid.is_none() {
            self.listener_pid = sender;
        }
        if self.listener_pid == sender {
            match self.rx_queue.pop_front() {
                Some(data) => RxRequestAction::Deliver(data),
                None => {
                    self.listener_waiting = true;
                    RxRequestAction::Defer
                },
            }
        } else {
            RxRequestAction::Deny
        }
    }

    /// A transmit request from `sender`; only the owner may send.
    pub fn on_tx_request(&mut self, sender: Option<u8>) -> (allowed: bool)
        ensures
            tx_request_outcome(*old(self), sender, allowed, *final(self)),
    {
        if self.listener_pid.is_none() {
            self.listener_pid = sender;
        }
        self.listener_pid == sender
    }

    /// A packet from the host: handed to the parked request, or queued.
    pub fn on_report(&mut self, packet: U2fPacket) -> (action: ReportAction)
        ensures
            report_outcome(*old(self), packet, action, *final(self)),
    {
        if self.listener_waiting {
            self.listener_waiting = false;
            ReportAction::Deliver(packet)
        } else {
            self.rx_queue.push_back(packet);
            ReportAction::Queued
        }
    }

    /// A poll of the link: on the edge into suspend, a parked request is
    /// answered with a hang-up.
    pub fn on_link_state(&mut self, suspended: bool) -> (hang_up: bool)
        ensures
            link_outcome(*old(self), suspended, hang_up, *final(self)),
    {
        let mut hang_up = false;
        if suspended {
            if !self.was_suspend && self.listener_waiting {
                self.listener_waiting = false;
                hang_up = true;
            }
            self.was_suspend = true;
        } else {
            self.was_suspend = false;
        }
        hang_up
    }
}

/// Once a process owns the U2F interface it keeps it, whatever happens, and
/// every request from any other sender is denied.
pub proof fn lemma_u2f_owner_is_fixed(
    before: U2fRouter,
    p: u8,
    sender: Option<u8>,
    rx: RxRequestAction,
    allowed: bool,
    after: U2fRouter,
)
    requires
        before.listener_pid == Some(p),
    ensures
        rx_request_outcome(before, sender, rx, after) ==> after.listener_pid == Some(p) && (sender
            != Some(p) ==> rx == RxRequestAction::Deny),
        tx_request_outcome(before, sender, allowed, after) ==> after.listener_pid == Some(p) && (
        allowed <==> sender == Some(p)),
{
}

/// Packets reach the owner in the order they arrived: a packet that arrives
/// while nobody waits goes behind the queued ones, and the owner's next
/// receive request takes the oldest.
pub proof fn lemma_u2f_packets_in_arrival_order(
    s0: U2fRouter,
    packet: U2fPacket,
    a1: ReportAction,
    s1: U2fRouter,
    p: u8,
    a2: RxRequestAction,
    s2: U2fRouter,
)
    requires
        s0.listener_pid == Some(p),
        !s0.listener_waiting,
        report_outcome(s0, packet, a1, s1),
        rx_request_outcome(s1, Some(p), a2, s2),
    ensures
        a1 == ReportAction::Queued,
        s0.rx_queue@.len() == 0 ==> a2 == RxRequestAction::Deliver(packet) && s2.rx_queue@.len() == 0,
        s0.rx_queue@.len() > 0 ==> a2 == RxRequestAction::Deliver(s0.rx_queue@[0])
            && s2.rx_queue@ == s0.rx_queue@.drop_first().push(packet),
{
    if s0.rx_queue@.len() > 0 {
        assert(s2.rx_queue@ =~= s0.rx_queue@.drop_first().push(packet));
    }
}

/// A parked receive request gets the very next packet from the host, which is
/// not queued.
pub proof fn lemma_u2f_parked_request_gets_next_packet(
    s0: U2fRouter,
    p: u8,
    a1: RxRequestAction,
    s1: U2fRouter,
    packet: U2fPacket,
    a2: ReportAction,
    s2: U2fRouter,
)
    requires
        s0.listener_pid == Some(p),
        rx_request_outcome(s0, Some(p), a1, s1),
        a1 == RxRequestAction::Defer,
        report_outcome(s1, packet, a2, s2),
    ensures
        a2 == ReportAction::Deliver(packet),
        s2.rx_queue@ == s0.rx_queue@,
        !s2.listener_waiting,
{
}

/// The owner is never denied: its receive request gets the oldest queued
/// packet, or is parked when nothing is queued; a packet from the host goes to
/// a parked request if there is one and is queued at the back otherwise; a
/// hang-up happens only on the edge into suspend, and only to a parked request,
/// which it ends.
pub proof fn lemma_u2f_routing_rules(
    s0: U2fRouter,
    p: u8,
    rx: RxRequestAction,
    s1: U2fRouter,
    packet: U2fPacket,
    rep: ReportAction,
    s2: U2fRouter,
    suspended: bool,
    hang_up: bool,
    s3: U2fRouter,
)
    requires
        s0.listener_pid == Some(p),
    ensures
        rx_request_outcome(s0, Some(p), rx, s1) ==> (if s0.rx_queue@.len() > 0 {
            rx == RxRequestAction::Deliver(s0.rx_queue@[0]) && s1.rx_queue@ == s0.rx_queue@.subrange(
                1,
                s0.rx_queue@.len() as int,
            )
        } else {
            rx == RxRequestAction::Defer && s1.listener_waiting && s1.rx_queue@.len() == 0
        }),
        report_outcome(s0, packet, rep, s2) ==> !s2.listener_waiting && (if s0.listener_waiting {
            rep == ReportAction::Deliver(packet) && s2.rx_queue@ == s0.rx_queue@
        } else {
            rep == ReportAction::Queued && s2.rx_queue@.len() == s0.rx_queue@.len() + 1
                && s2.rx_queue@.last() == packet && s2.rx_queue@.subrange(0, s0.rx_queue@.len() as int)
                == s0.rx_queue@
        }),
        link_outcome(s0, suspended, hang_up, s3) ==> (hang_up <==> suspended && !s0.was_suspend
            && s0.listener_waiting) && (hang_up ==> !s3.listener_waiting) && s3.was_suspend == suspended,
{
    if report_outcome(s0, packet, rep, s2) && !s0.listener_waiting {
        assert(s2.rx_queue@.subrange(0, s0.rx_queue@.len() as int) =~= s0.rx_queue@);
    }
    if rx_request_outcome(s0, Some(p), rx, s1) && s0.rx_queue@.len() > 0 {
        assert(s1.rx_queue@ =~= s0.rx_queue@.subrange(1, s0.rx_queue@.len() as int));
    }
}

/// The SoC version gate, case by case: any major version from 1 passes; with
/// major 0, minor versions from 10 pass and below 9 fail; with 0.9, revisions
/// from 9 pass and below 8 fail; 0.9.8 passes from commit 20 on.
pub proof fn lemma_soc_version_gate(major: u32, minor: u32, rev: u32, extra: u32)
    ensures
        major >= 1 ==> version_at_least((major, minor, rev, extra), (0, 9, 8, 20)),
        major == 0 && minor >= 10 ==> version_at_least((major, minor, rev, extra), (0, 9, 8, 20)),
        major == 0 && minor < 9 ==> !version_at_least((major, minor, rev, extra), (0, 9, 8, 20)),
        major == 0 && minor == 9 && rev >= 9 ==> version_at_least((major, minor, rev, extra), (0, 9, 8, 20)),
        major == 0 && minor == 9 && rev < 8 ==> !version_at_least((major, minor, rev, extra), (0, 9, 8, 20)),
        major == 0 && minor == 9 && rev == 8 ==> (version_at_least((major, minor, rev, extra), (0, 9, 8, 20))
            <==> extra >= 20),
{
}

/// The key codes to press are the nonzero code words, in order, each taken
/// as its low byte: one code per nonzero word.
pub proof fn lemma_pressed_codes(code0: usize, code1: usize, code2: usize)
    ensures
        pressed_codes(code0, code1, code2).len() == (if code0 != 0 { 1int } else { 0 }) + (if code1 != 0 {
            1int
        } else {
            0
        }) + (if code2 != 0 { 1int } else { 0 }),
        code0 != 0 ==> pressed_codes(code0, code1, code2)[0] == code0 % 256,
        code2 != 0 ==> pressed_codes(code0, code1, code2).last() == code2 % 256,
        code0 == 0 && code1 != 0 ==> pressed_codes(code0, code1, code2)[0] == code1 % 256,
        code0 != 0 && code1 != 0 ==> pressed_codes(code0, code1, code2)[1] == code1 % 256,
{
    assert((code0 as u8) as int == code0 % 256) by (bit_vector);
    assert((code1 as u8) as int == code1 % 256) by (bit_vector);
    assert((code2 as u8) as int == code2 % 256) by (bit_vector);
}

/// Suspend is answered with at most one hang-up: a second poll that still
/// finds the link suspended hangs nothing up.
pub proof fn lemma_one_hang_up_per_suspend(
    s0: U2fRouter,
    h1: bool,
    s1: U2fRouter,
    h2: bool,
    s2: U2fRouter,
)
    requires
        link_outcome(s0, true, h1, s1),
        link_outcome(s1, true, h2, s2),
    ensures
        !h2,
{
}

/// The debug-port lock status reported to the status bar.
pub struct DebugStatus {
    /// The status bar must redraw even if the lock state did not change
    /// (set at boot and after each resume from suspend).
    pub force_update: bool,
}

impl DebugStatus {
    /// At boot the status bar has to draw the lock state once.
    pub fn new() -> (s: DebugStatus)
        ensures
            s.force_update,
    {
        DebugStatus { force_update: true }
    }

    /// The device has come back from a suspend.
    pub fn on_resume(&mut self)
        ensures
            final(self).force_update,
    {
        self.force_update = true;
    }

    /// The two words of a status report: whether the port is locked, and
    /// whether the status bar must redraw; the redraw request is then cleared.
    pub fn report(&mut self, is_locked: bool) -> (words: (usize, usize))
        ensures
            words.0 == (if is_locked { 1usize } else { 0usize }),
            words.1 == (if old(self).force_update { 1usize } else { 0usize }),
            !final(self).force_update,
    {
        let locked: usize = if is_locked {
            1
        } else {
            0
        };
        let force: usize = if self.force_update {
            1
        } else {
            0
        };
        self.force_update = false;
        (locked, force)
    }
}

/// A debug-port request: when `update_req` is set, lock the port if
/// `new_state` is set and unlock it otherwise; `None` asks for no change.
pub fn debug_lock_request(update_req: usize, new_state: usize) -> (lock: Option<bool>)
    ensures
        lock == (if update_req != 0 {
            Some(new_state != 0)
        } else {
            None
        }),
{
    if update_req != 0 {
        Some(new_state != 0)
    } else {
        None
    }
}

/// Which USB core to connect so that the requested one (`1` for the device
/// core, anything else for the debug core) is connected; `None` when it is
/// connected already.
pub fn ensure_core_request(core: usize, device_connected: bool) -> (connect_device: Option<bool>)
    ensures
        connect_device == (if core == 1 {
            if device_connected {
                None
            } else {
                Some(true)
            }
        } else if device_connected {
            Some(false)
        } else {
            None
        }),
{
    if core == 1 {
        if !device_connected {
            Some(true)
        } else {
            None
        }
    } else {
        if device_connected {
            Some(false)
        } else {
            None
        }
    }
}

/// The key codes of a key-press request: each nonzero code word, in order,
/// taken as a byte.
pub open spec fn pressed_codes(code0: usize, code1: usize, code2: usize) -> Seq<u8> {
    let s0 = if code0 != 0 { seq![code0 as u8] } else { Seq::empty() };
    let s1 = if code1 != 0 { seq![code1 as u8] } else { Seq::empty() };
    let s2 = if code2 != 0 { seq![code2 as u8] } else { Seq::empty() };
    s0 + s1 + s2
}

/// The HID usage codes to press for a key-code request.
pub fn key_codes_to_press(code0: usize, code1: usize, code2: usize) -> (codes: Vec<u8>)
    ensures
        codes@ == pressed_codes(code0, code1, code2),
{
    let mut codes: Vec<u8> = Vec::new();
    if code0 != 0 {
        codes.push(code0 as u8);
    }
    if code1 != 0 {
        codes.push(code1 as u8);
    }
    if code2 != 0 {
        codes.push(code2 as u8);
    }
    proof {
        assert(codes@ =~= pressed_codes(code0, code1, code2));
    }
    codes
}

} // verus!
