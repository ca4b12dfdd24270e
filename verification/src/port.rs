use vstd::prelude::*;
use crate::channel::channel_send;
use crate::protocol::{HostCall, Response};

verus! {

/// The controller-facing port of the tick interceptor: the sending endpoint
/// of the response direction, carrying a ghost log of every response handed
/// to the channel, in order, so that contracts can say exactly what was
/// announced to the controller.
pub struct ResponseLink {
    tx: std::sync::mpsc::Sender<Response>,
    log: Ghost<Seq<Response>>,
}

impl ResponseLink {
    /// The responses handed to the channel so far, oldest first. While the
    /// controller's receiving end lives, each is delivered in this order;
    /// once it is gone, a handed response is discarded by the channel.
    pub closed spec fn sent(&self) -> Seq<Response> {
        self.log@
    }

    /// Wraps the sending endpoint of the response direction.
    pub fn new(tx: std::sync::mpsc::Sender<Response>) -> (r: ResponseLink)
        ensures
            r.sent() == Seq::<Response>::empty(),
    {
        ResponseLink { tx, log: Ghost(Seq::empty()) }
    }

    /// Hands one response to the channel, never blocking: exactly this
    /// response and nothing else. The result reports whether the receiving
    /// end still existed; once it is gone, that is permanent.
    pub fn send(&mut self, response: Response) -> (ok: bool)
        ensures
            final(self).sent() == old(self).sent().push(response),
    {
        let ok = channel_send(&self.tx, response);
        self.log = Ghost(self.log@.push(response));
        ok
    }
}

/// The host-facing port of the tick interceptor: the input dispatcher's
/// entry points and the per-frame delta-time cell.
///
/// The interceptor is generic over this port so that its contracts can speak
/// of the exact sequence of calls made into the host. An implementation
/// forwards each call to the host's own entry points (the input-dispatch
/// addresses and the delta-time cell resolved at startup); [`RecordingPort`]
/// is the library's own implementation, which records the calls instead.
pub trait HostPort {
    /// The calls made through this port so far, in order.
    spec fn calls(&self) -> Seq<HostCall>;

    /// Applies a key-down to the host's input state, exactly as a real key
    /// press would: the key code is reused as the character code and the
    /// repeat flag is cleared.
    fn on_key_down(&mut self, key_code: i32)
        ensures
            final(self).calls() == old(self).calls().push(HostCall::KeyDown(key_code)),
    ;

    /// Applies a key-up to the host's input state.
    fn on_key_up(&mut self, key_code: i32)
        ensures
            final(self).calls() == old(self).calls().push(HostCall::KeyUp(key_code)),
    ;

    /// Applies an absolute raw-mouse-move to the host's input state.
    fn on_raw_mouse_move(&mut self, x: i32, y: i32)
        ensures
            final(self).calls() == old(self).calls().push(HostCall::MouseMove(x, y)),
    ;

    /// Writes the given bit pattern into the host's per-frame delta-time
    /// cell, so the frame about to run uses the overridden value.
    fn write_delta(&mut self, bits: u64)
        ensures
            final(self).calls() == old(self).calls().push(HostCall::DeltaWrite(bits)),
    ;
}

/// A port that records the calls made through it, in order: the library's
/// reference implementation of [`HostPort`], for replaying an invocation's
/// effects later or for observing them in a test.
pub struct RecordingPort {
    /// The recorded calls, oldest first.
    pub log: Vec<HostCall>,
}

impl RecordingPort {
    /// An empty recording port.
    pub fn new() -> (r: RecordingPort)
        ensures
            r.calls() == Seq::<HostCall>::empty(),
    {
        RecordingPort { log: Vec::new() }
    }
}

impl HostPort for RecordingPort {
    open spec fn calls(&self) -> Seq<HostCall> {
        self.log@
    }

    fn on_key_down(&mut self, key_code: i32) {
        self.log.push(HostCall::KeyDown(key_code));
    }

    fn on_key_up(&mut self, key_code: i32) {
        self.log.push(HostCall::KeyUp(key_code));
    }

    fn on_raw_mouse_move(&mut self, x: i32, y: i32) {
        self.log.push(HostCall::MouseMove(x, y));
    }

    fn write_delta(&mut self, bits: u64) {
        self.log.push(HostCall::DeltaWrite(bits));
    }
}

} // verus!
