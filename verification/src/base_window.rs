use vstd::prelude::*;

use crate::messages::{EventData, MessageResult};

verus! {

/// The per-instance side of the instance-dispatch bridge: a window type
/// names its class, receives its handle exactly once at creation, and
/// handles the events the bridge routes to it.
///
/// The spec functions name the implementor's behaviour so that the bridge's
/// contract can speak about it exactly: `with_hwnd` is the state after the
/// handle is delivered, `next` and `response` are the state transition and
/// the reply of one handled message, and `msg_pre` is what the handler asks
/// of its caller for a message.
pub trait BaseWindow: Sized {
    /// The identifier of the window class the type belongs to.
    spec fn class_name_spec() -> u64;

    /// The handle of the platform window the instance is bound to.
    spec fn hwnd_spec(self) -> u64;

    /// The instance after its handle is assigned.
    spec fn with_hwnd(self, hwnd: u64) -> Self;

    /// What the handler requires of its state and of the message payload.
    spec fn msg_pre(self, message: u32, data: EventData) -> bool;

    /// The state after one message is handled.
    spec fn next(self, window: u64, message: u32, data: EventData) -> Self;

    /// The reply to one handled message.
    spec fn response(self, window: u64, message: u32, data: EventData) -> MessageResult;

    fn get_class_name() -> (name: u64)
        ensures
            name == Self::class_name_spec(),
    ;

    fn handle_message(&mut self, window: u64, message: u32, data: EventData) -> (r: MessageResult)
        requires
            old(self).msg_pre(message, data),
        ensures
            *final(self) == old(self).next(window, message, data),
            r == old(self).response(window, message, data),
    ;

    fn set_hwnd(&mut self, hwnd: u64)
        ensures
            *final(self) == old(self).with_hwnd(hwnd),
            final(self).hwnd_spec() == hwnd,
    ;

    fn get_hwnd(&self) -> (hwnd: u64)
        ensures
            hwnd == self.hwnd_spec(),
    ;

    fn get_window(&self) -> (hwnd: u64)
        ensures
            hwnd == self.hwnd_spec(),
    {
        self.get_hwnd()
    }
}

} // verus!
