//! A one-shot channel's ready flag: the sender sets it after writing the
//! message, the receiver takes it before reading the message.

use crate::atomics::load_bool;
use crate::atomics::store_bool;
use crate::atomics::swap_bool;
use crate::atomics::new_bool;
use crate::atomics::Done;
use crate::atomics::Made;
use crate::atomics::MemOrder;
use crate::atomics::Op;
use std::sync::atomic::AtomicBool;
use vstd::prelude::*;

verus! {

pub struct Channel {
    ready: AtomicBool,
}

/// The sending half; `send` consumes it, so a channel is sent on once.
pub struct Sender<'a> {
    channel: &'a Channel,
}

/// The receiving half; `receive` consumes it, so a channel is received from
/// once.
pub struct Receiver<'a> {
    channel: &'a Channel,
}

impl Channel {
    /// A channel with no message ready: its flag made clear. Returns the
    /// record of that.
    pub fn new() -> (r: (Channel, Made<AtomicBool, bool>))
        ensures
            r.1.atomic() == r.0.flag(),
            r.1.value() == false,
    {
        let (ready, made) = new_bool(false);
        (Channel { ready }, made)
    }

    /// Resets the channel to no message ready (a new flag, made clear) and
    /// hands out its two halves, which borrow it for as long as they live.
    /// Returns the record of the new flag too.
    pub fn split(&mut self) -> (r: (Sender<'_>, Receiver<'_>, Made<AtomicBool, bool>))
        ensures
            r.0.channel() == *final(self),
            r.1.channel() == *final(self),
            r.2.atomic() == final(self).flag(),
            r.2.value() == false,
    {
        let (fresh, made) = Channel::new();
        *self = fresh;
        (Sender { channel: self }, Receiver { channel: self }, made)
    }

    /// Whether the ready flag is set, read with exclusive access (when the
    /// channel is dropped or reset): a sent message that no receive took
    /// set is still in the channel.
    /// Returns the load made too.
    pub fn message_pending(&mut self) -> (r: (bool, Done<'_, AtomicBool, bool>))
        ensures
            *final(self) == *old(self),
            r.1.atomic() == old(self).flag(),
            r.1.op() == (Op::<bool>::Load),
            r.1.order() == MemOrder::Relaxed,
            r.1.outcome() == (Ok::<bool, bool>(r.0)),
    {
        load_bool(&self.ready, MemOrder::Relaxed)
    }

    /// The ready flag.
    pub closed spec fn flag(self) -> AtomicBool {
        self.ready
    }
}

impl<'a> Sender<'a> {
    /// The channel this half belongs to.
    pub closed spec fn channel(self) -> Channel {
        *self.channel
    }

    /// Marks the message, written just before, as ready: sets the flag.
    /// Returns the store made.
    pub fn send(self) -> (r: Done<'a, AtomicBool, bool>)
        ensures
            r.atomic() == self.channel().flag(),
            r.op() == Op::Store(true),
            r.order() == MemOrder::Release,
    {
        store_bool(&self.channel.ready, true, MemOrder::Release)
    }
}

impl<'a> Receiver<'a> {
    /// The channel this half belongs to.
    pub closed spec fn channel(self) -> Channel {
        *self.channel
    }

    /// Whether the message is ready: a load of the flag, returned with the
    /// load made.
    pub fn is_ready(&self) -> (r: (bool, Done<'a, AtomicBool, bool>))
        ensures
            r.1.atomic() == self.channel().flag(),
            r.1.op() == (Op::<bool>::Load),
            r.1.order() == MemOrder::Acquire,
            r.1.outcome() == (Ok::<bool, bool>(r.0)),
    {
        load_bool(&self.channel.ready, MemOrder::Acquire)
    }

    /// Takes the ready flag, clearing it: `true` when the message was ready
    /// (it may then be read), `false` when the caller must wait for it.
    /// Returns the swap made too.
    pub fn receive(self) -> (r: (bool, Done<'a, AtomicBool, bool>))
        ensures
            r.1.atomic() == self.channel().flag(),
            r.1.op() == Op::Swap(false),
            r.1.order() == MemOrder::Acquire,
            r.1.outcome() == (Ok::<bool, bool>(r.0)),
    {
        swap_bool(&self.channel.ready, false, MemOrder::Acquire)
    }
}

/// The channel's flag as the two halves see it.
pub struct ChannelModel {
    pub ready: bool,
    pub sent: bool,
    pub received: bool,
    /// What `receive` returned: whether it took the flag set.
    pub taken: bool,
}

/// One step of one half: the single send, or the single receive.
pub enum ChannelStep {
    Send,
    Receive,
}

impl ChannelModel {
    /// The state `Channel::new` and `Channel::split` leave.
    pub open spec fn init() -> ChannelModel {
        ChannelModel { ready: false, sent: false, received: false, taken: false }
    }

    /// The flag is set only by the send; a receive takes it only after the
    /// send and leaves it clear; a receive that came first leaves the send
    /// to set it for good.
    pub open spec fn inv(self) -> bool {
        &&& self.ready ==> self.sent
        &&& self.taken ==> self.sent && self.received && !self.ready
        &&& !self.received ==> !self.taken
        &&& self.sent && !self.received ==> self.ready
        &&& self.sent && self.received && !self.taken ==> self.ready
    }

    /// The sender marks the message ready.
    pub open spec fn send(self) -> ChannelModel {
        ChannelModel { ready: true, sent: true, ..self }
    }

    /// The receiver takes the flag, which `receive` returns.
    pub open spec fn receive(self) -> ChannelModel {
        ChannelModel { ready: false, received: true, taken: self.ready, ..self }
    }

    /// Each half acts once (`send` and `receive` consume it).
    pub open spec fn enabled(self, step: ChannelStep) -> bool {
        match step {
            ChannelStep::Send => !self.sent,
            ChannelStep::Receive => !self.received,
        }
    }

    pub open spec fn step(self, step: ChannelStep) -> ChannelModel {
        match step {
            ChannelStep::Send => self.send(),
            ChannelStep::Receive => self.receive(),
        }
    }

    /// The state after taking `steps` in order, or `None` when one of them
    /// is not enabled where it is taken.
    pub open spec fn run(self, steps: Seq<ChannelStep>) -> Option<ChannelModel>
        decreases steps.len(),
    {
        if steps.len() == 0 {
            Some(self)
        } else if self.enabled(steps[0]) {
            self.step(steps[0]).run(steps.drop_first())
        } else {
            None
        }
    }
}

proof fn lemma_channel_run_keeps_inv(m: ChannelModel, steps: Seq<ChannelStep>)
    requires
        m.inv(),
    ensures
        m.run(steps) matches Some(end) ==> end.inv(),
    decreases steps.len(),
{
    if steps.len() > 0 && m.enabled(steps[0]) {
        lemma_channel_run_keeps_inv(m.step(steps[0]), steps.drop_first());
    }
}

/// In every run of the two halves from a new channel: the receiver is told
/// the message is ready only after the send, and then the flag is left
/// clear, so the message is not dropped again with the channel. A receive
/// that runs before the send is told `false` and leaves the flag to be set
/// by the send and found set when the channel is dropped.
pub proof fn lemma_channel_ready_after_send(steps: Seq<ChannelStep>)
    ensures
        ChannelModel::init().run(steps) matches Some(end) ==> {
            &&& end.taken ==> end.sent && !end.ready
            &&& end.sent && end.received && !end.taken ==> end.ready
            &&& end.ready ==> end.sent
        },
{
    lemma_channel_run_keeps_inv(ChannelModel::init(), steps);
}

} // verus!
