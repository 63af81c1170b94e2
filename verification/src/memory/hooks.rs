//! Memory hooks and the event channels they feed.
//!
//! A hook watches a range of addresses for one kind of access. Each access
//! that matches enqueues one [`MemoryEvent`] on the channel the hook names.
//! Channels are first-in first-out and never drop an event.

use vstd::prelude::*;

use super::MemoryModel;
use super::MemoryRegion;
use super::MEM;

verus! {

/// The kind of access a hook watches for.
#[derive(PartialEq, Eq, Structural, Debug, Clone, Copy)]
pub enum MemoryOperation {
    Read,
    Write,
}

/// One observed access: what was done, where, and the byte that moved.
#[derive(PartialEq, Eq, Structural, Debug, Clone, Copy)]
pub struct MemoryEvent {
    pub operation: MemoryOperation,
    pub address: u16,
    pub value: u8,
}

/// A watch on `range` for accesses of kind `operation`, reporting to the
/// channel numbered `sink` of its address space.
#[derive(Debug, Clone, Copy)]
pub struct MemoryHook {
    pub operation: MemoryOperation,
    pub range: MemoryRegion,
    pub sink: usize,
}

/// A first-in first-out queue of memory events.
#[derive(Debug)]
pub struct MemoryEventChannel {
    pub queue: Vec<MemoryEvent>,
}

/// The event that an access of kind `operation` at `address` reports. The
/// address is carried in 16 bits.
pub open spec fn event_of(operation: MemoryOperation, address: int, value: u8) -> MemoryEvent {
    MemoryEvent { operation, address: (address % 0x10000) as u16, value }
}

impl View for MemoryEventChannel {
    type V = Seq<MemoryEvent>;

    open spec fn view(&self) -> Seq<MemoryEvent> {
        self.queue@
    }
}

impl MemoryEventChannel {
    /// An empty channel.
    pub fn new() -> (r: Self)
        ensures
            r@ == Seq::<MemoryEvent>::empty(),
    {
        MemoryEventChannel { queue: Vec::new() }
    }

    /// Enqueues `event` behind everything already waiting.
    pub fn send(&mut self, event: MemoryEvent)
        ensures
            final(self)@ == old(self)@.push(event),
    {
        self.queue.push(event);
    }

    /// Takes the oldest waiting event, or `None` when nothing waits. Never blocks.
    pub fn try_recv(&mut self) -> (r: Option<MemoryEvent>)
        ensures
            old(self)@.len() == 0 ==> r.is_none() && final(self)@ == old(self)@,
            old(self)@.len() > 0 ==> r == Some(old(self)@[0]) && final(self)@ == old(self)@.subrange(
                1,
                old(self)@.len() as int,
            ),
    {
        if self.queue.len() == 0 {
            None
        } else {
            Some(self.queue.remove(0))
        }
    }

    /// The number of events waiting.
    pub fn len(&self) -> (r: usize)
        ensures
            r == self@.len(),
    {
        self.queue.len()
    }

    /// Whether nothing waits.
    pub fn is_empty(&self) -> (r: bool)
        ensures
            r == (self@.len() == 0),
    {
        self.queue.len() == 0
    }
}

impl MemoryHook {
    /// Whether an access of kind `operation` at `address` concerns this hook.
    pub open spec fn matches(&self, operation: MemoryOperation, address: int) -> bool {
        self.operation == operation && self.range.contains(address)
    }

    /// Reports an access at `address` that moved `value`: one event of this
    /// hook's kind is enqueued on `channel`.
    pub fn send(&self, channel: &mut MemoryEventChannel, address: usize, value: u8)
        ensures
            final(channel)@ == old(channel)@.push(event_of(self.operation, address as int, value)),
    {
        let short: u16 = (address % 0x10000) as u16;
        channel.send(MemoryEvent { operation: self.operation, address: short, value });
    }
}

/// The hooks among the first `n` of `hooks` that an access of kind
/// `operation` at `address` concerns, in the order they were installed.
pub open spec fn hooks_matching(
    hooks: Seq<MemoryHook>,
    operation: MemoryOperation,
    address: int,
    n: nat,
) -> Seq<MemoryHook>
    decreases n,
{
    if n == 0 {
        Seq::empty()
    } else {
        let earlier = hooks_matching(hooks, operation, address, (n - 1) as nat);
        if hooks[n - 1].matches(operation, address) {
            earlier.push(hooks[n - 1])
        } else {
            earlier
        }
    }
}

/// The channels after the first `n` of `hooks` have each reported an access
/// of kind `operation` at `address` that moved `value`. Hooks report in the
/// order they were installed; a hook whose sink names no channel reports nothing.
pub open spec fn fire(
    channels: Seq<Seq<MemoryEvent>>,
    hooks: Seq<MemoryHook>,
    operation: MemoryOperation,
    address: int,
    value: u8,
    n: nat,
) -> Seq<Seq<MemoryEvent>>
    decreases n,
{
    if n == 0 {
        channels
    } else {
        let earlier = fire(channels, hooks, operation, address, value, (n - 1) as nat);
        let hook = hooks[n - 1];
        if hook.matches(operation, address) && hook.sink < earlier.len() {
            earlier.update(
                hook.sink as int,
                earlier[hook.sink as int].push(event_of(operation, address, value)),
            )
        } else {
            earlier
        }
    }
}

/// The number of events waiting over all `channels`.
pub open spec fn queued(channels: Seq<Seq<MemoryEvent>>) -> nat
    decreases channels.len(),
{
    if channels.len() == 0 {
        0
    } else {
        queued(channels.drop_last()) + channels.last().len()
    }
}

/// Enqueueing one event on one channel raises the number of waiting events by one.
pub proof fn lemma_queued_after_send(channels: Seq<Seq<MemoryEvent>>, sink: int, event: MemoryEvent)
    requires
        0 <= sink < channels.len(),
    ensures
        queued(channels.update(sink, channels[sink].push(event))) == queued(channels) + 1,
    decreases channels.len(),
{
    let after = channels.update(sink, channels[sink].push(event));
    if sink == channels.len() - 1 {
        assert(after.drop_last() =~= channels.drop_last());
    } else {
        lemma_queued_after_send(channels.drop_last(), sink, event);
        assert(after.drop_last() =~= channels.drop_last().update(
            sink,
            channels.drop_last()[sink].push(event),
        ));
    }
}

/// Every access enqueues exactly one event for each hook it concerns: where
/// every hook names a channel, the number of waiting events grows by the
/// number of hooks that match.
pub proof fn lemma_one_event_per_matching_hook(
    channels: Seq<Seq<MemoryEvent>>,
    hooks: Seq<MemoryHook>,
    operation: MemoryOperation,
    address: int,
    value: u8,
    n: nat,
)
    requires
        n <= hooks.len(),
        forall|i: int| 0 <= i < hooks.len() ==> (#[trigger] hooks[i]).sink < channels.len(),
    ensures
        fire(channels, hooks, operation, address, value, n).len() == channels.len(),
        queued(fire(channels, hooks, operation, address, value, n)) == queued(channels)
            + hooks_matching(hooks, operation, address, n).len(),
    decreases n,
{
    if n > 0 {
        lemma_one_event_per_matching_hook(
            channels,
            hooks,
            operation,
            address,
            value,
            (n - 1) as nat,
        );
        let earlier = fire(channels, hooks, operation, address, value, (n - 1) as nat);
        let hook = hooks[n - 1];
        if hook.matches(operation, address) {
            lemma_queued_after_send(earlier, hook.sink as int, event_of(operation, address, value));
        }
    }
}

/// Events leave a channel in the order they entered it: an event that is
/// sent never overtakes one that waits. The next receive after a send
/// takes what it would have taken before the send, and leaves the new
/// event behind everything else; from an empty channel it takes the new
/// event itself.
pub proof fn lemma_channel_is_fifo(queue: Seq<MemoryEvent>, event: MemoryEvent)
    ensures
        queue.len() > 0 ==> queue.push(event)[0] == queue[0] && queue.push(event).subrange(
            1,
            queue.len() as int + 1,
        ) == queue.subrange(1, queue.len() as int).push(event),
        queue.len() == 0 ==> queue.push(event)[0] == event && queue.push(event).subrange(1, 1)
            == Seq::<MemoryEvent>::empty(),
{
    if queue.len() > 0 {
        assert(queue.push(event).subrange(1, queue.len() as int + 1) =~= queue.subrange(
            1,
            queue.len() as int,
        ).push(event));
    } else {
        assert(queue.push(event).subrange(1, 1) =~= Seq::<MemoryEvent>::empty());
    }
}

impl MemoryModel {
    /// The oldest event waiting on channel `sink`, if there is such a
    /// channel and an event waits there.
    pub open spec fn waiting(self, sink: int) -> Option<MemoryEvent> {
        if 0 <= sink < self.channels.len() && self.channels[sink].len() > 0 {
            Some(self.channels[sink][0])
        } else {
            None
        }
    }

    /// The address space after a receive on channel `sink`: the oldest
    /// event waiting there, if there is one, has left the channel.
    pub open spec fn after_receive(self, sink: int) -> MemoryModel {
        if self.waiting(sink).is_some() {
            MemoryModel {
                channels: self.channels.update(
                    sink,
                    self.channels[sink].subrange(1, self.channels[sink].len() as int),
                ),
                ..self
            }
        } else {
            self
        }
    }
}

impl MEM {
    /// Opens a new, empty channel and returns its number.
    pub fn open_channel(&mut self) -> (sink: usize)
        requires
            old(self)@.wf(),
        ensures
            final(self)@.wf(),
            sink == old(self)@.channels.len(),
            final(self)@ == (MemoryModel {
                channels: old(self)@.channels.push(Seq::empty()),
                ..old(self)@
            }),
    {
        let sink = self.channels.len();
        self.channels.push(MemoryEventChannel::new());
        assert(final(self)@.channels =~= old(self)@.channels.push(Seq::empty()));
        sink
    }

    /// Installs a hook: from now on every access of kind `operation` inside
    /// `range` enqueues an event on channel `sink`. While no channel has
    /// that number, the hook reports nothing.
    pub fn push_hook(&mut self, operation: MemoryOperation, range: MemoryRegion, sink: usize)
        requires
            old(self)@.wf(),
        ensures
            final(self)@.wf(),
            final(self)@ == (MemoryModel {
                hooks: old(self)@.hooks.push(MemoryHook { operation, range, sink }),
                ..old(self)@
            }),
    {
        self.hooks.push(MemoryHook { operation, range, sink });
    }

    /// The hooks that an access of kind `operation` at `address` concerns,
    /// in the order they were installed.
    pub fn get_hooks(&self, operation: MemoryOperation, address: usize) -> (valid_hooks: Vec<
        &MemoryHook,
    >)
        ensures
            valid_hooks@.len() == hooks_matching(
                self@.hooks,
                operation,
                address as int,
                self@.hooks.len(),
            ).len(),
            forall|i: int|
                0 <= i < valid_hooks@.len() ==> *(#[trigger] valid_hooks@[i]) == hooks_matching(
                    self@.hooks,
                    operation,
                    address as int,
                    self@.hooks.len(),
                )[i],
    {
        let mut valid_hooks: Vec<&MemoryHook> = Vec::new();
        let mut i: usize = 0;
        while i < self.hooks.len()
            invariant
                i <= self.hooks.len(),
                valid_hooks@.len() == hooks_matching(
                    self@.hooks,
                    operation,
                    address as int,
                    i as nat,
                ).len(),
                forall|k: int|
                    0 <= k < valid_hooks@.len() ==> *(#[trigger] valid_hooks@[k]) == hooks_matching(
                        self@.hooks,
                        operation,
                        address as int,
                        i as nat,
                    )[k],
            decreases self.hooks.len() - i,
        {
            let hook = &self.hooks[i];
            if hook.operation == operation && hook.range.inside_region(address) {
                valid_hooks.push(hook);
            }
            i += 1;
        }
        valid_hooks
    }

    /// Takes the oldest event waiting on channel `sink`, or `None` when
    /// nothing waits there or there is no such channel. Never blocks.
    pub fn try_recv(&mut self, sink: usize) -> (r: Option<MemoryEvent>)
        requires
            old(self)@.wf(),
        ensures
            final(self)@.wf(),
            final(self)@.data == old(self)@.data,
            r == old(self)@.waiting(sink as int),
            final(self)@ == old(self)@.after_receive(sink as int),
    {
        if sink >= self.channels.len() {
            return None;
        }
        let mut channel = self.channels.remove(sink);
        let r = channel.try_recv();
        self.channels.insert(sink, channel);
        assert(final(self)@.channels =~= old(self)@.after_receive(sink as int).channels);
        r
    }

    /// Lets every hook concerned report an access of kind `operation` at
    /// `address` that moved `value`.
    pub(crate) fn notify(&mut self, operation: MemoryOperation, address: usize, value: u8)
        requires
            old(self)@.wf(),
        ensures
            final(self)@ == old(self)@.fired(operation, address as int, value),
    {
        let mut i: usize = 0;
        while i < self.hooks.len()
            invariant
                i <= self.hooks.len(),
                old(self)@.wf(),
                self.data == old(self).data,
                self.mirroring == old(self).mirroring,
                self.write_protection == old(self).write_protection,
                self.hooks == old(self).hooks,
                self@.channels == fire(
                    old(self)@.channels,
                    old(self)@.hooks,
                    operation,
                    address as int,
                    value,
                    i as nat,
                ),
            decreases self.hooks.len() - i,
        {
            let hook = self.hooks[i];
            proof {
                super::lemma_fire_keeps_channels(
                    old(self)@.channels,
                    old(self)@.hooks,
                    operation,
                    address as int,
                    value,
                    i as nat,
                );
            }
            if hook.operation == operation && hook.range.inside_region(address) && hook.sink
                < self.channels.len() {
                let ghost before = self@.channels;
                let mut channel = self.channels.remove(hook.sink);
                hook.send(&mut channel, address, value);
                self.channels.insert(hook.sink, channel);
                assert(self@.channels =~= before.update(
                    hook.sink as int,
                    before[hook.sink as int].push(event_of(operation, address as int, value)),
                ));
            }
            i += 1;
        }
    }
}

} // verus!
