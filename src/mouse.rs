use vstd::prelude::*;

verus! {

/// A primitive pointer event, synthesized once per button transition.
#[derive(Clone, Copy, PartialEq, Eq, Structural, Debug)]
pub enum MouseEvent {
    LMBDown,
    LMBUp,
    RMBDown,
    RMBUp,
    ScrollDown,
    ScrollUp,
    ScrollClick,
}

/// A pointer position in whole pixels.
#[derive(Clone, Copy, PartialEq, Eq, Structural, Debug)]
pub struct MousePosition {
    pub x_position: usize,
    pub y_position: usize,
}

/// What a deferred callback asks after it has run: to stay queued or to leave.
#[derive(Clone, Copy, PartialEq, Eq, Structural, Debug)]
pub enum MouseQueueResult {
    KeepMe,
    DiscardMe,
}

/// A change that a callback asks of a widget, named by the stable identifier of its window.
#[derive(Clone, Copy, PartialEq, Eq, Structural, Debug)]
pub enum UiIntent {
    ReleaseCloseButton { window_id: usize },
}

/// A deferred reaction: it waits, tick after tick, for the event `until`, then hands
/// over its intent and leaves the queue.
#[derive(Clone, Copy, PartialEq, Eq, Structural, Debug)]
pub struct MouseCallback {
    pub until: MouseEvent,
    pub intent: UiIntent,
}

impl MouseCallback {
    pub open spec fn verdict(&self, ev: MouseEvent) -> MouseQueueResult {
        if ev == self.until {
            MouseQueueResult::DiscardMe
        } else {
            MouseQueueResult::KeepMe
        }
    }

    /// Runs the callback on this tick's pointer state.
    pub fn call(&self, mouse_position: MousePosition, mouse_event: MouseEvent) -> (r: MouseQueueResult)
        ensures
            r == self.verdict(mouse_event),
    {
        if mouse_event == self.until {
            MouseQueueResult::DiscardMe
        } else {
            MouseQueueResult::KeepMe
        }
    }
}

/// The callbacks that stay queued after a tick with event `ev`, in their order.
pub open spec fn kept(cbs: Seq<MouseCallback>, ev: MouseEvent) -> Seq<MouseCallback>
    decreases cbs.len(),
{
    if cbs.len() == 0 {
        cbs
    } else if cbs.last().verdict(ev) == MouseQueueResult::KeepMe {
        kept(cbs.drop_last(), ev).push(cbs.last())
    } else {
        kept(cbs.drop_last(), ev)
    }
}

/// The intents of the callbacks that leave the queue on a tick with event `ev`, in their order.
pub open spec fn fired(cbs: Seq<MouseCallback>, ev: MouseEvent) -> Seq<UiIntent>
    decreases cbs.len(),
{
    if cbs.len() == 0 {
        Seq::empty()
    } else if cbs.last().verdict(ev) == MouseQueueResult::DiscardMe {
        fired(cbs.drop_last(), ev).push(cbs.last().intent)
    } else {
        fired(cbs.drop_last(), ev)
    }
}

/// The queue of deferred callbacks, run once per tick in the order they were registered.
pub struct MouseCallbackRegistrar {
    pub callbacks: Vec<MouseCallback>,
}

impl MouseCallbackRegistrar {
    pub fn new() -> (r: MouseCallbackRegistrar)
        ensures
            r.callbacks@.len() == 0,
    {
        MouseCallbackRegistrar { callbacks: Vec::new() }
    }

    /// Queues `cb` after the callbacks already waiting.
    pub fn register(&mut self, cb: MouseCallback)
        ensures
            final(self).callbacks@ == old(self).callbacks@.push(cb),
    {
        self.callbacks.push(cb);
    }

    /// Runs every callback once on this tick's pointer state, removes each that asks to
    /// leave, and returns their intents in queue order.
    pub fn drain(&mut self, mouse_position: MousePosition, mouse_event: MouseEvent) -> (r: Vec<UiIntent>)
        ensures
            final(self).callbacks@ == kept(old(self).callbacks@, mouse_event),
            r@ == fired(old(self).callbacks@, mouse_event),
    {
        let ghost cbs = self.callbacks@;
        let mut stay: Vec<MouseCallback> = Vec::new();
        let mut out: Vec<UiIntent> = Vec::new();
        let mut i: usize = 0;
        assert(cbs.take(0) =~= Seq::<MouseCallback>::empty());
        while i < self.callbacks.len()
            invariant
                cbs == self.callbacks@,
                i <= cbs.len(),
                stay@ == kept(cbs.take(i as int), mouse_event),
                out@ == fired(cbs.take(i as int), mouse_event),
            decreases cbs.len() - i,
        {
            let cb = self.callbacks[i];
            assert(cbs.take(i + 1).drop_last() =~= cbs.take(i as int));
            assert(cbs.take(i + 1).last() == cb);
            match cb.call(mouse_position, mouse_event) {
                MouseQueueResult::KeepMe => stay.push(cb),
                MouseQueueResult::DiscardMe => out.push(cb.intent),
            }
            i = i + 1;
        }
        assert(cbs.take(i as int) =~= cbs);
        self.callbacks = stay;
        out
    }
}

/// Of three queued callbacks, when only the second asks to leave, the first and the third
/// stay, in that order, and the second's intent is handed over.
pub proof fn lemma_drain_middle(a: MouseCallback, b: MouseCallback, c: MouseCallback, ev: MouseEvent)
    requires
        a.verdict(ev) == MouseQueueResult::KeepMe,
        b.verdict(ev) == MouseQueueResult::DiscardMe,
        c.verdict(ev) == MouseQueueResult::KeepMe,
    ensures
        kept(seq![a, b, c], ev) == seq![a, c],
        fired(seq![a, b, c], ev) == seq![b.intent],
{
    let e = Seq::<MouseCallback>::empty();
    let s1 = e.push(a);
    let s2 = s1.push(b);
    let s3 = s2.push(c);
    assert(s3 =~= seq![a, b, c]);
    assert(s3.drop_last() =~= s2);
    assert(s2.drop_last() =~= s1);
    assert(s1.drop_last() =~= e);
    assert(kept(e, ev) == e);
    assert(kept(s1, ev) == e.push(a));
    assert(kept(s2, ev) == e.push(a));
    assert(kept(s3, ev) == e.push(a).push(c));
    assert(e.push(a).push(c) =~= seq![a, c]);
    assert(fired(e, ev) == Seq::<UiIntent>::empty());
    assert(fired(s1, ev) == Seq::<UiIntent>::empty());
    assert(fired(s2, ev) == Seq::<UiIntent>::empty().push(b.intent));
    assert(fired(s3, ev) == Seq::<UiIntent>::empty().push(b.intent));
    assert(Seq::<UiIntent>::empty().push(b.intent) =~= seq![b.intent]);
}

} // verus!
