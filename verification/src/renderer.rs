use vstd::prelude::*;

use crate::point::Point;
use crate::polygon::Polygon;

verus! {

/// What the user interface sends to the renderer.
pub enum RendererMessage<S> {
    /// The polygon to draw from now on.
    UpdatePolygon(Polygon<S>),
}

impl<S> RendererMessage<S> {
    /// The polygon this message carries.
    pub open spec fn polygon(self) -> Polygon<S> {
        match self {
            RendererMessage::UpdatePolygon(p) => p,
        }
    }
}

/// Whether the renderer has a live backend `B` to draw with.
pub enum RendererState<B> {
    /// Rendering resources exist; frames are drawn with the backend.
    Active(B),
    /// The window is minimised or not yet shown; frames are skipped.
    Suspended,
}

/// The renderer's mailbox: its backend state and the last polygon it was sent.
pub struct PaintState<S, B> {
    pub state: RendererState<B>,
    pub polygon: Polygon<S>,
}

impl<S, B> PaintState<S, B> {
    /// A suspended renderer with nothing to draw.
    pub fn new() -> (p: Self)
        ensures
            p.state is Suspended,
            p.polygon@ == Seq::<Point<S>>::empty(),
    {
        PaintState { state: RendererState::Suspended, polygon: Polygon::new() }
    }

    /// The renderer starts or resumes with a fresh backend.
    pub fn resume(&mut self, backend: B)
        ensures
            final(self).state == RendererState::Active(backend),
            final(self).polygon == old(self).polygon,
    {
        self.state = RendererState::Active(backend);
    }

    /// The renderer pauses; the backend is dropped.
    pub fn suspend(&mut self)
        ensures
            final(self).state is Suspended,
            final(self).polygon == old(self).polygon,
    {
        self.state = RendererState::Suspended;
    }

    /// Takes in one message from the user interface: its polygon replaces
    /// the one held so far.
    pub fn receive(&mut self, msg: RendererMessage<S>)
        ensures
            final(self).polygon == msg.polygon(),
            final(self).state == old(self).state,
    {
        match msg {
            RendererMessage::UpdatePolygon(polygon) => {
                self.polygon = polygon;
            },
        }
    }

    /// Takes in a batch of messages drained from the user interface, oldest
    /// first: the polygon of the latest one replaces the one held so far; an
    /// empty batch leaves it as it was.
    pub fn receive_all(&mut self, msgs: Vec<RendererMessage<S>>)
        ensures
            final(self).polygon == after_messages(old(self).polygon, msgs@),
            final(self).state == old(self).state,
    {
        proof {
            lemma_latest_message_wins(self.polygon, msgs@);
        }
        let mut msgs = msgs;
        match msgs.pop() {
            Some(latest) => self.receive(latest),
            None => {},
        }
    }
}

/// The polygon held after taking in `msgs`, first to last, starting from
/// `held`: each message's polygon replaces the one held before it.
pub open spec fn after_messages<S>(held: Polygon<S>, msgs: Seq<RendererMessage<S>>) -> Polygon<S>
    decreases msgs.len(),
{
    if msgs.len() == 0 {
        held
    } else {
        after_messages(msgs[0].polygon(), msgs.drop_first())
    }
}

/// Draining a batch of messages leaves the polygon of the latest one; an
/// empty batch leaves the polygon as it was.
pub proof fn lemma_latest_message_wins<S>(held: Polygon<S>, msgs: Seq<RendererMessage<S>>)
    ensures
        msgs.len() == 0 ==> after_messages(held, msgs) == held,
        msgs.len() > 0 ==> after_messages(held, msgs) == msgs.last().polygon(),
    decreases msgs.len(),
{
    if msgs.len() > 1 {
        lemma_latest_message_wins(msgs[0].polygon(), msgs.drop_first());
        assert(msgs.drop_first().last() == msgs.last());
    } else if msgs.len() == 1 {
        assert(after_messages(msgs[0].polygon(), msgs.drop_first()) == msgs[0].polygon());
    }
}

} // verus!
