use crate::buffer::{BufferModel, LongPollBuffer, Receipt};
use vstd::prelude::*;

verus! {

/// The abstract state of a poller that races a normal and an optional sticky buffer.
pub ghost struct RaceModel<T> {
    pub normal: BufferModel<T>,
    pub sticky: Option<BufferModel<T>>,
}

impl<T> RaceModel<T> {
    /// Both children are well formed.
    pub open spec fn wf(self) -> bool {
        &&& self.normal.wf()
        &&& (self.sticky matches Some(s) ==> s.wf())
    }

    /// A consumer's poll asks each child for one result.
    pub open spec fn after_request(self) -> Self {
        RaceModel {
            normal: self.normal.after_request(),
            sticky: match self.sticky {
                Some(s) => Some(s.after_request()),
                None => None,
            },
        }
    }

    /// Whether the sticky child's receive is the one that completes. Where both
    /// children could complete at once, `prefer_sticky` stands for the race's
    /// own choice between them.
    pub open spec fn sticky_wins(self, prefer_sticky: bool) -> bool {
        match self.sticky {
            Some(s) => !(s.next_receipt() is Wait) && (prefer_sticky
                || self.normal.next_receipt() is Wait),
            None => false,
        }
    }

    /// What the consumer gets: the receipt of whichever child completes first.
    pub open spec fn next_receipt(self, prefer_sticky: bool) -> Receipt<T> {
        if self.sticky_wins(prefer_sticky) {
            self.sticky.unwrap().next_receipt()
        } else {
            self.normal.next_receipt()
        }
    }

    /// Only the winning child gives up its outcome; the loser keeps its demand
    /// and whatever it buffered.
    pub open spec fn after_receive(self, prefer_sticky: bool) -> Self {
        if self.sticky_wins(prefer_sticky) {
            RaceModel { sticky: Some(self.sticky.unwrap().after_receive()), ..self }
        } else {
            RaceModel { normal: self.normal.after_receive(), ..self }
        }
    }

    /// Both children have their shutdown flag set.
    pub open spec fn after_shutdown(self) -> Self {
        RaceModel {
            normal: self.normal.after_shutdown(),
            sticky: match self.sticky {
                Some(s) => Some(s.after_shutdown()),
                None => None,
            },
        }
    }

    /// Every worker of both children has left its loop.
    pub open spec fn closed(self) -> bool {
        &&& self.normal.closed()
        &&& (self.sticky matches Some(s) ==> s.closed())
    }
}

/// A poller over a normal and an optional sticky buffer of the same outcome
/// type, which hands out whichever child's result comes first.
pub struct WorkflowTaskPoller<T> {
    pub normal_poller: LongPollBuffer<T>,
    pub sticky_poller: Option<LongPollBuffer<T>>,
}

impl<T> View for WorkflowTaskPoller<T> {
    type V = RaceModel<T>;

    open spec fn view(&self) -> RaceModel<T> {
        RaceModel {
            normal: self.normal_poller@,
            sticky: match self.sticky_poller {
                Some(s) => Some(s@),
                None => None,
            },
        }
    }
}

impl<T> WorkflowTaskPoller<T> {
    pub open spec fn wf(&self) -> bool {
        self@.wf()
    }

    /// A race over `normal_poller` and, where given, `sticky_poller`.
    pub fn new(normal_poller: LongPollBuffer<T>, sticky_poller: Option<LongPollBuffer<T>>) -> (r:
        Self)
        ensures
            r.normal_poller == normal_poller,
            r.sticky_poller == sticky_poller,
    {
        WorkflowTaskPoller { normal_poller, sticky_poller }
    }

    /// A consumer's poll adds one unit of demand to each child. Returns false,
    /// with nothing changed, where a child's counter is already full.
    pub fn request_poll(&mut self) -> (added: bool)
        requires
            old(self).wf(),
        ensures
            final(self).wf(),
            added == (old(self)@.normal.demand < usize::MAX && (old(self)@.sticky matches Some(
                s,
            ) ==> s.demand < usize::MAX)),
            added ==> final(self)@ == old(self)@.after_request(),
            !added ==> final(self)@ == old(self)@,
    {
        let sticky_has_room = match &self.sticky_poller {
            Some(s) => s.has_demand_room(),
            None => true,
        };
        if !sticky_has_room || !self.normal_poller.has_demand_room() {
            return false;
        }
        self.normal_poller.request_poll();
        match &mut self.sticky_poller {
            Some(s) => {
                s.request_poll();
            },
            None => {},
        }
        true
    }

    /// One attempt to receive from the race: the sticky child's receipt where
    /// it wins, else the normal child's.
    pub fn receive(&mut self, prefer_sticky: bool) -> (r: Receipt<T>)
        requires
            old(self).wf(),
        ensures
            final(self).wf(),
            r == old(self)@.next_receipt(prefer_sticky),
            final(self)@ == old(self)@.after_receive(prefer_sticky),
    {
        let normal_ready = self.normal_poller.is_ready();
        match &mut self.sticky_poller {
            Some(s) => {
                if s.is_ready() && (prefer_sticky || !normal_ready) {
                    return s.receive();
                }
            },
            None => {},
        }
        self.normal_poller.receive()
    }

    /// Forwards the shutdown flag to both children.
    pub fn notify_shutdown(&mut self)
        requires
            old(self).wf(),
        ensures
            final(self).wf(),
            final(self)@ == old(self)@.after_shutdown(),
    {
        self.normal_poller.notify_shutdown();
        match &mut self.sticky_poller {
            Some(s) => s.notify_shutdown(),
            None => {},
        }
    }

    /// Every worker of both children has left its loop.
    pub fn is_closed(&self) -> (c: bool)
        ensures
            c == self@.closed(),
    {
        self.normal_poller.is_closed() && match &self.sticky_poller {
            Some(s) => s.is_closed(),
            None => true,
        }
    }
}

} // verus!
