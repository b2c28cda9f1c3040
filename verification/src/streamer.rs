//! The public lifecycle surface: one value that owns the playlist, the id
//! counter, the current selection and the session flag, with the playlist
//! store's operations and the switch controller's transitions as methods.

use vstd::prelude::*;
use crate::control::{
    has_id, lemma_filter_keeps_unique_ids, lemma_filter_members, lemma_move_keeps_wf,
    lemma_position_of_unique, position_of, ControlState,
};
use crate::errors::StreamError;
use crate::graph::{build_graph_plan, plan_matches, GraphPlan};
use crate::models::{EncodingSettings, PlaylistItem};

verus! {

/// One switch, as the engine must execute it: attach a source for `item`
/// and select it; afterwards, if `teardown` names a finished source, hand
/// that source to asynchronous teardown. Selecting the new input always
/// happens before the old source's teardown is scheduled.
#[derive(Debug)]
pub struct SwitchPlan {
    pub item: PlaylistItem,
    pub teardown: Option<u64>,
}

/// Everything the engine must build to bring a session up: the persistent
/// graph, then the first switch (which has nothing to tear down).
#[derive(Debug)]
pub struct SessionPlan {
    pub graph: GraphPlan,
    pub first: SwitchPlan,
}

/// A control-plane event observed by the session's listener loop.
#[derive(Clone, Copy, Debug, PartialEq, Eq, Structural)]
pub enum ControlEvent {
    /// An asynchronous error from the data plane. Such errors are logged by
    /// the caller and do not by themselves stop the session.
    EngineError,
    /// The source carrying this id observed an end-of-stream marker on a
    /// routed stream.
    ItemFinished(u64),
    /// The session is over; the listener loop should exit.
    SessionEnded,
}

/// What the listener loop must do after one event.
#[derive(Debug)]
pub enum EventOutcome {
    /// Keep listening; nothing changed.
    Continue,
    /// Execute this switch.
    Switch(SwitchPlan),
    /// A switch was due but the playlist is empty; keep listening, the
    /// selection is unchanged until an item is added and a switch is retried.
    NoItem,
    /// Exit the listener loop.
    Exit,
}

/// The playout engine's control plane.
pub struct Streamer {
    playlist: Vec<PlaylistItem>,
    next_id: u64,
    current: Option<u64>,
    running: bool,
}

impl View for Streamer {
    type V = ControlState;

    closed spec fn view(&self) -> ControlState {
        ControlState {
            items: self.playlist@,
            next_id: self.next_id,
            current: self.current,
            running: self.running,
        }
    }
}

/// The position of the first item carrying `id`, if any.
fn find_position(items: &Vec<PlaylistItem>, id: u64) -> (r: Option<usize>)
    ensures
        match r {
            Some(i) => i < items@.len() && items@[i as int].id == id,
            None => !has_id(items@, id),
        },
{
    let mut i: usize = 0;
    while i < items.len()
        invariant
            i <= items@.len(),
            forall|j: int| 0 <= j < i ==> (#[trigger] items@[j]).id != id,
        decreases items@.len() - i,
    {
        if items[i].id == id {
            return Some(i);
        }
        i = i + 1;
    }
    None
}

impl Streamer {
    /// A fresh control plane: empty playlist, nothing current, no session.
    /// Each instance owns its id counter, so instances share no id space.
    pub fn new() -> (r: Streamer)
        ensures
            r@.wf(),
            r@.items.len() == 0,
            r@.next_id == 1,
            r@.current is None,
            !r@.running,
    {
        Streamer { playlist: Vec::new(), next_id: 1, current: None, running: false }
    }

    /// Whether the id counter can still hand out an id, which every
    /// realizable playlist leaves true; `add_item` asks for it.
    pub fn can_add(&self) -> (r: bool)
        ensures
            r == (self@.next_id < u64::MAX),
    {
        self.next_id < u64::MAX
    }

    /// Append a new item for `uri` and hand out its id. Ids grow
    /// monotonically and are never reused, so the new item's id differs
    /// from every id the playlist ever held.
    pub fn add_item(&mut self, uri: &str) -> (id: u64)
        requires
            old(self)@.wf(),
            old(self)@.next_id < u64::MAX,
        ensures
            final(self)@.wf(),
            id == old(self)@.next_id,
            final(self)@.items.len() == old(self)@.items.len() + 1,
            final(self)@.items.drop_last() == old(self)@.items,
            final(self)@.items.last().id == id,
            final(self)@.items.last().uri@ == uri@,
            final(self)@.next_id == old(self)@.next_id + 1,
            final(self)@.current == old(self)@.current,
            final(self)@.running == old(self)@.running,
    {
        let id = self.next_id;
        self.next_id = self.next_id + 1;
        self.playlist.push(PlaylistItem { id, uri: uri.to_owned() });
        proof {
            assert(self@.items.drop_last() =~= old(self)@.items);
        }
        id
    }

    /// Remove the item carrying `id`, keeping all others in order.
    /// A no-op, not an error, when no item carries it.
    #[verifier::loop_isolation(false)]
    pub fn remove_item(&mut self, id: u64)
        requires
            old(self)@.wf(),
        ensures
            final(self)@.wf(),
            final(self)@.items == old(self)@.items.filter(
                |it: PlaylistItem| it.id != id,
            ),
            final(self)@.next_id == old(self)@.next_id,
            final(self)@.current == old(self)@.current,
            final(self)@.running == old(self)@.running,
    {
        let ghost pred = |it: PlaylistItem| it.id != id;
        let mut kept: Vec<PlaylistItem> = Vec::new();
        let mut i: usize = 0;
        while i < self.playlist.len()
            invariant
                i <= self.playlist@.len(),
                kept@ == self.playlist@.subrange(0, i as int).filter(pred),
            decreases self.playlist@.len() - i,
        {
            proof {
                assert(self.playlist@.subrange(0, i + 1) =~= self.playlist@.subrange(
                    0,
                    i as int,
                ).push(self.playlist@[i as int]));
                self.playlist@.subrange(0, i as int).lemma_filter_push(
                    self.playlist@[i as int],
                    pred,
                );
            }
            if self.playlist[i].id != id {
                kept.push(self.playlist[i].clone());
            }
            i = i + 1;
        }
        proof {
            assert(self.playlist@.subrange(0, self.playlist@.len() as int) =~= self.playlist@);
            lemma_filter_keeps_unique_ids(self.playlist@, pred);
            lemma_filter_members(self.playlist@, pred);
        }
        self.playlist = kept;
    }

    /// Move the item carrying `id` to `new_index`, keeping the relative
    /// order of all other items. Fails with `InvalidIndex` when the target
    /// position is not inside the playlist, with `ItemNotFound` when no item
    /// carries the id; either failure leaves the playlist unchanged.
    pub fn move_item(&mut self, id: u64, new_index: usize) -> (r: Result<(), StreamError>)
        requires
            old(self)@.wf(),
        ensures
            final(self)@.wf(),
            r is Ok <==> new_index < old(self)@.items.len() && has_id(old(self)@.items, id),
            new_index >= old(self)@.items.len() ==> r == Err::<(), StreamError>(
                StreamError::InvalidIndex,
            ),
            new_index < old(self)@.items.len() && !has_id(old(self)@.items, id) ==> r == Err::<
                (),
                StreamError,
            >(StreamError::ItemNotFound),
            r is Err ==> final(self)@ == old(self)@,
            r is Ok ==> final(self)@.items == old(self)@.items.remove(
                position_of(old(self)@.items, id),
            ).insert(new_index as int, old(self)@.items[position_of(old(self)@.items, id)]),
            final(self)@.next_id == old(self)@.next_id,
            final(self)@.current == old(self)@.current,
            final(self)@.running == old(self)@.running,
    {
        if new_index >= self.playlist.len() {
            return Err(StreamError::InvalidIndex);
        }
        match find_position(&self.playlist, id) {
            None => Err(StreamError::ItemNotFound),
            Some(old_index) => {
                proof {
                    lemma_position_of_unique(self.playlist@, id, old_index as int);
                    lemma_move_keeps_wf(self@, old_index as int, new_index as int);
                }
                let item = self.playlist.remove(old_index);
                self.playlist.insert(new_index, item);
                Ok(())
            },
        }
    }

    /// A consistent copy of the playlist, in playback order.
    pub fn get_playlist_clone(&self) -> (r: Vec<PlaylistItem>)
        ensures
            r@ == self@.items,
    {
        let mut copy: Vec<PlaylistItem> = Vec::new();
        let mut i: usize = 0;
        while i < self.playlist.len()
            invariant
                i <= self.playlist@.len(),
                copy@ == self.playlist@.subrange(0, i as int),
            decreases self.playlist@.len() - i,
        {
            copy.push(self.playlist[i].clone());
            proof {
                assert(copy@ =~= self.playlist@.subrange(0, i + 1));
            }
            i = i + 1;
        }
        proof {
            assert(copy@ =~= self@.items);
        }
        copy
    }

    /// The id of the item presently selected as active, if any.
    pub fn get_currently_playing_id(&self) -> (r: Option<u64>)
        ensures
            r == self@.current,
    {
        self.current
    }

    /// Whether a streaming session is up.
    pub fn is_running(&self) -> (r: bool)
        ensures
            r == self@.running,
    {
        self.running
    }

    /// The switch controller's core operation: pick the next playback
    /// position round-robin from the current selection, make that item
    /// current, and return it for the engine to attach. Fails with
    /// `EmptyPlaylist`, changing nothing, exactly when the playlist is
    /// empty. When the current item's id has been removed from the
    /// playlist, the choice restarts at the head.
    pub fn advance(&mut self) -> (r: Result<PlaylistItem, StreamError>)
        requires
            old(self)@.wf(),
        ensures
            final(self)@.wf(),
            r is Ok <==> old(self)@.can_advance(),
            r is Err ==> r == Err::<PlaylistItem, StreamError>(StreamError::EmptyPlaylist)
                && final(self)@ == old(self)@,
            r matches Ok(item) ==> {
                &&& final(self)@ == old(self)@.advanced()
                &&& item == old(self)@.items[old(self)@.next_index()]
                &&& final(self)@.current == Some(item.id)
            },
    {
        if self.playlist.len() == 0 {
            return Err(StreamError::EmptyPlaylist);
        }
        let mut idx: usize = 0;
        if let Some(cur) = self.current {
            if let Some(pos) = find_position(&self.playlist, cur) {
                proof {
                    lemma_position_of_unique(self.playlist@, cur, pos as int);
                }
                idx = (pos + 1) % self.playlist.len();
            }
        }
        proof {
            assert(idx as int == old(self)@.next_index());
        }
        let item = self.playlist[idx].clone();
        self.current = Some(item.id);
        Ok(item)
    }

    /// Bring a session up: plan the persistent graph for the destination and
    /// the settings, then perform the first switch. Fails with
    /// `AlreadyRunning` while a session is active, and with `EmptyPlaylist`
    /// when there is nothing to play; either failure leaves the state
    /// unchanged and the session idle.
    pub fn start(&mut self, rtmp_url: &str, settings: &EncodingSettings) -> (r: Result<
        SessionPlan,
        StreamError,
    >)
        requires
            old(self)@.wf(),
        ensures
            final(self)@.wf(),
            r is Ok <==> !old(self)@.running && old(self)@.can_advance(),
            old(self)@.running ==> r == Err::<SessionPlan, StreamError>(
                StreamError::AlreadyRunning,
            ),
            !old(self)@.running && !old(self)@.can_advance() ==> r == Err::<
                SessionPlan,
                StreamError,
            >(StreamError::EmptyPlaylist),
            r is Err ==> final(self)@ == old(self)@,
            r matches Ok(plan) ==> {
                &&& final(self)@ == (ControlState { running: true, ..old(self)@.advanced() })
                &&& plan.first.item == old(self)@.items[old(self)@.next_index()]
                &&& plan.first.teardown is None
                &&& plan_matches(plan.graph, rtmp_url@, *settings)
            },
    {
        if self.running {
            return Err(StreamError::AlreadyRunning);
        }
        let graph = build_graph_plan(rtmp_url, settings);
        match self.advance() {
            Err(e) => Err(e),
            Ok(item) => {
                self.running = true;
                Ok(SessionPlan { graph, first: SwitchPlan { item, teardown: None } })
            },
        }
    }

    /// Tear the session down: nothing is current and no session runs
    /// afterwards; the playlist and the id counter are kept. Idempotent and
    /// never an error, also when no session runs.
    pub fn stop(&mut self) -> (r: Result<(), StreamError>)
        ensures
            r is Ok,
            final(self)@ == old(self)@.stopped(),
    {
        self.running = false;
        self.current = None;
        Ok(())
    }

    /// The listener loop's decision for one control-plane event: data-plane
    /// errors and session end change nothing; a finished item triggers a
    /// switch whose plan hands the finished source to teardown, or leaves
    /// everything unchanged when the playlist is empty.
    pub fn handle_event(&mut self, event: ControlEvent) -> (r: EventOutcome)
        requires
            old(self)@.wf(),
        ensures
            final(self)@.wf(),
            event is EngineError ==> r is Continue && final(self)@ == old(self)@,
            event is SessionEnded ==> r is Exit && final(self)@ == old(self)@,
            event matches ControlEvent::ItemFinished(src) ==> if old(self)@.can_advance() {
                &&& final(self)@ == old(self)@.advanced()
                &&& (r matches EventOutcome::Switch(plan) && plan.item == old(self)@.items[old(
                    self,
                )@.next_index()] && plan.teardown == Some(src))
            } else {
                r is NoItem && final(self)@ == old(self)@
            },
    {
        match event {
            ControlEvent::EngineError => EventOutcome::Continue,
            ControlEvent::SessionEnded => EventOutcome::Exit,
            ControlEvent::ItemFinished(src) => match self.advance() {
                Ok(item) => EventOutcome::Switch(SwitchPlan { item, teardown: Some(src) }),
                Err(_) => EventOutcome::NoItem,
            },
        }
    }
}

} // verus!
