//! The order in which tracks are to follow one another.

use vstd::prelude::*;
use std::collections::VecDeque;
use crate::library::song::Song;

verus! {

/// Three rows of tracks: those already played, those the user asked for
/// next, and those that follow in the ordinary course.
pub struct SongQueue {
    pub previous_queue: VecDeque<Song>,
    pub immediate_queue: VecDeque<Song>,
    pub upcoming_queue: VecDeque<Song>,
}

/// The three rows of a queue as sequences, each with its head first.
pub struct SongQueueView {
    pub previous: Seq<Song>,
    pub immediate: Seq<Song>,
    pub upcoming: Seq<Song>,
}

impl View for SongQueue {
    type V = SongQueueView;

    open spec fn view(&self) -> SongQueueView {
        SongQueueView {
            previous: self.previous_queue@,
            immediate: self.immediate_queue@,
            upcoming: self.upcoming_queue@,
        }
    }
}

impl SongQueueView {
    /// The track that `next` hands out: the head of the immediate row, or
    /// of the upcoming row where the immediate one is empty.
    pub open spec fn head(self) -> Option<Song> {
        if self.immediate.len() > 0 {
            Some(self.immediate[0])
        } else if self.upcoming.len() > 0 {
            Some(self.upcoming[0])
        } else {
            None
        }
    }

    /// The queue after `next` took its head.
    pub open spec fn without_head(self) -> SongQueueView {
        if self.immediate.len() > 0 {
            SongQueueView { immediate: self.immediate.drop_first(), ..self }
        } else if self.upcoming.len() > 0 {
            SongQueueView { upcoming: self.upcoming.drop_first(), ..self }
        } else {
            self
        }
    }
}

impl SongQueue {
    /// A queue with three empty rows.
    pub fn new() -> (queue: SongQueue)
        ensures
            queue@.previous == Seq::<Song>::empty(),
            queue@.immediate == Seq::<Song>::empty(),
            queue@.upcoming == Seq::<Song>::empty(),
    {
        SongQueue {
            previous_queue: VecDeque::new(),
            immediate_queue: VecDeque::new(),
            upcoming_queue: VecDeque::new(),
        }
    }

    /// Puts `song` before everything else: it is played next.
    pub fn add_first_immediate(&mut self, song: Song)
        ensures
            final(self)@ == (SongQueueView {
                immediate: seq![song] + old(self)@.immediate,
                ..old(self)@
            }),
    {
        self.immediate_queue.push_front(song);
    }

    /// Puts `song` behind the tracks that were asked for before it.
    pub fn add_last_immediate(&mut self, song: Song)
        ensures
            final(self)@ == (SongQueueView {
                immediate: old(self)@.immediate.push(song),
                ..old(self)@
            }),
    {
        self.immediate_queue.push_back(song);
    }

    /// Puts `song` at the end of the ordinary course.
    pub fn add_upcoming(&mut self, song: Song)
        ensures
            final(self)@ == (SongQueueView {
                upcoming: old(self)@.upcoming.push(song),
                ..old(self)@
            }),
    {
        self.upcoming_queue.push_back(song);
    }

    /// Records `song` as the track played last.
    pub fn add_to_previous(&mut self, song: Song)
        ensures
            final(self)@ == (SongQueueView {
                previous: old(self)@.previous.push(song),
                ..old(self)@
            }),
    {
        self.previous_queue.push_back(song);
    }

    /// Takes the track to play next: the head of the immediate row, or of
    /// the upcoming row where the immediate one is empty. `None` when both
    /// are empty.
    pub fn next(&mut self) -> (song: Option<Song>)
        ensures
            song == old(self)@.head(),
            final(self)@ == old(self)@.without_head(),
    {
        if self.immediate_queue.len() == 0 {
            return self.upcoming_queue.pop_front();
        } else {
            return self.immediate_queue.pop_front();
        }
    }
}

} // verus!
