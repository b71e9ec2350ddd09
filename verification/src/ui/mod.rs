//! The renderer: the cursor over the list of tracks, the search box, and
//! what goes on the screen.

pub mod input;
pub mod widgets;

use vstd::prelude::*;
use crate::library::song::Song;
use crate::library::tag;
use crate::state::{AppState, SearchState, UIState};
use crate::utils::requests::UIRequests;
use widgets::curr_playing_bar::{
    clock,
    render,
    shown_artist,
    shown_title,
    shown_total,
    status_text,
    PlayingBar,
};
use widgets::stateful_list::{after_next, after_previous, StatefulList};
use crate::utils::constants::NANOS_PER_SEC;

verus! {

/// The renderer's own state: the list of tracks and the cursor on it.
pub struct App {
    pub song_list: StatefulList<Song>,
}

/// What one redraw puts on the screen.
#[derive(Debug, PartialEq, Eq)]
pub struct Screen {
    /// The text of the search box, while it is open.
    pub search: Option<String>,
    /// The titles of the tracks in the list.
    pub titles: Vec<String>,
    /// The row of the list that is highlighted.
    pub selected: Option<usize>,
    /// The bar that shows what is playing.
    pub bar: PlayingBar,
}

/// Whether `needle` occurs in `hay` as one run of characters.
pub open spec fn occurs_in(needle: Seq<char>, hay: Seq<char>) -> bool {
    exists|i: int|
        0 <= i && i + needle.len() <= hay.len() && #[trigger] hay.subrange(
            i,
            i + needle.len(),
        ) == needle
}

/// The texts of a row of strings.
pub open spec fn texts(strings: Seq<String>) -> Seq<Seq<char>> {
    strings.map_values(|s: String| s@)
}

/// The titles that the list shows: of every track while the search box
/// is closed, and of the tracks whose title holds the search term while
/// it is open, in the order of the list.
pub open spec fn shown_titles(items: Seq<Song>, searching: bool, term: Seq<char>) -> Seq<
    Seq<char>,
>
    decreases items.len(),
{
    if items.len() == 0 {
        Seq::empty()
    } else {
        let before = shown_titles(items.drop_last(), searching, term);
        if !searching || occurs_in(term, items.last().title@) {
            before.push(items.last().title@)
        } else {
            before
        }
    }
}

/// The track in the row `selected` of `items`.
pub open spec fn song_at(items: Seq<Song>, selected: Option<usize>) -> Option<Song> {
    match selected {
        Some(i) => if i < items.len() {
            Some(items[i as int])
        } else {
            None
        },
        None => None,
    }
}

/// `str::contains` with a string as the pattern: whether the pattern
/// matches a part of the text, that is, whether it occurs in it.
#[verifier::external_body]
fn contains_text(hay: &str, needle: &str) -> (found: bool)
    ensures
        found == occurs_in(needle@, hay@),
{
    hay.contains(needle)
}

/// `String::push`: appends one character to the end of the string.
#[verifier::external_body]
fn push_char(text: &mut String, ch: char)
    ensures
        final(text)@ == old(text)@.push(ch),
{
    text.push(ch)
}

impl App {
    /// The renderer's state after the cursor went to `selected`, and the
    /// shared state that goes with it: the track in that row is the
    /// selected one. Nothing else has changed.
    pub open spec fn cursor_at(
        self,
        state: AppState,
        before: App,
        state_before: AppState,
        selected: Option<usize>,
    ) -> bool {
        &&& self.song_list.items == before.song_list.items
        &&& self.song_list.selected == selected
        &&& self.song_list.wf()
        &&& state.ui == (UIState {
            selected_song: song_at(before.song_list.items@, selected),
            ..state_before.ui
        })
        &&& state.library == state_before.library
        &&& state.player == state_before.player
        &&& state.search == state_before.search
    }

    /// A renderer with an empty list.
    pub fn new() -> (app: App)
        ensures
            app.song_list.items@ == Seq::<Song>::empty(),
            app.song_list.selected is None,
    {
        App { song_list: StatefulList::with_items(Vec::new()) }
    }

    /// A renderer that lists `songs`, with nothing selected yet.
    pub fn with_songs(songs: Vec<Song>) -> (app: App)
        ensures
            app.song_list.items == songs,
            app.song_list.selected is None,
    {
        App { song_list: StatefulList::with_items(songs) }
    }

    /// Makes the track under the cursor the selected one.
    fn select(&self, state: &mut AppState)
        requires
            self.song_list.wf(),
        ensures
            self.cursor_at(*final(state), *self, *old(state), self.song_list.selected),
    {
        state.ui.selected_song = match self.song_list.selected {
            Some(i) => Some(self.song_list.items[i].clone()),
            None => None,
        };
    }

    /// Moves the cursor one track up and selects that track.
    pub fn on_up(&mut self, state: &mut AppState)
        ensures
            final(self).cursor_at(
                *final(state),
                *old(self),
                *old(state),
                after_previous(old(self).song_list.selected, old(self).song_list.items.len() as nat),
            ),
    {
        self.song_list.previous();
        self.select(state);
    }

    /// Moves the cursor one track down and selects that track.
    pub fn on_down(&mut self, state: &mut AppState)
        ensures
            final(self).cursor_at(
                *final(state),
                *old(self),
                *old(state),
                after_next(old(self).song_list.selected, old(self).song_list.items.len() as nat),
            ),
    {
        self.song_list.next();
        self.select(state);
    }

    /// Nothing happens on `Enter`: the player starts the selected track
    /// on a command of its own.
    pub fn on_enter(&mut self)
        ensures
            *final(self) == *old(self),
    {
    }

    /// Closes the search box and empties it. Without an open search box
    /// nothing changes.
    pub fn go_back(&mut self, state: &mut AppState)
        ensures
            *final(self) == *old(self),
            final(state).library == old(state).library,
            final(state).ui == old(state).ui,
            final(state).player == old(state).player,
            !old(state).search.searching ==> final(state).search == old(state).search,
            old(state).search.searching ==> !final(state).search.searching && final(state).search.term@ == Seq::<char>::empty(),
    {
        if state.search.searching {
            state.search.searching = false;
            state.search.term = String::new();
        }
    }

    /// Takes one command. The answer is whether the renderer goes on:
    /// `Quit` ends it, and changes nothing. `Up` and `Down` move the
    /// cursor as `on_up` and `on_down` do, `ShowSearch` opens the search
    /// box, `SearchInput` appends its character to the search term,
    /// `GoBack` closes the box as `go_back` does, and `Enter` does
    /// nothing.
    pub fn run(&mut self, state: &mut AppState, request: UIRequests) -> (running: bool)
        ensures
            running == !(request is Quit),
            request is Up ==> final(self).cursor_at(
                *final(state),
                *old(self),
                *old(state),
                after_previous(old(self).song_list.selected, old(self).song_list.items.len() as nat),
            ),
            request is Down ==> final(self).cursor_at(
                *final(state),
                *old(self),
                *old(state),
                after_next(old(self).song_list.selected, old(self).song_list.items.len() as nat),
            ),
            !(request is Up) && !(request is Down) ==> {
                &&& *final(self) == *old(self)
                &&& final(state).library == old(state).library
                &&& final(state).ui == old(state).ui
                &&& final(state).player == old(state).player
            },
            request is Up || request is Down || request is Enter || request is Quit ==> final(state).search == old(state).search,
            request is ShowSearch ==> final(state).search == (SearchState {
                searching: true,
                ..old(state).search
            }),
            request matches UIRequests::SearchInput(ch) ==> {
                &&& final(state).search.searching == old(state).search.searching
                &&& final(state).search.term@ == old(state).search.term@.push(ch)
            },
            request is GoBack && !old(state).search.searching ==> final(state).search == old(state).search,
            request is GoBack && old(state).search.searching ==> !final(state).search.searching
                && final(state).search.term@ == Seq::<char>::empty(),
    {
        match request {
            UIRequests::Up => self.on_up(state),
            UIRequests::Down => self.on_down(state),
            UIRequests::Enter => self.on_enter(),
            UIRequests::ShowSearch => {
                state.search.searching = true;
            },
            UIRequests::SearchInput(ch) => {
                push_char(&mut state.search.term, ch);
            },
            UIRequests::GoBack => self.go_back(state),
            UIRequests::Quit => {
                return false;
            },
        }
        true
    }

    /// What to draw. While the search box is open, the screen shows its
    /// text and lists the tracks whose title holds it; else it lists
    /// every track. The highlighted row is the cursor's, whatever the
    /// list is cut down to.
    pub fn get_ui(&self, state: &AppState) -> (screen: Screen)
        ensures
            tag::text_of_string(screen.search) == if state.search.searching {
                Some(state.search.term@)
            } else {
                None
            },
            texts(screen.titles@) == shown_titles(
                self.song_list.items@,
                state.search.searching,
                state.search.term@,
            ),
            screen.selected == self.song_list.selected,
            screen.bar.title@ == shown_title(state.player.curr_song),
            screen.bar.artist@ == shown_artist(state.player.curr_song),
            screen.bar.elapsed_secs == state.player.progress / NANOS_PER_SEC,
            screen.bar.total_secs == shown_total(state.player.curr_song),
            screen.bar.elapsed@ == clock(screen.bar.elapsed_secs as nat),
            screen.bar.total@ == clock(screen.bar.total_secs as nat),
            screen.bar.status@ == status_text(state.player.curr_state),
    {
        let searching = state.search.searching;
        let search = if searching {
            Some(state.search.term.clone())
        } else {
            None
        };
        let mut titles: Vec<String> = Vec::new();
        let mut i: usize = 0;
        assert(self.song_list.items@.take(0) =~= Seq::<Song>::empty());
        assert(texts(titles@) =~= Seq::<Seq<char>>::empty());
        while i < self.song_list.items.len()
            invariant
                i <= self.song_list.items.len(),
                searching == state.search.searching,
                texts(titles@) == shown_titles(
                    self.song_list.items@.take(i as int),
                    searching,
                    state.search.term@,
                ),
            decreases self.song_list.items.len() - i,
        {
            let song = &self.song_list.items[i];
            assert(self.song_list.items@.take(i + 1).drop_last() =~= self.song_list.items@.take(
                i as int,
            ));
            if !searching || contains_text(song.title.as_str(), state.search.term.as_str()) {
                let ghost before = titles@;
                titles.push(song.title.clone());
                assert(texts(titles@) =~= texts(before).push(song.title@));
            }
            i = i + 1;
        }
        assert(self.song_list.items@.take(i as int) =~= self.song_list.items@);
        Screen { search, titles, selected: self.song_list.selected, bar: render(state) }
    }
}

} // verus!
