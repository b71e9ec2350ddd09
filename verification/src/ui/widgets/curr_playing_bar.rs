//! The bar that shows what is playing.

use vstd::prelude::*;
use crate::library::song::Song;
use crate::state::AppState;
use crate::utils::constants::{PlayerStates, NANOS_PER_SEC};

verus! {

/// What the bar shows, as text and numbers. The renderer paints it.
#[derive(Debug, PartialEq, Eq)]
pub struct PlayingBar {
    /// Title of the current track, empty without one.
    pub title: String,
    /// Artist of the current track, empty without one.
    pub artist: String,
    /// Time played, as minutes and seconds.
    pub elapsed: String,
    /// Length of the current track, as minutes and seconds.
    pub total: String,
    /// The mode of the player in a word.
    pub status: String,
    /// Time played, in whole seconds.
    pub elapsed_secs: u64,
    /// Length of the current track in seconds, 0 without one.
    pub total_secs: u64,
}

/// The decimal digit for a number below ten.
pub open spec fn digit_char(d: nat) -> char
    recommends
        d < 10,
{
    (('0' as nat) + d) as char
}

/// A number in decimal digits.
pub open spec fn decimal(n: nat) -> Seq<char>
    decreases n,
{
    if n < 10 {
        seq![digit_char(n)]
    } else {
        decimal(n / 10).push(digit_char(n % 10))
    }
}

/// A number in at least two decimal digits.
pub open spec fn two_digits(n: nat) -> Seq<char> {
    if n < 10 {
        seq!['0', digit_char(n)]
    } else {
        decimal(n)
    }
}

/// A time in seconds as minutes and seconds, two digits each and a colon
/// between. The minutes run on beyond 99.
pub open spec fn clock(secs: nat) -> Seq<char> {
    two_digits(secs / 60) + seq![':'] + two_digits(secs % 60)
}

/// The word for a mode.
pub open spec fn status_text(mode: PlayerStates) -> Seq<char> {
    match mode {
        PlayerStates::PLAYING => "Playing"@,
        PlayerStates::STOPPED => "Stopped"@,
        PlayerStates::PAUSED => "Paused"@,
    }
}

/// The title to show for the current track.
pub open spec fn shown_title(song: Option<Song>) -> Seq<char> {
    match song {
        Some(song) => song.title@,
        None => Seq::empty(),
    }
}

/// The artist to show for the current track.
pub open spec fn shown_artist(song: Option<Song>) -> Seq<char> {
    match song {
        Some(song) => song.track_artist@,
        None => Seq::empty(),
    }
}

/// The length to show for the current track.
pub open spec fn shown_total(song: Option<Song>) -> u64 {
    match song {
        Some(song) => song.duration_secs,
        None => 0,
    }
}

/// `format!` with two numbers, each zero-padded to a width of two, and a
/// colon between them. The contract writes out what that format gives:
/// every digit of a number, and a leading zero for a number below ten.
#[verifier::external_body]
fn clock_text(mins: u64, secs: u64) -> (text: String)
    ensures
        text@ == two_digits(mins as nat) + seq![':'] + two_digits(secs as nat),
{
    format!("{:02}:{:02}", mins, secs)
}

/// A time in seconds as minutes and seconds.
pub fn readable_time(secs: u64) -> (text: String)
    ensures
        text@ == clock(secs as nat),
{
    let mins = secs / 60;
    let secs = secs % 60;
    return clock_text(mins, secs);
}

/// What the bar shows for the state of the player.
pub fn render(state: &AppState) -> (bar: PlayingBar)
    ensures
        bar.title@ == shown_title(state.player.curr_song),
        bar.artist@ == shown_artist(state.player.curr_song),
        bar.elapsed_secs == state.player.progress / NANOS_PER_SEC,
        bar.total_secs == shown_total(state.player.curr_song),
        bar.elapsed@ == clock(bar.elapsed_secs as nat),
        bar.total@ == clock(bar.total_secs as nat),
        bar.status@ == status_text(state.player.curr_state),
{
    let title = match &state.player.curr_song {
        None => String::new(),
        Some(song) => song.title.clone(),
    };
    let artist = match &state.player.curr_song {
        None => String::new(),
        Some(song) => song.track_artist.clone(),
    };
    let elapsed_secs = state.player.progress / NANOS_PER_SEC;
    let total_secs = match &state.player.curr_song {
        None => 0,
        Some(song) => song.duration_secs,
    };
    let status = match state.player.curr_state {
        PlayerStates::PLAYING => "Playing".to_owned(),
        PlayerStates::STOPPED => "Stopped".to_owned(),
        PlayerStates::PAUSED => "Paused".to_owned(),
    };
    PlayingBar {
        title,
        artist,
        elapsed: readable_time(elapsed_secs),
        total: readable_time(total_secs),
        status,
        elapsed_secs,
        total_secs,
    }
}

} // verus!
