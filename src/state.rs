//! The states of the music player: each state decides how the player reacts
//! to the buttons, and which state comes next.
use vstd::prelude::*;
use vstd::string::StringExecFns;

use crate::player::Player;
use crate::text::{decimal, decimal_string};

verus! {

#[derive(Clone, Copy, Debug, PartialEq, Eq, Structural)]
pub struct StoppedState;

#[derive(Clone, Copy, Debug, PartialEq, Eq, Structural)]
pub struct PausedState;

#[derive(Clone, Copy, Debug, PartialEq, Eq, Structural)]
pub struct PlayingState;

/// Any one of the three states.
#[derive(Clone, Copy, Debug, PartialEq, Eq, Structural)]
pub enum AnyState {
    Stopped(StoppedState),
    Paused(PausedState),
    Playing(PlayingState),
}

/// The state after the Play button.
pub open spec fn after_play(s: AnyState) -> AnyState {
    match s {
        AnyState::Stopped(_) => AnyState::Playing(PlayingState),
        AnyState::Paused(_) => AnyState::Playing(PlayingState),
        AnyState::Playing(_) => AnyState::Paused(PausedState),
    }
}

/// Where the cursor of the current track stands after the Play button.
pub open spec fn cursor_after_play(s: AnyState) -> u32 {
    match s {
        AnyState::Stopped(_) => 10,
        _ => 43,
    }
}

/// The state after the Stop button.
pub open spec fn after_stop(s: AnyState) -> AnyState {
    AnyState::Stopped(StoppedState)
}

/// What the player shows for a state and the current track.
pub open spec fn status_text(s: AnyState, title: Seq<char>, duration: u32) -> Seq<char> {
    match s {
        AnyState::Stopped(_) => "[Stopped] Press 'Play'"@,
        AnyState::Paused(_) => "[Paused] "@ + title + " - "@ + decimal(duration as nat) + " sec"@,
        AnyState::Playing(_) => "[Playing] "@ + title + " - "@ + decimal(duration as nat)
            + " sec"@,
    }
}

/// The text shown for the current track: its title and length.
fn track_text(prefix: &str, player: &Player) -> (r: String)
    requires
        player.wf(),
    ensures
        r@ == prefix@ + player.spec_playlist()[player.spec_current() as int].spec_title() + " - "@
            + decimal(player.spec_playlist()[player.spec_current() as int].duration() as nat)
            + " sec"@,
{
    let track = player.track();
    let mut s = prefix.to_string();
    s.append(track.title());
    s.append(" - ");
    let d = decimal_string(track.duration() as u64);
    s.append(d.as_str());
    s.append(" sec");
    s
}

/// Base behaviour of a state: Play and Stop make transitions, and each state
/// shows itself.
pub trait State: Sized {
    spec fn as_state(&self) -> AnyState;

    fn play(self, player: &mut Player) -> (r: AnyState)
        requires
            old(player).wf(),
        ensures
            final(player).wf(),
            r == after_play(self.as_state()),
            final(player).cursor_set(*old(player), cursor_after_play(self.as_state())),
    ;

    fn stop(self, player: &mut Player) -> (r: AnyState)
        requires
            old(player).wf(),
        ensures
            final(player).wf(),
            r == after_stop(self.as_state()),
            self.as_state() is Stopped ==> *final(player) == *old(player),
            !(self.as_state() is Stopped) ==> final(player).cursor_set(*old(player), 0),
    ;

    fn render(&self, player: &Player) -> (r: String)
        requires
            player.wf(),
        ensures
            r@ == status_text(
                self.as_state(),
                player.spec_playlist()[player.spec_current() as int].spec_title(),
                player.spec_playlist()[player.spec_current() as int].duration(),
            ),
    ;
}

impl State for StoppedState {
    open spec fn as_state(&self) -> AnyState {
        AnyState::Stopped(*self)
    }

    fn play(self, player: &mut Player) -> (r: AnyState) {
        player.play();
        AnyState::Playing(PlayingState)
    }

    fn stop(self, player: &mut Player) -> (r: AnyState) {
        AnyState::Stopped(self)
    }

    fn render(&self, player: &Player) -> (r: String) {
        "[Stopped] Press 'Play'".to_string()
    }
}

impl State for PausedState {
    open spec fn as_state(&self) -> AnyState {
        AnyState::Paused(*self)
    }

    fn play(self, player: &mut Player) -> (r: AnyState) {
        player.pause();
        AnyState::Playing(PlayingState)
    }

    fn stop(self, player: &mut Player) -> (r: AnyState) {
        player.pause();
        player.rewind();
        AnyState::Stopped(StoppedState)
    }

    fn render(&self, player: &Player) -> (r: String) {
        track_text("[Paused] ", player)
    }
}

impl State for PlayingState {
    open spec fn as_state(&self) -> AnyState {
        AnyState::Playing(*self)
    }

    fn play(self, player: &mut Player) -> (r: AnyState) {
        player.pause();
        AnyState::Paused(PausedState)
    }

    fn stop(self, player: &mut Player) -> (r: AnyState) {
        player.pause();
        player.rewind();
        AnyState::Stopped(StoppedState)
    }

    fn render(&self, player: &Player) -> (r: String) {
        track_text("[Playing] ", player)
    }
}

impl State for AnyState {
    open spec fn as_state(&self) -> AnyState {
        *self
    }

    fn play(self, player: &mut Player) -> (r: AnyState) {
        match self {
            AnyState::Stopped(s) => s.play(player),
            AnyState::Paused(s) => s.play(player),
            AnyState::Playing(s) => s.play(player),
        }
    }

    fn stop(self, player: &mut Player) -> (r: AnyState) {
        match self {
            AnyState::Stopped(s) => s.stop(player),
            AnyState::Paused(s) => s.stop(player),
            AnyState::Playing(s) => s.stop(player),
        }
    }

    fn render(&self, player: &Player) -> (r: String) {
        match self {
            AnyState::Stopped(s) => s.render(player),
            AnyState::Paused(s) => s.render(player),
            AnyState::Playing(s) => s.render(player),
        }
    }
}

impl AnyState {
    /// Moves to the next track; the state stays as it is.
    pub fn next(self, player: &mut Player) -> (r: AnyState)
        requires
            old(player).wf(),
        ensures
            final(player).wf(),
            r == self,
            final(player).spec_playlist() == old(player).spec_playlist(),
            final(player).spec_current() == (old(player).spec_current() + 1) % old(
                player,
            ).spec_playlist().len(),
    {
        player.next_track();
        self
    }

    /// Moves to the previous track; the state stays as it is.
    pub fn prev(self, player: &mut Player) -> (r: AnyState)
        requires
            old(player).wf(),
        ensures
            final(player).wf(),
            r == self,
            final(player).spec_playlist() == old(player).spec_playlist(),
            final(player).spec_current() == (old(player).spec_playlist().len() + old(
                player,
            ).spec_current() - 1) % (old(player).spec_playlist().len() as int),
    {
        player.prev_track();
        self
    }
}

/// The buttons of the player.
#[derive(Clone, Copy, Debug, PartialEq, Eq, Structural)]
pub enum PlayerButton {
    Play,
    Stop,
    Prev,
    Next,
}

/// Reacts to a button: the current state makes the move and gives the next
/// state, which is returned with what the player now shows.
pub fn execute(state: AnyState, player: &mut Player, button: PlayerButton) -> (r: (
    AnyState,
    String,
))
    requires
        old(player).wf(),
    ensures
        final(player).wf(),
        r.0 == match button {
            PlayerButton::Play => after_play(state),
            PlayerButton::Stop => after_stop(state),
            _ => state,
        },
        button == PlayerButton::Play ==> final(player).cursor_set(
            *old(player),
            cursor_after_play(state),
        ),
        button == PlayerButton::Stop && state is Stopped ==> *final(player) == *old(player),
        button == PlayerButton::Stop && !(state is Stopped) ==> final(player).cursor_set(
            *old(player),
            0,
        ),
        button == PlayerButton::Next ==> final(player).spec_playlist() == old(
            player,
        ).spec_playlist() && final(player).spec_current() == (old(player).spec_current() + 1)
            % old(player).spec_playlist().len(),
        button == PlayerButton::Prev ==> final(player).spec_playlist() == old(
            player,
        ).spec_playlist() && final(player).spec_current() == (old(player).spec_playlist().len()
            + old(player).spec_current() - 1) % (old(player).spec_playlist().len() as int),
        r.1@ == status_text(
            r.0,
            final(player).spec_playlist()[final(player).spec_current() as int].spec_title(),
            final(player).spec_playlist()[final(player).spec_current() as int].duration(),
        ),
{
    let next = match button {
        PlayerButton::Play => state.play(player),
        PlayerButton::Stop => state.stop(player),
        PlayerButton::Prev => state.prev(player),
        PlayerButton::Next => state.next(player),
    };
    let view = next.render(player);
    (next, view)
}

} // verus!
