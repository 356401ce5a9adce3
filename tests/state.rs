use design_patterns::player::{Player, Track};
use design_patterns::state::{
    execute, AnyState, PausedState, PlayerButton, PlayingState, State, StoppedState,
};

#[test]
fn play_pause_stop_cycle() {
    let mut player = Player::default();
    let (s, view) = execute(AnyState::Stopped(StoppedState), &mut player, PlayerButton::Play);
    assert_eq!(s, AnyState::Playing(PlayingState));
    assert_eq!(view, "[Playing] Track 1 - 180 sec");
    assert_eq!(player.track().cursor(), 10);
    let (s, view) = execute(s, &mut player, PlayerButton::Play);
    assert_eq!(s, AnyState::Paused(PausedState));
    assert_eq!(view, "[Paused] Track 1 - 180 sec");
    assert_eq!(player.track().cursor(), 43);
    let (s, view) = execute(s, &mut player, PlayerButton::Stop);
    assert_eq!(s, AnyState::Stopped(StoppedState));
    assert_eq!(view, "[Stopped] Press 'Play'");
    assert_eq!(player.track().cursor(), 0);
}

#[test]
fn next_and_prev_wrap_around() {
    let mut player = Player::default();
    let (s, view) = execute(AnyState::Paused(PausedState), &mut player, PlayerButton::Prev);
    assert_eq!(s, AnyState::Paused(PausedState));
    assert_eq!(view, "[Paused] Track 4 - 205 sec");
    let (_, view) = execute(s, &mut player, PlayerButton::Next);
    assert_eq!(view, "[Paused] Track 1 - 180 sec");
    player.next_track();
    assert_eq!(player.track().title, "Track 2");
    assert_eq!(player.track().duration, 165);
}

#[test]
fn states_on_their_own() {
    let mut player = Player::default();
    assert_eq!(StoppedState.stop(&mut player), AnyState::Stopped(StoppedState));
    assert_eq!(PausedState.play(&mut player), AnyState::Playing(PlayingState));
    assert_eq!(player.track().cursor(), 43);
    assert_eq!(PlayingState.render(&player), "[Playing] Track 1 - 180 sec");
    player.rewind();
    assert_eq!(player.track().cursor(), 0);
    player.play();
    assert_eq!(player.track_mut().cursor(), 10);
    let t = Track::new("X", 3);
    assert_eq!(t.title(), "X");
    assert_eq!(t.duration(), 3);
    assert_eq!(t.cursor(), 0);
}
