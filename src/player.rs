//! A music player: a playlist and the track that is current.
use vstd::arithmetic::div_mod::lemma_fundamental_div_mod_converse_mod;
use vstd::prelude::*;

verus! {

pub struct Track {
    pub title: String,
    pub duration: u32,
    cursor: u32,
}

impl Track {
    pub closed spec fn spec_cursor(&self) -> u32 {
        self.cursor
    }

    pub closed spec fn spec_title(&self) -> Seq<char> {
        self.title@
    }

    pub closed spec fn spec_duration(&self) -> u32 {
        self.duration
    }

    /// A track of `duration` seconds, at its start.
    pub fn new(title: &str, duration: u32) -> (r: Self)
        ensures
            r.spec_title() == title@,
            r.spec_duration() == duration,
            r.cursor() == 0,
    {
        Track { title: title.to_string(), duration, cursor: 0 }
    }

    pub fn title(&self) -> (r: &str)
        ensures
            r@ == self.spec_title(),
    {
        self.title.as_str()
    }

    #[verifier::when_used_as_spec(spec_duration)]
    pub fn duration(&self) -> (r: u32)
        ensures
            r == self.spec_duration(),
    {
        self.duration
    }

    /// Where playback of this track stands, in seconds.
    #[verifier::when_used_as_spec(spec_cursor)]
    pub fn cursor(&self) -> (r: u32)
        ensures
            r == self.spec_cursor(),
    {
        self.cursor
    }
}

pub struct Player {
    playlist: Vec<Track>,
    current_track: usize,
    _volume: u8,
}

impl Player {
    /// The playlist, in order.
    pub closed spec fn spec_playlist(&self) -> Seq<Track> {
        self.playlist@
    }

    /// Position of the current track in the playlist.
    pub closed spec fn spec_current(&self) -> nat {
        self.current_track as nat
    }

    pub open spec fn wf(&self) -> bool {
        self.spec_current() < self.spec_playlist().len()
    }

    /// Whether the player differs from `old` at most in the cursor of the
    /// current track, which is now `cursor`.
    pub open spec fn cursor_set(&self, old: Player, cursor: u32) -> bool {
        &&& self.spec_current() == old.spec_current()
        &&& self.spec_playlist().len() == old.spec_playlist().len()
        &&& forall|i: int|
            0 <= i < self.spec_playlist().len() ==> {
                &&& #[trigger] self.spec_playlist()[i].spec_title() == old.spec_playlist()[i].spec_title()
                &&& self.spec_playlist()[i].spec_duration() == old.spec_playlist()[i].spec_duration()
                &&& self.spec_playlist()[i].cursor() == if i == old.spec_current() {
                    cursor
                } else {
                    old.spec_playlist()[i].cursor()
                }
            }
    }

    pub fn next_track(&mut self)
        requires
            old(self).wf(),
        ensures
            final(self).wf(),
            final(self).spec_playlist() == old(self).spec_playlist(),
            final(self).spec_current() == (old(self).spec_current() + 1) % old(
                self,
            ).spec_playlist().len(),
    {
        let n = self.playlist.len();
        assert(self.current_track < n);
        self.current_track = (self.current_track + 1) % n;
    }

    pub fn prev_track(&mut self)
        requires
            old(self).wf(),
        ensures
            final(self).wf(),
            final(self).spec_playlist() == old(self).spec_playlist(),
            final(self).spec_current() == (old(self).spec_playlist().len() + old(
                self,
            ).spec_current() - 1) % (old(self).spec_playlist().len() as int),
    {
        let n = self.playlist.len();
        assert(self.current_track < n);
        let c = self.current_track;
        self.current_track = if c == 0 {
            n - 1
        } else {
            c - 1
        };
        proof {
            let m = n as int + c as int - 1;
            if c == 0 {
                lemma_fundamental_div_mod_converse_mod(m, n as int, 0, n - 1);
            } else {
                lemma_fundamental_div_mod_converse_mod(m, n as int, 1, c - 1);
            }
        }
    }

    /// Playback imitation: the current track is ten seconds in.
    pub fn play(&mut self)
        requires
            old(self).wf(),
        ensures
            final(self).wf(),
            final(self).cursor_set(*old(self), 10),
    {
        self.track_mut().cursor = 10;
    }

    /// Paused at some moment of the current track.
    pub fn pause(&mut self)
        requires
            old(self).wf(),
        ensures
            final(self).wf(),
            final(self).cursor_set(*old(self), 43),
    {
        self.track_mut().cursor = 43;
    }

    /// Back to the start of the current track.
    pub fn rewind(&mut self)
        requires
            old(self).wf(),
        ensures
            final(self).wf(),
            final(self).cursor_set(*old(self), 0),
    {
        self.track_mut().cursor = 0;
    }

    pub fn track(&self) -> (r: &Track)
        requires
            self.wf(),
        ensures
            *r == self.spec_playlist()[self.spec_current() as int],
    {
        &self.playlist[self.current_track]
    }

    pub fn track_mut(&mut self) -> (r: &mut Track)
        requires
            old(self).wf(),
        ensures
            *r == old(self).spec_playlist()[old(self).spec_current() as int],
            final(self).spec_current() == old(self).spec_current(),
            final(self).spec_playlist() == old(self).spec_playlist().update(
                old(self).spec_current() as int,
                *final(r),
            ),
    {
        let i = self.current_track;
        &mut self.playlist[i]
    }
}

impl Default for Player {
    /// Four tracks, the first of them current.
    fn default() -> (r: Self)
        ensures
            r.wf(),
            r.spec_current() == 0,
            r.spec_playlist().len() == 4,
            r.spec_playlist()[0].spec_title() == "Track 1"@ && r.spec_playlist()[0].spec_duration() == 180,
            r.spec_playlist()[1].spec_title() == "Track 2"@ && r.spec_playlist()[1].spec_duration() == 165,
            r.spec_playlist()[2].spec_title() == "Track 3"@ && r.spec_playlist()[2].spec_duration() == 197,
            r.spec_playlist()[3].spec_title() == "Track 4"@ && r.spec_playlist()[3].spec_duration() == 205,
            forall|i: int| 0 <= i < 4 ==> #[trigger] r.spec_playlist()[i].cursor() == 0,
    {
        let mut playlist: Vec<Track> = Vec::new();
        playlist.push(Track::new("Track 1", 180));
        playlist.push(Track::new("Track 2", 165));
        playlist.push(Track::new("Track 3", 197));
        playlist.push(Track::new("Track 4", 205));
        Player { playlist, current_track: 0, _volume: 25 }
    }
}

} // verus!
