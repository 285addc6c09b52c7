//! The playback session: which track is highlighted, which one the audio
//! engine is playing, and what the progress bar shows.
//!
//! The engine itself lives outside: the session hands out the commands it
//! should carry out and is told what it observed (how many tracks are left in
//! its queue, whether it is paused, how far the current track has played).

use vstd::prelude::*;
use crate::clock::{Progress, progress_of, recompute};
use crate::event::{Event, KeyCode};
use crate::ui::{
    StatefulList, Tabstatus, next_index, next_tab, previous_index, previous_tab, selection_in,
};

verus! {

/// A track of the playlist: its file and its length in milliseconds.
#[derive(Debug)]
pub struct Song {
    pub name: String,
    pub time: u64,
}

/// A command for the audio engine.
#[derive(Clone, Copy, Debug, PartialEq, Eq, Structural)]
pub enum Command {
    /// Stop playing and empty the queue.
    Stop,
    /// Put the track with this index of the playlist at the end of the queue.
    Append(usize),
    /// Resume playing.
    Play,
    /// Pause.
    Pause,
    /// Empty the queue.
    Clear,
    /// Move within the current track to this many milliseconds.
    Seek(u64),
    /// Set the gain, in percent.
    SetVolume(u32),
}

/// The gain changes in steps of this many percent.
pub const VOLUME_STEP: u32 = 20;
/// The gain never rises above this many percent.
pub const MAX_VOLUME: u32 = 500;
/// The gain of a new session, in percent.
pub const INITIAL_VOLUME: u32 = 100;

/// The gain one step up, held at `MAX_VOLUME`.
pub open spec fn raised_volume(volume: u32) -> u32 {
    if volume + VOLUME_STEP > MAX_VOLUME {
        MAX_VOLUME
    } else {
        (volume + VOLUME_STEP) as u32
    }
}

/// The gain one step down, held at 0.
pub open spec fn lowered_volume(volume: u32) -> u32 {
    if volume < VOLUME_STEP {
        0
    } else {
        (volume - VOLUME_STEP) as u32
    }
}

/// Milliseconds from `since` to `now`; 0 if `now` is earlier.
pub open spec fn elapsed_since(now: u64, since: u64) -> nat {
    if now >= since {
        (now - since) as nat
    } else {
        0
    }
}

/// The tracks from `offset` to the end of a playlist of `len` tracks, appended in order.
pub open spec fn queue_commands(offset: nat, len: nat) -> Seq<Command> {
    Seq::new((len - offset) as nat, |k: int| Command::Append((offset + k) as usize))
}

/// Stop whatever plays, queue the tracks from `offset` to the end, and play.
pub open spec fn play_commands(offset: nat, len: nat) -> Seq<Command> {
    seq![Command::Stop] + queue_commands(offset, len) + seq![Command::Play]
}

/// The command that flips an engine whose pause flag is `paused`.
pub open spec fn toggle_command(paused: bool) -> Command {
    if paused {
        Command::Play
    } else {
        Command::Pause
    }
}

/// The engine's pause flag after it carried out `command`.
pub open spec fn paused_after(paused: bool, command: Command) -> bool {
    match command {
        Command::Play => false,
        Command::Pause => true,
        _ => paused,
    }
}

/// The length of the track at `index` of `items`, if any track is meant.
pub open spec fn duration_at(items: Seq<Song>, index: Option<usize>) -> Option<u64> {
    match index {
        Some(i) => Some(items[i as int].time),
        None => None,
    }
}

/// `s` with its last element moved to the front.
pub open spec fn rotated<T>(s: Seq<T>) -> Seq<T> {
    if s.len() == 0 {
        s
    } else {
        seq![s.last()] + s.drop_last()
    }
}

/// The part of a session that the engine's queue drives: the track that plays,
/// the highlighted entry, and whether playback was started.
pub struct Playback {
    pub now_playing: Option<usize>,
    pub selected: Option<usize>,
    pub started: bool,
}

/// A consistent playback state for a playlist of `len` tracks: both indices
/// point into the playlist, and a track plays exactly while playback is started.
pub open spec fn playback_wf(p: Playback, len: nat) -> bool {
    &&& selection_in(p.now_playing, len)
    &&& selection_in(p.selected, len)
    &&& p.started == p.now_playing is Some
}

/// What one tick makes of the playback state, given that the engine reports
/// `queue_len` tracks left in its queue of a playlist of `len` tracks.
///
/// An empty queue ends a started session. Otherwise, since the queue holds the
/// tracks from the one that plays to the end of the playlist, a shorter queue
/// means that tracks have finished: the track that plays, and the highlight with
/// it, move on to `len - queue_len`.
pub open spec fn drain_step(p: Playback, len: nat, queue_len: nat) -> Playback {
    let p1 = if p.started && queue_len == 0 {
        Playback { now_playing: None, selected: None, started: false }
    } else {
        p
    };
    match p1.now_playing {
        Some(i) => if queue_len <= len && len - queue_len > i {
            Playback {
                now_playing: Some((len - queue_len) as usize),
                selected: Some((len - queue_len) as usize),
                started: p1.started,
            }
        } else {
            p1
        },
        None => p1,
    }
}

/// A tick keeps the playback state consistent.
pub proof fn lemma_drain_step_wf(p: Playback, len: nat, queue_len: nat)
    requires
        playback_wf(p, len),
    ensures
        playback_wf(drain_step(p, len, queue_len), len),
{
}

/// While the engine's queue holds exactly the tracks from the one that plays to
/// the end of the playlist, a tick leaves the playback state as it is.
pub proof fn lemma_full_queue_is_steady(p: Playback, len: nat, queue_len: nat)
    requires
        playback_wf(p, len),
        p.now_playing matches Some(i) && queue_len == len - i,
    ensures
        drain_step(p, len, queue_len) == p,
{
}

/// Detecting drained tracks twice on the same queue length gives what detecting
/// them once gave.
pub proof fn lemma_drain_step_idempotent(p: Playback, len: nat, queue_len: nat)
    requires
        playback_wf(p, len),
    ensures
        drain_step(drain_step(p, len, queue_len), len, queue_len) == drain_step(p, len, queue_len),
{
}

/// The labels and heights of the decorative bar chart of a new session.
pub open spec fn initial_bars() -> Seq<(&'static str, u64)> {
    seq![
        ("B1", 9u64), ("B2", 12u64), ("B3", 5u64), ("B4", 8u64), ("B5", 2u64), ("B6", 4u64),
        ("B7", 5u64), ("B8", 9u64), ("B9", 14u64), ("B10", 15u64), ("B11", 1u64), ("B12", 0u64),
        ("B13", 4u64), ("B14", 6u64), ("B15", 4u64), ("B16", 6u64), ("B17", 4u64), ("B18", 7u64),
        ("B19", 13u64), ("B20", 8u64), ("B21", 11u64), ("B22", 9u64), ("B23", 3u64), ("B24", 5u64),
    ]
}

/// A playback session. Times are in milliseconds of a monotonic clock.
pub struct App<'a> {
    pub tabs: Tabstatus<'a>,
    pub progress: Progress,
    /// The index of the track that plays.
    pub cur_idx: Option<usize>,
    /// Whether playback was started and has not yet run out.
    pub start: bool,
    pub quit: bool,
    pub barchart_data: Vec<(&'a str, u64)>,
    /// The playlist and its highlighted entry.
    pub tasks: StatefulList<Song>,
    /// The gain, in percent.
    pub volume: u32,
    /// When the last tick ran.
    pub last_tick: u64,
    /// When the highlight was last moved back to the playing track, or a key was pressed.
    pub select_tick: u64,
}

impl<'a> App<'a> {
    /// The number of tracks.
    pub open spec fn len(&self) -> nat {
        self.tasks.items@.len()
    }

    /// The state that the engine's queue drives.
    pub open spec fn playback(&self) -> Playback {
        Playback { now_playing: self.cur_idx, selected: self.tasks.selected, started: self.start }
    }

    pub open spec fn wf(&self) -> bool {
        &&& self.tabs.wf()
        &&& playback_wf(self.playback(), self.len())
        &&& self.volume <= MAX_VOLUME
    }

    /// This session with `selected` highlighted.
    pub open spec fn with_selected(self, selected: Option<usize>) -> Self {
        App { tasks: StatefulList { selected, ..self.tasks }, ..self }
    }

    /// This session with the tab at `index` shown.
    pub open spec fn with_tab(self, index: usize) -> Self {
        App { tabs: Tabstatus { index, ..self.tabs }, ..self }
    }

    /// Where playback starts: the highlighted track, or the first.
    pub open spec fn offset(&self) -> nat {
        match self.tasks.selected {
            Some(i) => i as nat,
            None => 0,
        }
    }

    /// What playing does: on an empty playlist nothing; otherwise the track at
    /// the offset plays and is highlighted, and the engine is told to stop, to
    /// queue the tracks from the offset to the end, and to play.
    pub open spec fn spec_play(self) -> (Self, Seq<Command>) {
        if self.len() == 0 {
            (self, seq![])
        } else {
            let offset = self.offset() as usize;
            (
                App {
                    cur_idx: Some(offset),
                    start: true,
                    tasks: StatefulList { selected: Some(offset), ..self.tasks },
                    ..self
                },
                play_commands(self.offset(), self.len()),
            )
        }
    }

    /// What a character key does; every one of them also restarts the wait
    /// before the highlight goes back to the playing track.
    pub open spec fn spec_char(self, c: char, paused: bool, now: u64) -> (Self, Seq<Command>) {
        let (next, commands) = match c {
            'q' => (App { quit: true, ..self }, seq![]),
            'h' => (self.with_tab(previous_tab(self.tabs.index, self.tabs.titles@.len())), seq![]),
            'l' => (self.with_tab(next_tab(self.tabs.index, self.tabs.titles@.len())), seq![]),
            ' ' => (self, seq![toggle_command(paused)]),
            'j' => (self.with_selected(next_index(self.tasks.selected, self.len())), seq![]),
            'k' => (self.with_selected(previous_index(self.tasks.selected, self.len())), seq![]),
            'r' => (self, seq![Command::Seek(0)]),
            'e' => (self, seq![Command::Clear]),
            '+' => (
                App { volume: raised_volume(self.volume), ..self },
                seq![Command::SetVolume(raised_volume(self.volume))],
            ),
            '-' => (
                App { volume: lowered_volume(self.volume), ..self },
                seq![Command::SetVolume(lowered_volume(self.volume))],
            ),
            _ => (self, seq![]),
        };
        (App { select_tick: now, ..next }, commands)
    }

    /// What an input event does, given the engine's pause flag and the time.
    pub open spec fn spec_handle(self, ev: Event, paused: bool, now: u64) -> (Self, Seq<Command>) {
        match ev {
            Event::Key(KeyCode::Enter) => self.spec_play(),
            Event::Key(KeyCode::Char(c)) => self.spec_char(c, paused, now),
            Event::ScrollDown => (
                self.with_selected(next_index(self.tasks.selected, self.len())),
                seq![],
            ),
            Event::ScrollUp => (
                self.with_selected(previous_index(self.tasks.selected, self.len())),
                seq![],
            ),
            _ => (self, seq![]),
        }
    }

    /// A session over `playlist` with nothing highlighted or playing, started at `now`.
    pub fn new(playlist: Vec<Song>, now: u64) -> (r: App<'a>)
        ensures
            r.wf(),
            r.tasks.items@ == playlist@,
            r.tasks.selected is None,
            r.cur_idx is None,
            !r.start,
            !r.quit,
            r.tabs.titles@ == seq!["Tab1", "Tab2"],
            r.tabs.index == 0,
            r.barchart_data@ == initial_bars(),
            r.progress == progress_of(None, 0),
            r.volume == INITIAL_VOLUME,
            r.last_tick == now,
            r.select_tick == now,
    {
        App {
            tabs: Tabstatus::new(vec!["Tab1", "Tab2"]),
            progress: Progress::idle(),
            quit: false,
            start: false,
            barchart_data: vec![
                ("B1", 9),
                ("B2", 12),
                ("B3", 5),
                ("B4", 8),
                ("B5", 2),
                ("B6", 4),
                ("B7", 5),
                ("B8", 9),
                ("B9", 14),
                ("B10", 15),
                ("B11", 1),
                ("B12", 0),
                ("B13", 4),
                ("B14", 6),
                ("B15", 4),
                ("B16", 6),
                ("B17", 4),
                ("B18", 7),
                ("B19", 13),
                ("B20", 8),
                ("B21", 11),
                ("B22", 9),
                ("B23", 3),
                ("B24", 5),
            ],
            tasks: StatefulList::with_items(playlist),
            cur_idx: None,
            volume: INITIAL_VOLUME,
            last_tick: now,
            select_tick: now,
        }
    }

    /// Highlights the previous track, wrapping to the last.
    pub fn select_up(&mut self)
        requires
            old(self).wf(),
        ensures
            final(self).wf(),
            *final(self) == old(self).with_selected(
                previous_index(old(self).tasks.selected, old(self).len()),
            ),
    {
        self.tasks.previous();
    }

    /// Highlights the next track, wrapping to the first.
    pub fn select_down(&mut self)
        requires
            old(self).wf(),
        ensures
            final(self).wf(),
            *final(self) == old(self).with_selected(
                next_index(old(self).tasks.selected, old(self).len()),
            ),
    {
        self.tasks.next();
    }

    /// Shows the next tab.
    pub fn tab_next(&mut self)
        requires
            old(self).wf(),
        ensures
            final(self).wf(),
            *final(self) == old(self).with_tab(
                next_tab(old(self).tabs.index, old(self).tabs.titles@.len()),
            ),
    {
        self.tabs.next()
    }

    /// Shows the previous tab.
    pub fn tab_left(&mut self)
        requires
            old(self).wf(),
        ensures
            final(self).wf(),
            *final(self) == old(self).with_tab(
                previous_tab(old(self).tabs.index, old(self).tabs.titles@.len()),
            ),
    {
        self.tabs.previous()
    }

    /// The command that flips the engine between paused and playing, given its
    /// pause flag as it reports it now.
    pub fn toggle(&self, paused: bool) -> (r: Command)
        ensures
            r == toggle_command(paused),
            paused_after(paused, r) == !paused,
    {
        if paused {
            Command::Play
        } else {
            Command::Pause
        }
    }

    /// Runs the periodic work of a tick: the progress bar at the engine's
    /// reported `position`, and one turn of the bar chart.
    pub fn on_tick(&mut self, position: u64)
        requires
            old(self).wf(),
        ensures
            final(self).wf(),
            final(self).barchart_data@ == rotated(old(self).barchart_data@),
            *final(self) == (App {
                progress: progress_of(duration_at(old(self).tasks.items@, old(self).cur_idx), position),
                barchart_data: final(self).barchart_data,
                ..*old(self)
            }),
    {
        self.set_progress(position);
        let len = self.barchart_data.len();
        if len > 0 {
            let last = self.barchart_data.remove(len - 1);
            self.barchart_data.insert(0, last);
            assert(self.barchart_data@ =~= rotated(old(self).barchart_data@));
        }
    }

    /// Recomputes the progress bar of the playing track at the engine's
    /// reported `position`.
    pub fn set_progress(&mut self, position: u64)
        requires
            old(self).wf(),
        ensures
            final(self).wf(),
            *final(self) == (App {
                progress: progress_of(duration_at(old(self).tasks.items@, old(self).cur_idx), position),
                ..*old(self)
            }),
    {
        let duration = match self.cur_idx {
            Some(i) => Some(self.tasks.items[i].time),
            None => None,
        };
        self.progress = recompute(duration, position);
    }

    /// The command that empties the engine's queue. The track that plays stays
    /// as it is until a tick sees the queue empty.
    pub fn clear_list(&self) -> (r: Command)
        ensures
            r == Command::Clear,
    {
        Command::Clear
    }

    /// Where playback starts: the highlighted track, or the first.
    fn get_offset(&self) -> (r: usize)
        ensures
            r == self.offset(),
    {
        match self.tasks.selected() {
            Some(i) => i,
            None => 0,
        }
    }

    /// Makes the track at `offset` the one that plays, and gives the commands
    /// that queue it and every later track, then play.
    fn load_list(&mut self, offset: usize) -> (r: Vec<Command>)
        requires
            offset < old(self).len(),
        ensures
            r@ == queue_commands(offset as nat, old(self).len()) + seq![Command::Play],
            *final(self) == (App { cur_idx: Some(offset), start: true, ..*old(self) }),
    {
        self.cur_idx = Some(offset);
        self.start = true;
        let n = self.tasks.items.len();
        let mut commands: Vec<Command> = Vec::new();
        let mut i: usize = offset;
        while i < n
            invariant
                offset <= i <= n,
                n == self.len(),
                commands@ == queue_commands(offset as nat, i as nat),
            decreases n - i,
        {
            commands.push(Command::Append(i));
            i = i + 1;
            assert(commands@ =~= queue_commands(offset as nat, i as nat));
        }
        commands.push(Command::Play);
        commands
    }

    /// Plays from the highlighted track (or the first) to the end of the
    /// playlist; on an empty playlist, does nothing.
    pub fn play(&mut self) -> (r: Vec<Command>)
        requires
            old(self).wf(),
        ensures
            final(self).wf(),
            (*final(self), r@) == old(self).spec_play(),
    {
        let n = self.tasks.items.len();
        if n == 0 {
            return Vec::new();
        }
        let offset = self.get_offset();
        let mut commands: Vec<Command> = Vec::new();
        commands.push(Command::Stop);
        let mut queued = self.load_list(offset);
        commands.append(&mut queued);
        self.tasks.select(Some(offset));
        assert(commands@ =~= play_commands(offset as nat, n as nat));
        commands
    }

    /// The command that moves back to the start of the track that plays.
    pub fn replay(&self) -> (r: Command)
        ensures
            r == Command::Seek(0),
    {
        Command::Seek(0)
    }

    /// Raises the gain one step, at most to `MAX_VOLUME`, and gives the command
    /// that sets it.
    pub fn increase_volume(&mut self) -> (r: Command)
        requires
            old(self).wf(),
        ensures
            final(self).wf(),
            *final(self) == (App { volume: raised_volume(old(self).volume), ..*old(self) }),
            r == Command::SetVolume(raised_volume(old(self).volume)),
    {
        self.volume = if self.volume > MAX_VOLUME - VOLUME_STEP {
            MAX_VOLUME
        } else {
            self.volume + VOLUME_STEP
        };
        Command::SetVolume(self.volume)
    }

    /// Lowers the gain one step, at least to 0, and gives the command that sets it.
    pub fn decrease_volume(&mut self) -> (r: Command)
        requires
            old(self).wf(),
        ensures
            final(self).wf(),
            *final(self) == (App { volume: lowered_volume(old(self).volume), ..*old(self) }),
            r == Command::SetVolume(lowered_volume(old(self).volume)),
    {
        self.volume = if self.volume < VOLUME_STEP {
            0
        } else {
            self.volume - VOLUME_STEP
        };
        Command::SetVolume(self.volume)
    }

    /// Carries out an input event: keys and mouse scrolling as the session maps
    /// them, given the engine's pause flag as it reports it now, at time `now`.
    /// Gives the commands for the engine, in order.
    pub fn handle_events(&mut self, ev: Event, paused: bool, now: u64) -> (r: Vec<Command>)
        requires
            old(self).wf(),
        ensures
            final(self).wf(),
            (*final(self), r@) == old(self).spec_handle(ev, paused, now),
    {
        let mut commands: Vec<Command> = Vec::new();
        match ev {
            Event::Key(KeyCode::Enter) => {
                commands = self.play();
            },
            Event::Key(KeyCode::Char(c)) => {
                match c {
                    'q' => self.quit = true,
                    'h' => self.tab_left(),
                    'l' => self.tab_next(),
                    ' ' => commands.push(self.toggle(paused)),
                    'j' => self.select_down(),
                    'k' => self.select_up(),
                    'r' => commands.push(self.replay()),
                    'e' => commands.push(self.clear_list()),
                    '+' => commands.push(self.increase_volume()),
                    '-' => commands.push(self.decrease_volume()),
                    _ => {},
                }
                self.select_tick = now;
            },
            Event::ScrollDown => self.select_down(),
            Event::ScrollUp => self.select_up(),
            _ => {},
        }
        assert(commands@ =~= old(self).spec_handle(ev, paused, now).1);
        commands
    }

    /// Runs a tick if `tick_rate` milliseconds have passed since the last one,
    /// given what the engine reports: `queue_len` tracks left in its queue and
    /// `position` played of the current track. A tick ends the session when the
    /// queue is empty, follows the queue to the track that plays now, and
    /// refreshes the progress bar.
    pub fn update(&mut self, tick_rate: u64, now: u64, queue_len: usize, position: u64)
        requires
            old(self).wf(),
        ensures
            final(self).wf(),
            elapsed_since(now, old(self).last_tick) >= tick_rate ==> {
                let p = drain_step(old(self).playback(), old(self).len(), queue_len as nat);
                &&& final(self).playback() == p
                &&& final(self).barchart_data@ == rotated(old(self).barchart_data@)
                &&& *final(self) == (App {
                    cur_idx: p.now_playing,
                    start: p.started,
                    tasks: StatefulList { selected: p.selected, ..old(self).tasks },
                    progress: progress_of(duration_at(old(self).tasks.items@, p.now_playing), position),
                    barchart_data: final(self).barchart_data,
                    last_tick: now,
                    ..*old(self)
                })
            },
            elapsed_since(now, old(self).last_tick) < tick_rate ==> *final(self) == *old(self),
    {
        let elapsed = now.saturating_sub(self.last_tick);
        if elapsed >= tick_rate {
            if self.start && queue_len == 0 {
                self.tasks.select(None);
                self.cur_idx = None;
                self.start = false;
            }
            let n = self.tasks.items.len();
            if let Some(cur) = self.cur_idx {
                if queue_len <= n && n - queue_len > cur {
                    let playing = n - queue_len;
                    self.cur_idx = Some(playing);
                    self.tasks.select(Some(playing));
                }
            }
            self.on_tick(position);
            self.last_tick = now;
        }
    }

    /// Moves the highlight back to the track that plays, once `delay`
    /// milliseconds have passed since this last happened or a key was pressed.
    pub fn recover_select(&mut self, delay: u64, now: u64)
        requires
            old(self).wf(),
        ensures
            final(self).wf(),
            elapsed_since(now, old(self).select_tick) >= delay ==> *final(self) == (App {
                select_tick: now,
                tasks: StatefulList {
                    selected: if old(self).cur_idx is Some {
                        old(self).cur_idx
                    } else {
                        old(self).tasks.selected
                    },
                    ..old(self).tasks
                },
                ..*old(self)
            }),
            elapsed_since(now, old(self).select_tick) >= delay && old(self).cur_idx is Some
                ==> final(self).tasks.selected == old(self).cur_idx,
            elapsed_since(now, old(self).select_tick) < delay ==> *final(self) == *old(self),
    {
        let elapsed = now.saturating_sub(self.select_tick);
        if elapsed >= delay {
            if let Some(i) = self.cur_idx {
                if self.tasks.selected() != Some(i) {
                    self.tasks.select(Some(i));
                }
            }
            self.select_tick = now;
        }
    }
}

} // verus!
