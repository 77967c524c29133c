//! The applet's state and how each message changes it.
//!
//! [`PanelState::update`] takes the state and a message and gives the next
//! state and what the applet has to do outside: poll the players, load album
//! art, send a command to a player or save the settings. The applet runs that
//! work and feeds the results back as further messages.

use vstd::prelude::*;
use crate::config::Config;
use crate::mpris::{PlayerInfo, PlayerInfoView, copy_opt_string, no_player, opt_view};

verus! {

/// Polls without any answer after which a shown player is taken to be gone.
pub const MISSED_POLLS_BEFORE_CLEAR: u8 = 4;

/// How far the seek buttons move the playback position, in microseconds.
pub const SEEK_STEP_US: i64 = 10_000_000;

/// The state the applet keeps between messages.
#[derive(Debug, Clone, PartialEq)]
pub struct PanelState {
    pub config: Config,
    /// The player shown; an empty bus name means none is.
    pub player: PlayerInfo,
    /// The art URL whose image is shown or being loaded.
    pub current_art_url: Option<String>,
    /// Polls in a row that resolved no player.
    pub missed_polls: u8,
}

/// The mathematical value of a [`PanelState`].
pub struct PanelStateView {
    pub config: Config,
    pub player: PlayerInfoView,
    pub current_art_url: Option<Seq<char>>,
    pub missed_polls: u8,
}

impl View for PanelState {
    type V = PanelStateView;

    open spec fn view(&self) -> PanelStateView {
        PanelStateView {
            config: self.config,
            player: self.player@,
            current_art_url: opt_view(self.current_art_url),
            missed_polls: self.missed_polls,
        }
    }
}

/// A message to the applet, as far as its state depends on it.
#[derive(Debug, Clone, PartialEq)]
pub enum PanelEvent {
    UpdateConfig(Config),
    /// The poll timer fired.
    Tick,
    /// A poll finished. `info` is `None` when no player resolved. `seek_settled`
    /// tells whether a seek target is pinned and the reported position is
    /// within two seconds of it.
    PlayerUpdated { info: Option<PlayerInfo>, seek_settled: bool },
    PlayPause,
    Next,
    Previous,
    /// The seek slider was released; the pinned target, if any, in microseconds.
    SeekCommit(Option<u64>),
    SeekForward,
    SeekBackward,
    LabelMaxLengthChanged(u32),
    TrackFirstChanged(bool),
}

/// Outside work the applet has to do after a message.
#[derive(Debug, Clone, PartialEq)]
pub enum PanelAction {
    Nothing,
    /// Poll the players.
    Poll,
    /// Load the album art at this URL.
    LoadArt(String),
    /// Send play/pause to the player with this bus name.
    PlayPause(String),
    Next(String),
    Previous(String),
    /// Seek the player with this bus name by an offset in microseconds.
    SeekBy(String, i64),
    /// Seek the player with this bus name to a target, given its current position.
    SeekTo(String, u64, u64),
    /// Store these settings.
    SaveConfig(Config),
}

/// The mathematical value of a [`PanelAction`].
pub enum PanelActionView {
    Nothing,
    Poll,
    LoadArt(Seq<char>),
    PlayPause(Seq<char>),
    Next(Seq<char>),
    Previous(Seq<char>),
    SeekBy(Seq<char>, i64),
    SeekTo(Seq<char>, u64, u64),
    SaveConfig(Config),
}

impl View for PanelAction {
    type V = PanelActionView;

    open spec fn view(&self) -> PanelActionView {
        match self {
            PanelAction::Nothing => PanelActionView::Nothing,
            PanelAction::Poll => PanelActionView::Poll,
            PanelAction::LoadArt(u) => PanelActionView::LoadArt(u@),
            PanelAction::PlayPause(b) => PanelActionView::PlayPause(b@),
            PanelAction::Next(b) => PanelActionView::Next(b@),
            PanelAction::Previous(b) => PanelActionView::Previous(b@),
            PanelAction::SeekBy(b, d) => PanelActionView::SeekBy(b@, *d),
            PanelAction::SeekTo(b, t, c) => PanelActionView::SeekTo(b@, *t, *c),
            PanelAction::SaveConfig(c) => PanelActionView::SaveConfig(*c),
        }
    }
}

/// What the applet does after a message: the outside work, and whether to
/// drop the album art shown and the pinned seek target.
#[derive(Debug, Clone, PartialEq)]
pub struct PanelOutcome {
    pub action: PanelAction,
    pub clear_art: bool,
    pub clear_seek: bool,
}

/// The mathematical value of a [`PanelOutcome`].
pub struct PanelOutcomeView {
    pub action: PanelActionView,
    pub clear_art: bool,
    pub clear_seek: bool,
}

impl View for PanelOutcome {
    type V = PanelOutcomeView;

    open spec fn view(&self) -> PanelOutcomeView {
        PanelOutcomeView {
            action: self.action@,
            clear_art: self.clear_art,
            clear_seek: self.clear_seek,
        }
    }
}

/// An outcome that only asks for `action`.
pub open spec fn only(action: PanelActionView) -> PanelOutcomeView {
    PanelOutcomeView { action, clear_art: false, clear_seek: false }
}

/// The state after a poll that resolved no player.
///
/// While a player is shown, the miss is counted; once the count reaches
/// [`MISSED_POLLS_BEFORE_CLEAR`] the player is taken to be gone and cleared
/// with its art and seek target. A single miss is often a transient D-Bus
/// error, so the last known player stays up until then.
pub open spec fn step_missed(s: PanelStateView) -> (PanelStateView, PanelOutcomeView) {
    if s.player.bus_name.len() > 0 {
        let missed = if s.missed_polls < 255 {
            (s.missed_polls + 1) as u8
        } else {
            255u8
        };
        if missed >= MISSED_POLLS_BEFORE_CLEAR {
            (
                PanelStateView {
                    config: s.config,
                    player: no_player(),
                    current_art_url: None,
                    missed_polls: missed,
                },
                PanelOutcomeView { action: PanelActionView::Nothing, clear_art: true, clear_seek: true },
            )
        } else {
            (
                PanelStateView {
                    config: s.config,
                    player: s.player,
                    current_art_url: s.current_art_url,
                    missed_polls: missed,
                },
                only(PanelActionView::Nothing),
            )
        }
    } else {
        (s, only(PanelActionView::Nothing))
    }
}

/// The state after a poll that resolved `info`.
///
/// Identical info changes nothing but the miss count. Otherwise the info is
/// shown, the pinned seek target is dropped once the player has caught up
/// with it, and when the art URL changed the old art is dropped and the new
/// one, if any, is loaded.
pub open spec fn step_updated(s: PanelStateView, info: PlayerInfoView, seek_settled: bool) -> (
    PanelStateView,
    PanelOutcomeView,
) {
    if info == s.player {
        (
            PanelStateView {
                config: s.config,
                player: s.player,
                current_art_url: s.current_art_url,
                missed_polls: 0,
            },
            only(PanelActionView::Nothing),
        )
    } else if info.art_url != s.current_art_url {
        (
            PanelStateView {
                config: s.config,
                player: info,
                current_art_url: info.art_url,
                missed_polls: 0,
            },
            PanelOutcomeView {
                action: match info.art_url {
                    Some(u) => PanelActionView::LoadArt(u),
                    None => PanelActionView::Nothing,
                },
                clear_art: true,
                clear_seek: seek_settled,
            },
        )
    } else {
        (
            PanelStateView {
                config: s.config,
                player: info,
                current_art_url: s.current_art_url,
                missed_polls: 0,
            },
            PanelOutcomeView {
                action: PanelActionView::Nothing,
                clear_art: false,
                clear_seek: seek_settled,
            },
        )
    }
}

/// The state with other settings, and the request to store them.
pub open spec fn step_config(s: PanelStateView, c: Config) -> (PanelStateView, PanelOutcomeView) {
    (
        PanelStateView {
            config: c,
            player: s.player,
            current_art_url: s.current_art_url,
            missed_polls: s.missed_polls,
        },
        only(PanelActionView::SaveConfig(c)),
    )
}

/// How the applet's state changes on a message, and what it has to do.
pub open spec fn step(s: PanelStateView, e: PanelEvent) -> (PanelStateView, PanelOutcomeView) {
    let bus = s.player.bus_name;
    match e {
        PanelEvent::UpdateConfig(c) => (
            PanelStateView {
                config: c,
                player: s.player,
                current_art_url: s.current_art_url,
                missed_polls: s.missed_polls,
            },
            only(PanelActionView::Nothing),
        ),
        PanelEvent::Tick => (s, only(PanelActionView::Poll)),
        PanelEvent::PlayerUpdated { info, seek_settled } => match info {
            None => step_missed(s),
            Some(i) => step_updated(s, i@, seek_settled),
        },
        PanelEvent::PlayPause => (s, only(PanelActionView::PlayPause(bus))),
        PanelEvent::Next => (s, only(PanelActionView::Next(bus))),
        PanelEvent::Previous => (s, only(PanelActionView::Previous(bus))),
        PanelEvent::SeekCommit(target) => match target {
            Some(t) => (s, only(PanelActionView::SeekTo(bus, t, s.player.position_us))),
            None => (s, only(PanelActionView::Nothing)),
        },
        PanelEvent::SeekForward => (s, only(PanelActionView::SeekBy(bus, SEEK_STEP_US))),
        PanelEvent::SeekBackward => (s, only(PanelActionView::SeekBy(bus, (-SEEK_STEP_US) as i64))),
        PanelEvent::LabelMaxLengthChanged(len) => step_config(
            s,
            Config { panel_label_max_length: len, track_first: s.config.track_first },
        ),
        PanelEvent::TrackFirstChanged(v) => step_config(
            s,
            Config { panel_label_max_length: s.config.panel_label_max_length, track_first: v },
        ),
    }
}

fn quiet(action: PanelAction) -> (r: PanelOutcome)
    ensures
        r@ == only(action@),
{
    PanelOutcome { action, clear_art: false, clear_seek: false }
}

impl PanelState {
    /// The state when the applet starts: the given settings, no player shown.
    pub fn new(config: Config) -> (s: Self)
        ensures
            s@ == (PanelStateView {
                config,
                player: no_player(),
                current_art_url: None,
                missed_polls: 0,
            }),
    {
        PanelState { config, player: PlayerInfo::default(), current_art_url: None, missed_polls: 0 }
    }

    /// Applies one message: the state becomes the next state and the outcome
    /// says what to do outside.
    pub fn update(&mut self, event: PanelEvent) -> (out: PanelOutcome)
        ensures
            (final(self)@, out@) == step(old(self)@, event),
    {
        match event {
            PanelEvent::UpdateConfig(c) => {
                self.config = c;
                quiet(PanelAction::Nothing)
            },
            PanelEvent::Tick => quiet(PanelAction::Poll),
            PanelEvent::PlayerUpdated { info, seek_settled } => match info {
                None => {
                    if !self.player.bus_name.as_str().is_empty() {
                        self.missed_polls = if self.missed_polls < 255 {
                            self.missed_polls + 1
                        } else {
                            255
                        };
                        if self.missed_polls >= MISSED_POLLS_BEFORE_CLEAR {
                            self.player = PlayerInfo::default();
                            self.current_art_url = None;
                            return PanelOutcome {
                                action: PanelAction::Nothing,
                                clear_art: true,
                                clear_seek: true,
                            };
                        }
                    }
                    quiet(PanelAction::Nothing)
                },
                Some(info) => {
                    self.missed_polls = 0;
                    if info.same_as(&self.player) {
                        return quiet(PanelAction::Nothing);
                    }
                    let new_art_url = copy_opt_string(&info.art_url);
                    let same_url = match (&new_art_url, &self.current_art_url) {
                        (Some(a), Some(b)) => *a == *b,
                        (None, None) => true,
                        _ => false,
                    };
                    self.player = info;
                    if !same_url {
                        self.current_art_url = copy_opt_string(&new_art_url);
                        let action = match new_art_url {
                            Some(url) => PanelAction::LoadArt(url),
                            None => PanelAction::Nothing,
                        };
                        PanelOutcome { action, clear_art: true, clear_seek: seek_settled }
                    } else {
                        PanelOutcome {
                            action: PanelAction::Nothing,
                            clear_art: false,
                            clear_seek: seek_settled,
                        }
                    }
                },
            },
            PanelEvent::PlayPause => quiet(PanelAction::PlayPause(self.player.bus_name.clone())),
            PanelEvent::Next => quiet(PanelAction::Next(self.player.bus_name.clone())),
            PanelEvent::Previous => quiet(PanelAction::Previous(self.player.bus_name.clone())),
            PanelEvent::SeekCommit(target) => match target {
                Some(t) => quiet(
                    PanelAction::SeekTo(self.player.bus_name.clone(), t, self.player.position_us),
                ),
                None => quiet(PanelAction::Nothing),
            },
            PanelEvent::SeekForward => quiet(
                PanelAction::SeekBy(self.player.bus_name.clone(), SEEK_STEP_US),
            ),
            PanelEvent::SeekBackward => quiet(
                PanelAction::SeekBy(self.player.bus_name.clone(), -SEEK_STEP_US),
            ),
            PanelEvent::LabelMaxLengthChanged(len) => {
                self.config.panel_label_max_length = len;
                quiet(PanelAction::SaveConfig(self.config))
            },
            PanelEvent::TrackFirstChanged(v) => {
                self.config.track_first = v;
                quiet(PanelAction::SaveConfig(self.config))
            },
        }
    }
}

/// A poll that resolved no player.
pub open spec fn missed_poll(seek_settled: bool) -> PanelEvent {
    PanelEvent::PlayerUpdated { info: None, seek_settled }
}

/// A poll that resolved `info`.
pub open spec fn polled(info: PlayerInfo, seek_settled: bool) -> PanelEvent {
    PanelEvent::PlayerUpdated { info: Some(info), seek_settled }
}

/// A shown player survives three missed polls in a row and is cleared, with
/// its art and seek target, on the fourth.
pub proof fn law_player_cleared_on_fourth_miss(s: PanelStateView, b1: bool, b2: bool, b3: bool, b4: bool)
    requires
        s.player.bus_name.len() > 0,
        s.missed_polls == 0,
    ensures
        ({
            let s1 = step(s, missed_poll(b1)).0;
            let s2 = step(s1, missed_poll(b2)).0;
            let s3 = step(s2, missed_poll(b3)).0;
            let (s4, out) = step(s3, missed_poll(b4));
            &&& s1.player == s.player && s2.player == s.player && s3.player == s.player
            &&& s3.current_art_url == s.current_art_url
            &&& s4.player == no_player()
            &&& s4.current_art_url is None
            &&& out.clear_art && out.clear_seek
        }),
{
}

/// A missed poll clears the shown player exactly when it is at least the
/// fourth in a row, and changes nothing while no player is shown.
pub proof fn law_missed_poll(s: PanelStateView, b: bool)
    ensures
        s.player.bus_name.len() == 0 ==> step(s, missed_poll(b)) == (s, only(PanelActionView::Nothing)),
        s.player.bus_name.len() > 0 ==> (step(s, missed_poll(b)).0.player == if s.missed_polls
            >= 3 {
            no_player()
        } else {
            s.player
        }),
{
}

/// A poll that resolves a player shows it and resets the count of misses.
pub proof fn law_poll_shows_player(s: PanelStateView, info: PlayerInfo, b: bool)
    ensures
        step(s, polled(info, b)).0.player == info@,
        step(s, polled(info, b)).0.missed_polls == 0,
        step(s, polled(info, b)).0.config == s.config,
{
}

/// A poll that resolves the player already shown changes nothing but the
/// count of misses, and asks for nothing.
pub proof fn law_same_player_is_quiet(s: PanelStateView, info: PlayerInfo, b: bool)
    requires
        info@ == s.player,
    ensures
        step(s, polled(info, b)) == (
            PanelStateView {
                config: s.config,
                player: s.player,
                current_art_url: s.current_art_url,
                missed_polls: 0,
            },
            only(PanelActionView::Nothing),
        ),
{
}

/// Album art is loaded when a new art URL shows up, and not again while the
/// URL stays the same.
pub proof fn law_art_loaded_once(s: PanelStateView, i1: PlayerInfo, i2: PlayerInfo, b1: bool, b2: bool)
    requires
        i1@ != s.player,
        i1@.art_url != s.current_art_url,
        i1@.art_url is Some,
        i2@.art_url == i1@.art_url,
    ensures
        step(s, polled(i1, b1)).1.action == PanelActionView::LoadArt(i1@.art_url->0),
        !(step(step(s, polled(i1, b1)).0, polled(i2, b2)).1.action is LoadArt),
        !step(step(s, polled(i1, b1)).0, polled(i2, b2)).1.clear_art,
{
}

/// Releasing the seek slider keeps the seek target pinned: the slider stays
/// at the target until a poll confirms that the player caught up.
pub proof fn law_seek_commit_keeps_pin(s: PanelStateView, target: Option<u64>)
    ensures
        !step(s, PanelEvent::SeekCommit(target)).1.clear_seek,
        step(s, PanelEvent::SeekCommit(target)).0 == s,
{
}

/// Player commands go to the player shown.
pub proof fn law_commands_go_to_shown_player(s: PanelStateView)
    ensures
        step(s, PanelEvent::PlayPause).1.action == PanelActionView::PlayPause(s.player.bus_name),
        step(s, PanelEvent::Next).1.action == PanelActionView::Next(s.player.bus_name),
        step(s, PanelEvent::Previous).1.action == PanelActionView::Previous(s.player.bus_name),
        step(s, PanelEvent::SeekForward).1.action == PanelActionView::SeekBy(
            s.player.bus_name,
            SEEK_STEP_US,
        ),
        step(s, PanelEvent::SeekBackward).1.action == PanelActionView::SeekBy(
            s.player.bus_name,
            -SEEK_STEP_US as i64,
        ),
{
}

/// Committing a seek to `target` asks to move the shown player from its
/// reported position to the target, whichever way that is, and leaves the
/// state as it was.
pub proof fn law_seek_commit_targets_shown_player(s: PanelStateView, target: u64)
    ensures
        step(s, PanelEvent::SeekCommit(Some(target))).0 == s,
        step(s, PanelEvent::SeekCommit(Some(target))).1.action == PanelActionView::SeekTo(
            s.player.bus_name,
            target,
            s.player.position_us,
        ),
        step(s, PanelEvent::SeekCommit(Some(target))).1.action matches PanelActionView::SeekTo(
            _,
            t,
            c,
        ) ==> t - c == target - s.player.position_us,
        step(s, PanelEvent::SeekCommit(None)).1.action == PanelActionView::Nothing,
{
}

} // verus!
