//! The texts the applet shows: the panel label and the lines of the popup.

use vstd::prelude::*;
use crate::config::Config;
use crate::mpris::{PlaybackStatus, PlayerInfo, PlayerInfoView};
use crate::text::{decimal, format_time, push_decimal, time_text, truncate_label, truncated};

verus! {

/// The least panel height, in pixels, at which title and artist are stacked
/// on two lines; on thinner panels two lines become illegible.
pub const MIN_STACK_PANEL_HEIGHT: u16 = 28;

/// What the panel button shows.
#[derive(Debug, Clone, PartialEq)]
pub enum PanelLabel {
    /// No player is shown: a stop icon.
    Icon,
    /// Two lines, one above the other.
    Stacked { top: String, bottom: String },
    /// One line.
    Line(String),
}

/// The mathematical value of a [`PanelLabel`].
pub enum PanelLabelView {
    Icon,
    Stacked(Seq<char>, Seq<char>),
    Line(Seq<char>),
}

impl View for PanelLabel {
    type V = PanelLabelView;

    open spec fn view(&self) -> PanelLabelView {
        match self {
            PanelLabel::Icon => PanelLabelView::Icon,
            PanelLabel::Stacked { top, bottom } => PanelLabelView::Stacked(top@, bottom@),
            PanelLabel::Line(l) => PanelLabelView::Line(l@),
        }
    }
}

/// The separator between artist and title on one line: an em dash between spaces.
pub open spec fn label_separator() -> Seq<char> {
    seq![' ', '\u{2014}', ' ']
}

/// The one-line label: the title alone when there is no artist, else artist
/// and title (or title and artist) around the separator.
pub open spec fn line_text(player: PlayerInfoView, track_first: bool) -> Seq<char> {
    if player.artist.len() == 0 {
        player.title
    } else if track_first {
        player.title + label_separator() + player.artist
    } else {
        player.artist + label_separator() + player.title
    }
}

/// What the panel shows of `player` on a panel whose thumbnail is
/// `thumb_size` pixels high: nothing but an icon when no player is shown;
/// artist and title on two lines when there is an artist and the panel is
/// high enough; else one line. Each line is cut to the configured length.
pub open spec fn label_of(player: PlayerInfoView, config: Config, thumb_size: u16) -> PanelLabelView {
    let max = config.panel_label_max_length as nat;
    if player.bus_name.len() == 0 {
        PanelLabelView::Icon
    } else if player.artist.len() > 0 && thumb_size >= MIN_STACK_PANEL_HEIGHT {
        if config.track_first {
            PanelLabelView::Stacked(truncated(player.title, max), truncated(player.artist, max))
        } else {
            PanelLabelView::Stacked(truncated(player.artist, max), truncated(player.title, max))
        }
    } else {
        PanelLabelView::Line(truncated(line_text(player, config.track_first), max))
    }
}

/// The panel label for `player`.
pub fn panel_label(player: &PlayerInfo, config: &Config, thumb_size: u16) -> (l: PanelLabel)
    ensures
        l@ == label_of(player@, *config, thumb_size),
{
    let max_len = config.panel_label_max_length as usize;
    if player.bus_name.as_str().is_empty() {
        return PanelLabel::Icon;
    }
    let has_artist = !player.artist.as_str().is_empty();
    if has_artist && thumb_size >= MIN_STACK_PANEL_HEIGHT {
        let (top, bottom) = if config.track_first {
            (&player.title, &player.artist)
        } else {
            (&player.artist, &player.title)
        };
        PanelLabel::Stacked {
            top: truncate_label(top.as_str(), max_len),
            bottom: truncate_label(bottom.as_str(), max_len),
        }
    } else {
        let line = if !has_artist {
            player.title.clone()
        } else {
            let (first, second) = if config.track_first {
                (&player.title, &player.artist)
            } else {
                (&player.artist, &player.title)
            };
            let mut line = first.clone();
            proof {
                reveal_strlit(" \u{2014} ");
                assert(" \u{2014} "@ =~= label_separator());
            }
            line.append(" \u{2014} ");
            line.append(second.as_str());
            line
        };
        assert(line@ =~= line_text(player@, config.track_first));
        PanelLabel::Line(truncate_label(line.as_str(), max_len))
    }
}

/// The icon of the play/pause button: pause while playing, else play.
pub open spec fn status_icon_name(status: PlaybackStatus) -> Seq<char> {
    match status {
        PlaybackStatus::Playing => "media-playback-pause-symbolic"@,
        _ => "media-playback-start-symbolic"@,
    }
}

/// The icon name of the play/pause button for a playback status.
pub fn status_icon(status: PlaybackStatus) -> (name: &'static str)
    ensures
        name@ == status_icon_name(status),
{
    match status {
        PlaybackStatus::Playing => "media-playback-pause-symbolic",
        _ => "media-playback-start-symbolic",
    }
}

/// The album line of the popup: the album, with the year in parentheses
/// when it is known; no line when there is no album.
pub open spec fn album_text(player: PlayerInfoView) -> Option<Seq<char>> {
    if player.album.len() == 0 {
        None
    } else {
        match player.year {
            Some(y) => Some(player.album + seq![' ', '('] + decimal(y as nat) + seq![')']),
            None => Some(player.album),
        }
    }
}

/// The album line of the popup for `player`.
pub fn album_line(player: &PlayerInfo) -> (r: Option<String>)
    ensures
        match (r, album_text(player@)) {
            (Some(l), Some(t)) => l@ == t,
            (None, None) => true,
            _ => false,
        },
{
    if player.album.as_str().is_empty() {
        return None;
    }
    match player.year {
        Some(y) => {
            let mut line = player.album.clone();
            proof {
                reveal_strlit(" (");
                reveal_strlit(")");
            }
            line.append(" (");
            push_decimal(&mut line, y as u64);
            line.append(")");
            assert(line@ =~= player.album@ + seq![' ', '('] + decimal(y as nat) + seq![')']);
            Some(line)
        },
        None => Some(player.album.clone()),
    }
}

/// The two time labels under the seek slider: the shown position and the
/// track length, as `m:ss`; none for a track of unknown length.
pub fn progress_labels(shown_position_us: u64, length_us: u64) -> (r: Option<(String, String)>)
    ensures
        match r {
            Some((p, l)) => length_us > 0 && p@ == time_text(shown_position_us as nat) && l@
                == time_text(length_us as nat),
            None => length_us == 0,
        },
{
    if length_us > 0 {
        Some((format_time(shown_position_us), format_time(length_us)))
    } else {
        None
    }
}

/// Every line of the panel label is at most the configured length plus one
/// ellipsis. With a player shown, the one-line label is the artist, an em dash
/// and the title (the title first when configured), or the title alone without
/// an artist, cut to the configured length with `…` appended when it was
/// longer; without a player the label is the icon.
pub proof fn law_panel_label_is_cut(player: PlayerInfoView, config: Config, thumb_size: u16)
    ensures
        ({
            let max = config.panel_label_max_length as nat;
            let dash = seq![' ', '\u{2014}', ' '];
            let full = if player.artist.len() == 0 {
                player.title
            } else if config.track_first {
                player.title + dash + player.artist
            } else {
                player.artist + dash + player.title
            };
            let cut = if full.len() > max {
                full.take(max as int).push('\u{2026}')
            } else {
                full
            };
            &&& player.bus_name.len() == 0 ==> label_of(player, config, thumb_size) == PanelLabelView::Icon
            &&& player.bus_name.len() > 0 ==> match label_of(player, config, thumb_size) {
                PanelLabelView::Icon => false,
                PanelLabelView::Stacked(top, bottom) => top.len() <= max + 1 && bottom.len() <= max
                    + 1,
                PanelLabelView::Line(l) => l.len() <= max + 1,
            }
            &&& (player.bus_name.len() > 0 && !(player.artist.len() > 0 && thumb_size >= 28))
                ==> label_of(player, config, thumb_size) == PanelLabelView::Line(cut)
            &&& (player.bus_name.len() > 0 && player.artist.len() > 0 && thumb_size >= 28)
                ==> (label_of(player, config, thumb_size) matches PanelLabelView::Stacked(top, bottom)
                && {
                let (first, second) = if config.track_first {
                    (player.title, player.artist)
                } else {
                    (player.artist, player.title)
                };
                &&& first.len() <= max ==> top == first
                &&& second.len() <= max ==> bottom == second
                &&& first.len() > max ==> top.len() == max + 1 && top.last() == '\u{2026}'
                    && top.take(max as int) == first.take(max as int)
                &&& second.len() > max ==> bottom.len() == max + 1 && bottom.last() == '\u{2026}'
                    && bottom.take(max as int) == second.take(max as int)
            })
        }),
{
    let max = config.panel_label_max_length as nat;
    assert(label_separator() =~= seq![' ', '\u{2014}', ' ']);
    if player.title.len() > max {
        assert(player.title.take(max as int).push('\u{2026}').take(max as int) =~= player.title.take(
            max as int,
        ));
    }
    if player.artist.len() > max {
        assert(player.artist.take(max as int).push('\u{2026}').take(max as int)
            =~= player.artist.take(max as int));
    }
}

/// A player without an album has no album line, whatever its year; with an
/// album the line starts with the album, and is the album alone when the
/// year is unknown.
pub proof fn law_album_line(player: PlayerInfoView)
    ensures
        player.album.len() == 0 ==> album_text(player) is None,
        player.album.len() > 0 ==> album_text(player) is Some,
        player.album.len() > 0 && player.year is None ==> album_text(player) == Some(player.album),
        album_text(player) matches Some(t) ==> t.len() >= player.album.len() && t.take(
            player.album.len() as int,
        ) == player.album,
{
    match album_text(player) {
        Some(t) => {
            assert(t.take(player.album.len() as int) =~= player.album);
        },
        None => {},
    }
}

} // verus!
