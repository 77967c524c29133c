//! Players as the MPRIS D-Bus interface reports them, and the choice of the
//! player the applet shows.
//!
//! Everything here works on values that were already read from D-Bus: a
//! [`PlayerSnapshot`] holds what one player reported, with `None` where a read
//! failed.

use vstd::prelude::*;
use crate::text::{joined, string_views, join_strings};

verus! {

/// The playback state of a player.
#[derive(Debug, Clone, Copy, PartialEq, Eq, Structural)]
pub enum PlaybackStatus {
    Playing,
    Paused,
    Stopped,
}

/// The character sequence of an optional string.
pub open spec fn opt_view(o: Option<String>) -> Option<Seq<char>> {
    match o {
        Some(s) => Some(s@),
        None => None,
    }
}

/// An optional index as a mathematical integer.
pub open spec fn opt_int(o: Option<usize>) -> Option<int> {
    match o {
        Some(i) => Some(i as int),
        None => None,
    }
}

/// Everything the applet shows of one player.
#[derive(Debug, Clone, PartialEq)]
pub struct PlayerInfo {
    pub title: String,
    pub artist: String,
    pub album: String,
    pub year: Option<u32>,
    pub status: PlaybackStatus,
    pub art_url: Option<String>,
    pub bus_name: String,
    pub position_us: u64,
    pub length_us: u64,
    pub can_go_next: bool,
    pub can_go_previous: bool,
    pub can_pause: bool,
    pub can_play: bool,
    pub can_seek: bool,
}

/// The mathematical value of a [`PlayerInfo`].
pub struct PlayerInfoView {
    pub title: Seq<char>,
    pub artist: Seq<char>,
    pub album: Seq<char>,
    pub year: Option<u32>,
    pub status: PlaybackStatus,
    pub art_url: Option<Seq<char>>,
    pub bus_name: Seq<char>,
    pub position_us: u64,
    pub length_us: u64,
    pub can_go_next: bool,
    pub can_go_previous: bool,
    pub can_pause: bool,
    pub can_play: bool,
    pub can_seek: bool,
}

impl View for PlayerInfo {
    type V = PlayerInfoView;

    open spec fn view(&self) -> PlayerInfoView {
        PlayerInfoView {
            title: self.title@,
            artist: self.artist@,
            album: self.album@,
            year: self.year,
            status: self.status,
            art_url: opt_view(self.art_url),
            bus_name: self.bus_name@,
            position_us: self.position_us,
            length_us: self.length_us,
            can_go_next: self.can_go_next,
            can_go_previous: self.can_go_previous,
            can_pause: self.can_pause,
            can_play: self.can_play,
            can_seek: self.can_seek,
        }
    }
}

/// The state shown when no player is known: empty texts, stopped, nothing allowed.
pub open spec fn no_player() -> PlayerInfoView {
    PlayerInfoView {
        title: seq![],
        artist: seq![],
        album: seq![],
        year: None,
        status: PlaybackStatus::Stopped,
        art_url: None,
        bus_name: seq![],
        position_us: 0,
        length_us: 0,
        can_go_next: false,
        can_go_previous: false,
        can_pause: false,
        can_play: false,
        can_seek: false,
    }
}

impl Default for PlayerInfo {
    fn default() -> (r: Self)
        ensures
            r@ == no_player(),
    {
        PlayerInfo {
            title: String::new(),
            artist: String::new(),
            album: String::new(),
            year: None,
            status: PlaybackStatus::Stopped,
            art_url: None,
            bus_name: String::new(),
            position_us: 0,
            length_us: 0,
            can_go_next: false,
            can_go_previous: false,
            can_pause: false,
            can_play: false,
            can_seek: false,
        }
    }
}

fn same_opt_string(a: &Option<String>, b: &Option<String>) -> (r: bool)
    ensures
        r == (opt_view(*a) == opt_view(*b)),
{
    match (a, b) {
        (Some(x), Some(y)) => *x == *y,
        (None, None) => true,
        _ => false,
    }
}

impl PlayerInfo {
    /// Whether two infos hold the same values.
    pub fn same_as(&self, other: &PlayerInfo) -> (r: bool)
        ensures
            r == (self@ == other@),
    {
        let same_year = match (self.year, other.year) {
            (Some(x), Some(y)) => x == y,
            (None, None) => true,
            _ => false,
        };
        self.title == other.title && self.artist == other.artist && self.album == other.album
            && same_year && self.status == other.status && same_opt_string(
            &self.art_url,
            &other.art_url,
        ) && self.bus_name == other.bus_name && self.position_us == other.position_us
            && self.length_us == other.length_us && self.can_go_next == other.can_go_next
            && self.can_go_previous == other.can_go_previous && self.can_pause == other.can_pause
            && self.can_play == other.can_play && self.can_seek == other.can_seek
    }
}

/// A lightweight entry for the player picker: enough to label and identify
/// each available player without its full state.
#[derive(Debug, Clone, PartialEq)]
pub struct PlayerSummary {
    pub bus_name: String,
    pub identity: String,
    pub status: PlaybackStatus,
    pub title: String,
}

/// The mathematical value of a [`PlayerSummary`].
pub struct PlayerSummaryView {
    pub bus_name: Seq<char>,
    pub identity: Seq<char>,
    pub status: PlaybackStatus,
    pub title: Seq<char>,
}

impl View for PlayerSummary {
    type V = PlayerSummaryView;

    open spec fn view(&self) -> PlayerSummaryView {
        PlayerSummaryView {
            bus_name: self.bus_name@,
            identity: self.identity@,
            status: self.status,
            title: self.title@,
        }
    }
}

/// The values of a list of summaries.
pub open spec fn summary_views(s: Seq<PlayerSummary>) -> Seq<PlayerSummaryView> {
    s.map_values(|p: PlayerSummary| p@)
}

/// One poll tick's worth of state: the player whose info to display (honoring
/// a pinned selection, else picked automatically) and the list of all players.
#[derive(Debug, Clone)]
pub struct Poll {
    pub player: Option<PlayerInfo>,
    pub players: Vec<PlayerSummary>,
}

impl Default for Poll {
    /// No player resolved and none listed.
    fn default() -> (r: Self)
        ensures
            r.player is None,
            r.players@.len() == 0,
    {
        Poll { player: None, players: Vec::new() }
    }
}

/// A dynamically typed metadata value, as far as the applet reads it.
#[derive(Debug, Clone, PartialEq)]
pub enum MetadataValue {
    I16(i16),
    I32(i32),
    U8(u8),
    U16(u16),
    U32(u32),
    Text(String),
    /// Any other kind of value (64-bit integers, floats, booleans, arrays, maps).
    Other,
}

/// The metadata of a player's current track, as far as the applet reads it.
#[derive(Debug, Clone, PartialEq)]
pub struct Metadata {
    /// `xesam:title`, when it is a string.
    pub title: Option<String>,
    /// `xesam:artist`, when it is an array of strings.
    pub artists: Option<Vec<String>>,
    /// `xesam:album`, when it is a string.
    pub album: Option<String>,
    /// `xesam:year`, of whatever kind.
    pub year: Option<MetadataValue>,
    /// `xesam:contentCreated`, of whatever kind.
    pub content_created: Option<MetadataValue>,
    /// `mpris:artUrl`, when it is a string.
    pub art_url: Option<String>,
    /// `mpris:length` in microseconds, when it is a 64-bit integer.
    pub length_us: Option<u64>,
}

impl Default for Metadata {
    /// Metadata without any entry.
    fn default() -> (r: Self)
        ensures
            r.title is None,
            r.artists is None,
            r.album is None,
            r.year is None,
            r.content_created is None,
            r.art_url is None,
            r.length_us is None,
    {
        Metadata {
            title: None,
            artists: None,
            album: None,
            year: None,
            content_created: None,
            art_url: None,
            length_us: None,
        }
    }
}

/// What one player reported over D-Bus. Each `None` stands for a read that failed.
#[derive(Debug, Clone)]
pub struct PlayerSnapshot {
    /// The bus name without the `org.mpris.MediaPlayer2.` prefix.
    pub bus_name: String,
    pub identity: String,
    pub status: Option<PlaybackStatus>,
    pub metadata: Option<Metadata>,
    pub position_us: Option<u64>,
    pub can_go_next: Option<bool>,
    pub can_go_previous: Option<bool>,
    pub can_pause: Option<bool>,
    pub can_play: Option<bool>,
    pub can_seek: Option<bool>,
}

/// A status read, with `Stopped` where the read failed.
pub open spec fn status_or_stopped(s: Option<PlaybackStatus>) -> PlaybackStatus {
    match s {
        Some(st) => st,
        None => PlaybackStatus::Stopped,
    }
}

/// An optional text, with the empty text where it is missing.
pub open spec fn text_or_empty(o: Option<String>) -> Seq<char> {
    match o {
        Some(s) => s@,
        None => seq![],
    }
}

/// The title a summary shows: the track title, or nothing.
pub open spec fn summary_title(m: Option<Metadata>) -> Seq<char> {
    match m {
        Some(md) => text_or_empty(md.title),
        None => seq![],
    }
}

/// The picker entry of a player.
pub open spec fn summary_of(p: PlayerSnapshot) -> PlayerSummaryView {
    PlayerSummaryView {
        bus_name: p.bus_name@,
        identity: p.identity@,
        status: status_or_stopped(p.status),
        title: summary_title(p.metadata),
    }
}

/// The title shown when a track has none.
pub open spec fn unknown_title() -> Seq<char> {
    seq!['U', 'n', 'k', 'n', 'o', 'w', 'n']
}

/// The separator between several artists.
pub open spec fn artist_separator() -> Seq<char> {
    seq![',', ' ']
}

/// The value of a signed integer of at most 32 bits.
pub open spec fn signed_value(v: MetadataValue) -> Option<int> {
    match v {
        MetadataValue::I32(n) => Some(n as int),
        MetadataValue::I16(n) => Some(n as int),
        _ => None,
    }
}

/// The value of an unsigned integer of at most 32 bits.
pub open spec fn unsigned_value(v: MetadataValue) -> Option<u32> {
    match v {
        MetadataValue::U32(n) => Some(n),
        MetadataValue::U16(n) => Some(n as u32),
        MetadataValue::U8(n) => Some(n as u32),
        _ => None,
    }
}

/// A 32-bit signed value reinterpreted as unsigned (two's complement).
pub open spec fn as_u32_wrapping(n: int) -> u32 {
    if n >= 0 {
        n as u32
    } else {
        (n + 0x1_0000_0000) as u32
    }
}

/// The year an `xesam:year` value gives: a signed integer, reinterpreted as
/// unsigned, else an unsigned integer.
pub open spec fn year_from_value(v: MetadataValue) -> Option<u32> {
    match signed_value(v) {
        Some(n) => Some(as_u32_wrapping(n)),
        None => unsigned_value(v),
    }
}

pub open spec fn is_digit(c: char) -> bool {
    '0' <= c && c <= '9'
}

pub open spec fn digit_value(c: char) -> int {
    c as int - '0' as int
}

/// The number that a sequence of decimal digits denotes.
pub open spec fn digits_value(s: Seq<char>) -> int
    decreases s.len(),
{
    if s.len() == 0 {
        0
    } else {
        digits_value(s.drop_last()) * 10 + digit_value(s.last())
    }
}

/// Whether the first four characters of `s` read as an unsigned number: four
/// digits, or a plus sign and three digits.
pub open spec fn year_prefix_parses(s: Seq<char>) -> bool {
    &&& s.len() >= 4
    &&& is_digit(s[1]) && is_digit(s[2]) && is_digit(s[3])
    &&& (is_digit(s[0]) || s[0] == '+')
}

/// The number that the first four characters of `s` denote, when they parse.
pub open spec fn year_prefix(s: Seq<char>) -> Option<u32> {
    if year_prefix_parses(s) {
        if s[0] == '+' {
            Some(digits_value(s.subrange(1, 4)) as u32)
        } else {
            Some(digits_value(s.take(4)) as u32)
        }
    } else {
        None
    }
}

/// The year an `xesam:contentCreated` value gives: the number its first four
/// characters denote, when it is a text.
pub open spec fn year_from_created(v: MetadataValue) -> Option<u32> {
    match v {
        MetadataValue::Text(s) => year_prefix(s@),
        _ => None,
    }
}

/// The release year of a track: from `xesam:year`, else from the start of
/// `xesam:contentCreated`.
pub open spec fn year_of(m: Metadata) -> Option<u32> {
    let from_year = match m.year {
        Some(v) => year_from_value(v),
        None => None,
    };
    match from_year {
        Some(y) => Some(y),
        None => match m.content_created {
            Some(v) => year_from_created(v),
            None => None,
        },
    }
}

/// The metadata a snapshot carries, or empty metadata where the read failed.
pub open spec fn metadata_or_empty(m: Option<Metadata>) -> Metadata {
    match m {
        Some(md) => md,
        None => Metadata {
            title: None,
            artists: None,
            album: None,
            year: None,
            content_created: None,
            art_url: None,
            length_us: None,
        },
    }
}

pub open spec fn u64_or_zero(o: Option<u64>) -> u64 {
    match o {
        Some(v) => v,
        None => 0,
    }
}

pub open spec fn bool_or_false(o: Option<bool>) -> bool {
    match o {
        Some(v) => v,
        None => false,
    }
}

/// The full state the applet shows of one player.
pub open spec fn info_of(p: PlayerSnapshot) -> PlayerInfoView {
    let m = metadata_or_empty(p.metadata);
    PlayerInfoView {
        title: match m.title {
            Some(t) => t@,
            None => unknown_title(),
        },
        artist: match m.artists {
            Some(a) => joined(string_views(a@), artist_separator()),
            None => seq![],
        },
        album: text_or_empty(m.album),
        year: year_of(m),
        status: status_or_stopped(p.status),
        art_url: opt_view(m.art_url),
        bus_name: p.bus_name@,
        position_us: u64_or_zero(p.position_us),
        length_us: u64_or_zero(m.length_us),
        can_go_next: bool_or_false(p.can_go_next),
        can_go_previous: bool_or_false(p.can_go_previous),
        can_pause: bool_or_false(p.can_pause),
        can_play: bool_or_false(p.can_play),
        can_seek: bool_or_false(p.can_seek),
    }
}

pub(crate) fn copy_opt_string(o: &Option<String>) -> (r: Option<String>)
    ensures
        opt_view(r) == opt_view(*o),
{
    match o {
        Some(s) => Some(s.clone()),
        None => None,
    }
}

fn signed_year(v: &MetadataValue) -> (r: Option<i32>)
    ensures
        match signed_value(*v) {
            Some(n) => r == Some(n as i32),
            None => r is None,
        },
{
    match v {
        MetadataValue::I32(n) => Some(*n),
        MetadataValue::I16(n) => Some(*n as i32),
        _ => None,
    }
}

fn unsigned_year(v: &MetadataValue) -> (r: Option<u32>)
    ensures
        r == unsigned_value(*v),
{
    match v {
        MetadataValue::U32(n) => Some(*n),
        MetadataValue::U16(n) => Some(*n as u32),
        MetadataValue::U8(n) => Some(*n as u32),
        _ => None,
    }
}

fn wrap_to_u32(n: i32) -> (r: u32)
    ensures
        r == as_u32_wrapping(n as int),
{
    if n >= 0 {
        n as u32
    } else {
        let shifted = (n as i64 + 0x1_0000_0000i64) as u32;
        shifted
    }
}

fn digit_of(c: char) -> (d: u32)
    requires
        is_digit(c),
    ensures
        d as int == digit_value(c),
{
    (c as u32) - ('0' as u32)
}

proof fn lemma_three_digits(s: Seq<char>)
    requires
        s.len() == 3,
    ensures
        digits_value(s) == digit_value(s[0]) * 100 + digit_value(s[1]) * 10 + digit_value(s[2]),
{
    let a = s.drop_last();
    let b = a.drop_last();
    let c = b.drop_last();
    assert(c =~= Seq::<char>::empty());
    assert(digits_value(c) == 0);
    assert(digits_value(b) == digit_value(s[0]));
    assert(digits_value(a) == digit_value(s[0]) * 10 + digit_value(s[1]));
}

proof fn lemma_four_digits(s: Seq<char>)
    requires
        s.len() == 4,
    ensures
        digits_value(s) == digit_value(s[0]) * 1000 + digit_value(s[1]) * 100 + digit_value(s[2])
            * 10 + digit_value(s[3]),
{
    lemma_three_digits(s.drop_last());
}

/// The number that the first four characters of `s` denote, when they are
/// four digits or a plus sign and three digits.
pub fn parse_year_prefix(s: &str) -> (r: Option<u32>)
    ensures
        r == year_prefix(s@),
{
    let n = s.unicode_len();
    if n < 4 {
        return None;
    }
    let c0 = s.get_char(0);
    let c1 = s.get_char(1);
    let c2 = s.get_char(2);
    let c3 = s.get_char(3);
    let d1 = '0' <= c1 && c1 <= '9';
    let d2 = '0' <= c2 && c2 <= '9';
    let d3 = '0' <= c3 && c3 <= '9';
    let d0 = '0' <= c0 && c0 <= '9';
    if !(d1 && d2 && d3 && (d0 || c0 == '+')) {
        return None;
    }
    let tail = digit_of(c1) * 100 + digit_of(c2) * 10 + digit_of(c3);
    proof {
        lemma_three_digits(s@.subrange(1, 4));
        lemma_four_digits(s@.take(4));
    }
    if c0 == '+' {
        Some(tail)
    } else {
        Some(digit_of(c0) * 1000 + tail)
    }
}

fn year_from_metadata(m: &Metadata) -> (r: Option<u32>)
    ensures
        r == year_of(*m),
{
    let from_year = match &m.year {
        Some(v) => match signed_year(v) {
            Some(n) => Some(wrap_to_u32(n)),
            None => unsigned_year(v),
        },
        None => None,
    };
    match from_year {
        Some(y) => Some(y),
        None => match &m.content_created {
            Some(MetadataValue::Text(t)) => parse_year_prefix(t.as_str()),
            _ => None,
        },
    }
}

/// Builds the full state of one player from what it reported.
pub fn player_info(p: &PlayerSnapshot) -> (r: PlayerInfo)
    ensures
        r@ == info_of(*p),
{
    let empty = Metadata::default();
    let m = match &p.metadata {
        Some(md) => md,
        None => &empty,
    };
    let title = match &m.title {
        Some(t) => t.clone(),
        None => {
            proof {
                reveal_strlit("Unknown");
                assert("Unknown"@ =~= unknown_title());
            }
            String::from_str("Unknown")
        },
    };
    let artist = match &m.artists {
        Some(a) => {
            proof {
                reveal_strlit(", ");
                assert(", "@ =~= artist_separator());
            }
            join_strings(a, ", ")
        },
        None => String::new(),
    };
    let album = match &m.album {
        Some(a) => a.clone(),
        None => String::new(),
    };
    let year = year_from_metadata(m);
    let status = match p.status {
        Some(s) => s,
        None => PlaybackStatus::Stopped,
    };
    let art_url = copy_opt_string(&m.art_url);
    let length_us = match m.length_us {
        Some(l) => l,
        None => 0,
    };
    let position_us = match p.position_us {
        Some(v) => v,
        None => 0,
    };
    let can_go_next = match p.can_go_next {
        Some(b) => b,
        None => false,
    };
    let can_go_previous = match p.can_go_previous {
        Some(b) => b,
        None => false,
    };
    let can_pause = match p.can_pause {
        Some(b) => b,
        None => false,
    };
    let can_play = match p.can_play {
        Some(b) => b,
        None => false,
    };
    let can_seek = match p.can_seek {
        Some(b) => b,
        None => false,
    };
    PlayerInfo {
        title,
        artist,
        album,
        year,
        status,
        art_url,
        bus_name: p.bus_name.clone(),
        position_us,
        length_us,
        can_go_next,
        can_go_previous,
        can_pause,
        can_play,
        can_seek,
    }
}

/// Builds the picker entry of one player from what it reported.
pub fn summarize(p: &PlayerSnapshot) -> (r: PlayerSummary)
    ensures
        r@ == summary_of(*p),
{
    let title = match &p.metadata {
        Some(m) => match &m.title {
            Some(t) => t.clone(),
            None => String::new(),
        },
        None => String::new(),
    };
    let status = match p.status {
        Some(s) => s,
        None => PlaybackStatus::Stopped,
    };
    PlayerSummary { bus_name: p.bus_name.clone(), identity: p.identity.clone(), status, title }
}

/// Whether `name` is the first entry of `names` equal to it, at position `i`.
pub open spec fn is_first_of(names: Seq<Seq<char>>, name: Seq<char>, i: int) -> bool {
    &&& 0 <= i < names.len()
    &&& names[i] == name
    &&& forall|j: int| 0 <= j < i ==> names[j] != name
}

/// The first position of `name` in `names`, if it occurs.
pub open spec fn first_index_of(names: Seq<Seq<char>>, name: Seq<char>) -> Option<int> {
    if exists|i: int| is_first_of(names, name, i) {
        Some(choose|i: int| is_first_of(names, name, i))
    } else {
        None
    }
}

proof fn lemma_first_index_of(names: Seq<Seq<char>>, name: Seq<char>, i: int)
    requires
        is_first_of(names, name, i),
    ensures
        first_index_of(names, name) == Some(i),
{
    let c = choose|c: int| is_first_of(names, name, c);
    assert(is_first_of(names, name, c));
    if c < i {
        assert(names[c] != name);
    } else if c > i {
        assert(names[i] != name);
    }
}

proof fn lemma_first_index_absent(names: Seq<Seq<char>>, name: Seq<char>)
    requires
        forall|j: int| 0 <= j < names.len() ==> names[j] != name,
    ensures
        first_index_of(names, name) is None,
{
    if exists|i: int| is_first_of(names, name, i) {
        let c = choose|c: int| is_first_of(names, name, c);
        assert(names[c] != name);
    }
}

/// The bus names of a list of picker entries.
pub open spec fn summary_bus_names(players: Seq<PlayerSummaryView>) -> Seq<Seq<char>> {
    players.map_values(|p: PlayerSummaryView| p.bus_name)
}

/// The index of the first listed player with the given bus name.
pub fn position_of_bus(players: &[PlayerSummary], bus_name: &str) -> (r: Option<usize>)
    ensures
        opt_int(r) == first_index_of(summary_bus_names(summary_views(players@)), bus_name@),
{
    let target = String::from_str(bus_name);
    let ghost names = summary_bus_names(summary_views(players@));
    let mut i: usize = 0;
    while i < players.len()
        invariant
            i <= players.len(),
            target@ == bus_name@,
            names == summary_bus_names(summary_views(players@)),
            names.len() == players@.len(),
            forall|j: int| 0 <= j < i ==> names[j] != bus_name@,
        decreases players.len() - i,
    {
        assert(names[i as int] == players@[i as int].bus_name@);
        if players[i].bus_name == target {
            proof { lemma_first_index_of(names, bus_name@, i as int); }
            return Some(i);
        }
        i = i + 1;
    }
    proof { lemma_first_index_absent(names, bus_name@); }
    None
}

/// The index of the first bus name equal to `bus_name`.
pub fn find_by_bus(bus_names: &Vec<String>, bus_name: &str) -> (r: Option<usize>)
    ensures
        opt_int(r) == first_index_of(string_views(bus_names@), bus_name@),
{
    let target = String::from_str(bus_name);
    let ghost names = string_views(bus_names@);
    let mut i: usize = 0;
    while i < bus_names.len()
        invariant
            i <= bus_names.len(),
            target@ == bus_name@,
            names == string_views(bus_names@),
            names.len() == bus_names@.len(),
            forall|j: int| 0 <= j < i ==> names[j] != bus_name@,
        decreases bus_names.len() - i,
    {
        assert(names[i as int] == bus_names@[i as int]@);
        if bus_names[i] == target {
            proof { lemma_first_index_of(names, bus_name@, i as int); }
            return Some(i);
        }
        i = i + 1;
    }
    proof { lemma_first_index_absent(names, bus_name@); }
    None
}

/// How likely a listed player is the one the user cares about, 0 being the
/// most likely: playing, then paused, then one that has a track, then any.
pub open spec fn rank(p: PlayerSummaryView) -> int {
    match p.status {
        PlaybackStatus::Playing => 0,
        PlaybackStatus::Paused => 1,
        PlaybackStatus::Stopped => if p.title.len() > 0 {
            2
        } else {
            3
        },
    }
}

pub open spec fn has_rank(players: Seq<PlayerSummaryView>, r: int) -> bool {
    exists|i: int| 0 <= i < players.len() && rank(players[i]) == r
}

/// The best rank among the listed players.
pub open spec fn best_rank(players: Seq<PlayerSummaryView>) -> int {
    if has_rank(players, 0) {
        0
    } else if has_rank(players, 1) {
        1
    } else if has_rank(players, 2) {
        2
    } else {
        3
    }
}

pub open spec fn is_first_of_rank(players: Seq<PlayerSummaryView>, r: int, i: int) -> bool {
    &&& 0 <= i < players.len()
    &&& rank(players[i]) == r
    &&& forall|j: int| 0 <= j < i ==> rank(players[j]) != r
}

/// The most likely active player: the first of those with the best rank.
pub open spec fn active_index(players: Seq<PlayerSummaryView>) -> Option<int> {
    if players.len() == 0 {
        None
    } else {
        Some(choose|i: int| is_first_of_rank(players, best_rank(players), i))
    }
}

proof fn lemma_active_index(players: Seq<PlayerSummaryView>, i: int)
    requires
        is_first_of_rank(players, best_rank(players), i),
    ensures
        active_index(players) == Some(i),
{
    let b = best_rank(players);
    let c = choose|c: int| is_first_of_rank(players, b, c);
    assert(is_first_of_rank(players, b, c));
    if c < i {
        assert(rank(players[c]) != b);
    } else if c > i {
        assert(rank(players[i]) != b);
    }
}

proof fn lemma_best_rank_is_least(players: Seq<PlayerSummaryView>, j: int)
    requires
        0 <= j < players.len(),
    ensures
        rank(players[j]) >= best_rank(players),
{
    assert(0 <= rank(players[j]) <= 3);
    if rank(players[j]) == 0 {
        assert(has_rank(players, 0));
    } else if rank(players[j]) == 1 {
        assert(has_rank(players, 1));
    } else if rank(players[j]) == 2 {
        assert(has_rank(players, 2));
    }
}

/// Picks the index of the most likely active player, following the MPRIS
/// convention: Playing > Paused > has-a-track > first.
pub fn pick_active_index(players: &[PlayerSummary]) -> (r: Option<usize>)
    ensures
        opt_int(r) == active_index(summary_views(players@)),
        match r {
            Some(i) => {
                &&& i < players@.len()
                &&& forall|j: int|
                    0 <= j < players@.len() ==> rank(#[trigger] summary_views(players@)[j]) >= rank(
                        summary_views(players@)[i as int],
                    )
                &&& forall|j: int|
                    0 <= j < i ==> rank(#[trigger] summary_views(players@)[j]) > rank(
                        summary_views(players@)[i as int],
                    )
            },
            None => players@.len() == 0,
        },
{
    let ghost v = summary_views(players@);
    let mut first_paused: Option<usize> = None;
    let mut first_with_track: Option<usize> = None;
    let mut first_found: Option<usize> = None;
    let mut i: usize = 0;
    while i < players.len()
        invariant
            i <= players.len(),
            v == summary_views(players@),
            v.len() == players@.len(),
            forall|j: int| 0 <= j < i ==> v[j].status != PlaybackStatus::Playing,
            match first_paused {
                Some(k) => {
                    &&& k < i
                    &&& v[k as int].status == PlaybackStatus::Paused
                    &&& forall|j: int| 0 <= j < k ==> v[j].status != PlaybackStatus::Paused
                },
                None => forall|j: int| 0 <= j < i ==> v[j].status != PlaybackStatus::Paused,
            },
            first_paused is None ==> match first_with_track {
                Some(k) => {
                    &&& k < i
                    &&& v[k as int].title.len() > 0
                    &&& forall|j: int| 0 <= j < k ==> v[j].title.len() == 0
                },
                None => forall|j: int| 0 <= j < i ==> v[j].title.len() == 0,
            },
            first_paused is None && first_with_track is None ==> first_found == (if i > 0 {
                Some(0usize)
            } else {
                None
            }),
        decreases players.len() - i,
    {
        let s = &players[i];
        assert(v[i as int] == s@);
        if s.status == PlaybackStatus::Playing {
            proof {
                assert(rank(v[i as int]) == 0);
                assert(has_rank(v, 0));
                assert(is_first_of_rank(v, 0, i as int));
                lemma_active_index(v, i as int);
                assert forall|j: int| 0 <= j < v.len() implies rank(#[trigger] v[j]) >= rank(
                    v[i as int],
                ) by {}
            }
            return Some(i);
        }
        let paused = s.status == PlaybackStatus::Paused;
        if first_paused.is_none() && paused {
            first_paused = Some(i);
        } else if first_with_track.is_none() && !s.title.as_str().is_empty() {
            first_with_track = Some(i);
        } else if first_found.is_none() {
            first_found = Some(i);
        }
        i = i + 1;
    }
    proof {
        assert(!has_rank(v, 0));
    }
    match first_paused {
        Some(k) => {
            proof {
                assert(rank(v[k as int]) == 1);
                assert(has_rank(v, 1));
                assert(is_first_of_rank(v, 1, k as int));
                lemma_active_index(v, k as int);
                assert forall|j: int| 0 <= j < v.len() implies rank(#[trigger] v[j]) >= rank(
                    v[k as int],
                ) by {
                    lemma_best_rank_is_least(v, j);
                }
            }
            return Some(k);
        },
        None => {},
    }
    proof {
        assert(!has_rank(v, 1));
    }
    match first_with_track {
        Some(k) => {
            proof {
                assert(rank(v[k as int]) == 2);
                assert(has_rank(v, 2));
                assert(is_first_of_rank(v, 2, k as int));
                lemma_active_index(v, k as int);
                assert forall|j: int| 0 <= j < v.len() implies rank(#[trigger] v[j]) >= rank(
                    v[k as int],
                ) by {
                    lemma_best_rank_is_least(v, j);
                }
            }
            return Some(k);
        },
        None => {},
    }
    proof {
        assert(!has_rank(v, 2));
        if v.len() > 0 {
            assert(rank(v[0]) == 3);
            assert(is_first_of_rank(v, 3, 0));
            lemma_active_index(v, 0);
            assert forall|j: int| 0 <= j < v.len() implies rank(#[trigger] v[j]) >= rank(v[0]) by {
                lemma_best_rank_is_least(v, j);
            }
        }
    }
    first_found
}

/// Whether a bus name is that of `playerctld`, a proxy that mirrors whichever
/// real player is active. Listing it beside the real players would show the
/// same player twice, and picking it makes the panel flicker while its
/// forwarded metadata is briefly empty between hand-offs.
pub open spec fn is_proxy_name(name: Seq<char>) -> bool {
    name == seq!['p', 'l', 'a', 'y', 'e', 'r', 'c', 't', 'l', 'd']
}

/// Whether a player is a real one, not the proxy.
pub open spec fn is_real(p: PlayerSnapshot) -> bool {
    !is_proxy_name(p.bus_name@)
}

/// The real players among those found, in the order they were found.
pub open spec fn real_players(found: Seq<PlayerSnapshot>) -> Seq<PlayerSnapshot> {
    found.filter(|p: PlayerSnapshot| is_real(p))
}

/// The picker entries of the real players among those found.
pub open spec fn listed_players(found: Seq<PlayerSnapshot>) -> Seq<PlayerSummaryView> {
    real_players(found).map_values(|p: PlayerSnapshot| summary_of(p))
}

/// The pinned bus name, as characters.
pub open spec fn selection_view(selected: Option<&str>) -> Option<Seq<char>> {
    match selected {
        Some(s) => Some(s@),
        None => None,
    }
}

/// The listed player to show: the pinned one while it is listed, else the
/// most likely active one.
pub open spec fn chosen_index(selected: Option<Seq<char>>, players: Seq<PlayerSummaryView>) -> Option<int> {
    match selected {
        Some(bus) => match first_index_of(summary_bus_names(players), bus) {
            Some(i) => Some(i),
            None => active_index(players),
        },
        None => active_index(players),
    }
}

/// Whether a bus name is that of the `playerctld` proxy.
pub fn is_proxy(bus_name: &String) -> (r: bool)
    ensures
        r == is_proxy_name(bus_name@),
{
    proof {
        reveal_strlit("playerctld");
        assert("playerctld"@ =~= seq!['p', 'l', 'a', 'y', 'e', 'r', 'c', 't', 'l', 'd']);
    }
    let proxy = String::from_str("playerctld");
    *bus_name == proxy
}

/// One poll of the players found on the bus.
///
/// `selected` pins a player by bus name; while that player is listed, it is
/// the one shown. Otherwise the most likely active player is shown.
/// `players` lists every real player (the `playerctld` proxy left out) so that
/// the user can pick one. `player` is `None` only when no player is listed.
pub fn poll(selected: Option<&str>, found: Vec<PlayerSnapshot>) -> (r: Poll)
    ensures
        summary_views(r.players@) == listed_players(found@),
        match chosen_index(selection_view(selected), listed_players(found@)) {
            Some(i) => r.player matches Some(info) && info@ == info_of(real_players(found@)[i]),
            None => r.player is None,
        },
{
    let mut kept: Vec<usize> = Vec::new();
    let mut players: Vec<PlayerSummary> = Vec::new();
    let mut i: usize = 0;
    while i < found.len()
        invariant
            i <= found.len(),
            kept@.len() == real_players(found@.take(i as int)).len(),
            players@.len() == kept@.len(),
            forall|k: int|
                0 <= k < kept@.len() ==> kept@[k] < found@.len(),
            forall|k: int|
                0 <= k < kept@.len() ==> real_players(
                    found@.take(i as int),
                )[k] == found@[kept@[k] as int],
            forall|k: int|
                0 <= k < players@.len() ==> players@[k]@ == summary_of(
                    real_players(found@.take(i as int))[k],
                ),
        decreases found.len() - i,
    {
        let ghost prev = real_players(found@.take(i as int));
        let ghost next = real_players(found@.take(i + 1));
        proof {
            reveal(Seq::filter);
            assert(found@.take(i + 1).drop_last() =~= found@.take(i as int));
            assert(found@.take(i + 1).last() == found@[i as int]);
            assert(next == if is_real(found@[i as int]) {
                prev.push(found@[i as int])
            } else {
                prev
            });
        }
        if !is_proxy(&found[i].bus_name) {
            kept.push(i);
            players.push(summarize(&found[i]));
        }
        i = i + 1;
    }
    proof {
        assert(found@.take(found@.len() as int) =~= found@);
        assert(summary_views(players@) =~= listed_players(found@));
    }
    let chosen = match selected {
        Some(bus) => match position_of_bus(players.as_slice(), bus) {
            Some(k) => Some(k),
            None => pick_active_index(players.as_slice()),
        },
        None => pick_active_index(players.as_slice()),
    };
    let player = match chosen {
        Some(k) => Some(player_info(&found[kept[k]])),
        None => None,
    };
    Poll { player, players }
}

/// A command the applet sends to a player.
#[derive(Debug, Clone, Copy, PartialEq, Eq, Structural)]
pub enum PlayerCommand {
    /// Move the playback position by this many microseconds.
    Seek(i64),
    PlayPause,
    Next,
    Previous,
}

/// `cmd` addressed to the first player found under `bus_name`, if any.
pub open spec fn addressed(bus_names: Seq<String>, bus_name: Seq<char>, cmd: PlayerCommand) -> Option<
    (usize, PlayerCommand),
> {
    match first_index_of(string_views(bus_names), bus_name) {
        Some(i) => Some((i as usize, cmd)),
        None => None,
    }
}

fn address(bus_names: &Vec<String>, bus_name: &str, cmd: PlayerCommand) -> (r: Option<
    (usize, PlayerCommand),
>)
    ensures
        r == addressed(bus_names@, bus_name@, cmd),
{
    match find_by_bus(bus_names, bus_name) {
        Some(i) => Some((i, cmd)),
        None => None,
    }
}

/// A `u64` reinterpreted as a two's-complement `i64`.
pub open spec fn as_i64_wrapping(x: u64) -> int {
    if x <= i64::MAX {
        x as int
    } else {
        x - 0x1_0000_0000_0000_0000
    }
}

/// Whether the seek from `current_us` to `position_us` fits in an `i64` offset.
pub open spec fn seek_fits(position_us: u64, current_us: u64) -> bool {
    i64::MIN <= as_i64_wrapping(position_us) - as_i64_wrapping(current_us) <= i64::MAX
}

fn wrap_to_i64(x: u64) -> (r: i64)
    ensures
        r == as_i64_wrapping(x),
{
    if x <= 0x7fff_ffff_ffff_ffff {
        x as i64
    } else {
        let low = (x - 0x8000_0000_0000_0000) as i64;
        low + i64::MIN
    }
}

/// The offset that moves a player from `current_us` to `position_us`.
pub fn seek_delta(position_us: u64, current_us: u64) -> (d: i64)
    requires
        seek_fits(position_us, current_us),
    ensures
        d == as_i64_wrapping(position_us) - as_i64_wrapping(current_us),
        position_us <= i64::MAX && current_us <= i64::MAX ==> d == position_us - current_us,
{
    wrap_to_i64(position_us) - wrap_to_i64(current_us)
}

/// Seeks the player under `bus_name` by `offset_us` microseconds: the command
/// and the index among `bus_names` (the names of the players found) of the
/// player it goes to, or `None` when no player has that name.
pub fn seek_by(bus_names: &Vec<String>, bus_name: &str, offset_us: i64) -> (r: Option<
    (usize, PlayerCommand),
>)
    ensures
        r == addressed(bus_names@, bus_name@, PlayerCommand::Seek(offset_us)),
{
    address(bus_names, bus_name, PlayerCommand::Seek(offset_us))
}

/// Seeks the player under `bus_name` to `position_us`, given that it is at
/// `current_position_us`.
pub fn seek_to(bus_names: &Vec<String>, bus_name: &str, position_us: u64, current_position_us: u64) -> (r:
    Option<(usize, PlayerCommand)>)
    requires
        first_index_of(string_views(bus_names@), bus_name@) is Some ==> seek_fits(
            position_us,
            current_position_us,
        ),
    ensures
        r == addressed(
            bus_names@,
            bus_name@,
            PlayerCommand::Seek(
                (as_i64_wrapping(position_us) - as_i64_wrapping(current_position_us)) as i64,
            ),
        ),
{
    match find_by_bus(bus_names, bus_name) {
        Some(i) => Some((i, PlayerCommand::Seek(seek_delta(position_us, current_position_us)))),
        None => None,
    }
}

/// Toggles play/pause on the player under `bus_name`.
pub fn play_pause(bus_names: &Vec<String>, bus_name: &str) -> (r: Option<(usize, PlayerCommand)>)
    ensures
        r == addressed(bus_names@, bus_name@, PlayerCommand::PlayPause),
{
    address(bus_names, bus_name, PlayerCommand::PlayPause)
}

/// Skips to the next track on the player under `bus_name`.
pub fn next(bus_names: &Vec<String>, bus_name: &str) -> (r: Option<(usize, PlayerCommand)>)
    ensures
        r == addressed(bus_names@, bus_name@, PlayerCommand::Next),
{
    address(bus_names, bus_name, PlayerCommand::Next)
}

/// Goes back to the previous track on the player under `bus_name`.
pub fn previous(bus_names: &Vec<String>, bus_name: &str) -> (r: Option<(usize, PlayerCommand)>)
    ensures
        r == addressed(bus_names@, bus_name@, PlayerCommand::Previous),
{
    address(bus_names, bus_name, PlayerCommand::Previous)
}

/// The picker lists the real players in the order they were found, leaves
/// out only the `playerctld` proxy, and keeps every other player.
pub proof fn law_listing_is_the_real_players(found: Seq<PlayerSnapshot>)
    ensures
        forall|k: int|
            0 <= k < listed_players(found).len() ==> !is_proxy_name(
                #[trigger] listed_players(found)[k].bus_name,
            ),
        forall|j: int|
            0 <= j < found.len() && is_real(found[j]) ==> #[trigger] listed_players(found).contains(
                summary_of(found[j]),
            ),
        listed_players(found).len() <= found.len(),
{
    let pred = |p: PlayerSnapshot| is_real(p);
    found.lemma_filter_len(pred);
    assert forall|k: int| 0 <= k < listed_players(found).len() implies !is_proxy_name(
        #[trigger] listed_players(found)[k].bus_name,
    ) by {
        found.lemma_filter_pred(pred, k);
    }
    assert forall|j: int| 0 <= j < found.len() && is_real(found[j]) implies #[trigger] listed_players(
        found,
    ).contains(summary_of(found[j])) by {
        found.lemma_filter_contains(pred, j);
        let k = choose|k: int| 0 <= k < real_players(found).len() && real_players(found)[k] == found[j];
        assert(listed_players(found)[k] == summary_of(found[j]));
    }
}

/// A pinned player that is listed is the one shown, whatever the others do.
pub proof fn law_pinned_player_is_shown(bus: Seq<char>, players: Seq<PlayerSummaryView>, i: int)
    requires
        0 <= i < players.len(),
        players[i].bus_name == bus,
        forall|j: int| 0 <= j < i ==> players[j].bus_name != bus,
    ensures
        chosen_index(Some(bus), players) == Some(i),
{
    lemma_first_index_of(summary_bus_names(players), bus, i);
}

/// Some player is shown exactly when some player is listed, and the one shown
/// is one of those listed.
pub proof fn law_player_shown_iff_listed(selected: Option<Seq<char>>, players: Seq<PlayerSummaryView>)
    ensures
        chosen_index(selected, players) is Some <==> players.len() > 0,
        chosen_index(selected, players) matches Some(i) ==> 0 <= i < players.len(),
{
    if players.len() > 0 {
        let b = best_rank(players);
        let c = choose|c: int| is_first_of_rank(players, b, c);
        lemma_best_rank_exists(players);
        assert(is_first_of_rank(players, b, c));
    }
    match selected {
        Some(bus) => {
            if exists|i: int| is_first_of(summary_bus_names(players), bus, i) {
                let c = choose|c: int| is_first_of(summary_bus_names(players), bus, c);
                assert(is_first_of(summary_bus_names(players), bus, c));
            }
        },
        None => {},
    }
}

proof fn lemma_best_rank_exists(players: Seq<PlayerSummaryView>)
    requires
        players.len() > 0,
    ensures
        exists|i: int| is_first_of_rank(players, best_rank(players), i),
{
    let b = best_rank(players);
    assert(0 <= rank(players[0]) <= 3);
    if !has_rank(players, 0) && !has_rank(players, 1) && !has_rank(players, 2) {
        assert(rank(players[0]) == 3);
    }
    assert(has_rank(players, b));
    let w = choose|w: int| 0 <= w < players.len() && rank(players[w]) == b;
    lemma_first_of_rank_from(players, b, w);
}

proof fn lemma_first_of_rank_from(players: Seq<PlayerSummaryView>, r: int, w: int)
    requires
        0 <= w < players.len(),
        rank(players[w]) == r,
    ensures
        exists|i: int| is_first_of_rank(players, r, i),
    decreases w,
{
    if forall|j: int| 0 <= j < w ==> rank(players[j]) != r {
        assert(is_first_of_rank(players, r, w));
    } else {
        let v = choose|v: int| 0 <= v < w && rank(players[v]) == r;
        lemma_first_of_rank_from(players, r, v);
    }
}

/// The title shown of a player is the reported track title, or "Unknown"
/// when there is none, whether the metadata read failed or the metadata has
/// no title.
pub proof fn law_title_or_unknown(p: PlayerSnapshot)
    ensures
        (p.metadata is None || p.metadata->0.title is None) ==> info_of(p).title == seq![
            'U',
            'n',
            'k',
            'n',
            'o',
            'w',
            'n',
        ],
        (p.metadata matches Some(m) && m.title is Some) ==> info_of(p).title
            == p.metadata->0.title->0@,
{
}

/// Without a pin, the shown player is the first playing one; else the first
/// paused one; else the first with a track title; else the first listed; and
/// none when nothing is listed. A pin that names no listed player is ignored.
pub proof fn law_unpinned_choice(pin: Seq<char>, players: Seq<PlayerSummaryView>)
    ensures
        (forall|k: int| 0 <= k < players.len() ==> players[k].bus_name != pin) ==> chosen_index(
            Some(pin),
            players,
        ) == chosen_index(None, players),
        players.len() == 0 ==> chosen_index(None, players) is None,
        (exists|j: int| 0 <= j < players.len() && players[j].status == PlaybackStatus::Playing)
            ==> (chosen_index(None, players) matches Some(i) && 0 <= i < players.len()
            && players[i].status == PlaybackStatus::Playing && forall|j: int|
            0 <= j < i ==> players[j].status != PlaybackStatus::Playing),
        (forall|j: int| 0 <= j < players.len() ==> players[j].status != PlaybackStatus::Playing)
            && (exists|j: int| 0 <= j < players.len() && players[j].status == PlaybackStatus::Paused)
            ==> (chosen_index(None, players) matches Some(i) && 0 <= i < players.len()
            && players[i].status == PlaybackStatus::Paused && forall|j: int|
            0 <= j < i ==> players[j].status != PlaybackStatus::Paused),
        (forall|j: int| 0 <= j < players.len() ==> players[j].status == PlaybackStatus::Stopped)
            && (exists|j: int| 0 <= j < players.len() && players[j].title.len() > 0) ==> (
        chosen_index(None, players) matches Some(i) && 0 <= i < players.len() && players[i].title.len()
            > 0 && forall|j: int| 0 <= j < i ==> players[j].title.len() == 0),
        (forall|j: int|
            0 <= j < players.len() ==> players[j].status == PlaybackStatus::Stopped
                && players[j].title.len() == 0) && players.len() > 0 ==> chosen_index(None, players)
            == Some(0int),
{
    if forall|k: int| 0 <= k < players.len() ==> players[k].bus_name != pin {
        let names = summary_bus_names(players);
        assert forall|k: int| 0 <= k < names.len() implies names[k] != pin by {
            assert(names[k] == players[k].bus_name);
        }
        lemma_first_index_absent(names, pin);
    }
    if players.len() > 0 {
        lemma_best_rank_exists(players);
        let b = best_rank(players);
        let i = choose|i: int| is_first_of_rank(players, b, i);
        lemma_active_index(players, i);
        assert forall|j: int| 0 <= j < players.len() implies rank(players[j]) >= b by {
            lemma_best_rank_is_least(players, j);
        }
        if exists|j: int| 0 <= j < players.len() && players[j].status == PlaybackStatus::Playing {
            let j = choose|j: int| 0 <= j < players.len() && players[j].status == PlaybackStatus::Playing;
            assert(rank(players[j]) == 0);
        }
        if exists|j: int| 0 <= j < players.len() && players[j].status == PlaybackStatus::Paused {
            let j = choose|j: int| 0 <= j < players.len() && players[j].status == PlaybackStatus::Paused;
            assert(rank(players[j]) == 1);
        }
        if exists|j: int| 0 <= j < players.len() && players[j].title.len() > 0 {
            let j = choose|j: int| 0 <= j < players.len() && players[j].title.len() > 0;
            assert(rank(players[j]) <= 2);
        }
        assert(rank(players[i]) == b);
        assert(0 <= rank(players[0]));
    }
}

/// The other fields of the shown info: the bus name as reported; the status,
/// position, length and capabilities as read, else stopped, zero and false;
/// no artist or album text when none was read, a single artist as it is; a
/// non-negative `xesam:year` as the year, and no year when neither
/// `xesam:year` nor `xesam:contentCreated` is present.
pub proof fn law_info_fields(p: PlayerSnapshot)
    ensures
        info_of(p).bus_name == p.bus_name@,
        p.status matches Some(st) ==> info_of(p).status == st,
        p.status is None ==> info_of(p).status == PlaybackStatus::Stopped,
        p.position_us matches Some(v) ==> info_of(p).position_us == v,
        p.position_us is None ==> info_of(p).position_us == 0,
        p.can_go_next is None ==> !info_of(p).can_go_next,
        p.can_go_previous is None ==> !info_of(p).can_go_previous,
        p.can_pause is None ==> !info_of(p).can_pause,
        p.can_play is None ==> !info_of(p).can_play,
        p.can_seek is None ==> !info_of(p).can_seek,
        p.can_go_next matches Some(b) ==> info_of(p).can_go_next == b,
        p.can_go_previous matches Some(b) ==> info_of(p).can_go_previous == b,
        p.can_pause matches Some(b) ==> info_of(p).can_pause == b,
        p.can_play matches Some(b) ==> info_of(p).can_play == b,
        p.can_seek matches Some(b) ==> info_of(p).can_seek == b,
        p.metadata is None ==> info_of(p).artist.len() == 0 && info_of(p).album.len() == 0
            && info_of(p).year is None && info_of(p).art_url is None && info_of(p).length_us == 0,
        p.metadata matches Some(m) ==> {
            &&& m.artists is None ==> info_of(p).artist.len() == 0
            &&& m.artists matches Some(a) ==> (a@.len() == 1 ==> info_of(p).artist == a@[0]@)
            &&& m.album is None ==> info_of(p).album.len() == 0
            &&& m.album matches Some(al) ==> info_of(p).album == al@
            &&& m.art_url matches Some(u) ==> info_of(p).art_url == Some(u@)
            &&& m.length_us matches Some(l) ==> info_of(p).length_us == l
            &&& m.year matches Some(MetadataValue::I32(n)) ==> (n >= 0 ==> info_of(p).year == Some(
                n as u32,
            ))
            &&& (m.year is None && m.content_created is None) ==> info_of(p).year is None
        },
{
    match p.metadata {
        Some(m) => match m.artists {
            Some(a) => {
                if a@.len() == 1 {
                    assert(string_views(a@).len() == 1);
                    assert(string_views(a@)[0] == a@[0]@);
                }
            },
            None => {},
        },
        None => {},
    }
}

} // verus!
