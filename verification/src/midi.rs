//! The MIDI side: a song as tracks of timed events, and the reading of a
//! Standard MIDI File into one.

use vstd::prelude::*;
use midly::MetaMessage::{Tempo, TrackName};
use midly::MidiMessage::NoteOn;
use midly::TrackEventKind::{Meta, Midi};

verus! {

/// How a file measures time.
#[derive(Clone, Copy, Debug, PartialEq, Eq, Structural)]
pub enum Timing {
    /// Ticks per beat.
    Metrical(u16),
    /// Frames per second, and ticks per frame.
    Timecode(u8, u8),
}

/// What an event is, as far as a chart is concerned.
#[derive(Clone, Debug, PartialEq, Eq)]
pub enum TrackEventKind {
    /// A key is pressed.
    NoteOn { key: u8 },
    /// The tempo changes, to this many microseconds per beat.
    Tempo(u32),
    /// The track is named, by these bytes of text.
    TrackName(Vec<u8>),
    /// Any other meta message.
    Meta,
    /// Any other event: a channel message, a system exclusive message, an escape.
    Other,
}

/// An event and the ticks that passed since the event before it.
#[derive(Clone, Debug, PartialEq, Eq)]
pub struct TrackEvent {
    pub delta: u32,
    pub kind: TrackEventKind,
}

/// A song: its timing and its tracks.
#[derive(Clone, Debug, PartialEq, Eq)]
pub struct Smf {
    pub timing: Timing,
    pub tracks: Vec<Vec<TrackEvent>>,
}

/// What a `TrackEventKind` holds.
pub enum EventKind {
    NoteOn { key: u8 },
    Tempo(u32),
    TrackName(Seq<u8>),
    Meta,
    Other,
}

/// What a `TrackEvent` holds.
pub struct Event {
    pub delta: u32,
    pub kind: EventKind,
}

/// What an `Smf` holds.
pub struct Song {
    pub timing: Timing,
    pub tracks: Seq<Seq<Event>>,
}

impl View for TrackEventKind {
    type V = EventKind;

    open spec fn view(&self) -> EventKind {
        match *self {
            TrackEventKind::NoteOn { key } => EventKind::NoteOn { key },
            TrackEventKind::Tempo(t) => EventKind::Tempo(t),
            TrackEventKind::TrackName(n) => EventKind::TrackName(n@),
            TrackEventKind::Meta => EventKind::Meta,
            TrackEventKind::Other => EventKind::Other,
        }
    }
}

impl View for TrackEvent {
    type V = Event;

    open spec fn view(&self) -> Event {
        Event { delta: self.delta, kind: self.kind@ }
    }
}

/// What a track holds.
pub open spec fn track_view(track: Seq<TrackEvent>) -> Seq<Event> {
    Seq::new(track.len(), |i: int| track[i]@)
}

/// What a list of tracks holds.
pub open spec fn tracks_view(tracks: Seq<Vec<TrackEvent>>) -> Seq<Seq<Event>> {
    Seq::new(tracks.len(), |i: int| track_view(tracks[i]@))
}

impl View for Smf {
    type V = Song;

    open spec fn view(&self) -> Song {
        Song { timing: self.timing, tracks: tracks_view(self.tracks@) }
    }
}

/// The numbers of an event are such as a Standard MIDI File can state: a
/// delta below 2^28, a key below 128, a tempo below 2^24.
pub open spec fn event_in_limits(event: Event) -> bool {
    &&& event.delta < 0x1000_0000
    &&& match event.kind {
        EventKind::NoteOn { key } => key < 0x80,
        EventKind::Tempo(tempo) => tempo < 0x100_0000,
        EventKind::TrackName(_) | EventKind::Meta | EventKind::Other => true,
    }
}

/// The numbers of each event of the tracks are such as a Standard MIDI File
/// can state.
pub open spec fn tracks_in_limits(tracks: Seq<Seq<Event>>) -> bool {
    forall|i: int, j: int|
        0 <= i < tracks.len() && 0 <= j < tracks[i].len() ==> event_in_limits(#[trigger] tracks[i][j])
}

/// The ticks per beat, where the timing states them, are below 2^15.
pub open spec fn timing_in_limits(timing: Timing) -> bool {
    match timing {
        Timing::Metrical(ticks) => ticks < 0x8000,
        Timing::Timecode(_, _) => true,
    }
}

/// The numbers of the song are such as a Standard MIDI File can state.
pub open spec fn song_in_limits(song: Song) -> bool {
    timing_in_limits(song.timing) && tracks_in_limits(song.tracks)
}

/// Nowhere in the bytes stands the mark of a header chunk, `MThd`, with the
/// byte `0x80` twelve bytes behind its start. That is the place where a
/// header that counts time in frames states its frames per second, as a
/// negative number of eight bits, and `0x80` is the one such number that has
/// no positive of its own.
pub open spec fn frame_rate_safe(bytes: Seq<u8>) -> bool {
    forall|i: int|
        0 <= i && i + 12 < bytes.len() && (#[trigger] bytes[i]) == 0x4d && bytes[i + 1] == 0x54
            && bytes[i + 2] == 0x68 && bytes[i + 3] == 0x64 ==> bytes[i + 12] != 0x80
}

/// Tells whether the bytes are `frame_rate_safe`.
pub fn is_frame_rate_safe(bytes: &[u8]) -> (ok: bool)
    ensures
        ok == frame_rate_safe(bytes@),
{
    let mut i: usize = 0;
    while i < bytes.len() && bytes.len() - i > 12
        invariant
            i <= bytes.len(),
            forall|k: int|
                0 <= k < i && k + 12 < bytes.len() && (#[trigger] bytes@[k]) == 0x4d && bytes@[k + 1]
                    == 0x54 && bytes@[k + 2] == 0x68 && bytes@[k + 3] == 0x64 ==> bytes@[k + 12]
                    != 0x80,
        decreases bytes.len() - i,
    {
        if bytes[i] == 0x4d && bytes[i + 1] == 0x54 && bytes[i + 2] == 0x68 && bytes[i + 3] == 0x64
            && bytes[i + 12] == 0x80 {
            return false;
        }
        i += 1;
    }
    true
}

#[verifier::external_type_specification]
#[verifier::external_body]
pub struct ExParseError(midly::Error);

/// The timing that the header of a Standard MIDI File states, where the
/// bytes have such a header.
pub uninterp spec fn parsed_timing(bytes: Seq<u8>) -> Option<Timing>;

/// The tracks that a Standard MIDI File holds, where the bytes are one.
pub uninterp spec fn parsed_tracks(bytes: Seq<u8>) -> Option<Seq<Seq<Event>>>;

/// The song that a Standard MIDI File holds, where the bytes are one.
pub open spec fn parsed_song(bytes: Seq<u8>) -> Option<Song> {
    match (parsed_timing(bytes), parsed_tracks(bytes)) {
        (Some(timing), Some(tracks)) => Some(Song { timing, tracks }),
        _ => None,
    }
}

/// Reads the header of a Standard MIDI File with `midly::parse` and copies
/// its timing. Nothing is proved of the reading: the contract gives its
/// outcome a name, the same for the same bytes, and says that ticks per beat
/// are below 2^15, which the type that `midly` reads them into fixes. Bytes
/// that are not `frame_rate_safe` are left out: on them `midly` negates the
/// least number of eight bits, and stops the program where overflow is
/// checked.
#[verifier::external_body]
fn parse_timing(bytes: &[u8]) -> (r: Result<Timing, midly::Error>)
    requires
        frame_rate_safe(bytes@),
    ensures
        match r {
            Ok(timing) => parsed_timing(bytes@) == Some(timing) && timing_in_limits(timing),
            Err(_) => parsed_timing(bytes@) is None,
        },
{
    let (header, _) = midly::parse(bytes)?;
    Ok(match header.timing {
        midly::Timing::Metrical(t) => Timing::Metrical(t.as_int()),
        midly::Timing::Timecode(fps, sub) => Timing::Timecode(fps.as_int(), sub),
    })
}

/// Reads a Standard MIDI File with `midly::Smf::parse` and copies its tracks,
/// event by event: a note-on keeps its key, a tempo its microseconds, a track
/// name its bytes, and of any other event only whether it is a meta message
/// is kept. Nothing is proved of the reading: the contract gives its outcome
/// a name, the same for the same bytes, and says that deltas are below 2^28,
/// keys below 128 and tempos below 2^24, which the types that `midly` reads
/// them into fix. Bytes that are not `frame_rate_safe` are left out, as in
/// `parse_timing`: this reading begins with that one.
#[verifier::external_body]
fn parse_tracks(bytes: &[u8]) -> (r: Result<Vec<Vec<TrackEvent>>, midly::Error>)
    requires
        frame_rate_safe(bytes@),
    ensures
        match r {
            Ok(tracks) => parsed_tracks(bytes@) == Some(tracks_view(tracks@)) && tracks_in_limits(
                tracks_view(tracks@),
            ),
            Err(_) => parsed_tracks(bytes@) is None,
        },
{
    let smf = midly::Smf::parse(bytes)?;
    let kind = |e: &midly::TrackEvent| match e.kind {
        Midi { message: NoteOn { key, .. }, .. } => TrackEventKind::NoteOn { key: key.as_int() },
        Meta(Tempo(t)) => TrackEventKind::Tempo(t.as_int()),
        Meta(TrackName(n)) => TrackEventKind::TrackName(n.to_vec()),
        Meta(_) => TrackEventKind::Meta,
        _ => TrackEventKind::Other,
    };
    let event = |e: &midly::TrackEvent| TrackEvent { delta: e.delta.as_int(), kind: kind(e) };
    Ok(smf.tracks.iter().map(|t| t.iter().map(event).collect()).collect())
}

/// Why a file could not be read.
#[derive(Debug)]
pub enum ReadError {
    /// The bytes are no Standard MIDI File.
    Malformed(midly::Error),
    /// The bytes are not `frame_rate_safe`: a header among them may state
    /// frames per second that cannot be read.
    FrameRate,
}

/// Reads a Standard MIDI File. Bytes that are not `frame_rate_safe` are
/// refused unread.
pub fn read_smf(bytes: &[u8]) -> (r: Result<Smf, ReadError>)
    ensures
        match r {
            Ok(smf) => frame_rate_safe(bytes@) && parsed_song(bytes@) == Some(smf@) && song_in_limits(
                smf@,
            ),
            Err(ReadError::Malformed(_)) => frame_rate_safe(bytes@) && parsed_song(bytes@) is None,
            Err(ReadError::FrameRate) => !frame_rate_safe(bytes@),
        },
{
    if !is_frame_rate_safe(bytes) {
        return Err(ReadError::FrameRate);
    }
    let tracks = match parse_tracks(bytes) {
        Ok(tracks) => tracks,
        Err(e) => { return Err(ReadError::Malformed(e)); },
    };
    match parse_timing(bytes) {
        Ok(timing) => Ok(Smf { timing, tracks }),
        Err(e) => Err(ReadError::Malformed(e)),
    }
}

} // verus!
