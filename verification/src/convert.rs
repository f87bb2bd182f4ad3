//! From a song, or from the bytes of a Standard MIDI File, to a chart.

use vstd::prelude::*;
use crate::conversation::{
    all_note_ticks_fit, elapsed, events_before, fill_bpm, fill_lines, fill_meta, is_performance,
    ismeta, lemma_flatten_index, meta_of, note_ticks_fit, song_lines, tempo_items,
    tempo_ticks_fit, text_view,
};
use crate::post::{can_separate, post_process, processed, separable};
use crate::midi::{
    Event, ReadError, Smf, Song, Timing, TrackEvent, TrackEventKind, frame_rate_safe,
    parsed_song, read_smf, song_in_limits, track_view, tracks_view,
};
use crate::rpe::{ChartView, LayerView, MetaView, RPEChart, RPEEventLayer, Ratio, layers_view};

verus! {

/// Why no chart was made.
#[derive(Debug)]
pub enum ConvertError {
    /// The bytes are no Standard MIDI File.
    Malformed(midly::Error),
    /// The bytes are not `frame_rate_safe`: a header among them may state
    /// frames per second that cannot be read.
    FrameRate,
    /// The file does not measure time in ticks per beat.
    UnsupportedTiming,
    /// A beat of the file has no ticks, or its ticks or beats are more than
    /// a chart can count.
    OutOfRange,
    /// The place of a note, multiplied by the separation rate, is more than
    /// a chart can hold: a numerator beyond 64 bits with a sign, or a
    /// denominator beyond 64 bits. The place of a note that was just made
    /// has a numerator between -81000 and 263250 and the denominator 88, so
    /// no rate with a numerator up to `i64::MAX / 263250` in size and a
    /// denominator up to `u64::MAX / 88` is refused, whatever its sign, and
    /// a rate of zero never is.
    RateOutOfRange,
}

/// The ticks per beat of a song that measures time in them.
pub open spec fn beat_ticks(song: Song) -> Option<u32> {
    match song.timing {
        Timing::Metrical(ticks) => Some(ticks as u32),
        Timing::Timecode(_, _) => None,
    }
}

/// A beat has ticks; the ticks of all tracks in a row can be counted in 32
/// bits; and the beat of each tempo event in that row, and of each note-on
/// in a performance track, can be held by a time position.
pub open spec fn ticks_fit(tracks: Seq<Seq<Event>>, ticks_per_beat: int) -> bool {
    &&& ticks_per_beat > 0
    &&& tempo_ticks_fit(tracks.flatten(), ticks_per_beat)
    &&& all_note_ticks_fit(tracks, ticks_per_beat)
}

/// The chart of a song with `ticks_per_beat` ticks to the beat: its title
/// and the two file names in an otherwise empty descriptive block, its tempo
/// items, and the judge lines of its performance tracks.
pub open spec fn chart_of(
    tracks: Seq<Seq<Event>>,
    ticks_per_beat: int,
    song: Option<Seq<char>>,
    background: Option<Seq<char>>,
    layers: Seq<Option<LayerView>>,
) -> ChartView {
    ChartView {
        meta: meta_of(MetaView::initial(), tracks, song, background),
        bpm_list: tempo_items(tracks.flatten(), ticks_per_beat),
        judge_line_list: song_lines(tracks, ticks_per_beat, layers),
    }
}

/// The ticks per beat of a song, if it measures time in them.
pub fn ticks_per_beat(smf: &Smf) -> (r: Result<u32, ConvertError>)
    ensures
        match beat_ticks(smf@) {
            Some(ticks) => r == Ok::<u32, ConvertError>(ticks),
            None => r == Err::<u32, ConvertError>(ConvertError::UnsupportedTiming),
        },
{
    match smf.timing {
        Timing::Metrical(ticks) => Ok(ticks as u32),
        Timing::Timecode(_, _) => Err(ConvertError::UnsupportedTiming),
    }
}

/// Tells whether the ticks of a track can be counted in 32 bits and the
/// beat of each of its note-ons can be held by a time position.
pub fn notes_fit(track: &Vec<TrackEvent>, ticks_per_beat: u32) -> (ok: bool)
    requires
        ticks_per_beat > 0,
    ensures
        ok == note_ticks_fit(track_view(track@), ticks_per_beat as int),
{
    let ghost events = track_view(track@);
    let mut current_tick: u32 = 0;
    let mut i: usize = 0;
    while i < track.len()
        invariant
            i <= track.len(),
            events == track_view(track@),
            ticks_per_beat > 0,
            current_tick == elapsed(events, i as int),
            forall|n: int|
                0 < n <= i ==> {
                    &&& #[trigger] elapsed(events, n) <= u32::MAX
                    &&& (events[n - 1].kind is NoteOn ==> elapsed(events, n) / (ticks_per_beat as int)
                        <= i32::MAX)
                },
        decreases track.len() - i,
    {
        let event = &track[i];
        assert(events[i as int] == event@);
        assert(elapsed(events, i + 1) == current_tick + event.delta);
        if event.delta > u32::MAX - current_tick {
            return false;
        }
        current_tick += event.delta;
        match &event.kind {
            TrackEventKind::NoteOn { .. } => {
                if current_tick / ticks_per_beat > 0x7fff_ffff {
                    return false;
                }
            },
            TrackEventKind::Tempo(_) => {},
            TrackEventKind::TrackName(_) => {},
            TrackEventKind::Meta => {},
            TrackEventKind::Other => {},
        }
        i += 1;
    }
    true
}

/// Tells whether the ticks of each performance track can be counted in 32
/// bits and the beat of each note-on can be held by a time position.
pub fn all_notes_fit(tracks: &Vec<Vec<TrackEvent>>, ticks_per_beat: u32) -> (ok: bool)
    requires
        ticks_per_beat > 0,
    ensures
        ok == all_note_ticks_fit(tracks_view(tracks@), ticks_per_beat as int),
{
    let ghost all = tracks_view(tracks@);
    let mut i: usize = 0;
    while i < tracks.len()
        invariant
            i <= tracks.len(),
            all == tracks_view(tracks@),
            ticks_per_beat > 0,
            forall|k: int|
                0 <= k < i && is_performance(#[trigger] all[k]) ==> note_ticks_fit(
                    all[k],
                    ticks_per_beat as int,
                ),
        decreases tracks.len() - i,
    {
        let track = &tracks[i];
        assert(all[i as int] == track_view(track@));
        if !ismeta(track) && !notes_fit(track, ticks_per_beat) {
            return false;
        }
        i += 1;
    }
    true
}

/// Tells whether the ticks of all tracks in a row can be counted in 32 bits
/// and the beat of each tempo event can be held by a time position.
pub fn tempos_fit(tracks: &Vec<Vec<TrackEvent>>, ticks_per_beat: u32) -> (ok: bool)
    requires
        ticks_per_beat > 0,
    ensures
        ok == tempo_ticks_fit(tracks_view(tracks@).flatten(), ticks_per_beat as int),
{
    let ghost all = tracks_view(tracks@);
    let ghost events = all.flatten();
    let mut accumulated_time: u32 = 0;
    let mut i: usize = 0;
    proof {
        assert(all.take(0) =~= Seq::<Seq<Event>>::empty());
    }
    while i < tracks.len()
        invariant
            i <= tracks.len(),
            all == tracks_view(tracks@),
            events == all.flatten(),
            ticks_per_beat > 0,
            events_before(all, i as int) <= events.len(),
            accumulated_time == elapsed(events, events_before(all, i as int) as int),
            forall|n: int|
                0 < n <= events_before(all, i as int) ==> {
                    &&& #[trigger] elapsed(events, n) <= u32::MAX
                    &&& (events[n - 1].kind is Tempo ==> elapsed(events, n) / (ticks_per_beat as int)
                        <= i32::MAX)
                },
        decreases tracks.len() - i,
    {
        let track = &tracks[i];
        let ghost base = events_before(all, i as int) as int;
        let mut j: usize = 0;
        while j < track.len()
            invariant
                i < tracks.len(),
                j <= track.len(),
                track == &tracks[i as int],
                all == tracks_view(tracks@),
                events == all.flatten(),
                ticks_per_beat > 0,
                base == events_before(all, i as int),
                base + j <= events.len(),
                accumulated_time == elapsed(events, base + j),
                forall|n: int|
                    0 < n <= base + j ==> {
                        &&& #[trigger] elapsed(events, n) <= u32::MAX
                        &&& (events[n - 1].kind is Tempo ==> elapsed(events, n) / (
                        ticks_per_beat as int) <= i32::MAX)
                    },
            decreases track.len() - j,
        {
            let a = &track[j];
            proof {
                lemma_flatten_index(all, i as int, j as int);
                assert(events[base + j] == a@);
                assert(elapsed(events, base + j + 1) == accumulated_time + a.delta);
            }
            if a.delta > u32::MAX - accumulated_time {
                return false;
            }
            accumulated_time += a.delta;
            match &a.kind {
                TrackEventKind::Tempo(_) => {
                    if accumulated_time / ticks_per_beat > 0x7fff_ffff {
                        return false;
                    }
                },
                TrackEventKind::NoteOn { .. } => {},
                TrackEventKind::TrackName(_) => {},
                TrackEventKind::Meta => {},
                TrackEventKind::Other => {},
            }
            j += 1;
        }
        proof {
            if track.len() > 0 {
                lemma_flatten_index(all, i as int, 0);
            } else {
                assert(all.take(i + 1) =~= all.take(i as int).push(all[i as int]));
                all.take(i as int).lemma_flatten_push(all[i as int]);
            }
        }
        i += 1;
    }
    proof {
        assert(all.take(all.len() as int) =~= all);
    }
    true
}

/// Tells whether a chart can be made of a song with `ticks_per_beat` ticks
/// to the beat.
pub fn song_fits(smf: &Smf, ticks_per_beat: u32) -> (ok: bool)
    ensures
        ok == ticks_fit(smf@.tracks, ticks_per_beat as int),
{
    ticks_per_beat > 0 && tempos_fit(&smf.tracks, ticks_per_beat) && all_notes_fit(
        &smf.tracks,
        ticks_per_beat,
    )
}

/// Makes the chart of a song. A song that does not measure time in ticks
/// per beat has no chart.
pub fn build_chart(
    smf: &Smf,
    song: Option<String>,
    background: Option<String>,
    layers: &Vec<Option<RPEEventLayer>>,
) -> (r: Result<RPEChart, ConvertError>)
    requires
        match beat_ticks(smf@) {
            Some(ticks) => ticks_fit(smf@.tracks, ticks as int),
            None => true,
        },
    ensures
        match beat_ticks(smf@) {
            Some(ticks) => r is Ok && r->Ok_0@ == chart_of(
                smf@.tracks,
                ticks as int,
                text_view(song),
                text_view(background),
                layers_view(layers@),
            ),
            None => r == Err::<RPEChart, ConvertError>(ConvertError::UnsupportedTiming),
        },
{
    let ticks = match ticks_per_beat(smf) {
        Ok(ticks) => ticks,
        Err(e) => { return Err(e); },
    };
    let mut chart = RPEChart::default();
    fill_meta(&mut chart.meta, smf, song, background);
    fill_bpm(&mut chart.bpm_list, smf, ticks);
    fill_lines(&mut chart, smf, ticks, layers);
    Ok(chart)
}

/// The input to a conversion besides the song.
pub struct Settings {
    /// The name of the song file, without its directory.
    pub song: Option<Seq<char>>,
    /// The name of the background file, without its directory.
    pub background: Option<Seq<char>>,
    /// The event layers that each judge line starts with.
    pub layers: Seq<Option<LayerView>>,
    /// The rate by which the notes are spread.
    pub sepration_rate: Option<Ratio>,
    /// The scroll speed that is fixed.
    pub speed: Option<Ratio>,
}

/// What `convert` gives for a song: its chart, made and then processed, or
/// why it has none.
pub open spec fn converted(song: Song, settings: Settings) -> Result<ChartView, ConvertError> {
    match beat_ticks(song) {
        None => Err(ConvertError::UnsupportedTiming),
        Some(ticks) => if !ticks_fit(song.tracks, ticks as int) {
            Err(ConvertError::OutOfRange)
        } else {
            let chart = chart_of(
                song.tracks,
                ticks as int,
                settings.song,
                settings.background,
                settings.layers,
            );
            if settings.sepration_rate is Some && !separable(chart, settings.sepration_rate.unwrap()) {
                Err(ConvertError::RateOutOfRange)
            } else {
                Ok(processed(chart, settings.sepration_rate, settings.speed))
            }
        },
    }
}

/// Reads a Standard MIDI File, makes its chart, spreads the notes by
/// `sepration_rate` and fixes the scroll speed at `speed`, each where it is
/// given. Bytes that are not `frame_rate_safe` are refused unread. `song` and `background` are the names of the two files that the
/// chart refers to, without their directories; each judge line gets its own
/// copy of `layers`.
pub fn convert(
    bytes: &[u8],
    song: Option<String>,
    background: Option<String>,
    layers: &Vec<Option<RPEEventLayer>>,
    sepration_rate: Option<Ratio>,
    speed: Option<Ratio>,
) -> (r: Result<RPEChart, ConvertError>)
    ensures
        !frame_rate_safe(bytes@) ==> r is Err && r->Err_0 is FrameRate,
        frame_rate_safe(bytes@) ==> match parsed_song(bytes@) {
            None => r is Err && r->Err_0 is Malformed,
            Some(parsed) => song_in_limits(parsed) && match converted(
                parsed,
                Settings {
                    song: text_view(song),
                    background: text_view(background),
                    layers: layers_view(layers@),
                    sepration_rate,
                    speed,
                },
            ) {
                Ok(chart) => r is Ok && r->Ok_0@ == chart,
                Err(e) => r == Err::<RPEChart, ConvertError>(e),
            },
        },
{
    let smf = match read_smf(bytes) {
        Ok(smf) => smf,
        Err(ReadError::Malformed(e)) => { return Err(ConvertError::Malformed(e)); },
        Err(ReadError::FrameRate) => { return Err(ConvertError::FrameRate); },
    };
    let ticks = match ticks_per_beat(&smf) {
        Ok(ticks) => ticks,
        Err(e) => { return Err(e); },
    };
    if !song_fits(&smf, ticks) {
        return Err(ConvertError::OutOfRange);
    }
    let mut chart = match build_chart(&smf, song, background, layers) {
        Ok(chart) => chart,
        Err(e) => { return Err(e); },
    };
    if let Some(rate) = sepration_rate {
        if !can_separate(&chart, rate) {
            return Err(ConvertError::RateOutOfRange);
        }
    }
    post_process(sepration_rate, &mut chart, speed);
    Ok(chart)
}

} // verus!
