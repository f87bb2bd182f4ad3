//! The conversion engine: from tracks of MIDI events to chart entities.

use vstd::prelude::*;
use crate::midi::{Event, EventKind, Smf, TrackEvent, TrackEventKind, track_view, tracks_view};
use crate::rpe::{
    ChartView, LayerView, LineView, MetaView, RPE_WIDTH, RPEBpmItem, RPEChart, RPEEventLayer,
    RPEJudgeLine, RPEMetadata, RPENote, Ratio, Triple, copy_layers, layers_view, lines_view,
};
use crate::text::{decoded, text_of};

verus! {

/// Number of keys of a piano.
pub const PIANO_KEY_COUNT: u8 = 88;

/// The key of middle C.
pub const C4_POS: u8 = 60;

/// The time position of tick `tick`, where a beat has `ticks_per_beat` ticks.
pub open spec fn time_of(tick: int, ticks_per_beat: int) -> Triple {
    Triple((tick / ticks_per_beat) as i32, (tick % ticks_per_beat) as u32, ticks_per_beat as u32)
}

/// The stage position of a key: `(key - 60) / 88 * 1350`, as `(key - 60) * 1350 / 88`.
pub open spec fn stage_x(key: u8) -> Ratio {
    Ratio { num: ((key - 60) * 1350) as i64, den: 88 }
}

/// The beats per minute of a tempo of `tempo` microseconds per beat:
/// `60_000_000 / tempo`.
pub open spec fn bpm_of(tempo: u32) -> Ratio {
    Ratio { num: 60_000_000, den: tempo as u64 }
}

/// Splits an absolute tick count into whole beats and the ticks left over.
pub fn tick_to_rpe_time(tick: u32, ticks_per_beat: u32) -> (r: Triple)
    requires
        ticks_per_beat > 0,
        tick / ticks_per_beat <= i32::MAX,
    ensures
        r == time_of(tick as int, ticks_per_beat as int),
        r.0 == tick / ticks_per_beat,
        r.1 == tick % ticks_per_beat,
        r.2 == ticks_per_beat,
        r.0 * ticks_per_beat + r.1 == tick,
        0 <= r.1 < ticks_per_beat,
{
    let bar: u32 = tick / ticks_per_beat;
    let rest: u32 = tick % ticks_per_beat;
    proof {
        vstd::arithmetic::div_mod::lemma_fundamental_div_mod(tick as int, ticks_per_beat as int);
        assert(bar * ticks_per_beat == ticks_per_beat * bar) by (nonlinear_arith);
    }
    Triple(bar as i32, rest, ticks_per_beat)
}

/// Maps a key to its place on the stage. Middle C lies on the centre, and
/// the width of the stage is laid over the 88 keys of a piano.
pub fn key_to_x_value(key: u8) -> (x: Ratio)
    ensures
        x == stage_x(key),
        x.num == (key - 60) * 1350,
        x.den == 88,
{
    let offset: i64 = key as i64 - C4_POS as i64;
    Ratio { num: offset * RPE_WIDTH, den: PIANO_KEY_COUNT as u64 }
}

/// The tempo in beats per minute, for beats of a quarter note.
pub fn tempo2bpm(tempo: u32) -> (bpm: Ratio)
    ensures
        bpm == bpm_of(tempo),
        bpm.num == 60_000_000,
        bpm.den == tempo,
{
    Ratio { num: 60_000_000, den: tempo as u64 }
}

/// The note that a key pressed at tick `tick` makes of the note `base`: it
/// starts and ends at that tick and lies where the key lies.
pub open spec fn note_at(base: RPENote, tick: int, ticks_per_beat: int, key: u8) -> RPENote {
    RPENote {
        start_time: time_of(tick, ticks_per_beat),
        end_time: time_of(tick, ticks_per_beat),
        position_x: stage_x(key),
        ..base
    }
}

/// Places a note at a tick and a key. Nothing else of the note changes.
pub fn fill_note(ret: &mut RPENote, current_tick: u32, ticks_per_beat: u32, key: u8)
    requires
        ticks_per_beat > 0,
        current_tick / ticks_per_beat <= i32::MAX,
    ensures
        *final(ret) == note_at(*old(ret), current_tick as int, ticks_per_beat as int, key),
        final(ret).end_time == final(ret).start_time,
{
    ret.start_time = tick_to_rpe_time(current_tick, ticks_per_beat);
    ret.end_time = ret.start_time;
    ret.position_x = key_to_x_value(key);
}

/// The kind is a meta message.
pub open spec fn is_meta_kind(kind: EventKind) -> bool {
    kind is Tempo || kind is TrackName || kind is Meta
}

/// The track is a control track: each of its events is a meta message.
pub open spec fn is_control(events: Seq<Event>) -> bool {
    forall|i: int| 0 <= i < events.len() ==> is_meta_kind(#[trigger] events[i].kind)
}

/// Tells whether a track is a control track.
pub fn ismeta(t: &Vec<TrackEvent>) -> (r: bool)
    ensures
        r == is_control(track_view(t@)),
{
    let mut i: usize = 0;
    while i < t.len()
        invariant
            i <= t.len(),
            forall|k: int| 0 <= k < i ==> is_meta_kind(#[trigger] track_view(t@)[k].kind),
        decreases t.len() - i,
    {
        match &t[i].kind {
            TrackEventKind::Tempo(_) | TrackEventKind::TrackName(_) | TrackEventKind::Meta => {},
            TrackEventKind::NoteOn { .. } | TrackEventKind::Other => {
                assert(!is_meta_kind(track_view(t@)[i as int].kind));
                return false;
            },
        }
        i += 1;
    }
    true
}

/// The ticks from the start of a track to its event `n - 1`, the delta of
/// that event included: the sum of the first `n` deltas.
pub open spec fn elapsed(events: Seq<Event>, n: int) -> int
    decreases n,
{
    if n <= 0 {
        0
    } else {
        elapsed(events, n - 1) + events[n - 1].delta
    }
}

/// The notes that the first `n` events of a track make: one for each note-on,
/// in the order of the events, placed at the ticks elapsed up to it.
pub open spec fn notes_upto(events: Seq<Event>, ticks_per_beat: int, n: int) -> Seq<RPENote>
    decreases n,
{
    if n <= 0 {
        Seq::empty()
    } else {
        let before = notes_upto(events, ticks_per_beat, n - 1);
        match events[n - 1].kind {
            EventKind::NoteOn { key } => before.push(
                note_at(RPENote::initial(), elapsed(events, n), ticks_per_beat, key),
            ),
            EventKind::Tempo(_) | EventKind::TrackName(_) | EventKind::Meta | EventKind::Other => before,
        }
    }
}

/// The notes of a track.
pub open spec fn track_notes(events: Seq<Event>, ticks_per_beat: int) -> Seq<RPENote> {
    notes_upto(events, ticks_per_beat, events.len() as int)
}

/// The ticks of a track can be counted in 32 bits, and the beat of each of
/// its note-ons can be held by a time position.
pub open spec fn note_ticks_fit(events: Seq<Event>, ticks_per_beat: int) -> bool {
    forall|n: int|
        0 < n <= events.len() ==> {
            &&& #[trigger] elapsed(events, n) <= u32::MAX
            &&& (events[n - 1].kind is NoteOn ==> elapsed(events, n) / ticks_per_beat <= i32::MAX)
        }
}

/// The number of note-ons among the first `n` events of a track.
pub open spec fn note_on_count(events: Seq<Event>, n: int) -> nat
    decreases n,
{
    if n <= 0 {
        0
    } else if events[n - 1].kind is NoteOn {
        note_on_count(events, n - 1) + 1
    } else {
        note_on_count(events, n - 1)
    }
}

/// Walks a track and makes a note of each note-on. Every other event only
/// moves the time on.
pub fn midi_track_to_notes(track: &Vec<TrackEvent>, ticks_per_beat: u32) -> (notes: Vec<RPENote>)
    requires
        ticks_per_beat > 0,
        note_ticks_fit(track_view(track@), ticks_per_beat as int),
    ensures
        notes@ == track_notes(track_view(track@), ticks_per_beat as int),
        notes@.len() == note_on_count(track_view(track@), track@.len() as int),
{
    let ghost events = track_view(track@);
    let mut notes: Vec<RPENote> = Vec::new();
    let mut current_tick: u32 = 0;
    let mut i: usize = 0;
    while i < track.len()
        invariant
            i <= track.len(),
            events == track_view(track@),
            ticks_per_beat > 0,
            note_ticks_fit(events, ticks_per_beat as int),
            current_tick == elapsed(events, i as int),
            notes@ == notes_upto(events, ticks_per_beat as int, i as int),
            notes@.len() == note_on_count(events, i as int),
        decreases track.len() - i,
    {
        let event = &track[i];
        assert(events[i as int] == event@);
        assert(elapsed(events, i + 1) == current_tick + event.delta);
        current_tick += event.delta;
        match &event.kind {
            TrackEventKind::NoteOn { key } => {
                let mut ret = RPENote::default();
                fill_note(&mut ret, current_tick, ticks_per_beat, *key);
                notes.push(ret);
            },
            TrackEventKind::Tempo(_) => {},
            TrackEventKind::TrackName(_) => {},
            TrackEventKind::Meta => {},
            TrackEventKind::Other => {},
        }
        i += 1;
    }
    notes
}

/// The tempo items that the first `n` events of a track make: one for each
/// tempo event, in the order of the events, placed at the ticks elapsed up
/// to it.
pub open spec fn tempos_upto(events: Seq<Event>, ticks_per_beat: int, n: int) -> Seq<RPEBpmItem>
    decreases n,
{
    if n <= 0 {
        Seq::empty()
    } else {
        let before = tempos_upto(events, ticks_per_beat, n - 1);
        match events[n - 1].kind {
            EventKind::Tempo(tempo) => before.push(
                RPEBpmItem {
                    bpm: bpm_of(tempo),
                    start_time: time_of(elapsed(events, n), ticks_per_beat),
                },
            ),
            EventKind::NoteOn { .. } | EventKind::TrackName(_) | EventKind::Meta | EventKind::Other => before,
        }
    }
}

/// The tempo items of a sequence of events.
pub open spec fn tempo_items(events: Seq<Event>, ticks_per_beat: int) -> Seq<RPEBpmItem> {
    tempos_upto(events, ticks_per_beat, events.len() as int)
}

/// The ticks of the events can be counted in 32 bits, and the beat of each
/// tempo event among them can be held by a time position.
pub open spec fn tempo_ticks_fit(events: Seq<Event>, ticks_per_beat: int) -> bool {
    forall|n: int|
        0 < n <= events.len() ==> {
            &&& #[trigger] elapsed(events, n) <= u32::MAX
            &&& (events[n - 1].kind is Tempo ==> elapsed(events, n) / ticks_per_beat <= i32::MAX)
        }
}

/// The number of events in the first `n` of the tracks.
pub open spec fn events_before(tracks: Seq<Seq<Event>>, n: int) -> nat {
    tracks.take(n).flatten().len()
}

/// The events of the first `i` tracks open the events of the first `n`.
pub proof fn lemma_flatten_prefix(tracks: Seq<Seq<Event>>, i: int, n: int)
    requires
        0 <= i <= n <= tracks.len(),
    ensures
        tracks.take(i).flatten().is_prefix_of(tracks.take(n).flatten()),
    decreases n - i,
{
    if i < n {
        lemma_flatten_prefix(tracks, i, n - 1);
        assert(tracks.take(n) =~= tracks.take(n - 1).push(tracks[n - 1]));
        tracks.take(n - 1).lemma_flatten_push(tracks[n - 1]);
    }
}

/// Event `k` of track `i` is the event of all tracks in a row that has the
/// events of the tracks before `i`, and `k` more, before it.
pub proof fn lemma_flatten_index(tracks: Seq<Seq<Event>>, i: int, k: int)
    requires
        0 <= i < tracks.len(),
        0 <= k < tracks[i].len(),
    ensures
        events_before(tracks, i) + k < tracks.flatten().len(),
        tracks.flatten()[events_before(tracks, i) + k] == tracks[i][k],
        events_before(tracks, i + 1) == events_before(tracks, i) + tracks[i].len(),
{
    let before = tracks.take(i).flatten();
    let through = tracks.take(i + 1).flatten();
    assert(tracks.take(i + 1) =~= tracks.take(i).push(tracks[i]));
    tracks.take(i).lemma_flatten_push(tracks[i]);
    assert(through =~= before + tracks[i]);
    assert(through[before.len() + k] == tracks[i][k]);
    lemma_flatten_prefix(tracks, i + 1, tracks.len() as int);
    assert(tracks.take(tracks.len() as int) =~= tracks);
    assert(through.is_prefix_of(tracks.flatten()));
    assert(tracks.flatten()[before.len() + k] == through[before.len() + k]);
}

/// Walks the events of all tracks, one track after the other and as one row
/// of events, and makes a tempo item of each tempo event. Every other event
/// only moves the time on.
pub fn events_to_bpm(tracks: &Vec<Vec<TrackEvent>>, ticks_per_beat: u32) -> (items: Vec<RPEBpmItem>)
    requires
        ticks_per_beat > 0,
        tempo_ticks_fit(tracks_view(tracks@).flatten(), ticks_per_beat as int),
    ensures
        items@ == tempo_items(tracks_view(tracks@).flatten(), ticks_per_beat as int),
{
    let ghost all = tracks_view(tracks@);
    let ghost events = all.flatten();
    let mut items: Vec<RPEBpmItem> = Vec::new();
    let mut accumulated_time: u32 = 0;
    let mut i: usize = 0;
    proof {
        assert(all.take(0) =~= Seq::<Seq<Event>>::empty());
    }
    while i < tracks.len()
        invariant
            i <= tracks.len(),
            all == tracks_view(tracks@),
            events == all.flatten(),
            ticks_per_beat > 0,
            tempo_ticks_fit(events, ticks_per_beat as int),
            events_before(all, i as int) <= events.len(),
            accumulated_time == elapsed(events, events_before(all, i as int) as int),
            items@ == tempos_upto(events, ticks_per_beat as int, events_before(all, i as int) as int),
        decreases tracks.len() - i,
    {
        let track = &tracks[i];
        let ghost base = events_before(all, i as int) as int;
        let mut j: usize = 0;
        while j < track.len()
            invariant
                i < tracks.len(),
                j <= track.len(),
                track == &tracks[i as int],
                all == tracks_view(tracks@),
                events == all.flatten(),
                ticks_per_beat > 0,
                tempo_ticks_fit(events, ticks_per_beat as int),
                base == events_before(all, i as int),
                base + j <= events.len(),
                accumulated_time == elapsed(events, base + j),
                items@ == tempos_upto(events, ticks_per_beat as int, base + j),
            decreases track.len() - j,
        {
            let a = &track[j];
            proof {
                lemma_flatten_index(all, i as int, j as int);
                assert(events[base + j] == a@);
                assert(elapsed(events, base + j + 1) == accumulated_time + a.delta);
            }
            accumulated_time += a.delta;
            match &a.kind {
                TrackEventKind::Tempo(t) => {
                    items.push(
                        RPEBpmItem {
                            bpm: tempo2bpm(*t),
                            start_time: tick_to_rpe_time(accumulated_time, ticks_per_beat),
                        },
                    );
                },
                TrackEventKind::NoteOn { .. } => {},
                TrackEventKind::TrackName(_) => {},
                TrackEventKind::Meta => {},
                TrackEventKind::Other => {},
            }
            j += 1;
        }
        proof {
            if track.len() > 0 {
                lemma_flatten_index(all, i as int, 0);
            } else {
                assert(all.take(i + 1) =~= all.take(i as int).push(all[i as int]));
                all.take(i as int).lemma_flatten_push(all[i as int]);
            }
        }
        i += 1;
    }
    proof {
        assert(all.take(all.len() as int) =~= all);
    }
    items
}

/// The bytes of the first track name among the events from `i` on.
pub open spec fn name_from(events: Seq<Event>, i: int) -> Option<Seq<u8>>
    decreases events.len() - i,
{
    if i < 0 || i >= events.len() {
        None
    } else {
        match events[i].kind {
            EventKind::TrackName(bytes) => Some(bytes),
            EventKind::NoteOn { .. } | EventKind::Tempo(_) | EventKind::Meta | EventKind::Other => name_from(
                events,
                i + 1,
            ),
        }
    }
}

/// The name of a track: the text of its first track name, if it has one.
pub open spec fn name_of(events: Seq<Event>) -> Option<Seq<char>> {
    match name_from(events, 0) {
        Some(bytes) => Some(decoded(bytes)),
        None => None,
    }
}

/// Finds the name of a track.
pub fn track_name(track: &Vec<TrackEvent>) -> (name: Option<String>)
    ensures
        match name {
            Some(text) => name_of(track_view(track@)) == Some(text@),
            None => name_of(track_view(track@)) is None,
        },
{
    let ghost events = track_view(track@);
    let mut i: usize = 0;
    while i < track.len()
        invariant
            i <= track.len(),
            events == track_view(track@),
            name_from(events, 0) == name_from(events, i as int),
        decreases track.len() - i,
    {
        assert(events[i as int] == track@[i as int]@);
        match &track[i].kind {
            TrackEventKind::TrackName(bytes) => {
                return Some(text_of(bytes));
            },
            TrackEventKind::NoteOn { .. } => {},
            TrackEventKind::Tempo(_) => {},
            TrackEventKind::Meta => {},
            TrackEventKind::Other => {},
        }
        i += 1;
    }
    None
}

/// The title that the tracks from `i` on give a chart: the name of the first
/// control track among them that has one, and `Generated` where none has.
pub open spec fn title_from(tracks: Seq<Seq<Event>>, i: int) -> Seq<char>
    decreases tracks.len() - i,
{
    if i < 0 || i >= tracks.len() {
        "Generated"@
    } else if is_control(tracks[i]) && name_of(tracks[i]) is Some {
        name_of(tracks[i]).unwrap()
    } else {
        title_from(tracks, i + 1)
    }
}

/// What an optional text holds.
pub open spec fn text_view(text: Option<String>) -> Option<Seq<char>> {
    match text {
        Some(text) => Some(text@),
        None => None,
    }
}

/// The name under which a chart refers to a file: the name of the file, and
/// `missingno` where there is none.
pub open spec fn file_ref(file_name: Option<Seq<char>>) -> Seq<char> {
    match file_name {
        Some(name) => name,
        None => "missingno"@,
    }
}

/// The descriptive block `meta` with the title that the tracks give and with
/// the two file names.
pub open spec fn meta_of(
    meta: MetaView,
    tracks: Seq<Seq<Event>>,
    song: Option<Seq<char>>,
    background: Option<Seq<char>>,
) -> MetaView {
    MetaView {
        background: file_ref(background),
        song: file_ref(song),
        name: title_from(tracks, 0),
        ..meta
    }
}

/// Writes title, song file and background file into the descriptive block.
/// `song` and `background` are the file names, without their directories.
pub fn fill_meta(
    meta: &mut RPEMetadata,
    smf: &Smf,
    song: Option<String>,
    background: Option<String>,
)
    ensures
        final(meta)@ == meta_of(old(meta)@, smf@.tracks, text_view(song), text_view(background)),
{
    let ghost tracks = smf@.tracks;
    meta.background = match background {
        Some(name) => name,
        None => "missingno".to_owned(),
    };
    meta.song = match song {
        Some(name) => name,
        None => "missingno".to_owned(),
    };
    let mut i: usize = 0;
    while i < smf.tracks.len()
        invariant
            i <= smf.tracks.len(),
            tracks == smf@.tracks,
            title_from(tracks, 0) == title_from(tracks, i as int),
            meta@ == (MetaView {
                background: file_ref(text_view(background)),
                song: file_ref(text_view(song)),
                ..old(meta)@
            }),
        decreases smf.tracks.len() - i,
    {
        let track = &smf.tracks[i];
        assert(tracks[i as int] == track_view(track@));
        if ismeta(track) {
            match track_name(track) {
                Some(name) => {
                    meta.name = name;
                    return ;
                },
                None => {},
            }
        }
        i += 1;
    }
    meta.name = "Generated".to_owned();
}

/// The judge line of a track: its name, its notes and their number, on a
/// line that is otherwise as a new one with the event layers `layers`.
pub open spec fn line_of(events: Seq<Event>, ticks_per_beat: int, layers: Seq<Option<LayerView>>) -> LineView {
    LineView {
        name: match name_of(events) {
            Some(name) => name,
            None => Seq::empty(),
        },
        notes: track_notes(events, ticks_per_beat),
        num_of_notes: track_notes(events, ticks_per_beat).len() as usize,
        ..LineView::initial(layers)
    }
}

/// Makes the judge line of a track. The line gets its own copy of `layers`.
pub fn midi_track_to_judge_line(
    track: &Vec<TrackEvent>,
    ticks_per_beat: u32,
    layers: &Vec<Option<RPEEventLayer>>,
) -> (line: RPEJudgeLine)
    requires
        ticks_per_beat > 0,
        note_ticks_fit(track_view(track@), ticks_per_beat as int),
    ensures
        line@ == line_of(track_view(track@), ticks_per_beat as int, layers_view(layers@)),
        line@.notes.len() == note_on_count(track_view(track@), track@.len() as int),
        line@.num_of_notes == line@.notes.len(),
{
    let mut line = RPEJudgeLine::new(copy_layers(layers));
    line.name = match track_name(track) {
        Some(name) => name,
        None => String::new(),
    };
    line.notes = midi_track_to_notes(track, ticks_per_beat);
    line.num_of_notes = line.notes.len();
    line
}

/// The track is a performance track: not each of its events is a meta message.
pub open spec fn is_performance(events: Seq<Event>) -> bool {
    !is_control(events)
}

/// The judge lines of a song: one for each performance track, in the order
/// of the tracks.
pub open spec fn song_lines(
    tracks: Seq<Seq<Event>>,
    ticks_per_beat: int,
    layers: Seq<Option<LayerView>>,
) -> Seq<LineView> {
    tracks.filter(|t: Seq<Event>| is_performance(t)).map_values(
        |t: Seq<Event>| line_of(t, ticks_per_beat, layers),
    )
}

/// The ticks of each performance track can be counted in 32 bits, and the
/// beat of each note-on can be held by a time position.
pub open spec fn all_note_ticks_fit(tracks: Seq<Seq<Event>>, ticks_per_beat: int) -> bool {
    forall|i: int|
        0 <= i < tracks.len() && is_performance(#[trigger] tracks[i]) ==> note_ticks_fit(
            tracks[i],
            ticks_per_beat,
        )
}

/// Replaces the judge lines of a chart by those of the song's performance
/// tracks. Each line gets its own copy of `layers`.
pub fn fill_lines(
    chart: &mut RPEChart,
    smf: &Smf,
    ticks_per_beat: u32,
    layers: &Vec<Option<RPEEventLayer>>,
)
    requires
        ticks_per_beat > 0,
        all_note_ticks_fit(smf@.tracks, ticks_per_beat as int),
    ensures
        final(chart)@ == (ChartView {
            judge_line_list: song_lines(smf@.tracks, ticks_per_beat as int, layers_view(layers@)),
            ..old(chart)@
        }),
{
    let ghost tracks = smf@.tracks;
    let ghost performs = |t: Seq<Event>| is_performance(t);
    let ghost to_line = |t: Seq<Event>| line_of(t, ticks_per_beat as int, layers_view(layers@));
    let mut lines: Vec<RPEJudgeLine> = Vec::new();
    let mut i: usize = 0;
    proof {
        assert(tracks.take(0) =~= Seq::<Seq<Event>>::empty());
        assert(lines_view(lines@) =~= tracks.take(0).filter(performs).map_values(to_line));
    }
    while i < smf.tracks.len()
        invariant
            i <= smf.tracks.len(),
            tracks == smf@.tracks,
            ticks_per_beat > 0,
            all_note_ticks_fit(tracks, ticks_per_beat as int),
            performs == |t: Seq<Event>| is_performance(t),
            to_line == |t: Seq<Event>| line_of(t, ticks_per_beat as int, layers_view(layers@)),
            lines_view(lines@) == tracks.take(i as int).filter(performs).map_values(to_line),
        decreases smf.tracks.len() - i,
    {
        let track = &smf.tracks[i];
        let ghost before = lines@;
        proof {
            assert(tracks[i as int] == track_view(track@));
            assert(tracks.take(i + 1) =~= tracks.take(i as int).push(tracks[i as int]));
            tracks.take(i as int).lemma_filter_push(tracks[i as int], performs);
        }
        if !ismeta(track) {
            let line = midi_track_to_judge_line(track, ticks_per_beat, layers);
            lines.push(line);
            proof {
                let kept = tracks.take(i as int).filter(performs);
                assert(lines_view(lines@) =~= lines_view(before).push(line@));
                assert(kept.push(tracks[i as int]).map_values(to_line) =~= kept.map_values(
                    to_line,
                ).push(to_line(tracks[i as int])));
            }
        }
        i += 1;
    }
    proof {
        assert(tracks.take(tracks.len() as int) =~= tracks);
    }
    chart.judge_line_list = lines;
}

/// Replaces a tempo list by the tempo items of the song: those of all its
/// tracks, walked one after the other as one row of events.
pub fn fill_bpm(bpm: &mut Vec<RPEBpmItem>, smf: &Smf, ticks_per_beat: u32)
    requires
        ticks_per_beat > 0,
        tempo_ticks_fit(smf@.tracks.flatten(), ticks_per_beat as int),
    ensures
        final(bpm)@ == tempo_items(smf@.tracks.flatten(), ticks_per_beat as int),
{
    *bpm = events_to_bpm(&smf.tracks, ticks_per_beat);
}

} // verus!
