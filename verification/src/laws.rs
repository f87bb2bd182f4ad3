//! What holds of the conversion, whatever the song.

use vstd::prelude::*;
use crate::conversation::{
    elapsed, is_control, is_meta_kind, is_performance, line_of, note_at, note_on_count,
    note_ticks_fit, notes_upto, stage_x, tempo_ticks_fit, tempos_upto, time_of, track_notes,
};
use crate::midi::Event;
use crate::post::{scaled_notes, separable, separated, sped_line, with_speed};
use crate::rpe::{ChartView, LayerView, LineView, RPENote, Ratio};

verus! {

/// Middle C lies on the centre of the stage.
pub proof fn lemma_middle_c_on_centre()
    ensures
        stage_x(60).num == 0,
        stage_x(60).same_number(Ratio { num: 0, den: 1 }),
{
}

/// A higher key lies further to the right.
pub proof fn lemma_stage_x_increasing(low: u8, high: u8)
    requires
        low < high,
    ensures
        stage_x(low).less_than(stage_x(high)),
{
    assert(stage_x(low).num == (low - 60) * 1350);
    assert(stage_x(high).num == (high - 60) * 1350);
    assert(stage_x(low).num * 88 < stage_x(high).num * 88);
}

/// Two keys at the same distance from middle C, one below it and one above,
/// lie at the same distance from the centre, one to the left and one to the
/// right.
pub proof fn lemma_stage_x_mirrored(below: u8, above: u8)
    requires
        below + above == 120,
    ensures
        stage_x(above).mirrors(stage_x(below)),
{
    assert(stage_x(below).num == (below - 60) * 1350);
    assert(stage_x(above).num == (60 - below) * 1350);
    assert(stage_x(above).num * 88 == -(stage_x(below).num * 88));
}

/// A time position stands for the tick it was made of, and its ticks are
/// fewer than those of a beat.
pub proof fn lemma_time_keeps_tick(tick: u32, ticks_per_beat: u32)
    requires
        ticks_per_beat > 0,
        tick / ticks_per_beat <= i32::MAX,
    ensures
        time_of(tick as int, ticks_per_beat as int).ticks() == tick,
        0 <= time_of(tick as int, ticks_per_beat as int).1 < ticks_per_beat,
        time_of(tick as int, ticks_per_beat as int).2 == ticks_per_beat,
{
    let bar = tick as int / ticks_per_beat as int;
    vstd::arithmetic::div_mod::lemma_fundamental_div_mod(tick as int, ticks_per_beat as int);
    assert(bar * ticks_per_beat == ticks_per_beat * bar) by (nonlinear_arith);
}

/// A track without events is a control track.
pub proof fn lemma_empty_track_is_control()
    ensures
        is_control(Seq::<Event>::empty()),
{
}

/// A track with an event that is no meta message, such as a note-on, is a
/// performance track.
pub proof fn lemma_track_with_note_is_performance(events: Seq<Event>, i: int)
    requires
        0 <= i < events.len(),
        !is_meta_kind(events[i].kind),
    ensures
        is_performance(events),
        events[i].kind is NoteOn || events[i].kind is Other,
{
}

/// The first `n` events of a track make as many notes as there are note-ons
/// among them, whatever else lies between these.
pub proof fn lemma_note_count_upto(events: Seq<Event>, ticks_per_beat: int, n: int)
    ensures
        notes_upto(events, ticks_per_beat, n).len() == note_on_count(events, n),
    decreases n,
{
    if n > 0 {
        lemma_note_count_upto(events, ticks_per_beat, n - 1);
    }
}

/// A judge line has as many notes as its track has note-ons, whatever else
/// lies between these, and says so.
pub proof fn lemma_note_count(events: Seq<Event>, ticks_per_beat: int, layers: Seq<Option<LayerView>>)
    requires
        events.len() <= usize::MAX,
    ensures
        track_notes(events, ticks_per_beat).len() == note_on_count(events, events.len() as int),
        line_of(events, ticks_per_beat, layers).notes.len() == note_on_count(
            events,
            events.len() as int,
        ),
        line_of(events, ticks_per_beat, layers).num_of_notes == note_on_count(
            events,
            events.len() as int,
        ),
{
    lemma_note_count_upto(events, ticks_per_beat, events.len() as int);
    lemma_note_on_count_bound(events, events.len() as int);
}

/// The notes that the first `n` events make open the notes that the first
/// `m` make.
pub proof fn lemma_notes_prefix(events: Seq<Event>, ticks_per_beat: int, n: int, m: int)
    requires
        0 <= n <= m,
    ensures
        notes_upto(events, ticks_per_beat, n).is_prefix_of(notes_upto(events, ticks_per_beat, m)),
    decreases m - n,
{
    if n < m {
        lemma_notes_prefix(events, ticks_per_beat, n, m - 1);
    }
}

/// Each note-on makes one note, and the notes keep the order of the
/// note-ons: the note-on with `k` note-ons in front of it makes note `k`,
/// placed at the ticks elapsed up to it and where its key lies.
pub proof fn lemma_note_of_note_on(events: Seq<Event>, ticks_per_beat: int, i: int)
    requires
        0 <= i < events.len(),
        events[i].kind is NoteOn,
    ensures
        note_on_count(events, i) < track_notes(events, ticks_per_beat).len(),
        track_notes(events, ticks_per_beat)[note_on_count(events, i) as int] == note_at(
            RPENote::initial(),
            elapsed(events, i + 1),
            ticks_per_beat,
            events[i].kind->key,
        ),
{
    lemma_note_count_upto(events, ticks_per_beat, i);
    lemma_note_count_upto(events, ticks_per_beat, i + 1);
    lemma_notes_prefix(events, ticks_per_beat, i + 1, events.len() as int);
    let k = note_on_count(events, i) as int;
    assert(notes_upto(events, ticks_per_beat, i + 1)[k] == track_notes(events, ticks_per_beat)[k]);
}

/// There are no more note-ons among the first `n` events than `n`.
pub proof fn lemma_note_on_count_bound(events: Seq<Event>, n: int)
    requires
        0 <= n,
    ensures
        note_on_count(events, n) <= n,
    decreases n,
{
    if n > 0 {
        lemma_note_on_count_bound(events, n - 1);
    }
}

/// The ticks elapsed do not fall from one event to a later one.
pub proof fn lemma_elapsed_grows(events: Seq<Event>, m: int, n: int)
    requires
        0 <= m <= n,
    ensures
        0 <= elapsed(events, m) <= elapsed(events, n),
    decreases n,
{
    if n > m {
        lemma_elapsed_grows(events, m, n - 1);
    } else if n > 0 {
        lemma_elapsed_grows(events, m - 1, n - 1);
    }
}

/// Each note of a track ends when it starts, at a time position of the
/// song's ticks per beat whose ticks are fewer than those of a beat.
pub proof fn lemma_notes_are_instants(events: Seq<Event>, ticks_per_beat: u32, n: int, k: int)
    requires
        ticks_per_beat > 0,
        note_ticks_fit(events, ticks_per_beat as int),
        0 <= n <= events.len(),
        0 <= k < notes_upto(events, ticks_per_beat as int, n).len(),
    ensures
        ({
            let note = notes_upto(events, ticks_per_beat as int, n)[k];
            &&& note.end_time == note.start_time
            &&& note.start_time.2 == ticks_per_beat
            &&& 0 <= note.start_time.1 < ticks_per_beat
            &&& 0 <= note.start_time.0
        }),
    decreases n,
{
    if n > 0 {
        let before = notes_upto(events, ticks_per_beat as int, n - 1);
        if k < before.len() {
            lemma_notes_are_instants(events, ticks_per_beat, n - 1, k);
        } else {
            let tick = elapsed(events, n);
            lemma_elapsed_grows(events, 0, n);
            assert(tick <= u32::MAX);
            lemma_time_keeps_tick(tick as u32, ticks_per_beat);
            assert(0 <= tick / (ticks_per_beat as int)) by (nonlinear_arith)
                requires
                    0 <= tick,
                    0 < ticks_per_beat,
            ;
        }
    }
}

/// The notes of a track come in the order of time: none starts before the
/// one in front of it.
pub proof fn lemma_notes_in_time_order(events: Seq<Event>, ticks_per_beat: u32, n: int, j: int, k: int)
    requires
        ticks_per_beat > 0,
        note_ticks_fit(events, ticks_per_beat as int),
        0 <= n <= events.len(),
        0 <= j <= k < notes_upto(events, ticks_per_beat as int, n).len(),
    ensures
        notes_upto(events, ticks_per_beat as int, n)[j].start_time.ticks() <= notes_upto(
            events,
            ticks_per_beat as int,
            n,
        )[k].start_time.ticks(),
        notes_upto(events, ticks_per_beat as int, n)[k].start_time.ticks() <= elapsed(events, n),
    decreases n,
{
    if n > 0 {
        let before = notes_upto(events, ticks_per_beat as int, n - 1);
        lemma_elapsed_grows(events, n - 1, n);
        if k < before.len() {
            lemma_notes_in_time_order(events, ticks_per_beat, n - 1, j, k);
        } else {
            let tick = elapsed(events, n);
            lemma_elapsed_grows(events, 0, n);
            lemma_time_keeps_tick(tick as u32, ticks_per_beat);
            if j < before.len() {
                lemma_notes_in_time_order(events, ticks_per_beat, n - 1, j, j);
            }
        }
    }
}

/// The tempo items of a row of events come in the order of time, each at a
/// time position of the song's ticks per beat.
pub proof fn lemma_tempos_in_time_order(events: Seq<Event>, ticks_per_beat: u32, n: int, j: int, k: int)
    requires
        ticks_per_beat > 0,
        tempo_ticks_fit(events, ticks_per_beat as int),
        0 <= n <= events.len(),
        0 <= j <= k < tempos_upto(events, ticks_per_beat as int, n).len(),
    ensures
        tempos_upto(events, ticks_per_beat as int, n)[j].start_time.ticks() <= tempos_upto(
            events,
            ticks_per_beat as int,
            n,
        )[k].start_time.ticks(),
        tempos_upto(events, ticks_per_beat as int, n)[k].start_time.ticks() <= elapsed(events, n),
        tempos_upto(events, ticks_per_beat as int, n)[k].start_time.2 == ticks_per_beat,
    decreases n,
{
    if n > 0 {
        let before = tempos_upto(events, ticks_per_beat as int, n - 1);
        lemma_elapsed_grows(events, n - 1, n);
        if k < before.len() {
            lemma_tempos_in_time_order(events, ticks_per_beat, n - 1, j, k);
        } else {
            let tick = elapsed(events, n);
            lemma_elapsed_grows(events, 0, n);
            lemma_time_keeps_tick(tick as u32, ticks_per_beat);
            if j < before.len() {
                lemma_tempos_in_time_order(events, ticks_per_beat, n - 1, j, j);
            }
        }
    }
}

/// Spreading the notes by one leaves the chart as it is.
pub proof fn lemma_separation_by_one(chart: ChartView)
    ensures
        separated(chart, Ratio { num: 1, den: 1 }) == chart,
{
    let one = Ratio { num: 1, den: 1 };
    let after = separated(chart, one);
    assert forall|i: int| 0 <= i < chart.judge_line_list.len() implies after.judge_line_list[i]
        == chart.judge_line_list[i] by {
        let notes = chart.judge_line_list[i].notes;
        assert forall|j: int| 0 <= j < notes.len() implies scaled_notes(notes, one)[j] == notes[j] by {
            assert(notes[j].position_x.scaled(one) == notes[j].position_x);
        }
        assert(scaled_notes(notes, one) =~= notes);
    }
    assert(after.judge_line_list =~= chart.judge_line_list);
}

/// Spreading the notes by a rate that is the number one, however it is
/// written, leaves each note at the same number.
pub proof fn lemma_separation_by_unit(chart: ChartView, rate: Ratio, i: int, j: int)
    requires
        rate.num == rate.den,
        separable(chart, rate),
        0 <= i < chart.judge_line_list.len(),
        0 <= j < chart.judge_line_list[i].notes.len(),
    ensures
        separated(chart, rate).judge_line_list[i].notes[j].position_x.same_number(
            chart.judge_line_list[i].notes[j].position_x,
        ),
{
    let x = chart.judge_line_list[i].notes[j].position_x;
    assert(x.scalable_by(rate));
    assert((x.num * rate.num) * x.den == x.num * (x.den * rate.den)) by (nonlinear_arith)
        requires
            rate.num == rate.den,
    ;
}

/// Spreading the notes by minus one puts every note as far to the other
/// side of the centre.
pub proof fn lemma_separation_by_minus_one(chart: ChartView, i: int, j: int)
    requires
        separable(chart, Ratio { num: -1i64, den: 1 }),
        0 <= i < chart.judge_line_list.len(),
        0 <= j < chart.judge_line_list[i].notes.len(),
    ensures
        separated(chart, Ratio { num: -1i64, den: 1 }).judge_line_list[i].notes[j].position_x.mirrors(
            chart.judge_line_list[i].notes[j].position_x,
        ),
{
    let x = chart.judge_line_list[i].notes[j].position_x;
    assert(x.scalable_by(Ratio { num: -1i64, den: 1 }));
    assert((x.num * -1) * x.den == -(x.num * (x.den * 1))) by (nonlinear_arith);
}

/// Spreading the notes changes nothing of a chart but the places of its
/// notes: the title, the tempo list, the number of lines and of their notes,
/// and the event layers stay.
pub proof fn lemma_separation_keeps_the_rest(chart: ChartView, rate: Ratio, i: int)
    requires
        0 <= i < chart.judge_line_list.len(),
    ensures
        separated(chart, rate).meta == chart.meta,
        separated(chart, rate).bpm_list == chart.bpm_list,
        separated(chart, rate).judge_line_list.len() == chart.judge_line_list.len(),
        separated(chart, rate).judge_line_list[i].notes.len() == chart.judge_line_list[i].notes.len(),
        separated(chart, rate).judge_line_list[i] == (LineView {
            notes: separated(chart, rate).judge_line_list[i].notes,
            ..chart.judge_line_list[i]
        }),
{
}

/// Fixing the speed leaves a line as it is where the line has no first
/// event layer, or that layer has no first speed event.
pub proof fn lemma_speed_leaves_bare_line(line: LineView, speed: Ratio)
    requires
        line.event_layers.len() == 0 || line.event_layers[0] is None
            || line.event_layers[0].unwrap().speed_events is None
            || line.event_layers[0].unwrap().speed_events.unwrap().len() == 0,
    ensures
        sped_line(line, speed) == line,
{
}

/// Fixing the speed changes nothing of a chart but the first speed event of
/// the first event layer of each line, of which it sets start and end.
pub proof fn lemma_speed_keeps_the_rest(chart: ChartView, speed: Ratio, i: int)
    requires
        0 <= i < chart.judge_line_list.len(),
    ensures
        with_speed(chart, speed).meta == chart.meta,
        with_speed(chart, speed).bpm_list == chart.bpm_list,
        with_speed(chart, speed).judge_line_list.len() == chart.judge_line_list.len(),
        with_speed(chart, speed).judge_line_list[i] == (LineView {
            event_layers: with_speed(chart, speed).judge_line_list[i].event_layers,
            ..chart.judge_line_list[i]
        }),
        with_speed(chart, speed).judge_line_list[i].event_layers.len()
            == chart.judge_line_list[i].event_layers.len(),
        forall|k: int|
            1 <= k < chart.judge_line_list[i].event_layers.len() ==> with_speed(
                chart,
                speed,
            ).judge_line_list[i].event_layers[k] == chart.judge_line_list[i].event_layers[k],
{
}

/// Spreading the notes by zero puts every note on the centre.
pub proof fn lemma_separation_by_zero(chart: ChartView, i: int, j: int)
    requires
        0 <= i < chart.judge_line_list.len(),
        0 <= j < chart.judge_line_list[i].notes.len(),
    ensures
        separated(chart, Ratio { num: 0, den: 1 }).judge_line_list[i].notes[j].position_x.num == 0,
{
}

} // verus!
