//! What may be done to a chart once it is made: spreading its notes, and
//! fixing the scroll speed of its lines.

use vstd::prelude::*;
use crate::rpe::{
    ChartView, LayerView, LineView, RPEChart, RPEEventLayer, RPEJudgeLine, RPENote,
    RPESpeedEvent, Ratio, layers_view, lines_view, list_view,
};

verus! {

/// The note with its place multiplied by `rate`.
pub open spec fn scaled_note(note: RPENote, rate: Ratio) -> RPENote {
    RPENote { position_x: note.position_x.scaled(rate), ..note }
}

/// The notes with their places multiplied by `rate`.
pub open spec fn scaled_notes(notes: Seq<RPENote>, rate: Ratio) -> Seq<RPENote> {
    notes.map_values(|note: RPENote| scaled_note(note, rate))
}

/// The place of each of the notes can be multiplied by `rate`.
pub open spec fn notes_scalable(notes: Seq<RPENote>, rate: Ratio) -> bool {
    forall|j: int| 0 <= j < notes.len() ==> (#[trigger] notes[j]).position_x.scalable_by(rate)
}

/// Multiplies the place of each of the notes by `rate`.
pub fn scale_notes(notes: &mut Vec<RPENote>, rate: Ratio)
    requires
        notes_scalable(old(notes)@, rate),
    ensures
        final(notes)@ == scaled_notes(old(notes)@, rate),
{
    let mut j: usize = 0;
    while j < notes.len()
        invariant
            j <= notes.len(),
            notes@.len() == old(notes)@.len(),
            forall|k: int| 0 <= k < j ==> notes@[k] == scaled_note(#[trigger] old(notes)@[k], rate),
            forall|k: int| j <= k < notes@.len() ==> notes@[k] == #[trigger] old(notes)@[k],
            notes_scalable(old(notes)@, rate),
        decreases notes.len() - j,
    {
        assert(notes@[j as int] == old(notes)@[j as int]);
        let mut note = notes[j];
        note.position_x = note.position_x.scale(rate);
        notes.set(j, note);
        j += 1;
    }
    assert(notes@ =~= scaled_notes(old(notes)@, rate));
}

/// The line with the places of its notes multiplied by `rate`.
pub open spec fn scaled_line(line: LineView, rate: Ratio) -> LineView {
    LineView { notes: scaled_notes(line.notes, rate), ..line }
}

/// The chart with the places of all its notes multiplied by `rate`.
pub open spec fn separated(chart: ChartView, rate: Ratio) -> ChartView {
    ChartView {
        judge_line_list: chart.judge_line_list.map_values(|line: LineView| scaled_line(line, rate)),
        ..chart
    }
}

/// The place of each note of the chart can be multiplied by `rate`.
pub open spec fn separable(chart: ChartView, rate: Ratio) -> bool {
    forall|i: int|
        0 <= i < chart.judge_line_list.len() ==> notes_scalable(
            (#[trigger] chart.judge_line_list[i]).notes,
            rate,
        )
}

/// Multiplies the place of every note of every judge line by `rate`.
pub fn apply_separation(chart: &mut RPEChart, rate: Ratio)
    requires
        separable(old(chart)@, rate),
    ensures
        final(chart)@ == separated(old(chart)@, rate),
{
    let mut i: usize = 0;
    while i < chart.judge_line_list.len()
        invariant
            i <= chart.judge_line_list.len(),
            chart.meta == old(chart).meta,
            chart.bpm_list == old(chart).bpm_list,
            chart.judge_line_list@.len() == old(chart).judge_line_list@.len(),
            forall|k: int|
                0 <= k < i ==> (#[trigger] chart.judge_line_list@[k])@ == scaled_line(
                    old(chart).judge_line_list@[k]@,
                    rate,
                ),
            forall|k: int|
                i <= k < chart.judge_line_list@.len() ==> #[trigger] chart.judge_line_list@[k] == old(
                    chart,
                ).judge_line_list@[k],
            separable(old(chart)@, rate),
        decreases chart.judge_line_list.len() - i,
    {
        assert(old(chart)@.judge_line_list[i as int] == old(chart).judge_line_list@[i as int]@);
        scale_notes(&mut chart.judge_line_list[i].notes, rate);
        i += 1;
    }
    assert(chart@.judge_line_list =~= separated(old(chart)@, rate).judge_line_list);
}

/// Tells whether `apply_separation` may be called with `rate`.
pub fn can_separate(chart: &RPEChart, rate: Ratio) -> (ok: bool)
    ensures
        ok == separable(chart@, rate),
{
    let mut i: usize = 0;
    while i < chart.judge_line_list.len()
        invariant
            i <= chart.judge_line_list.len(),
            forall|k: int| 0 <= k < i ==> notes_scalable((#[trigger] chart@.judge_line_list[k]).notes, rate),
        decreases chart.judge_line_list.len() - i,
    {
        let notes = &chart.judge_line_list[i].notes;
        assert(chart@.judge_line_list[i as int].notes == notes@);
        let mut j: usize = 0;
        while j < notes.len()
            invariant
                j <= notes.len(),
                i < chart.judge_line_list.len(),
                chart@.judge_line_list[i as int].notes == notes@,
                forall|k: int| 0 <= k < j ==> (#[trigger] notes@[k]).position_x.scalable_by(rate),
            decreases notes.len() - j,
        {
            if !notes[j].position_x.can_scale(rate) {
                assert(!notes_scalable(chart@.judge_line_list[i as int].notes, rate));
                return false;
            }
            j += 1;
        }
        i += 1;
    }
    true
}

/// The speed event with `speed` as its speed from start to end.
pub open spec fn sped_event(event: RPESpeedEvent, speed: Ratio) -> RPESpeedEvent {
    RPESpeedEvent { start: speed, end: speed, ..event }
}

/// The event layers with `speed` as the speed of the first speed event of
/// the first layer. Where there is no first layer, or it has no speed
/// events, the layers are as they were.
pub open spec fn sped_layers(layers: Seq<Option<LayerView>>, speed: Ratio) -> Seq<Option<LayerView>> {
    if layers.len() > 0 && layers[0] is Some && layers[0].unwrap().speed_events is Some
        && layers[0].unwrap().speed_events.unwrap().len() > 0 {
        let layer = layers[0].unwrap();
        let events = layer.speed_events.unwrap();
        layers.update(
            0,
            Some(LayerView { speed_events: Some(events.update(0, sped_event(events[0], speed))), ..layer }),
        )
    } else {
        layers
    }
}

/// The line with `speed` as the speed of its first speed event.
pub open spec fn sped_line(line: LineView, speed: Ratio) -> LineView {
    LineView { event_layers: sped_layers(line.event_layers, speed), ..line }
}

/// The chart with `speed` as the speed of the first speed event of each line.
pub open spec fn with_speed(chart: ChartView, speed: Ratio) -> ChartView {
    ChartView {
        judge_line_list: chart.judge_line_list.map_values(|line: LineView| sped_line(line, speed)),
        ..chart
    }
}

/// Sets the speed of the first speed event of the first event layer of a
/// line, from start to end. A line without such an event stays as it is.
pub fn set_line_speed(line: &mut RPEJudgeLine, speed: Ratio)
    ensures
        final(line)@ == sped_line(old(line)@, speed),
{
    if line.event_layers.len() > 0 {
        match &mut line.event_layers[0] {
            Some(layer) => {
                match &mut layer.speed_events {
                    Some(events) => {
                        if events.len() > 0 {
                            let mut event = events[0];
                            event.start = speed;
                            event.end = speed;
                            events.set(0, event);
                        }
                    },
                    None => {},
                }
            },
            None => {},
        }
    }
    assert(line@.event_layers =~= sped_layers(old(line)@.event_layers, speed));
}

/// Sets the speed of the first speed event of the first event layer of
/// every judge line. Lines without such an event stay as they are.
pub fn apply_speed(chart: &mut RPEChart, speed: Ratio)
    ensures
        final(chart)@ == with_speed(old(chart)@, speed),
{
    let mut i: usize = 0;
    while i < chart.judge_line_list.len()
        invariant
            i <= chart.judge_line_list.len(),
            chart.meta == old(chart).meta,
            chart.bpm_list == old(chart).bpm_list,
            chart.judge_line_list@.len() == old(chart).judge_line_list@.len(),
            forall|k: int|
                0 <= k < i ==> (#[trigger] chart.judge_line_list@[k])@ == sped_line(
                    old(chart).judge_line_list@[k]@,
                    speed,
                ),
            forall|k: int|
                i <= k < chart.judge_line_list@.len() ==> #[trigger] chart.judge_line_list@[k] == old(
                    chart,
                ).judge_line_list@[k],
        decreases chart.judge_line_list.len() - i,
    {
        set_line_speed(&mut chart.judge_line_list[i], speed);
        i += 1;
    }
    assert(chart@.judge_line_list =~= with_speed(old(chart)@, speed).judge_line_list);
}

/// The chart after the two steps, each taken where its value is given:
/// first the notes are spread, then the speed is fixed.
pub open spec fn processed(chart: ChartView, rate: Option<Ratio>, speed: Option<Ratio>) -> ChartView {
    let spread = match rate {
        Some(rate) => separated(chart, rate),
        None => chart,
    };
    match speed {
        Some(speed) => with_speed(spread, speed),
        None => spread,
    }
}

/// Spreads the notes by `sepration_rate` and fixes the scroll speed at
/// `speed`, each where it is given.
pub fn post_process(sepration_rate: Option<Ratio>, chart: &mut RPEChart, speed: Option<Ratio>)
    requires
        sepration_rate is Some ==> separable(old(chart)@, sepration_rate.unwrap()),
    ensures
        final(chart)@ == processed(old(chart)@, sepration_rate, speed),
{
    if let Some(rate) = sepration_rate {
        apply_separation(chart, rate);
    }
    if let Some(speed) = speed {
        apply_speed(chart, speed);
    }
}

} // verus!
