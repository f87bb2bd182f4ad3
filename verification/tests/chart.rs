use midi2rpe::conversation::{fill_bpm, fill_lines, fill_meta};
use midi2rpe::convert::{build_chart, convert, song_fits, ticks_per_beat, ConvertError};
use midi2rpe::post::post_process;
use midi2rpe::midi::{is_frame_rate_safe, read_smf, ReadError, Smf, Timing, TrackEvent, TrackEventKind};
use midi2rpe::rpe::{
    RPEBpmItem, RPEChart, RPEEvent, RPEEventLayer, RPEMetadata, RPENote, RPESpeedEvent, Ratio,
    Triple,
};

fn ev(delta: u32, kind: TrackEventKind) -> TrackEvent {
    TrackEvent { delta, kind }
}

fn note_on(delta: u32, key: u8) -> TrackEvent {
    ev(delta, TrackEventKind::NoteOn { key })
}

fn tempo(delta: u32, micros: u32) -> TrackEvent {
    ev(delta, TrackEventKind::Tempo(micros))
}

fn name(delta: u32, text: &str) -> TrackEvent {
    ev(delta, TrackEventKind::TrackName(text.as_bytes().to_vec()))
}

fn song(ticks: u16, tracks: Vec<Vec<TrackEvent>>) -> Smf {
    Smf { timing: Timing::Metrical(ticks), tracks }
}

fn note(time: Triple, num: i64) -> RPENote {
    let mut n = RPENote::default();
    n.start_time = time;
    n.end_time = time;
    n.position_x = Ratio { num, den: 88 };
    n
}

fn whole(n: i64) -> Ratio {
    Ratio { num: n, den: 1 }
}

fn layers() -> Vec<Option<RPEEventLayer>> {
    let flat = RPEEvent {
        easing_left: whole(0),
        easing_right: whole(1),
        bezier: 0,
        bezier_points: [whole(0), whole(0), whole(0), whole(0)],
        easing_type: 1,
        start: whole(0),
        end: whole(0),
        start_time: Triple(0, 0, 1),
        end_time: Triple(1, 0, 1),
    };
    vec![Some(RPEEventLayer {
        alpha_events: Some(vec![RPEEvent { start: whole(255), end: whole(255), ..flat }]),
        move_x_events: Some(vec![flat]),
        move_y_events: Some(vec![flat]),
        rotate_events: Some(vec![flat]),
        speed_events: Some(vec![RPESpeedEvent {
            start_time: Triple(0, 0, 1),
            end_time: Triple(1, 0, 1),
            start: whole(10),
            end: whole(10),
        }]),
    })]
}

fn chunk(id: &[u8; 4], body: &[u8]) -> Vec<u8> {
    let mut out = id.to_vec();
    out.extend_from_slice(&(body.len() as u32).to_be_bytes());
    out.extend_from_slice(body);
    out
}

fn file(division: [u8; 2], tracks: &[&[u8]]) -> Vec<u8> {
    let mut head = vec![0, 1];
    head.extend_from_slice(&(tracks.len() as u16).to_be_bytes());
    head.extend_from_slice(&division);
    let mut out = chunk(b"MThd", &head);
    for t in tracks {
        out.extend_from_slice(&chunk(b"MTrk", t));
    }
    out
}

fn two_track_file() -> Vec<u8> {
    let control: [u8; 7] = [0x00, 0xff, 0x51, 0x03, 0x07, 0xa1, 0x20];
    let performance: [u8; 9] = [0x00, 0x90, 60, 64, 0x83, 0x60, 0x90, 72, 64];
    file([0x01, 0xe0], &[&control, &performance])
}

#[test]
fn two_track_song_becomes_one_tempo_and_one_line() {
    let smf = song(480, vec![vec![tempo(0, 500_000)], vec![note_on(0, 60), note_on(480, 72)]]);
    let chart = build_chart(&smf, None, None, &layers()).unwrap();
    assert_eq!(
        chart.bpm_list,
        vec![RPEBpmItem { bpm: Ratio { num: 60_000_000, den: 500_000 }, start_time: Triple(0, 0, 480) }]
    );
    assert_eq!(chart.bpm_list[0].bpm.num as f32 / chart.bpm_list[0].bpm.den as f32, 120.0);
    assert_eq!(chart.judge_line_list.len(), 1);
    let line = &chart.judge_line_list[0];
    assert_eq!(line.notes, vec![note(Triple(0, 0, 480), 0), note(Triple(1, 0, 480), 16200)]);
    assert_eq!(line.notes[0].position_x.num as f32 / line.notes[0].position_x.den as f32, 0.0);
    let x = line.notes[1].position_x.num as f32 / line.notes[1].position_x.den as f32;
    assert!((x - (72.0 - 60.0) / 88.0 * 1350.0).abs() < 0.001);
    assert_eq!(line.num_of_notes, 2);
    assert_eq!(line.event_layers, layers());
    assert_eq!(chart.meta.name, "Generated");
}

#[test]
fn two_track_file_becomes_one_tempo_and_one_line() {
    let chart = convert(&two_track_file(), None, None, &layers(), None, None).unwrap();
    let smf = song(480, vec![vec![tempo(0, 500_000)], vec![note_on(0, 60), note_on(480, 72)]]);
    assert_eq!(chart, build_chart(&smf, None, None, &layers()).unwrap());
    assert_eq!(chart.bpm_list.len(), 1);
    assert_eq!(chart.bpm_list[0].start_time, Triple(0, 0, 480));
    assert_eq!(chart.judge_line_list.len(), 1);
    assert_eq!(chart.judge_line_list[0].notes[1].start_time, Triple(1, 0, 480));
    assert_eq!(chart.judge_line_list[0].notes[1].position_x, Ratio { num: 16200, den: 88 });
}

#[test]
fn file_is_read_event_by_event() {
    let mut control: Vec<u8> = vec![0x00, 0xff, 0x03, 0x04];
    control.extend_from_slice(b"Song");
    control.extend_from_slice(&[0x00, 0xff, 0x51, 0x03, 0x0f, 0x42, 0x40]);
    control.extend_from_slice(&[0x05, 0xff, 0x2f, 0x00]);
    let performance: Vec<u8> = vec![
        0x00, 0x90, 61, 100, 0x0a, 0x80, 61, 0, 0x00, 0xf0, 0x01, 0xf7, 0x81, 0x00, 0xff, 0x2f, 0x00,
    ];
    let smf = read_smf(&file([0x00, 0x60], &[&control, &performance])).unwrap();
    let expected = song(
        96,
        vec![
            vec![name(0, "Song"), tempo(0, 1_000_000), ev(5, TrackEventKind::Meta)],
            vec![
                note_on(0, 61),
                ev(10, TrackEventKind::Other),
                ev(0, TrackEventKind::Other),
                ev(128, TrackEventKind::Meta),
            ],
        ],
    );
    assert_eq!(smf, expected);
}

#[test]
fn bytes_that_are_no_midi_file_are_refused() {
    assert!(matches!(convert(b"not a midi file", None, None, &layers(), None, None), Err(ConvertError::Malformed(_))));
    assert!(matches!(convert(&[], None, None, &layers(), None, None), Err(ConvertError::Malformed(_))));
    assert!(read_smf(b"RIFFxxxx").is_err());
}

#[test]
fn timecode_file_is_refused() {
    let bytes = file([0xe7, 0x28], &[&[0x00, 0x90, 60, 64]]);
    assert!(matches!(convert(&bytes, None, None, &layers(), None, None), Err(ConvertError::UnsupportedTiming)));
    assert_eq!(read_smf(&bytes).unwrap().timing, Timing::Timecode(25, 40));
}

#[test]
fn timecode_song_is_refused() {
    let smf = Smf { timing: Timing::Timecode(25, 40), tracks: vec![vec![note_on(0, 60)]] };
    assert!(matches!(ticks_per_beat(&smf), Err(ConvertError::UnsupportedTiming)));
    assert!(matches!(build_chart(&smf, None, None, &layers()), Err(ConvertError::UnsupportedTiming)));
}

#[test]
fn ticks_per_beat_are_read_from_the_timing() {
    assert_eq!(ticks_per_beat(&song(480, vec![])).unwrap(), 480);
    assert_eq!(ticks_per_beat(&song(0, vec![])).unwrap(), 0);
}

#[test]
fn file_without_ticks_in_a_beat_is_out_of_range() {
    let bytes = file([0x00, 0x00], &[&[0x00, 0x90, 60, 64]]);
    assert!(matches!(convert(&bytes, None, None, &layers(), None, None), Err(ConvertError::OutOfRange)));
    assert!(!song_fits(&song(0, vec![]), 0));
}

#[test]
fn file_with_too_many_ticks_is_out_of_range() {
    let step: [u8; 7] = [0xff, 0xff, 0xff, 0x7f, 0x90, 60, 64];
    let mut track = Vec::new();
    for _ in 0..17 {
        track.extend_from_slice(&step);
    }
    let bytes = file([0x01, 0xe0], &[&track]);
    assert!(matches!(convert(&bytes, None, None, &layers(), None, None), Err(ConvertError::OutOfRange)));
    let mut fewer = Vec::new();
    for _ in 0..16 {
        fewer.extend_from_slice(&step);
    }
    let chart = convert(&file([0x01, 0xe0], &[&fewer]), None, None, &layers(), None, None).unwrap();
    assert_eq!(chart.judge_line_list[0].notes.len(), 16);
    assert_eq!(chart.judge_line_list[0].notes[15].start_time, Triple(8947848, 0x0fff_ffff * 16 % 480, 480));
}

#[test]
fn song_fits_when_ticks_and_beats_fit() {
    assert!(song_fits(&song(480, vec![vec![tempo(0, 1)], vec![note_on(u32::MAX, 60)]]), 480));
    assert!(!song_fits(&song(480, vec![vec![tempo(1, 1)], vec![note_on(u32::MAX, 60)]]), 480));
    assert!(!song_fits(&song(1, vec![vec![note_on(0x8000_0000, 60)]]), 1));
    assert!(!song_fits(&song(1, vec![vec![tempo(0x8000_0000, 60)]]), 1));
    assert!(song_fits(&song(1, vec![vec![ev(0x8000_0000, TrackEventKind::Meta)]]), 1));
}

#[test]
fn title_is_the_name_of_the_first_named_control_track() {
    let smf = song(
        480,
        vec![
            vec![name(0, "Lead"), note_on(0, 60)],
            vec![tempo(0, 500_000)],
            vec![ev(0, TrackEventKind::Meta), name(0, "My Song")],
            vec![name(0, "Other Song")],
        ],
    );
    let mut meta = RPEMetadata::default();
    fill_meta(&mut meta, &smf, Some("a.mp3".to_string()), Some("b.png".to_string()));
    assert_eq!(meta.name, "My Song");
    assert_eq!(meta.song, "a.mp3");
    assert_eq!(meta.background, "b.png");
    assert_eq!(meta.offset, 0);
    assert_eq!(meta.rpe_version, 0);
    assert_eq!(meta.charter, "");
    assert_eq!(meta.composer, "");
}

#[test]
fn title_falls_back_where_no_control_track_is_named() {
    let smf = song(480, vec![vec![name(0, "Lead"), note_on(0, 60)], vec![tempo(0, 500_000)]]);
    let mut meta = RPEMetadata::default();
    fill_meta(&mut meta, &smf, None, None);
    assert_eq!(meta.name, "Generated");
    let mut meta = RPEMetadata::default();
    fill_meta(&mut meta, &song(480, vec![]), None, None);
    assert_eq!(meta.name, "Generated");
}

#[test]
fn missing_file_names_are_written_as_missingno() {
    let mut meta = RPEMetadata::default();
    meta.charter = "someone".to_string();
    meta.offset = 12;
    fill_meta(&mut meta, &song(480, vec![]), None, Some("bg.png".to_string()));
    assert_eq!(meta.song, "missingno");
    assert_eq!(meta.background, "bg.png");
    assert_eq!(meta.charter, "someone");
    assert_eq!(meta.offset, 12);
    fill_meta(&mut meta, &song(480, vec![]), Some("s.ogg".to_string()), None);
    assert_eq!(meta.song, "s.ogg");
    assert_eq!(meta.background, "missingno");
}

#[test]
fn lines_follow_the_order_of_performance_tracks() {
    let smf = song(
        4,
        vec![
            vec![name(0, "first"), note_on(1, 60)],
            vec![name(0, "conductor")],
            vec![],
            vec![name(0, "second"), ev(0, TrackEventKind::Other)],
            vec![note_on(9, 61), name(0, "third")],
        ],
    );
    let mut chart = RPEChart::default();
    chart.meta.name = "kept".to_string();
    chart.bpm_list.push(RPEBpmItem { bpm: whole(1), start_time: Triple(0, 0, 1) });
    fill_lines(&mut chart, &smf, 4, &layers());
    let names: Vec<&str> = chart.judge_line_list.iter().map(|l| l.name.as_str()).collect();
    assert_eq!(names, vec!["first", "second", "third"]);
    assert_eq!(chart.judge_line_list[0].notes, vec![note(Triple(0, 1, 4), 0)]);
    assert_eq!(chart.judge_line_list[1].notes, vec![]);
    assert_eq!(chart.judge_line_list[2].notes, vec![note(Triple(2, 1, 4), 1350)]);
    for line in &chart.judge_line_list {
        assert_eq!(line.event_layers, layers());
        assert_eq!(line.num_of_notes, line.notes.len());
    }
    assert_eq!(chart.meta.name, "kept");
    assert_eq!(chart.bpm_list.len(), 1);
}

#[test]
fn lines_replace_what_was_there() {
    let mut chart = RPEChart::default();
    fill_lines(&mut chart, &song(4, vec![vec![note_on(0, 1)], vec![note_on(0, 2)]]), 4, &vec![]);
    assert_eq!(chart.judge_line_list.len(), 2);
    fill_lines(&mut chart, &song(4, vec![vec![note_on(0, 1)]]), 4, &vec![]);
    assert_eq!(chart.judge_line_list.len(), 1);
    fill_lines(&mut chart, &song(4, vec![vec![]]), 4, &vec![]);
    assert_eq!(chart.judge_line_list.len(), 0);
}

#[test]
fn tempo_list_takes_tracks_in_their_order_not_in_order_of_time() {
    let smf = song(
        100,
        vec![vec![tempo(300, 400_000)], vec![note_on(0, 60), tempo(50, 600_000)]],
    );
    let mut list = vec![RPEBpmItem { bpm: whole(1), start_time: Triple(0, 0, 1) }];
    fill_bpm(&mut list, &smf, 100);
    assert_eq!(
        list,
        vec![
            RPEBpmItem { bpm: Ratio { num: 60_000_000, den: 400_000 }, start_time: Triple(3, 0, 100) },
            RPEBpmItem { bpm: Ratio { num: 60_000_000, den: 600_000 }, start_time: Triple(3, 50, 100) },
        ]
    );
}

#[test]
fn chart_of_song_without_tracks_is_empty_but_titled() {
    let chart = build_chart(&song(480, vec![]), Some("x.mp3".to_string()), None, &layers()).unwrap();
    assert_eq!(chart.meta.name, "Generated");
    assert_eq!(chart.meta.song, "x.mp3");
    assert_eq!(chart.meta.background, "missingno");
    assert_eq!(chart.bpm_list, vec![]);
    assert_eq!(chart.judge_line_list, vec![]);
}

#[test]
fn empty_chart_is_the_default() {
    let chart = RPEChart::default();
    assert_eq!(chart.meta, RPEMetadata::default());
    assert_eq!(chart.meta.name, "");
    assert_eq!(chart.bpm_list, vec![]);
    assert_eq!(chart.judge_line_list, vec![]);
}

#[test]
fn file_is_converted_and_processed_in_one_call() {
    let rate = Some(Ratio { num: 3, den: 2 });
    let speed = Some(Ratio { num: 15, den: 2 });
    let chart = convert(
        &two_track_file(),
        Some("song.mp3".to_string()),
        Some("cover.png".to_string()),
        &layers(),
        rate,
        speed,
    )
    .unwrap();
    let mut expected = convert(
        &two_track_file(),
        Some("song.mp3".to_string()),
        Some("cover.png".to_string()),
        &layers(),
        None,
        None,
    )
    .unwrap();
    post_process(rate, &mut expected, speed);
    assert_eq!(chart, expected);
    assert_eq!(chart.meta.song, "song.mp3");
    assert_eq!(chart.meta.background, "cover.png");
    let line = &chart.judge_line_list[0];
    assert_eq!(line.notes[1].position_x, Ratio { num: 48600, den: 176 });
    let first = line.event_layers[0].as_ref().unwrap().speed_events.as_ref().unwrap()[0];
    assert_eq!(first.start, Ratio { num: 15, den: 2 });
    assert_eq!(first.end, Ratio { num: 15, den: 2 });
}

#[test]
fn rate_that_overflows_is_refused() {
    let huge = Some(Ratio { num: i64::MAX, den: 1 });
    assert!(matches!(
        convert(&two_track_file(), None, None, &layers(), huge, None),
        Err(ConvertError::RateOutOfRange)
    ));
    let fine = Some(Ratio { num: 1, den: u64::MAX });
    assert!(matches!(
        convert(&two_track_file(), None, None, &layers(), fine, None),
        Err(ConvertError::RateOutOfRange)
    ));
    let largest = Some(Ratio { num: i64::MAX / 16200, den: u64::MAX / 88 });
    assert!(convert(&two_track_file(), None, None, &layers(), largest, None).is_ok());
    let only_speed = Some(Ratio { num: i64::MAX, den: u64::MAX });
    assert!(convert(&two_track_file(), None, None, &layers(), None, only_speed).is_ok());
}

#[test]
fn malformed_file_is_refused_before_the_rate_is_looked_at() {
    let huge = Some(Ratio { num: i64::MAX, den: 1 });
    assert!(matches!(convert(b"MThd", None, None, &layers(), huge, None), Err(ConvertError::Malformed(_))));
}

#[test]
fn header_with_the_least_frame_rate_is_refused_unread() {
    let bytes: [u8; 14] = [b'M', b'T', b'h', b'd', 0, 0, 0, 6, 0, 1, 0, 1, 0x80, 0x00];
    assert!(!is_frame_rate_safe(&bytes));
    assert!(matches!(read_smf(&bytes), Err(ReadError::FrameRate)));
    assert!(matches!(convert(&bytes, None, None, &layers(), None, None), Err(ConvertError::FrameRate)));
    let with_track = file([0x80, 0x28], &[&[0x00, 0x90, 60, 64]]);
    assert!(matches!(read_smf(&with_track), Err(ReadError::FrameRate)));
    assert!(matches!(
        convert(&with_track, None, None, &layers(), Some(Ratio { num: i64::MAX, den: 1 }), None),
        Err(ConvertError::FrameRate)
    ));
}

#[test]
fn second_header_with_the_least_frame_rate_is_refused_unread() {
    let mut bytes = file([0x01, 0xe0], &[&[0x00, 0x90, 60, 64]]);
    bytes.extend_from_slice(&chunk(b"MThd", &[0, 1, 0, 1, 0x80, 0x00]));
    assert!(!is_frame_rate_safe(&bytes));
    assert!(matches!(read_smf(&bytes), Err(ReadError::FrameRate)));
}

#[test]
fn wrapped_header_with_the_least_frame_rate_is_refused_unread() {
    let inner = file([0x80, 0x00], &[&[0x00, 0x90, 60, 64]]);
    let mut bytes = b"RIFF".to_vec();
    bytes.extend_from_slice(&((inner.len() + 12) as u32).to_le_bytes());
    bytes.extend_from_slice(b"RMIDdata");
    bytes.extend_from_slice(&(inner.len() as u32).to_le_bytes());
    bytes.extend_from_slice(&inner);
    assert!(!is_frame_rate_safe(&bytes));
    assert!(matches!(read_smf(&bytes), Err(ReadError::FrameRate)));
}

#[test]
fn wrapped_file_is_read() {
    let inner = two_track_file();
    let mut bytes = b"RIFF".to_vec();
    bytes.extend_from_slice(&((inner.len() + 12) as u32).to_le_bytes());
    bytes.extend_from_slice(b"RMIDdata");
    bytes.extend_from_slice(&(inner.len() as u32).to_le_bytes());
    bytes.extend_from_slice(&inner);
    assert!(is_frame_rate_safe(&bytes));
    assert_eq!(read_smf(&bytes).unwrap(), read_smf(&inner).unwrap());
}

#[test]
fn header_mark_inside_a_track_counts_too() {
    let mut name: Vec<u8> = vec![0x00, 0xff, 0x03, 13];
    name.extend_from_slice(b"MThd");
    name.extend_from_slice(&[b'x'; 8]);
    name.push(0xc2);
    let safe = file([0x01, 0xe0], &[&name]);
    assert!(is_frame_rate_safe(&safe));
    assert!(read_smf(&safe).is_ok());
    let last = name.len() - 1;
    name[last] = 0x80;
    let refused = file([0x01, 0xe0], &[&name]);
    assert!(!is_frame_rate_safe(&refused));
    assert!(matches!(read_smf(&refused), Err(ReadError::FrameRate)));
}

#[test]
fn other_frame_rates_and_short_bytes_are_safe() {
    assert!(is_frame_rate_safe(&[]));
    assert!(is_frame_rate_safe(b"MThd"));
    assert!(is_frame_rate_safe(&[b'M', b'T', b'h', b'd', 0, 0, 0, 6, 0, 1, 0, 1]));
    assert!(!is_frame_rate_safe(&[b'M', b'T', b'h', b'd', 0, 0, 0, 6, 0, 1, 0, 1, 0x80]));
    assert!(is_frame_rate_safe(&[b'M', b'T', b'h', b'd', 0, 0, 0, 6, 0, 1, 0, 1, 0x81, 0x80]));
    assert!(is_frame_rate_safe(&[b'M', b'T', b'h', b'd', 0, 0, 0, 6, 0, 1, 0, 1, 0x7f, 0x80]));
    assert!(is_frame_rate_safe(&[b'M', b'T', b'r', b'k', 0, 0, 0, 6, 0, 1, 0, 1, 0x80, 0x00]));
    assert!(is_frame_rate_safe(&file([0xe7, 0x28], &[&[0x00, 0x90, 60, 64]])));
    assert!(is_frame_rate_safe(&two_track_file()));
    assert!(matches!(
        read_smf(&[b'M', b'T', b'h', b'd', 0, 0, 0, 6, 0, 1, 0, 1, 0x81, 0x80]),
        Err(ReadError::Malformed(_))
    ));
}

#[test]
fn numbers_read_from_a_file_stay_within_its_limits() {
    let track: Vec<u8> = vec![
        0xff, 0xff, 0xff, 0x7f, 0x90, 127, 64, 0x00, 0xff, 0x51, 0x03, 0xff, 0xff, 0xff,
    ];
    let smf = read_smf(&file([0x7f, 0xff], &[&track])).unwrap();
    assert_eq!(smf.timing, Timing::Metrical(0x7fff));
    assert_eq!(smf.tracks, vec![vec![note_on(0x0fff_ffff, 127), tempo(0, 0x00ff_ffff)]]);
}
