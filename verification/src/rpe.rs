//! The chart document: exact numbers, time triples, notes, tempo items,
//! event layers and judge lines, each with the mathematical value that the
//! contracts of the crate speak of.

use vstd::prelude::*;

verus! {

/// Width of the stage, in stage units.
pub const RPE_WIDTH: i64 = 1350;

/// An exact number, `num / den`.
///
/// Every quantity that the chart format writes as a decimal number is kept
/// exactly, as a quotient of two integers. A zero denominator is a value of
/// the type like any other and stands for a quotient that does not exist.
#[derive(Clone, Copy, Debug, PartialEq, Eq, Structural)]
pub struct Ratio {
    pub num: i64,
    pub den: u64,
}

impl Ratio {
    /// `self` and `other` are the same number.
    pub open spec fn same_number(self, other: Ratio) -> bool {
        self.num * other.den == other.num * self.den
    }

    /// `self` is a smaller number than `other`.
    pub open spec fn less_than(self, other: Ratio) -> bool {
        self.num * other.den < other.num * self.den
    }

    /// `self` is the number `other` with its sign changed.
    pub open spec fn mirrors(self, other: Ratio) -> bool {
        self.num * other.den == -(other.num * self.den)
    }

    /// The product of `self` and `rate` can be held.
    pub open spec fn scalable_by(self, rate: Ratio) -> bool {
        &&& i64::MIN <= self.num * rate.num <= i64::MAX
        &&& self.den * rate.den <= u64::MAX
    }

    /// The product of `self` and `rate`, numerators and denominators multiplied.
    pub open spec fn scaled(self, rate: Ratio) -> Ratio
        recommends
            self.scalable_by(rate),
    {
        Ratio { num: (self.num * rate.num) as i64, den: (self.den * rate.den) as u64 }
    }

    /// The whole number `n`.
    pub fn from_int(n: i64) -> (r: Ratio)
        ensures
            r == (Ratio { num: n, den: 1 }),
    {
        Ratio { num: n, den: 1 }
    }

    /// Tells whether `scale` may be called with `rate`.
    pub fn can_scale(self, rate: Ratio) -> (ok: bool)
        ensures
            ok == self.scalable_by(rate),
    {
        proof {
            lemma_product_bounds(self.num as int, rate.num as int, 0x8000_0000_0000_0000);
            lemma_product_bounds(self.den as int, rate.den as int, 0xffff_ffff_ffff_ffff);
        }
        let n: i128 = (self.num as i128) * (rate.num as i128);
        let d: u128 = (self.den as u128) * (rate.den as u128);
        -0x8000_0000_0000_0000i128 <= n && n <= 0x7fff_ffff_ffff_ffffi128
            && d <= 0xffff_ffff_ffff_ffffu128
    }

    /// Multiplies by `rate`.
    pub fn scale(self, rate: Ratio) -> (r: Ratio)
        requires
            self.scalable_by(rate),
        ensures
            r == self.scaled(rate),
            r.num == self.num * rate.num,
            r.den == self.den * rate.den,
    {
        Ratio { num: self.num * rate.num, den: self.den * rate.den }
    }
}

/// A product is bounded by the product of the bounds of its factors.
pub proof fn lemma_product_bounds(a: int, b: int, bound: int)
    requires
        -bound <= a <= bound,
        -bound <= b <= bound,
    ensures
        -(bound * bound) <= a * b <= bound * bound,
{
    assert(-(bound * bound) <= a * b <= bound * bound) by (nonlinear_arith)
        requires
            -bound <= a <= bound,
            -bound <= b <= bound,
    ;
}

/// A time position in beats: `self.0 + self.1 / self.2`.
#[derive(Clone, Copy, Debug, PartialEq, Eq, Structural)]
pub struct Triple(pub i32, pub u32, pub u32);

impl Triple {
    /// The position in ticks, where a beat has `self.2` ticks.
    pub open spec fn ticks(self) -> int {
        self.0 * self.2 + self.1
    }
}

impl Default for Triple {
    fn default() -> (r: Triple)
        ensures
            r == Triple(0, 0, 1),
    {
        Triple(0, 0, 1)
    }
}

/// An element of the game's interface that a judge line can be attached to.
#[derive(Clone, Copy, Debug, PartialEq, Eq, Structural)]
pub enum UIElement {
    Bar,
    Pause,
    ComboNumber,
    Combo,
    Score,
    Name,
    Level,
}

/// A tempo that holds from `start_time` on.
#[derive(Clone, Copy, Debug, PartialEq, Eq, Structural)]
pub struct RPEBpmItem {
    pub bpm: Ratio,
    pub start_time: Triple,
}

/// A change of one visual trait of a judge line over a span of time.
#[derive(Clone, Copy, Debug, PartialEq, Eq)]
pub struct RPEEvent {
    pub easing_left: Ratio,
    pub easing_right: Ratio,
    pub bezier: u8,
    pub bezier_points: [Ratio; 4],
    pub easing_type: i32,
    pub start: Ratio,
    pub end: Ratio,
    pub start_time: Triple,
    pub end_time: Triple,
}

/// A change of the scroll speed of a judge line over a span of time.
#[derive(Clone, Copy, Debug, PartialEq, Eq, Structural)]
pub struct RPESpeedEvent {
    pub start_time: Triple,
    pub end_time: Triple,
    pub start: Ratio,
    pub end: Ratio,
}

/// One layer of visual events of a judge line.
#[derive(Clone, Debug, PartialEq, Eq)]
pub struct RPEEventLayer {
    pub alpha_events: Option<Vec<RPEEvent>>,
    pub move_x_events: Option<Vec<RPEEvent>>,
    pub move_y_events: Option<Vec<RPEEvent>>,
    pub rotate_events: Option<Vec<RPEEvent>>,
    pub speed_events: Option<Vec<RPESpeedEvent>>,
}

/// What an event layer holds.
pub struct LayerView {
    pub alpha_events: Option<Seq<RPEEvent>>,
    pub move_x_events: Option<Seq<RPEEvent>>,
    pub move_y_events: Option<Seq<RPEEvent>>,
    pub rotate_events: Option<Seq<RPEEvent>>,
    pub speed_events: Option<Seq<RPESpeedEvent>>,
}

/// What an optional list holds.
pub open spec fn list_view<T>(list: Option<Vec<T>>) -> Option<Seq<T>> {
    match list {
        Some(v) => Some(v@),
        None => None,
    }
}

impl View for RPEEventLayer {
    type V = LayerView;

    open spec fn view(&self) -> LayerView {
        LayerView {
            alpha_events: list_view(self.alpha_events),
            move_x_events: list_view(self.move_x_events),
            move_y_events: list_view(self.move_y_events),
            rotate_events: list_view(self.rotate_events),
            speed_events: list_view(self.speed_events),
        }
    }
}

/// Copies an optional list.
pub fn copy_list<T: Copy>(list: &Option<Vec<T>>) -> (r: Option<Vec<T>>)
    ensures
        list_view(r) == list_view(*list),
{
    match list {
        None => None,
        Some(items) => {
            let mut copy: Vec<T> = Vec::new();
            let mut i: usize = 0;
            while i < items.len()
                invariant
                    i <= items.len(),
                    copy@ == items@.take(i as int),
                decreases items.len() - i,
            {
                copy.push(items[i]);
                assert(items@.take(i + 1) =~= items@.take(i as int).push(items@[i as int]));
                i += 1;
            }
            assert(items@.take(items.len() as int) =~= items@);
            Some(copy)
        },
    }
}

impl RPEEventLayer {
    /// Copies the layer, list by list.
    pub fn duplicate(&self) -> (r: RPEEventLayer)
        ensures
            r@ == self@,
    {
        RPEEventLayer {
            alpha_events: copy_list(&self.alpha_events),
            move_x_events: copy_list(&self.move_x_events),
            move_y_events: copy_list(&self.move_y_events),
            rotate_events: copy_list(&self.rotate_events),
            speed_events: copy_list(&self.speed_events),
        }
    }
}

/// What a list of optional event layers holds.
pub open spec fn layers_view(layers: Seq<Option<RPEEventLayer>>) -> Seq<Option<LayerView>> {
    Seq::new(
        layers.len(),
        |i: int|
            match layers[i] {
                Some(layer) => Some(layer@),
                None => None,
            },
    )
}

/// Copies a list of optional event layers.
pub fn copy_layers(layers: &Vec<Option<RPEEventLayer>>) -> (r: Vec<Option<RPEEventLayer>>)
    ensures
        layers_view(r@) == layers_view(layers@),
{
    let mut copy: Vec<Option<RPEEventLayer>> = Vec::new();
    let mut i: usize = 0;
    while i < layers.len()
        invariant
            i <= layers.len(),
            copy@.len() == i,
            layers_view(copy@) == layers_view(layers@).take(i as int),
        decreases layers.len() - i,
    {
        let layer = match &layers[i] {
            Some(layer) => Some(layer.duplicate()),
            None => None,
        };
        let ghost before = copy@;
        copy.push(layer);
        assert forall|k: int| 0 <= k < i + 1 implies layers_view(copy@)[k] == layers_view(
            layers@,
        )[k] by {
            if k < i {
                assert(layers_view(before)[k] == layers_view(layers@).take(i as int)[k]);
            }
        }
        assert(layers_view(copy@) =~= layers_view(layers@).take(i + 1));
        i += 1;
    }
    assert(layers_view(layers@).take(layers.len() as int) =~= layers_view(layers@));
    copy
}

/// A note on a judge line.
#[derive(Clone, Copy, Debug, PartialEq, Eq, Structural)]
pub struct RPENote {
    pub kind: u8,
    pub above: u8,
    pub start_time: Triple,
    pub end_time: Triple,
    pub position_x: Ratio,
    pub y_offset: Ratio,
    pub alpha: u16,
    pub size: Ratio,
    pub speed: Ratio,
    pub is_fake: u8,
    pub visible_time: Ratio,
}

impl RPENote {
    /// The note that `default` gives.
    pub open spec fn initial() -> RPENote {
        RPENote {
            kind: 0,
            above: 1,
            start_time: Triple(0, 0, 1),
            end_time: Triple(0, 0, 1),
            position_x: Ratio { num: 0, den: 1 },
            y_offset: Ratio { num: 0, den: 1 },
            alpha: 255,
            size: Ratio { num: 1, den: 1 },
            speed: Ratio { num: 1, den: 1 },
            is_fake: 0,
            visible_time: Ratio { num: 999999, den: 1 },
        }
    }
}

impl Default for RPENote {
    fn default() -> (r: RPENote)
        ensures
            r == RPENote::initial(),
    {
        RPENote {
            kind: 0,
            above: 1,
            start_time: Triple(0, 0, 1),
            end_time: Triple(0, 0, 1),
            position_x: Ratio::from_int(0),
            y_offset: Ratio::from_int(0),
            alpha: 255,
            size: Ratio::from_int(1),
            speed: Ratio::from_int(1),
            is_fake: 0,
            visible_time: Ratio::from_int(999999),
        }
    }
}

/// A judge line: one lane of the chart, with its notes and event layers.
#[derive(Clone, Debug, PartialEq, Eq)]
pub struct RPEJudgeLine {
    pub group: i32,
    pub name: String,
    pub texture: String,
    pub parent: Option<isize>,
    pub event_layers: Vec<Option<RPEEventLayer>>,
    pub notes: Vec<RPENote>,
    pub num_of_notes: usize,
    pub is_cover: u8,
    pub z_order: i32,
    pub attach_ui: Option<UIElement>,
}

/// What a judge line holds.
pub struct LineView {
    pub group: i32,
    pub name: Seq<char>,
    pub texture: Seq<char>,
    pub parent: Option<isize>,
    pub event_layers: Seq<Option<LayerView>>,
    pub notes: Seq<RPENote>,
    pub num_of_notes: usize,
    pub is_cover: u8,
    pub z_order: i32,
    pub attach_ui: Option<UIElement>,
}

impl View for RPEJudgeLine {
    type V = LineView;

    open spec fn view(&self) -> LineView {
        LineView {
            group: self.group,
            name: self.name@,
            texture: self.texture@,
            parent: self.parent,
            event_layers: layers_view(self.event_layers@),
            notes: self.notes@,
            num_of_notes: self.num_of_notes,
            is_cover: self.is_cover,
            z_order: self.z_order,
            attach_ui: self.attach_ui,
        }
    }
}

impl LineView {
    /// The line without notes and without a name that carries `layers`.
    pub open spec fn initial(layers: Seq<Option<LayerView>>) -> LineView {
        LineView {
            group: 0,
            name: Seq::empty(),
            texture: Seq::empty(),
            parent: None,
            event_layers: layers,
            notes: Seq::empty(),
            num_of_notes: 0,
            is_cover: 1,
            z_order: 0,
            attach_ui: None,
        }
    }
}

impl RPEJudgeLine {
    /// The line without notes and without a name that carries `event_layers`.
    pub fn new(event_layers: Vec<Option<RPEEventLayer>>) -> (r: RPEJudgeLine)
        ensures
            r@ == LineView::initial(layers_view(event_layers@)),
    {
        RPEJudgeLine {
            group: 0,
            name: String::new(),
            texture: String::new(),
            parent: None,
            event_layers,
            notes: Vec::new(),
            num_of_notes: 0,
            is_cover: 1,
            z_order: 0,
            attach_ui: None,
        }
    }
}

/// What a list of judge lines holds.
pub open spec fn lines_view(lines: Seq<RPEJudgeLine>) -> Seq<LineView> {
    Seq::new(lines.len(), |i: int| lines[i]@)
}

/// The descriptive block of a chart.
#[derive(Clone, Debug, PartialEq, Eq)]
pub struct RPEMetadata {
    pub offset: i32,
    pub rpe_version: i32,
    pub charter: String,
    pub composer: String,
    pub name: String,
    pub song: String,
    pub background: String,
}

/// What a descriptive block holds.
pub struct MetaView {
    pub offset: i32,
    pub rpe_version: i32,
    pub charter: Seq<char>,
    pub composer: Seq<char>,
    pub name: Seq<char>,
    pub song: Seq<char>,
    pub background: Seq<char>,
}

impl View for RPEMetadata {
    type V = MetaView;

    open spec fn view(&self) -> MetaView {
        MetaView {
            offset: self.offset,
            rpe_version: self.rpe_version,
            charter: self.charter@,
            composer: self.composer@,
            name: self.name@,
            song: self.song@,
            background: self.background@,
        }
    }
}

impl MetaView {
    /// The block in which every number is zero and every text is empty.
    pub open spec fn initial() -> MetaView {
        MetaView {
            offset: 0,
            rpe_version: 0,
            charter: Seq::empty(),
            composer: Seq::empty(),
            name: Seq::empty(),
            song: Seq::empty(),
            background: Seq::empty(),
        }
    }
}

impl Default for RPEMetadata {
    fn default() -> (r: RPEMetadata)
        ensures
            r@ == MetaView::initial(),
    {
        RPEMetadata {
            offset: 0,
            rpe_version: 0,
            charter: String::new(),
            composer: String::new(),
            name: String::new(),
            song: String::new(),
            background: String::new(),
        }
    }
}

/// A chart: descriptive block, tempo list and judge lines.
#[derive(Clone, Debug, PartialEq, Eq)]
pub struct RPEChart {
    pub meta: RPEMetadata,
    pub bpm_list: Vec<RPEBpmItem>,
    pub judge_line_list: Vec<RPEJudgeLine>,
}

/// What a chart holds.
pub struct ChartView {
    pub meta: MetaView,
    pub bpm_list: Seq<RPEBpmItem>,
    pub judge_line_list: Seq<LineView>,
}

impl View for RPEChart {
    type V = ChartView;

    open spec fn view(&self) -> ChartView {
        ChartView {
            meta: self.meta@,
            bpm_list: self.bpm_list@,
            judge_line_list: lines_view(self.judge_line_list@),
        }
    }
}

impl ChartView {
    /// The chart without tempo items and without judge lines.
    pub open spec fn initial() -> ChartView {
        ChartView { meta: MetaView::initial(), bpm_list: Seq::empty(), judge_line_list: Seq::empty() }
    }
}

impl Default for RPEChart {
    fn default() -> (r: RPEChart)
        ensures
            r@ == ChartView::initial(),
    {
        let r = RPEChart {
            meta: RPEMetadata::default(),
            bpm_list: Vec::new(),
            judge_line_list: Vec::new(),
        };
        assert(r@.judge_line_list =~= Seq::empty());
        r
    }
}

} // verus!
