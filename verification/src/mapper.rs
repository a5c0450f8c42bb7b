//! The mapping engine: turns captured input into controller-report
//! mutations.
//!
//! A mapper holds an ordered list of mapping records; order matters, because
//! later mappings overwrite earlier ones on shared outputs. Button and axis
//! mappings fire while their key is held. A mouse mapping turns the frozen
//! per-frame mouse delta into a saturated two-axis stick deflection with an
//! integer remainder carried into the next frame.
//!
//! Fractional configuration values — the axis value, multipliers,
//! sensitivity and exponent — are held in thousandths, so every record is
//! made of plain integers. The real-valued response curve (hypotenuse,
//! dead-zone correction, magnitude exponentiation) is floating-point work
//! that the operating-system layer computes from these fields; its result
//! enters [`MouseMapping::map_controller`] as a [`CurveFrame`], and
//! everything from there on — the idle rule, saturation into the report
//! domain, the remainder feedback, the residue record and the diagnostic
//! history — is verified here for every possible curve value.

use vstd::prelude::*;

use crate::ds4::{spec_set_axis, spec_set_btn, DS4};
use crate::raw_input::RawInput;

verus! {

/// Clamping of a thousandths value to the unit range [-1000, 1000].
pub open spec fn spec_clamp_milli(v: int) -> int {
    if v < -1000 {
        -1000
    } else if v > 1000 {
        1000
    } else {
        v
    }
}

/// The report byte an axis mapping writes for a held key: the unit-range
/// value rescaled onto [0, 255] around the neutral 128.
pub open spec fn spec_axis_value_byte(v: int) -> u8 {
    (((spec_clamp_milli(v) + 1000) * 51) / 400) as u8
}

/// Saturation of a truncated curve output into the report's byte domain,
/// rebased from the signed axis range by 128: the written byte and the
/// clipped excess that becomes the next frame's remainder.
pub open spec fn spec_rebase_axis(axis: int) -> (int, int) {
    let a = axis + 128;
    if a > 255 {
        (255, a - 255)
    } else if a < 0 {
        (0, a)
    } else {
        (a, 0)
    }
}

/// A diagnostic ring of the most recent axis outputs, capped at 256 entries.
pub open spec fn spec_hist_push(h: Seq<i32>, v: i32) -> Seq<i32> {
    let h2 = h.push(v);
    if h2.len() > 256 {
        h2.remove(0)
    } else {
        h2
    }
}

/// Whether a mouse mapping sees no motion this frame: the scaled delta is
/// zero exactly when the raw delta is zero or the sensitivity is zero. An
/// idle frame writes nothing, whatever remainder is pending, and zeroes the
/// residue.
pub open spec fn spec_mouse_idle(sensitivity: i64, mouse: (i32, i32)) -> bool {
    sensitivity == 0 || (mouse.0 == 0 && mouse.1 == 0)
}

/// One frame's worth of response-curve output for one mouse mapping,
/// computed outside the core from the mapping's configuration and the
/// frame's scaled delta: the truncated per-axis curve value, and the
/// real-valued over-shoot estimate in thousandths that the mapping records
/// as its residue.
#[derive(Clone, Copy, Debug)]
pub struct CurveFrame {
    pub axis: (i32, i32),
    pub residue: (i64, i64),
}

/// Holds a controller button while a key is held. Releases are not
/// propagated: a button set by a held key stays set until another mapping
/// clears it.
pub struct ButtonMapping {
    pub input: String,
    pub output: String,
}

/// Drives a controller axis to a fixed value while a key is held; the axis
/// keeps its last driven value after release.
pub struct AxisMapping {
    pub input: String,
    pub output: String,
    /// Target deflection in thousandths of the unit range, clamped to
    /// [-1000, 1000] when applied.
    pub value: i32,
}

/// Translates the per-frame mouse delta into two stick axes.
pub struct MouseMapping {
    pub output_x: String,
    pub output_y: String,
    /// Per-axis output multiplier, in thousandths.
    pub multiplier_x: i64,
    pub multiplier_y: i64,
    /// Per-axis signed dead-zone width, in axis units.
    pub dead_zone_x: i32,
    pub dead_zone_y: i32,
    /// Mouse-delta scale, in thousandths.
    pub sensitivity: i64,
    /// Magnitude-curve exponent, in thousandths.
    pub exponent: i64,
    /// `"circle"` scales the dead zone isotropically; anything else leaves
    /// the stick's reachable area square.
    pub shape: String,
    /// Integer clip carried from the previous frame into the next curve
    /// input.
    pub remainder: (i32, i32),
    /// Real-valued over-shoot carry in thousandths: recorded on an active
    /// frame, zeroed on an idle one. Diagnostic; nothing reads it back.
    pub residue: (i64, i64),
    /// Diagnostic rings of recent axis outputs.
    pub axis_hist_x: Vec<i32>,
    pub axis_hist_y: Vec<i32>,
}

/// One mapping record; a tagged sum, dispatched in declaration order.
pub enum Mapping {
    Button(ButtonMapping),
    Axis(AxisMapping),
    Mouse(MouseMapping),
}

/// The mathematical model of a mouse mapping.
pub struct MouseModel {
    pub output_x: Seq<char>,
    pub output_y: Seq<char>,
    pub multiplier_x: i64,
    pub multiplier_y: i64,
    pub dead_zone_x: i32,
    pub dead_zone_y: i32,
    pub sensitivity: i64,
    pub exponent: i64,
    pub shape: Seq<char>,
    pub remainder: (i32, i32),
    pub residue: (i64, i64),
    pub hist_x: Seq<i32>,
    pub hist_y: Seq<i32>,
}

/// The mathematical model of one mapping record.
pub enum MappingModel {
    Button { input: Seq<char>, output: Seq<char> },
    Axis { input: Seq<char>, output: Seq<char>, value: i32 },
    Mouse(MouseModel),
}

impl View for MouseMapping {
    type V = MouseModel;

    open spec fn view(&self) -> MouseModel {
        MouseModel {
            output_x: self.output_x@,
            output_y: self.output_y@,
            multiplier_x: self.multiplier_x,
            multiplier_y: self.multiplier_y,
            dead_zone_x: self.dead_zone_x,
            dead_zone_y: self.dead_zone_y,
            sensitivity: self.sensitivity,
            exponent: self.exponent,
            shape: self.shape@,
            remainder: self.remainder,
            residue: self.residue,
            hist_x: self.axis_hist_x@,
            hist_y: self.axis_hist_y@,
        }
    }
}

impl View for Mapping {
    type V = MappingModel;

    open spec fn view(&self) -> MappingModel {
        match self {
            Mapping::Button(bm) => MappingModel::Button { input: bm.input@, output: bm.output@ },
            Mapping::Axis(am) => MappingModel::Axis {
                input: am.input@,
                output: am.output@,
                value: am.value,
            },
            Mapping::Mouse(mm) => MappingModel::Mouse(mm@),
        }
    }
}

/// The mouse-mapping model and report after one frame: an idle frame writes
/// nothing and zeroes the residue; otherwise both axis outputs are
/// saturated, written to the named axes (x first, then y), recorded in the
/// histories, the clipped excess becomes the new remainder, and the frame's
/// over-shoot estimate becomes the new residue.
pub open spec fn spec_apply_mouse(
    m: MouseModel,
    mouse: (i32, i32),
    report: Seq<u8>,
    frame: CurveFrame,
) -> (MouseModel, Seq<u8>) {
    if spec_mouse_idle(m.sensitivity, mouse) {
        let m2 = MouseModel { residue: (0i64, 0i64), ..m };
        (m2, report)
    } else {
        let rx = spec_rebase_axis(frame.axis.0 as int);
        let ry = spec_rebase_axis(frame.axis.1 as int);
        let r1 = spec_set_axis(report, m.output_x, rx.0 as u8);
        let r2 = spec_set_axis(r1, m.output_y, ry.0 as u8);
        let m2 = MouseModel {
            remainder: (rx.1 as i32, ry.1 as i32),
            residue: frame.residue,
            hist_x: spec_hist_push(m.hist_x, rx.0 as i32),
            hist_y: spec_hist_push(m.hist_y, ry.0 as i32),
            ..m
        };
        (m2, r2)
    }
}

/// The record model and report after applying one mapping. Button and axis
/// mappings leave the record untouched; `frame` is read only by a mouse
/// mapping.
pub open spec fn spec_apply_mapping(
    m: MappingModel,
    state: RawInput,
    report: Seq<u8>,
    frame: CurveFrame,
) -> (MappingModel, Seq<u8>) {
    match m {
        MappingModel::Button { input, output } => (
            m,
            if state.spec_key(input) {
                spec_set_btn(report, output, true)
            } else {
                report
            },
        ),
        MappingModel::Axis { input, output, value } => (
            m,
            if state.spec_key(input) {
                spec_set_axis(report, output, spec_axis_value_byte(value as int))
            } else {
                report
            },
        ),
        MappingModel::Mouse(mm) => {
            let res = spec_apply_mouse(mm, state.spec_mouse(), report, frame);
            (MappingModel::Mouse(res.0), res.1)
        },
    }
}

/// The mapping-list model and report after applying the mappings from index
/// `i` on, in order; `curves[j]` carries the curve output for the mapping
/// at `j`.
pub open spec fn spec_map_from(
    ms: Seq<MappingModel>,
    i: int,
    state: RawInput,
    report: Seq<u8>,
    curves: Seq<CurveFrame>,
) -> (Seq<MappingModel>, Seq<u8>)
    decreases ms.len() - i,
{
    if i < 0 || i >= ms.len() {
        (ms, report)
    } else {
        let head = spec_apply_mapping(ms[i], state, report, curves[i]);
        spec_map_from(ms.update(i, head.0), i + 1, state, head.1, curves)
    }
}

/// An input snapshot with nothing held and no motion.
pub open spec fn spec_input_empty(state: RawInput) -> bool {
    &&& state.wf()
    &&& forall|i: int| 0 <= i < 256 ==> !state.spec_keys()[i]
    &&& state.spec_mouse() == (0i32, 0i32)
}

/// Mapping an empty input snapshot leaves the report untouched, whatever
/// curve values are supplied and whatever runtime state is pending: every
/// button and axis mapping sees its key up, and every mouse mapping sees an
/// idle frame. Only per-mapping runtime state moves — an idle mouse frame
/// resets its residue.
pub proof fn lemma_map_empty_input(
    ms: Seq<MappingModel>,
    state: RawInput,
    report: Seq<u8>,
    curves: Seq<CurveFrame>,
)
    requires
        spec_input_empty(state),
    ensures
        spec_map_from(ms, 0, state, report, curves).1 == report,
{
    lemma_map_from_empty_input(ms, 0, state, report, curves);
}

proof fn lemma_map_from_empty_input(
    ms: Seq<MappingModel>,
    i: int,
    state: RawInput,
    report: Seq<u8>,
    curves: Seq<CurveFrame>,
)
    requires
        spec_input_empty(state),
    ensures
        spec_map_from(ms, i, state, report, curves).1 == report,
    decreases ms.len() - i,
{
    if i < 0 || i >= ms.len() {
    } else {
        let head = spec_apply_mapping(ms[i], state, report, curves[i]);
        match ms[i] {
            MappingModel::Button { input, output } => {
                crate::raw_input::lemma_vk_in_range(input);
                assert(!state.spec_key(input));
            },
            MappingModel::Axis { input, output, value } => {
                crate::raw_input::lemma_vk_in_range(input);
                assert(!state.spec_key(input));
            },
            MappingModel::Mouse(mm) => {
                assert(spec_mouse_idle(mm.sensitivity, state.spec_mouse()));
            },
        }
        assert(head.1 == report);
        lemma_map_from_empty_input(ms.update(i, head.0), i + 1, state, report, curves);
    }
}

/// Computes the byte an axis mapping writes for a thousandths value.
pub fn axis_value_byte(value: i32) -> (r: u8)
    ensures
        r == spec_axis_value_byte(value as int),
{
    let c: i32 = if value < -1000 {
        -1000
    } else if value > 1000 {
        1000
    } else {
        value
    };
    let scaled: i32 = (c + 1000) * 51;
    assert(scaled / 400 <= 255) by (nonlinear_arith)
        requires
            0 <= scaled <= 102000,
    ;
    (scaled / 400) as u8
}

fn rebase_axis(axis: i32) -> (r: (u8, i32))
    ensures
        (r.0 as int, r.1 as int) == spec_rebase_axis(axis as int),
{
    let a: i64 = (axis as i64) + 128;
    if a > 255 {
        (255u8, (a - 255) as i32)
    } else if a < 0 {
        (0u8, a as i32)
    } else {
        (a as u8, 0i32)
    }
}

fn push_hist(h: &mut Vec<i32>, v: i32)
    ensures
        final(h)@ == spec_hist_push(old(h)@, v),
{
    h.push(v);
    if h.len() > 256 {
        h.remove(0);
    }
}

impl ButtonMapping {
    /// Presses the output button while the input key is held; does nothing
    /// otherwise.
    pub fn map_controller(&self, raw_input: &RawInput, ds4: &mut DS4)
        requires
            raw_input.wf(),
            old(ds4).wf(),
        ensures
            final(ds4).wf(),
            final(ds4)@ == if raw_input.spec_key(self.input@) {
                spec_set_btn(old(ds4)@, self.output@, true)
            } else {
                old(ds4)@
            },
    {
        let down = raw_input.key(self.input.as_str());
        if down {
            ds4.set_btn(self.output.as_str(), down);
        }
    }
}

impl AxisMapping {
    /// Drives the output axis to the mapping's value while the input key is
    /// held; does nothing otherwise.
    pub fn map_controller(&self, raw_input: &RawInput, ds4: &mut DS4)
        requires
            raw_input.wf(),
            old(ds4).wf(),
        ensures
            final(ds4).wf(),
            final(ds4)@ == if raw_input.spec_key(self.input@) {
                spec_set_axis(old(ds4)@, self.output@, spec_axis_value_byte(self.value as int))
            } else {
                old(ds4)@
            },
    {
        let down = raw_input.key(self.input.as_str());
        if down {
            let value = axis_value_byte(self.value);
            ds4.set_axis(self.output.as_str(), value);
        }
    }
}

impl MouseMapping {
    /// A fresh mapping with the given configuration and reset runtime state.
    pub fn new(
        output_x: String,
        output_y: String,
        multiplier_x: i64,
        multiplier_y: i64,
        dead_zone_x: i32,
        dead_zone_y: i32,
        sensitivity: i64,
        exponent: i64,
        shape: String,
    ) -> (r: Self)
        ensures
            r.output_x == output_x,
            r.output_y == output_y,
            r.multiplier_x == multiplier_x,
            r.multiplier_y == multiplier_y,
            r.dead_zone_x == dead_zone_x,
            r.dead_zone_y == dead_zone_y,
            r.sensitivity == sensitivity,
            r.exponent == exponent,
            r.shape == shape,
            r.remainder == (0i32, 0i32),
            r.residue == (0i64, 0i64),
            r.axis_hist_x@ == Seq::<i32>::empty(),
            r.axis_hist_y@ == Seq::<i32>::empty(),
    {
        Self {
            output_x,
            output_y,
            multiplier_x,
            multiplier_y,
            dead_zone_x,
            dead_zone_y,
            sensitivity,
            exponent,
            shape,
            remainder: (0, 0),
            residue: (0, 0),
            axis_hist_x: Vec::new(),
            axis_hist_y: Vec::new(),
        }
    }

    /// Applies one frame of mouse translation. `frame` is the response
    /// curve's output for this frame's scaled delta (with the pending
    /// remainder already added by the curve's caller); its axis pair is
    /// ignored on an idle frame, which only zeroes the residue.
    pub fn map_controller(&mut self, raw_input: &RawInput, ds4: &mut DS4, frame: CurveFrame)
        requires
            old(ds4).wf(),
        ensures
            final(ds4).wf(),
            ({
                let res = spec_apply_mouse(
                    old(self)@,
                    raw_input.spec_mouse(),
                    old(ds4)@,
                    frame,
                );
                final(self)@ == res.0 && final(ds4)@ == res.1
            }),
    {
        let dx = raw_input.mouse_x();
        let dy = raw_input.mouse_y();
        if self.sensitivity == 0 || (dx == 0 && dy == 0) {
            self.residue = (0, 0);
            return;
        }
        let rx = rebase_axis(frame.axis.0);
        let ry = rebase_axis(frame.axis.1);
        self.remainder.0 = rx.1;
        self.remainder.1 = ry.1;
        self.residue = frame.residue;
        ds4.set_axis(self.output_x.as_str(), rx.0);
        ds4.set_axis(self.output_y.as_str(), ry.0);
        push_hist(&mut self.axis_hist_x, rx.0 as i32);
        push_hist(&mut self.axis_hist_y, ry.0 as i32);
    }
}

/// The process-wide mapping list.
pub struct Mapper {
    mappings: Vec<Mapping>,
}

impl View for Mapper {
    type V = Seq<MappingModel>;

    closed spec fn view(&self) -> Seq<MappingModel> {
        self.mappings@.map_values(|m: Mapping| m@)
    }
}

impl Mapper {
    /// A mapper over the given records, applied in the given order.
    pub fn new(mappings: Vec<Mapping>) -> (r: Self)
        ensures
            r@ == mappings@.map_values(|m: Mapping| m@),
            r@.len() == mappings@.len(),
    {
        Self { mappings }
    }

    /// The mapping records, in application order.
    pub fn mappings(&self) -> (r: &Vec<Mapping>)
        ensures
            r@.map_values(|m: Mapping| m@) == self@,
            r@.len() == self@.len(),
    {
        &self.mappings
    }

    /// Applies every mapping to the report in declaration order.
    ///
    /// `curves` carries one response-curve frame per mapping record, aligned
    /// by index; only the entries at mouse-mapping positions are read.
    pub fn map_controller(
        &mut self,
        raw_input: &RawInput,
        ds4: &mut DS4,
        curves: &Vec<CurveFrame>,
    )
        requires
            raw_input.wf(),
            old(ds4).wf(),
            curves@.len() == old(self)@.len(),
        ensures
            final(ds4).wf(),
            ({
                let res = spec_map_from(old(self)@, 0, *raw_input, old(ds4)@, curves@);
                final(self)@ == res.0 && final(ds4)@ == res.1
            }),
    {
        let n = self.mappings.len();
        let mut i: usize = 0;
        while i < n
            invariant
                raw_input.wf(),
                ds4.wf(),
                n == self.mappings.len(),
                i <= n,
                curves@.len() == n,
                self@.len() == n,
                spec_map_from(self@, i as int, *raw_input, ds4@, curves@) == spec_map_from(
                    old(self)@,
                    0,
                    *raw_input,
                    old(ds4)@,
                    curves@,
                ),
            decreases n - i,
        {
            let ghost pre_models = self@;
            let ghost pre_report = ds4@;
            let frame = curves[i];
            let m = &mut self.mappings[i];
            match m {
                Mapping::Button(bm) => {
                    bm.map_controller(raw_input, ds4);
                },
                Mapping::Axis(am) => {
                    am.map_controller(raw_input, ds4);
                },
                Mapping::Mouse(mm) => {
                    mm.map_controller(raw_input, ds4, frame);
                },
            }
            proof {
                let head = spec_apply_mapping(
                    pre_models[i as int],
                    *raw_input,
                    pre_report,
                    curves@[i as int],
                );
                assert(self@ =~= pre_models.update(i as int, head.0));
                assert(ds4@ == head.1);
            }
            i = i + 1;
        }
        proof {
            assert(self@ =~= spec_map_from(self@, n as int, *raw_input, ds4@, curves@).0);
        }
    }
}

} // verus!
