//! Round trips through the on-disk mapping format, and the read-interception
//! path end to end.

use mouseplay::ds4::DS4;
use mouseplay::hooks::{decide_create_file, decide_read_file, INVALID_HANDLE, SPOOF_HANDLE};
use mouseplay::mapper::{
    AxisMapping, ButtonMapping, CurveFrame, Mapper, Mapping, MouseMapping,
};
use mouseplay::raw_input::{RawInput, WindowMessage};

fn frame(ax: i32, ay: i32) -> CurveFrame {
    CurveFrame { axis: (ax, ay), residue: (0, 0) }
}

const HWND: u64 = 0x1000;
const CONTROLLER_PATH: &str =
    "\\\\?\\hid#rev_01#6&39fdb758&0&0000#{4d1e55b2-f16f-11cf-88cb-001111000030}";

fn sample_mappings() -> Vec<Mapping> {
    vec![
        Mapping::Button(ButtonMapping { input: "w".to_string(), output: "cross".to_string() }),
        Mapping::Axis(AxisMapping {
            input: "space".to_string(),
            output: "ly".to_string(),
            value: -1000,
        }),
        Mapping::Mouse(MouseMapping::new(
            "rx".to_string(),
            "ry".to_string(),
            2500,
            2500,
            8,
            8,
            1000,
            1000,
            "square".to_string(),
        )),
    ]
}

fn milli_to_number(v: i64) -> f64 {
    v as f64 / 1000.0
}

/// Serializes a mapping list in the on-disk schema: an array of records
/// tagged by a `type` field, with fractional fields as JSON numbers.
fn to_json(mappings: &[Mapping]) -> String {
    let records: Vec<String> = mappings
        .iter()
        .map(|m| match m {
            Mapping::Button(b) => format!(
                "{{\"type\":\"Button\",\"input\":\"{}\",\"output\":\"{}\"}}",
                b.input, b.output
            ),
            Mapping::Axis(a) => format!(
                "{{\"type\":\"Axis\",\"input\":\"{}\",\"output\":\"{}\",\"value\":{}}}",
                a.input,
                a.output,
                milli_to_number(a.value as i64)
            ),
            Mapping::Mouse(mm) => format!(
                "{{\"type\":\"Mouse\",\"output_x\":\"{}\",\"output_y\":\"{}\",\
                 \"multiplier_x\":{},\"multiplier_y\":{},\"dead_zone_x\":{},\"dead_zone_y\":{},\
                 \"sensitivity\":{},\"exponent\":{},\"shape\":\"{}\"}}",
                mm.output_x,
                mm.output_y,
                milli_to_number(mm.multiplier_x),
                milli_to_number(mm.multiplier_y),
                mm.dead_zone_x,
                mm.dead_zone_y,
                milli_to_number(mm.sensitivity),
                milli_to_number(mm.exponent),
                mm.shape
            ),
        })
        .collect();
    format!("[{}]", records.join(","))
}

fn number_to_milli(v: &serde_json::Value) -> i64 {
    (v.as_f64().unwrap() * 1000.0).round() as i64
}

/// Reloads a mapping list from the on-disk schema, with runtime state reset.
fn from_json(text: &str) -> Vec<Mapping> {
    let parsed: serde_json::Value = serde_json::from_str(text).unwrap();
    parsed
        .as_array()
        .unwrap()
        .iter()
        .map(|record| {
            let kind = record.get("type").unwrap().as_str().unwrap();
            match kind {
                "Button" => Mapping::Button(ButtonMapping {
                    input: record.get("input").unwrap().as_str().unwrap().to_string(),
                    output: record.get("output").unwrap().as_str().unwrap().to_string(),
                }),
                "Axis" => Mapping::Axis(AxisMapping {
                    input: record.get("input").unwrap().as_str().unwrap().to_string(),
                    output: record.get("output").unwrap().as_str().unwrap().to_string(),
                    value: number_to_milli(record.get("value").unwrap()) as i32,
                }),
                "Mouse" => Mapping::Mouse(MouseMapping::new(
                    record.get("output_x").unwrap().as_str().unwrap().to_string(),
                    record.get("output_y").unwrap().as_str().unwrap().to_string(),
                    number_to_milli(record.get("multiplier_x").unwrap()),
                    number_to_milli(record.get("multiplier_y").unwrap()),
                    record.get("dead_zone_x").unwrap().as_i64().unwrap() as i32,
                    record.get("dead_zone_y").unwrap().as_i64().unwrap() as i32,
                    number_to_milli(record.get("sensitivity").unwrap()),
                    number_to_milli(record.get("exponent").unwrap()),
                    record.get("shape").unwrap().as_str().unwrap().to_string(),
                )),
                other => panic!("unknown mapping type {other}"),
            }
        })
        .collect()
}

fn pressed_input() -> RawInput {
    let mut input = RawInput::new();
    input.parse(HWND, WindowMessage::RawKeyboard { vkey: 87, flags: 0 }, true);
    input.parse(HWND, WindowMessage::RawKeyboard { vkey: 32, flags: 0 }, true);
    input.parse(HWND, WindowMessage::ParentNotifyLeftDown { y: 100, height: 600 }, true);
    input.parse(HWND, WindowMessage::RawMouse { dx: 10, dy: 0, buttons: 0 }, true);
    input.accumulate(true);
    input
}

#[test]
fn mapping_file_roundtrip_reproduces_behavior() {
    let text = to_json(&sample_mappings());
    let reloaded = from_json(&text);

    let input = pressed_input();
    let curves = vec![frame(0, 0), frame(0, 0), frame(78, 0)];

    let mut report_a = DS4::new(&vec![0u8; 64]).unwrap();
    let mut mapper_a = Mapper::new(sample_mappings());
    mapper_a.map_controller(&input, &mut report_a, &curves);

    let mut report_b = DS4::new(&vec![0u8; 64]).unwrap();
    let mut mapper_b = Mapper::new(reloaded);
    mapper_b.map_controller(&input, &mut report_b, &curves);

    assert_eq!(report_a.to_raw(), report_b.to_raw());
}

#[test]
fn mapping_file_roundtrip_preserves_fields() {
    let text = to_json(&sample_mappings());
    let reloaded = from_json(&text);
    match &reloaded[2] {
        Mapping::Mouse(mm) => {
            assert_eq!(mm.output_x, "rx");
            assert_eq!(mm.output_y, "ry");
            assert_eq!(mm.multiplier_x, 2500);
            assert_eq!(mm.multiplier_y, 2500);
            assert_eq!(mm.dead_zone_x, 8);
            assert_eq!(mm.dead_zone_y, 8);
            assert_eq!(mm.sensitivity, 1000);
            assert_eq!(mm.exponent, 1000);
            assert_eq!(mm.shape, "square");
            assert_eq!(mm.remainder, (0, 0));
            assert!(mm.axis_hist_x.is_empty());
        }
        _ => panic!("expected a mouse mapping"),
    }
}

#[test]
fn spoofed_device_read_passes_through_mapper() {
    // The controller device is absent: the open returns the invalid handle
    // and the hook substitutes the spoof sentinel.
    let decision = decide_create_file(CONTROLLER_PATH, INVALID_HANDLE);
    assert_eq!(decision.handle, SPOOF_HANDLE);

    // The first read on the sentinel skips the device and reports the
    // requested count read.
    let skip = decide_read_file(decision.handle, 64);
    assert_eq!(skip, Some(64));

    // The buffer then goes through the mapper like a real report.
    let buffer = vec![0u8; 64];
    let mut input = pressed_input();
    input.parse(HWND, WindowMessage::RawMouse { dx: 0, dy: 0, buttons: 0 }, true);
    input.accumulate(true);
    let mut ds4 = DS4::new(&buffer).unwrap();
    let mut mapper = Mapper::new(sample_mappings());
    mapper.map_controller(&input, &mut ds4, &vec![frame(0, 0), frame(0, 0), frame(0, 0)]);
    let mapped = ds4.to_raw();
    // The held keys drove the report: cross pressed, left stick y full up.
    assert_ne!(mapped[5] & 0x20, 0);
    assert_eq!(mapped[2], 0);
}
