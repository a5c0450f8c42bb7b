//! Codec for the 64-byte gamepad HID input report.
//!
//! Offsets and masks are the contract of the report layout: bytes 1..=4 hold
//! the four stick axes, byte 5 the face buttons, byte 6 the shoulder and
//! system buttons, byte 7 the PS/touch bits and frame counter, bytes 8 and 9
//! the analog triggers, byte 30 the battery state. The d-pad lives in the low
//! nibble of byte 5 in hat encoding and is not exposed as a bit accessor.

use vstd::prelude::*;

use crate::text::str_eq;

verus! {

pub const TRIANGLE: u8 = 0x80;
pub const CIRCLE: u8 = 0x40;
pub const CROSS: u8 = 0x20;
pub const SQUARE: u8 = 0x10;

pub const L1: u8 = 0x01;
pub const R1: u8 = 0x02;
pub const L2: u8 = 0x04;
pub const R2: u8 = 0x08;
pub const SHARE: u8 = 0x10;
pub const OPTIONS: u8 = 0x20;
pub const L3: u8 = 0x40;
pub const R3: u8 = 0x80;

pub const PSBUTTON: u8 = 0x01;
pub const TOUCHBUTTON: u8 = 0x02;

/// Byte index and bit mask of a named button, or `None` for names the codec
/// does not know. Unknown names are deliberately mapped to no-ops by the
/// setters: mappings read from user configuration must never crash the host.
pub open spec fn spec_button_field(name: Seq<char>) -> Option<(int, u8)> {
    if name == "triangle"@ {
        Some((5int, TRIANGLE))
    } else if name == "circle"@ {
        Some((5int, CIRCLE))
    } else if name == "cross"@ {
        Some((5int, CROSS))
    } else if name == "square"@ {
        Some((5int, SQUARE))
    } else if name == "l1"@ {
        Some((6int, L1))
    } else if name == "r1"@ {
        Some((6int, R1))
    } else if name == "l2"@ {
        Some((6int, L2))
    } else if name == "r2"@ {
        Some((6int, R2))
    } else if name == "l3"@ {
        Some((6int, L3))
    } else if name == "r3"@ {
        Some((6int, R3))
    } else if name == "share"@ {
        Some((6int, SHARE))
    } else if name == "options"@ {
        Some((6int, OPTIONS))
    } else if name == "ps"@ {
        Some((7int, PSBUTTON))
    } else if name == "touch"@ {
        Some((7int, TOUCHBUTTON))
    } else {
        None
    }
}

/// Byte index of a named axis, or `None` for unknown names.
pub open spec fn spec_axis_index(name: Seq<char>) -> Option<int> {
    if name == "lx"@ {
        Some(1int)
    } else if name == "ly"@ {
        Some(2int)
    } else if name == "rx"@ {
        Some(3int)
    } else if name == "ry"@ {
        Some(4int)
    } else if name == "l2"@ {
        Some(8int)
    } else if name == "r2"@ {
        Some(9int)
    } else {
        None
    }
}

/// The report bytes after setting (`down == true`) or clearing
/// (`down == false`) one bit. Boolean OR / AND-NOT, never arithmetic.
pub open spec fn spec_set_bit(s: Seq<u8>, byte: int, mask: u8, down: bool) -> Seq<u8> {
    s.update(byte, if down { s[byte] | mask } else { s[byte] & !mask })
}

/// The report bytes after `set_btn(name, down)`.
pub open spec fn spec_set_btn(s: Seq<u8>, name: Seq<char>, down: bool) -> Seq<u8> {
    match spec_button_field(name) {
        Some(f) => spec_set_bit(s, f.0, f.1, down),
        None => s,
    }
}

/// Whether the named button reads as pressed; `false` for unknown names.
pub open spec fn spec_btn(s: Seq<u8>, name: Seq<char>) -> bool {
    match spec_button_field(name) {
        Some(f) => (s[f.0] & f.1) != 0,
        None => false,
    }
}

/// The report bytes after `set_axis(name, value)`.
pub open spec fn spec_set_axis(s: Seq<u8>, name: Seq<char>, value: u8) -> Seq<u8> {
    match spec_axis_index(name) {
        Some(i) => s.update(i, value),
        None => s,
    }
}

/// Setting or clearing a button bit twice leaves the same report as doing it
/// once.
pub proof fn lemma_set_btn_idempotent(s: Seq<u8>, name: Seq<char>, down: bool)
    requires
        s.len() == 64,
    ensures
        spec_set_btn(spec_set_btn(s, name, down), name, down) == spec_set_btn(s, name, down),
{
    match spec_button_field(name) {
        Some(f) => {
            let b = f.0;
            let m = f.1;
            let x: u8 = s[b];
            assert((x | m) | m == x | m) by (bit_vector);
            assert((x & !m) & !m == x & !m) by (bit_vector);
            let s1 = spec_set_bit(s, b, m, down);
            assert(spec_set_bit(s1, b, m, down) =~= s1);
        },
        None => {},
    }
}

/// Reading a named button directly after setting it returns exactly the value
/// written: encoding a press and decoding it is the identity.
pub proof fn lemma_btn_set_get(s: Seq<u8>, name: Seq<char>, down: bool)
    requires
        s.len() == 64,
        spec_button_field(name) is Some,
    ensures
        spec_btn(spec_set_btn(s, name, down), name) == down,
{
    let f = spec_button_field(name)->Some_0;
    let b = f.0;
    let m = f.1;
    let x: u8 = s[b];
    assert(m != 0);
    assert(m != 0 ==> ((x | m) & m) != 0) by (bit_vector);
    assert(((x & !m) & m) == 0) by (bit_vector);
}

/// One HID input report, held as an owned copy of the caller's buffer.
pub struct DS4 {
    buffer: Vec<u8>,
}

impl View for DS4 {
    type V = Seq<u8>;

    closed spec fn view(&self) -> Seq<u8> {
        self.buffer@
    }
}

impl DS4 {
    /// A report is well formed exactly when it is 64 bytes long.
    pub open spec fn wf(&self) -> bool {
        self@.len() == 64
    }

    /// Wraps a byte buffer as a report; only 64-byte buffers are accepted.
    pub fn new(buffer: &[u8]) -> (r: Result<Self, &'static str>)
        ensures
            r is Ok <==> buffer@.len() == 64,
            r is Ok ==> r->Ok_0.wf() && r->Ok_0@ == buffer@,
    {
        if buffer.len() == 64 {
            Ok(Self { buffer: vstd::slice::slice_to_vec(buffer) })
        } else {
            Err("not a hid response")
        }
    }

    /// Copies the report bytes out for the caller to write back.
    pub fn to_raw(&self) -> (r: Vec<u8>)
        ensures
            r@ == self@,
    {
        let mut out: Vec<u8> = Vec::new();
        let mut i: usize = 0;
        while i < self.buffer.len()
            invariant
                i <= self.buffer.len(),
                out@ == self@.subrange(0, i as int),
            decreases self.buffer.len() - i,
        {
            out.push(self.buffer[i]);
            i = i + 1;
        }
        proof {
            assert(out@ =~= self@);
        }
        out
    }

    fn read_bit(&self, byte: usize, mask: u8) -> (r: bool)
        requires
            self.wf(),
            byte < 64,
        ensures
            r == ((self@[byte as int] & mask) != 0),
    {
        (self.buffer[byte] & mask) != 0
    }

    fn write_bit(&mut self, byte: usize, mask: u8, down: bool)
        requires
            old(self).wf(),
            byte < 64,
        ensures
            final(self)@ == spec_set_bit(old(self)@, byte as int, mask, down),
            final(self).wf(),
    {
        let b = self.buffer[byte];
        self.buffer[byte] = if down {
            b | mask
        } else {
            b & !mask
        };
    }

    fn read_byte(&self, byte: usize) -> (r: u8)
        requires
            self.wf(),
            byte < 64,
        ensures
            r == self@[byte as int],
    {
        self.buffer[byte]
    }

    fn write_byte(&mut self, byte: usize, value: u8)
        requires
            old(self).wf(),
            byte < 64,
        ensures
            final(self)@ == old(self)@.update(byte as int, value),
            final(self).wf(),
    {
        self.buffer[byte] = value;
    }

    pub fn axis_lx(&self) -> (r: u8)
        requires
            self.wf(),
        ensures
            r == self@[1],
    {
        self.read_byte(1)
    }

    pub fn set_axis_lx(&mut self, value: u8)
        requires
            old(self).wf(),
        ensures
            final(self)@ == old(self)@.update(1, value),
            final(self).wf(),
    {
        self.write_byte(1, value)
    }

    pub fn axis_ly(&self) -> (r: u8)
        requires
            self.wf(),
        ensures
            r == self@[2],
    {
        self.read_byte(2)
    }

    pub fn set_axis_ly(&mut self, value: u8)
        requires
            old(self).wf(),
        ensures
            final(self)@ == old(self)@.update(2, value),
            final(self).wf(),
    {
        self.write_byte(2, value)
    }

    pub fn axis_rx(&self) -> (r: u8)
        requires
            self.wf(),
        ensures
            r == self@[3],
    {
        self.read_byte(3)
    }

    pub fn set_axis_rx(&mut self, value: u8)
        requires
            old(self).wf(),
        ensures
            final(self)@ == old(self)@.update(3, value),
            final(self).wf(),
    {
        self.write_byte(3, value)
    }

    pub fn axis_ry(&self) -> (r: u8)
        requires
            self.wf(),
        ensures
            r == self@[4],
    {
        self.read_byte(4)
    }

    pub fn set_axis_ry(&mut self, value: u8)
        requires
            old(self).wf(),
        ensures
            final(self)@ == old(self)@.update(4, value),
            final(self).wf(),
    {
        self.write_byte(4, value)
    }

    pub fn axis_l2(&self) -> (r: u8)
        requires
            self.wf(),
        ensures
            r == self@[8],
    {
        self.read_byte(8)
    }

    pub fn set_axis_l2(&mut self, value: u8)
        requires
            old(self).wf(),
        ensures
            final(self)@ == old(self)@.update(8, value),
            final(self).wf(),
    {
        self.write_byte(8, value)
    }

    pub fn axis_r2(&self) -> (r: u8)
        requires
            self.wf(),
        ensures
            r == self@[9],
    {
        self.read_byte(9)
    }

    pub fn set_axis_r2(&mut self, value: u8)
        requires
            old(self).wf(),
        ensures
            final(self)@ == old(self)@.update(9, value),
            final(self).wf(),
    {
        self.write_byte(9, value)
    }

    pub fn btn_triangle(&self) -> (r: bool)
        requires
            self.wf(),
        ensures
            r == ((self@[5] & TRIANGLE) != 0),
    {
        self.read_bit(5, TRIANGLE)
    }

    pub fn set_btn_triangle(&mut self, down: bool)
        requires
            old(self).wf(),
        ensures
            final(self)@ == spec_set_bit(old(self)@, 5, TRIANGLE, down),
            final(self).wf(),
    {
        self.write_bit(5, TRIANGLE, down)
    }

    pub fn btn_circle(&self) -> (r: bool)
        requires
            self.wf(),
        ensures
            r == ((self@[5] & CIRCLE) != 0),
    {
        self.read_bit(5, CIRCLE)
    }

    pub fn set_btn_circle(&mut self, down: bool)
        requires
            old(self).wf(),
        ensures
            final(self)@ == spec_set_bit(old(self)@, 5, CIRCLE, down),
            final(self).wf(),
    {
        self.write_bit(5, CIRCLE, down)
    }

    pub fn btn_cross(&self) -> (r: bool)
        requires
            self.wf(),
        ensures
            r == ((self@[5] & CROSS) != 0),
    {
        self.read_bit(5, CROSS)
    }

    pub fn set_btn_cross(&mut self, down: bool)
        requires
            old(self).wf(),
        ensures
            final(self)@ == spec_set_bit(old(self)@, 5, CROSS, down),
            final(self).wf(),
    {
        self.write_bit(5, CROSS, down)
    }

    pub fn btn_square(&self) -> (r: bool)
        requires
            self.wf(),
        ensures
            r == ((self@[5] & SQUARE) != 0),
    {
        self.read_bit(5, SQUARE)
    }

    pub fn set_btn_square(&mut self, down: bool)
        requires
            old(self).wf(),
        ensures
            final(self)@ == spec_set_bit(old(self)@, 5, SQUARE, down),
            final(self).wf(),
    {
        self.write_bit(5, SQUARE, down)
    }

    pub fn btn_l1(&self) -> (r: bool)
        requires
            self.wf(),
        ensures
            r == ((self@[6] & L1) != 0),
    {
        self.read_bit(6, L1)
    }

    pub fn set_btn_l1(&mut self, down: bool)
        requires
            old(self).wf(),
        ensures
            final(self)@ == spec_set_bit(old(self)@, 6, L1, down),
            final(self).wf(),
    {
        self.write_bit(6, L1, down)
    }

    pub fn btn_r1(&self) -> (r: bool)
        requires
            self.wf(),
        ensures
            r == ((self@[6] & R1) != 0),
    {
        self.read_bit(6, R1)
    }

    pub fn set_btn_r1(&mut self, down: bool)
        requires
            old(self).wf(),
        ensures
            final(self)@ == spec_set_bit(old(self)@, 6, R1, down),
            final(self).wf(),
    {
        self.write_bit(6, R1, down)
    }

    pub fn btn_l2(&self) -> (r: bool)
        requires
            self.wf(),
        ensures
            r == ((self@[6] & L2) != 0),
    {
        self.read_bit(6, L2)
    }

    pub fn set_btn_l2(&mut self, down: bool)
        requires
            old(self).wf(),
        ensures
            final(self)@ == spec_set_bit(old(self)@, 6, L2, down),
            final(self).wf(),
    {
        self.write_bit(6, L2, down)
    }

    pub fn btn_r2(&self) -> (r: bool)
        requires
            self.wf(),
        ensures
            r == ((self@[6] & R2) != 0),
    {
        self.read_bit(6, R2)
    }

    pub fn set_btn_r2(&mut self, down: bool)
        requires
            old(self).wf(),
        ensures
            final(self)@ == spec_set_bit(old(self)@, 6, R2, down),
            final(self).wf(),
    {
        self.write_bit(6, R2, down)
    }

    pub fn btn_l3(&self) -> (r: bool)
        requires
            self.wf(),
        ensures
            r == ((self@[6] & L3) != 0),
    {
        self.read_bit(6, L3)
    }

    pub fn set_btn_l3(&mut self, down: bool)
        requires
            old(self).wf(),
        ensures
            final(self)@ == spec_set_bit(old(self)@, 6, L3, down),
            final(self).wf(),
    {
        self.write_bit(6, L3, down)
    }

    pub fn btn_r3(&self) -> (r: bool)
        requires
            self.wf(),
        ensures
            r == ((self@[6] & R3) != 0),
    {
        self.read_bit(6, R3)
    }

    pub fn set_btn_r3(&mut self, down: bool)
        requires
            old(self).wf(),
        ensures
            final(self)@ == spec_set_bit(old(self)@, 6, R3, down),
            final(self).wf(),
    {
        self.write_bit(6, R3, down)
    }

    pub fn btn_share(&self) -> (r: bool)
        requires
            self.wf(),
        ensures
            r == ((self@[6] & SHARE) != 0),
    {
        self.read_bit(6, SHARE)
    }

    pub fn set_btn_share(&mut self, down: bool)
        requires
            old(self).wf(),
        ensures
            final(self)@ == spec_set_bit(old(self)@, 6, SHARE, down),
            final(self).wf(),
    {
        self.write_bit(6, SHARE, down)
    }

    pub fn btn_options(&self) -> (r: bool)
        requires
            self.wf(),
        ensures
            r == ((self@[6] & OPTIONS) != 0),
    {
        self.read_bit(6, OPTIONS)
    }

    pub fn set_btn_options(&mut self, down: bool)
        requires
            old(self).wf(),
        ensures
            final(self)@ == spec_set_bit(old(self)@, 6, OPTIONS, down),
            final(self).wf(),
    {
        self.write_bit(6, OPTIONS, down)
    }

    pub fn btn_ps(&self) -> (r: bool)
        requires
            self.wf(),
        ensures
            r == ((self@[7] & PSBUTTON) != 0),
    {
        self.read_bit(7, PSBUTTON)
    }

    pub fn set_btn_ps(&mut self, down: bool)
        requires
            old(self).wf(),
        ensures
            final(self)@ == spec_set_bit(old(self)@, 7, PSBUTTON, down),
            final(self).wf(),
    {
        self.write_bit(7, PSBUTTON, down)
    }

    pub fn btn_touch(&self) -> (r: bool)
        requires
            self.wf(),
        ensures
            r == ((self@[7] & TOUCHBUTTON) != 0),
    {
        self.read_bit(7, TOUCHBUTTON)
    }

    pub fn set_btn_touch(&mut self, down: bool)
        requires
            old(self).wf(),
        ensures
            final(self)@ == spec_set_bit(old(self)@, 7, TOUCHBUTTON, down),
            final(self).wf(),
    {
        self.write_bit(7, TOUCHBUTTON, down)
    }

    /// Sets or clears the named button; unknown names are silent no-ops.
    pub fn set_btn(&mut self, button: &str, down: bool)
        requires
            old(self).wf(),
        ensures
            final(self)@ == spec_set_btn(old(self)@, button@, down),
            final(self).wf(),
    {
        if str_eq(button, "triangle") {
            self.set_btn_triangle(down)
        } else if str_eq(button, "circle") {
            self.set_btn_circle(down)
        } else if str_eq(button, "cross") {
            self.set_btn_cross(down)
        } else if str_eq(button, "square") {
            self.set_btn_square(down)
        } else if str_eq(button, "l1") {
            self.set_btn_l1(down)
        } else if str_eq(button, "r1") {
            self.set_btn_r1(down)
        } else if str_eq(button, "l2") {
            self.set_btn_l2(down)
        } else if str_eq(button, "r2") {
            self.set_btn_r2(down)
        } else if str_eq(button, "l3") {
            self.set_btn_l3(down)
        } else if str_eq(button, "r3") {
            self.set_btn_r3(down)
        } else if str_eq(button, "share") {
            self.set_btn_share(down)
        } else if str_eq(button, "options") {
            self.set_btn_options(down)
        } else if str_eq(button, "ps") {
            self.set_btn_ps(down)
        } else if str_eq(button, "touch") {
            self.set_btn_touch(down)
        }
    }

    /// Reads the named button; unknown names read as released.
    pub fn btn(&self, button: &str) -> (r: bool)
        requires
            self.wf(),
        ensures
            r == spec_btn(self@, button@),
    {
        if str_eq(button, "triangle") {
            self.btn_triangle()
        } else if str_eq(button, "circle") {
            self.btn_circle()
        } else if str_eq(button, "cross") {
            self.btn_cross()
        } else if str_eq(button, "square") {
            self.btn_square()
        } else if str_eq(button, "l1") {
            self.btn_l1()
        } else if str_eq(button, "r1") {
            self.btn_r1()
        } else if str_eq(button, "l2") {
            self.btn_l2()
        } else if str_eq(button, "r2") {
            self.btn_r2()
        } else if str_eq(button, "l3") {
            self.btn_l3()
        } else if str_eq(button, "r3") {
            self.btn_r3()
        } else if str_eq(button, "share") {
            self.btn_share()
        } else if str_eq(button, "options") {
            self.btn_options()
        } else if str_eq(button, "ps") {
            self.btn_ps()
        } else if str_eq(button, "touch") {
            self.btn_touch()
        } else {
            false
        }
    }

    /// Writes the named axis byte; unknown names are silent no-ops.
    pub fn set_axis(&mut self, axis: &str, value: u8)
        requires
            old(self).wf(),
        ensures
            final(self)@ == spec_set_axis(old(self)@, axis@, value),
            final(self).wf(),
    {
        if str_eq(axis, "lx") {
            self.set_axis_lx(value)
        } else if str_eq(axis, "ly") {
            self.set_axis_ly(value)
        } else if str_eq(axis, "rx") {
            self.set_axis_rx(value)
        } else if str_eq(axis, "ry") {
            self.set_axis_ry(value)
        } else if str_eq(axis, "l2") {
            self.set_axis_l2(value)
        } else if str_eq(axis, "r2") {
            self.set_axis_r2(value)
        }
    }

    /// The frame counter held in the top six bits of byte 7.
    pub fn frame_count(&self) -> (r: u8)
        requires
            self.wf(),
        ensures
            r == self@[7] >> 2,
    {
        self.read_byte(7) >> 2
    }

    /// Battery level in percent: the low nibble of byte 30 times ten.
    pub fn battery(&self) -> (r: u8)
        requires
            self.wf(),
        ensures
            r == (self@[30] & 0xF) * 10,
    {
        let b = self.read_byte(30);
        proof {
            assert((b & 0xF) <= 15) by (bit_vector);
        }
        (b & 0xF) * 10
    }

    /// Whether the charging flag of byte 30 is set.
    pub fn is_charging(&self) -> (r: bool)
        requires
            self.wf(),
        ensures
            r == ((self@[30] & 0x10) != 0),
    {
        self.read_bit(30, 0x10)
    }
}

} // verus!
