//! Import-table patching and the file-hook decision rules.
//!
//! A loaded module's image is modeled as a flat byte buffer indexed by
//! relative virtual address. [`find_import_slot`] walks the DOS header, the
//! NT headers and the import directory exactly as the in-process patcher
//! does, and returns the offset of the first-thunk slot for a named import.
//! [`install`] reads the original function pointer out of that slot and
//! writes the replacement over it; the returned original allows chaining.
//!
//! The decision rules of the three file hooks — which handle to hand the
//! host when the controller device is opened, when a read must be answered
//! without touching the device, and how an outgoing rumble buffer is
//! prepared — live here as well, on plain handle and byte values.

use vstd::prelude::*;

verus! {

/// Failure modes of the import patcher. `ModuleNotFound` is produced by the
/// caller that resolves a module name to an image; the walk itself produces
/// the other three.
#[derive(Clone, Copy, Debug, PartialEq, Eq, Structural)]
pub enum HookError {
    ModuleNotFound,
    HeaderInvalid,
    ImportModuleNotFound,
    ImportNotFound,
}

pub const DOS_MAGIC: u16 = 0x5A4D;
pub const PE_MAGIC: u32 = 0x4550;

/// The fake controller file handle handed to the host when the real device
/// is absent; small enough never to collide with a real OS handle.
pub const SPOOF_HANDLE: u64 = 1234;

/// The all-ones invalid-handle value.
pub const INVALID_HANDLE: u64 = u64::MAX;

/// The little-endian 16-bit word at `off`.
pub open spec fn spec_le16(s: Seq<u8>, off: int) -> u16
    recommends
        0 <= off,
        off + 2 <= s.len(),
{
    (s[off] as u16) | ((s[off + 1] as u16) << 8)
}

/// The little-endian 32-bit word at `off`.
pub open spec fn spec_le32(s: Seq<u8>, off: int) -> u32
    recommends
        0 <= off,
        off + 4 <= s.len(),
{
    (s[off] as u32) | ((s[off + 1] as u32) << 8) | ((s[off + 2] as u32) << 16) | ((s[off
        + 3] as u32) << 24)
}

/// The buffer after storing `v` little-endian at `off`.
pub open spec fn spec_write_le32(s: Seq<u8>, off: int, v: u32) -> Seq<u8>
    recommends
        0 <= off,
        off + 4 <= s.len(),
{
    s.update(off, (v & 0xFF) as u8).update(off + 1, ((v >> 8) & 0xFF) as u8).update(
        off + 2,
        ((v >> 16) & 0xFF) as u8,
    ).update(off + 3, ((v >> 24) & 0xFF) as u8)
}

/// Reading a word back out of a fresh store returns the stored value.
pub proof fn lemma_le32_write_read(s: Seq<u8>, off: int, v: u32)
    requires
        0 <= off,
        off + 4 <= s.len(),
    ensures
        spec_le32(spec_write_le32(s, off, v), off) == v,
{
    assert((((v & 0xFF) as u8 as u32) | ((((v >> 8) & 0xFF) as u8 as u32) << 8) | ((((v >> 16)
        & 0xFF) as u8 as u32) << 16) | ((((v >> 24) & 0xFF) as u8 as u32) << 24)) == v)
        by (bit_vector);
}

/// Patching a slot and then writing the original word back at the same slot
/// restores the image byte for byte.
pub proof fn lemma_install_restore(s: Seq<u8>, slot: int, replacement: u32)
    requires
        0 <= slot,
        slot + 4 <= s.len(),
    ensures
        spec_write_le32(spec_write_le32(s, slot, replacement), slot, spec_le32(s, slot)) == s,
{
    let b0 = s[slot];
    let b1 = s[slot + 1];
    let b2 = s[slot + 2];
    let b3 = s[slot + 3];
    assert((((b0 as u32) | ((b1 as u32) << 8) | ((b2 as u32) << 16) | ((b3 as u32) << 24))
        & 0xFF) as u8 == b0) by (bit_vector);
    assert(((((b0 as u32) | ((b1 as u32) << 8) | ((b2 as u32) << 16) | ((b3 as u32) << 24))
        >> 8) & 0xFF) as u8 == b1) by (bit_vector);
    assert(((((b0 as u32) | ((b1 as u32) << 8) | ((b2 as u32) << 16) | ((b3 as u32) << 24))
        >> 16) & 0xFF) as u8 == b2) by (bit_vector);
    assert(((((b0 as u32) | ((b1 as u32) << 8) | ((b2 as u32) << 16) | ((b3 as u32) << 24))
        >> 24) & 0xFF) as u8 == b3) by (bit_vector);
    assert(spec_write_le32(spec_write_le32(s, slot, replacement), slot, spec_le32(s, slot))
        =~= s);
}

/// The NUL-terminated byte string at `off`, or `None` when no terminator
/// lies inside the buffer.
pub open spec fn spec_cstr(s: Seq<u8>, off: int) -> Option<Seq<u8>>
    decreases s.len() - off,
{
    if off < 0 || off >= s.len() {
        None
    } else if s[off] == 0 {
        Some(Seq::empty())
    } else {
        match spec_cstr(s, off + 1) {
            Some(rest) => Some(seq![s[off]] + rest),
            None => None,
        }
    }
}

/// ASCII lower-casing of one byte.
pub open spec fn spec_lower(b: u8) -> u8 {
    if 65 <= b && b <= 90 {
        (b + 32) as u8
    } else {
        b
    }
}

/// ASCII lower-casing of a byte string, for the case-insensitive import-name
/// comparison.
pub open spec fn spec_lower_seq(s: Seq<u8>) -> Seq<u8> {
    s.map_values(|b: u8| spec_lower(b))
}

/// Whether the image's headers carry the DOS magic, a reachable NT header
/// with the PE magic, and room for the import data-directory entry.
pub open spec fn spec_headers_ok(s: Seq<u8>) -> bool {
    &&& s.len() >= 0x40
    &&& spec_le16(s, 0) == DOS_MAGIC
    &&& spec_le32(s, 0x3C) + 132 <= s.len()
    &&& spec_le32(s, spec_le32(s, 0x3C) as int) == PE_MAGIC
}

/// Whether the import-by-name record at `ibn` names the wanted import,
/// compared ASCII-case-insensitively past the two hint bytes.
pub open spec fn spec_thunk_name_matches(s: Seq<u8>, ibn: int, name: Seq<u8>) -> bool {
    match spec_cstr(s, ibn + 2) {
        Some(n) => spec_lower_seq(n) == spec_lower_seq(name),
        None => false,
    }
}

/// The walk of one descriptor's parallel thunk arrays: `ft` indexes the
/// first-thunk slots to patch, `oft` the original-first-thunk records that
/// carry the names. Returns the offset of the first matching slot.
pub open spec fn spec_find_in_thunks(s: Seq<u8>, ft: int, oft: int, name: Seq<u8>) -> Result<
    int,
    HookError,
>
    decreases s.len() - ft,
{
    if ft < 0 || ft + 4 > s.len() || oft < 0 || oft + 4 > s.len() {
        Err(HookError::ImportNotFound)
    } else if spec_le32(s, ft) == 0 {
        Err(HookError::ImportNotFound)
    } else if spec_thunk_name_matches(s, spec_le32(s, oft) as int, name) {
        Ok(ft)
    } else {
        spec_find_in_thunks(s, ft + 4, oft + 4, name)
    }
}

/// The walk of the import descriptors from `off`: the first descriptor whose
/// module name equals `module` byte for byte has its thunks searched; a
/// terminating or unreadable descriptor ends the walk.
pub open spec fn spec_find_in_descriptors(
    s: Seq<u8>,
    off: int,
    module: Seq<u8>,
    name: Seq<u8>,
) -> Result<int, HookError>
    decreases s.len() - off,
{
    if off < 0 || off + 20 > s.len() {
        Err(HookError::ImportModuleNotFound)
    } else if spec_le32(s, off) == 0 {
        Err(HookError::ImportModuleNotFound)
    } else if spec_cstr(s, spec_le32(s, off + 12) as int) == Some(module) {
        spec_find_in_thunks(s, spec_le32(s, off + 16) as int, spec_le32(s, off) as int, name)
    } else {
        spec_find_in_descriptors(s, off + 20, module, name)
    }
}

/// The offset of the first-thunk slot for `name` imported from `module`, or
/// the error that stops the walk.
pub open spec fn spec_find_import_slot(s: Seq<u8>, module: Seq<u8>, name: Seq<u8>) -> Result<
    int,
    HookError,
> {
    if !spec_headers_ok(s) {
        Err(HookError::HeaderInvalid)
    } else {
        spec_find_in_descriptors(
            s,
            spec_le32(s, spec_le32(s, 0x3C) as int + 128) as int,
            module,
            name,
        )
    }
}

fn read_le16(image: &[u8], off: usize) -> (r: u16)
    requires
        off + 2 <= image@.len(),
    ensures
        r == spec_le16(image@, off as int),
{
    (image[off] as u16) | ((image[off + 1] as u16) << 8)
}

fn read_le32(image: &[u8], off: usize) -> (r: u32)
    requires
        off + 4 <= image@.len(),
    ensures
        r == spec_le32(image@, off as int),
{
    (image[off] as u32) | ((image[off + 1] as u32) << 8) | ((image[off + 2] as u32) << 16) | ((
    image[off + 3] as u32) << 24)
}

/// Reads the patchable word at an import slot.
pub fn read_import_slot(image: &[u8], slot: usize) -> (r: u32)
    requires
        slot + 4 <= image@.len(),
    ensures
        r == spec_le32(image@, slot as int),
{
    read_le32(image, slot)
}

/// Stores a function pointer into an import slot.
pub fn write_import_slot(image: &mut Vec<u8>, slot: usize, value: u32)
    requires
        slot + 4 <= old(image).len(),
    ensures
        final(image)@ == spec_write_le32(old(image)@, slot as int, value),
{
    image[slot] = #[verifier::truncate] ((value & 0xFF) as u8);
    image[slot + 1] = #[verifier::truncate] (((value >> 8) & 0xFF) as u8);
    image[slot + 2] = #[verifier::truncate] (((value >> 16) & 0xFF) as u8);
    image[slot + 3] = #[verifier::truncate] (((value >> 24) & 0xFF) as u8);
}

fn read_cstr(image: &[u8], off: usize) -> (r: Option<Vec<u8>>)
    ensures
        match r {
            Some(v) => spec_cstr(image@, off as int) == Some(v@),
            None => spec_cstr(image@, off as int) is None,
        },
{
    let mut out: Vec<u8> = Vec::new();
    let mut i: usize = off;
    proof {
        if spec_cstr(image@, off as int) is Some {
            let rest = spec_cstr(image@, off as int)->Some_0;
            assert(Seq::<u8>::empty() + rest =~= rest);
        }
    }
    loop
        invariant
            off <= i,
            spec_cstr(image@, off as int) == match spec_cstr(image@, i as int) {
                Some(rest) => Some(out@ + rest),
                None => None::<Seq<u8>>,
            },
        decreases image@.len() - i,
    {
        if i >= image.len() {
            return None;
        }
        let b = image[i];
        if b == 0 {
            proof {
                assert(out@ + Seq::<u8>::empty() =~= out@);
            }
            return Some(out);
        }
        let ghost out0 = out@;
        out.push(b);
        i = i + 1;
        proof {
            if spec_cstr(image@, i as int) is Some {
                let rest = spec_cstr(image@, i as int)->Some_0;
                assert(out0 + (seq![b] + rest) =~= out@ + rest);
            }
        }
    }
}

fn eq_bytes(a: &[u8], b: &[u8]) -> (r: bool)
    ensures
        r == (a@ == b@),
{
    if a.len() != b.len() {
        return false;
    }
    let n = a.len();
    let mut i: usize = 0;
    while i < n
        invariant
            n == a@.len() == b@.len(),
            i <= n,
            forall|j: int| 0 <= j < i ==> a@[j] == b@[j],
        decreases n - i,
    {
        if a[i] != b[i] {
            return false;
        }
        i = i + 1;
    }
    proof {
        assert(a@ =~= b@);
    }
    true
}

fn lower_byte(b: u8) -> (r: u8)
    ensures
        r == spec_lower(b),
{
    if 65 <= b && b <= 90 {
        b + 32
    } else {
        b
    }
}

fn eq_bytes_nocase(a: &[u8], b: &[u8]) -> (r: bool)
    ensures
        r == (spec_lower_seq(a@) == spec_lower_seq(b@)),
{
    if a.len() != b.len() {
        assert(spec_lower_seq(a@).len() != spec_lower_seq(b@).len());
        return false;
    }
    let n = a.len();
    let mut i: usize = 0;
    while i < n
        invariant
            n == a@.len() == b@.len(),
            i <= n,
            forall|j: int| 0 <= j < i ==> spec_lower(a@[j]) == spec_lower(b@[j]),
        decreases n - i,
    {
        if lower_byte(a[i]) != lower_byte(b[i]) {
            assert(spec_lower_seq(a@)[i as int] != spec_lower_seq(b@)[i as int]);
            return false;
        }
        i = i + 1;
    }
    proof {
        assert(spec_lower_seq(a@) =~= spec_lower_seq(b@));
    }
    true
}

/// Walks the image's import tables and returns the offset of the first-thunk
/// slot holding the pointer for `import_name` imported from `import_module`.
///
/// The module name must match byte for byte, the import name up to ASCII
/// case. The walk fails with `HeaderInvalid` when the DOS or PE headers are
/// absent or truncated, `ImportModuleNotFound` when no readable descriptor
/// names the module, and `ImportNotFound` when the module's thunks exhaust
/// without a match.
pub fn find_import_slot(image: &[u8], import_module: &[u8], import_name: &[u8]) -> (r: Result<
    usize,
    HookError,
>)
    ensures
        match r {
            Ok(slot) => spec_find_import_slot(image@, import_module@, import_name@)
                == Ok::<int, HookError>(slot as int) && slot + 4 <= image@.len(),
            Err(e) => spec_find_import_slot(image@, import_module@, import_name@) == Err::<
                int,
                HookError,
            >(e),
        },
{
    if image.len() < 0x40 {
        return Err(HookError::HeaderInvalid);
    }
    if read_le16(image, 0) != DOS_MAGIC {
        return Err(HookError::HeaderInvalid);
    }
    let e_lfanew = read_le32(image, 0x3C) as usize;
    if e_lfanew > image.len() || image.len() - e_lfanew < 132 {
        return Err(HookError::HeaderInvalid);
    }
    if read_le32(image, e_lfanew) != PE_MAGIC {
        return Err(HookError::HeaderInvalid);
    }
    let import_dir = read_le32(image, e_lfanew + 128) as usize;

    let ghost target = spec_find_in_descriptors(
        image@,
        import_dir as int,
        import_module@,
        import_name@,
    );
    let mut off: usize = import_dir;
    loop
        invariant
            spec_find_in_descriptors(image@, off as int, import_module@, import_name@)
                == target,
            spec_find_import_slot(image@, import_module@, import_name@) == target,
        decreases image@.len() - off,
    {
        if image.len() < 20 || off > image.len() - 20 {
            return Err(HookError::ImportModuleNotFound);
        }
        let oft_entry = read_le32(image, off);
        if oft_entry == 0 {
            return Err(HookError::ImportModuleNotFound);
        }
        let name_rva = read_le32(image, off + 12) as usize;
        let module_matches = match read_cstr(image, name_rva) {
            Some(v) => eq_bytes(v.as_slice(), import_module),
            None => false,
        };
        if module_matches {
            let mut ft = read_le32(image, off + 16) as usize;
            let mut oft = oft_entry as usize;
            let ghost tt = spec_find_in_thunks(
                image@,
                ft as int,
                oft as int,
                import_name@,
            );
            proof {
                assert(target == tt);
            }
            loop
                invariant
                    spec_find_in_thunks(image@, ft as int, oft as int, import_name@) == tt,
                    target == tt,
                    spec_find_import_slot(image@, import_module@, import_name@) == target,
                decreases image@.len() - ft,
            {
                if image.len() < 4 || ft > image.len() - 4 || oft > image.len() - 4 {
                    return Err(HookError::ImportNotFound);
                }
                let ft_entry = read_le32(image, ft);
                if ft_entry == 0 {
                    return Err(HookError::ImportNotFound);
                }
                let ibn = read_le32(image, oft) as usize;
                let name_matches = if image.len() < 2 || ibn > image.len() - 2 {
                    false
                } else {
                    match read_cstr(image, ibn + 2) {
                        Some(v) => eq_bytes_nocase(v.as_slice(), import_name),
                        None => false,
                    }
                };
                if name_matches {
                    return Ok(ft);
                }
                ft = ft + 4;
                oft = oft + 4;
            }
        }
        off = off + 20;
    }
}

/// Patches the import slot for `import_name` from `import_module` to hold
/// `replacement`, returning the displaced original pointer for chaining. On
/// failure the image is untouched.
pub fn install(
    image: &mut Vec<u8>,
    import_module: &[u8],
    import_name: &[u8],
    replacement: u32,
) -> (r: Result<u32, HookError>)
    ensures
        match spec_find_import_slot(old(image)@, import_module@, import_name@) {
            Ok(slot) => r is Ok && r->Ok_0 == spec_le32(old(image)@, slot) && final(image)@
                == spec_write_le32(old(image)@, slot, replacement),
            Err(e) => r == Err::<u32, HookError>(e) && final(image)@ == old(image)@,
        },
{
    let slot = match find_import_slot(image.as_slice(), import_module, import_name) {
        Ok(slot) => slot,
        Err(e) => {
            return Err(e);
        },
    };
    let original = read_import_slot(image.as_slice(), slot);
    write_import_slot(image, slot, replacement);
    Ok(original)
}

/// What the create-file hook hands back: the handle the host receives and
/// the controller handle to record, if any.
pub struct CreateFileDecision {
    pub handle: u64,
    pub record: Option<u64>,
}

/// Whether an opened path is the hard-coded controller device path.
pub open spec fn spec_controller_path() -> Seq<char> {
    "\\\\?\\hid#rev_01#6&39fdb758&0&0000#{4d1e55b2-f16f-11cf-88cb-001111000030}"@
}

pub fn is_controller_path(path: &str) -> (r: bool)
    ensures
        r == (path@ == spec_controller_path()),
{
    crate::text::str_eq(
        path,
        "\\\\?\\hid#rev_01#6&39fdb758&0&0000#{4d1e55b2-f16f-11cf-88cb-001111000030}",
    )
}

/// The create-file hook's decision after the chained original call returned
/// `original` for `path`: a non-controller path passes through untouched; a
/// controller open records the handle, substituting the spoof sentinel when
/// the device is absent so the host proceeds as if a gamepad were present.
pub fn decide_create_file(path: &str, original: u64) -> (r: CreateFileDecision)
    ensures
        path@ != spec_controller_path() ==> r.handle == original && r.record is None,
        (path@ == spec_controller_path() && original == INVALID_HANDLE) ==> r.handle
            == SPOOF_HANDLE && r.record == Some(SPOOF_HANDLE),
        (path@ == spec_controller_path() && original != INVALID_HANDLE) ==> r.handle
            == original && r.record == Some(original),
{
    if is_controller_path(path) {
        if original == INVALID_HANDLE {
            CreateFileDecision { handle: SPOOF_HANDLE, record: Some(SPOOF_HANDLE) }
        } else {
            CreateFileDecision { handle: original, record: Some(original) }
        }
    } else {
        CreateFileDecision { handle: original, record: None }
    }
}

/// The read-file hook's decision for a handle: `Some(requested)` when the
/// handle is the spoof sentinel — the underlying call must be skipped and
/// the requested count reported read — and `None` when the original call
/// must be chained.
pub fn decide_read_file(h_file: u64, requested: u32) -> (r: Option<u32>)
    ensures
        h_file == SPOOF_HANDLE ==> r == Some(requested),
        h_file != SPOOF_HANDLE ==> r is None,
{
    if h_file == SPOOF_HANDLE {
        Some(requested)
    } else {
        None
    }
}

/// The rumble strength forced into outgoing controller writes.
pub const RUMBLE_STRENGTH: u8 = 100;

/// Prepares an outgoing write buffer: a 32-byte controller output report has
/// its rumble byte at offset 4 overwritten; any other buffer is left alone.
pub fn prepare_write_buffer(buffer: &mut Vec<u8>)
    ensures
        old(buffer)@.len() == 32 ==> final(buffer)@ == old(buffer)@.update(
            4,
            RUMBLE_STRENGTH,
        ),
        old(buffer)@.len() != 32 ==> final(buffer)@ == old(buffer)@,
{
    if buffer.len() == 32 {
        buffer[4] = RUMBLE_STRENGTH;
    }
}

} // verus!
