use mouseplay::hooks::{
    decide_create_file, decide_read_file, find_import_slot, install, is_controller_path,
    prepare_write_buffer, read_import_slot, write_import_slot, HookError, INVALID_HANDLE,
    SPOOF_HANDLE,
};

const CONTROLLER_PATH: &str =
    "\\\\?\\hid#rev_01#6&39fdb758&0&0000#{4d1e55b2-f16f-11cf-88cb-001111000030}";

fn put_le32(image: &mut [u8], off: usize, v: u32) {
    image[off..off + 4].copy_from_slice(&v.to_le_bytes());
}

/// A minimal 32-bit image with one import descriptor: KERNEL32.dll
/// exporting ReadFile (original pointer 0x11111111) and CloseHandle
/// (0x22222222).
fn sample_image() -> Vec<u8> {
    let mut image = vec![0u8; 352];
    image[0] = 0x4D; // 'M'
    image[1] = 0x5A; // 'Z'
    put_le32(&mut image, 0x3C, 64); // e_lfanew
    image[64] = b'P';
    image[65] = b'E';
    // Import data directory entry at NT headers + 128.
    put_le32(&mut image, 64 + 128, 200);
    // Descriptor 0: original-first-thunk 260, name 240, first-thunk 280.
    put_le32(&mut image, 200, 260);
    put_le32(&mut image, 200 + 12, 240);
    put_le32(&mut image, 200 + 16, 280);
    // Descriptor 1 is all zeroes: the terminator.
    image[240..253].copy_from_slice(b"KERNEL32.dll\0");
    // Original-first-thunk array: two import-by-name records, then zero.
    put_le32(&mut image, 260, 300);
    put_le32(&mut image, 264, 320);
    put_le32(&mut image, 268, 0);
    // First-thunk array: the patchable pointers, then zero.
    put_le32(&mut image, 280, 0x11111111);
    put_le32(&mut image, 284, 0x22222222);
    put_le32(&mut image, 288, 0);
    // Import-by-name records: two hint bytes, then the name.
    image[302..311].copy_from_slice(b"ReadFile\0");
    image[322..334].copy_from_slice(b"CloseHandle\0");
    image
}

#[test]
fn finds_import_slot_case_insensitively() {
    let image = sample_image();
    assert_eq!(find_import_slot(&image, b"KERNEL32.dll", b"ReadFile"), Ok(280));
    assert_eq!(find_import_slot(&image, b"KERNEL32.dll", b"readfile"), Ok(280));
    assert_eq!(find_import_slot(&image, b"KERNEL32.dll", b"READFILE"), Ok(280));
    assert_eq!(find_import_slot(&image, b"KERNEL32.dll", b"CloseHandle"), Ok(284));
}

#[test]
fn module_name_is_case_sensitive() {
    let image = sample_image();
    assert_eq!(
        find_import_slot(&image, b"kernel32.dll", b"ReadFile"),
        Err(HookError::ImportModuleNotFound)
    );
}

#[test]
fn missing_import_reports_import_not_found() {
    let image = sample_image();
    assert_eq!(
        find_import_slot(&image, b"KERNEL32.dll", b"WriteFile"),
        Err(HookError::ImportNotFound)
    );
}

#[test]
fn missing_module_reports_module_not_found() {
    let image = sample_image();
    assert_eq!(
        find_import_slot(&image, b"USER32.dll", b"ReadFile"),
        Err(HookError::ImportModuleNotFound)
    );
}

#[test]
fn bad_headers_report_header_invalid() {
    let mut image = sample_image();
    image[0] = 0;
    assert_eq!(
        find_import_slot(&image, b"KERNEL32.dll", b"ReadFile"),
        Err(HookError::HeaderInvalid)
    );
    let mut image = sample_image();
    image[64] = 0;
    assert_eq!(
        find_import_slot(&image, b"KERNEL32.dll", b"ReadFile"),
        Err(HookError::HeaderInvalid)
    );
    assert_eq!(
        find_import_slot(&[0u8; 16], b"KERNEL32.dll", b"ReadFile"),
        Err(HookError::HeaderInvalid)
    );
}

#[test]
fn install_patches_and_returns_original() {
    let mut image = sample_image();
    let original = install(&mut image, b"KERNEL32.dll", b"ReadFile", 0xDEADBEEF).unwrap();
    assert_eq!(original, 0x11111111);
    // Every future call through the slot now reaches the replacement.
    assert_eq!(read_import_slot(&image, 280), 0xDEADBEEF);
    // The neighbouring slot is untouched.
    assert_eq!(read_import_slot(&image, 284), 0x22222222);
}

#[test]
fn install_then_restore_is_identity() {
    let pristine = sample_image();
    let mut image = sample_image();
    let slot = find_import_slot(&image, b"KERNEL32.dll", b"ReadFile").unwrap();
    let original = install(&mut image, b"KERNEL32.dll", b"ReadFile", 0xDEADBEEF).unwrap();
    assert_ne!(image, pristine);
    // Writing the returned original back at the same slot restores the
    // module to its original state.
    write_import_slot(&mut image, slot, original);
    assert_eq!(image, pristine);
}

#[test]
fn install_failure_leaves_image_untouched() {
    let pristine = sample_image();
    let mut image = sample_image();
    assert_eq!(
        install(&mut image, b"USER32.dll", b"ReadFile", 0xDEADBEEF),
        Err(HookError::ImportModuleNotFound)
    );
    assert_eq!(image, pristine);
}

#[test]
fn controller_path_is_matched_exactly() {
    assert!(is_controller_path(CONTROLLER_PATH));
    assert!(!is_controller_path("\\\\?\\hid#rev_01#other"));
    assert!(!is_controller_path(""));
}

#[test]
fn create_file_spoofs_missing_controller() {
    let d = decide_create_file(CONTROLLER_PATH, INVALID_HANDLE);
    assert_eq!(d.handle, SPOOF_HANDLE);
    assert_eq!(d.record, Some(SPOOF_HANDLE));
}

#[test]
fn create_file_records_real_controller_handle() {
    let d = decide_create_file(CONTROLLER_PATH, 0x8000);
    assert_eq!(d.handle, 0x8000);
    assert_eq!(d.record, Some(0x8000));
}

#[test]
fn create_file_passes_other_paths_through() {
    let d = decide_create_file("C:\\other.txt", 0x8000);
    assert_eq!(d.handle, 0x8000);
    assert_eq!(d.record, None);
    let d = decide_create_file("C:\\other.txt", INVALID_HANDLE);
    assert_eq!(d.handle, INVALID_HANDLE);
    assert_eq!(d.record, None);
}

#[test]
fn read_on_spoof_handle_skips_device() {
    // The first read on the sentinel succeeds with the requested count.
    assert_eq!(decide_read_file(SPOOF_HANDLE, 64), Some(64));
    assert_eq!(decide_read_file(0x8000, 64), None);
}

#[test]
fn write_buffer_rumble_byte() {
    let mut buf = vec![7u8; 32];
    prepare_write_buffer(&mut buf);
    assert_eq!(buf[4], 100);
    for (i, b) in buf.iter().enumerate() {
        if i != 4 {
            assert_eq!(*b, 7);
        }
    }
    let mut short = vec![7u8; 31];
    prepare_write_buffer(&mut short);
    assert_eq!(short, vec![7u8; 31]);
    let mut long = vec![7u8; 64];
    prepare_write_buffer(&mut long);
    assert_eq!(long, vec![7u8; 64]);
}
