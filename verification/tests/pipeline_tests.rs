use std::io::Write;

use meshflash::archive::{create_archive_from_bytes, extract_binary_from_archive};
use meshflash::catalog::{Board, FirmwareRelease, FirmwareReleases};
use meshflash::errors::FlashError;
use meshflash::flash::{flash_plan_is_wf, FlashAction, FlashMethod, FlashSession};
use meshflash::pipeline::{build_flash_plan, resolve_flash_request, ResolvedFlashRequest};
use meshflash::version::FirmwareVersion;

fn zip_with(entries: &[(&str, &[u8])]) -> Vec<u8> {
    let cursor = std::io::Cursor::new(Vec::new());
    let mut writer = zip::write::ZipWriter::new(cursor);
    let options = zip::write::SimpleFileOptions::default();
    for (name, data) in entries {
        writer.start_file(*name, options).unwrap();
        writer.write_all(data).unwrap();
    }
    writer.finish().unwrap().into_inner()
}

fn board(hw_model: u32, architecture: &str, target: &str) -> Board {
    Board {
        hw_model,
        hw_model_slug: "TBEAM_S3_CORE".to_string(),
        platformio_target: target.to_string(),
        architecture: architecture.to_string(),
        actively_supported: true,
        display_name: target.to_string(),
    }
}

fn release(id: &str, zip_url: &str) -> FirmwareRelease {
    FirmwareRelease {
        id: id.to_string(),
        title: id.to_string(),
        page_url: "https://example.invalid/page".to_string(),
        zip_url: zip_url.to_string(),
    }
}

fn resolved(architecture: &str, target: &str) -> ResolvedFlashRequest {
    let version = FirmwareVersion {
        major_version: 2,
        minor_version: 5,
        patch_version: 1,
        version_hash: "abc1234".to_string(),
    };
    let ext = if architecture.contains("esp") { "bin" } else { "uf2" };
    ResolvedFlashRequest {
        board: board(9, architecture, target),
        release: release("2.5.1.abc1234", "https://example.invalid/fw.zip"),
        firmware_file_name: format!("firmware-{}-2.5.1.abc1234.{}", target, ext),
        ble_ota_file_name: if architecture.contains("esp32-s3") {
            "bleota-s3.bin".to_string()
        } else {
            "bleota.bin".to_string()
        },
        littlefs_file_name: "littlefs-2.5.1.abc1234.bin".to_string(),
        version,
    }
}

#[test]
fn opening_garbage_bytes_fails_as_corrupt() {
    let r = create_archive_from_bytes(vec![0x13, 0x37, 0x00, 0x01]);
    assert!(matches!(r, Err(FlashError::ArchiveCorrupt)));
}

#[test]
fn extracting_present_entry_returns_its_full_contents() {
    let payload: Vec<u8> = (0u32..50_000).map(|i| (i % 251) as u8).collect();
    let bundle = zip_with(&[("a.bin", &payload), ("b.bin", b"other")]);
    let mut archive = create_archive_from_bytes(bundle).unwrap();
    let a = extract_binary_from_archive(&mut archive, &"a.bin".to_string()).unwrap();
    assert_eq!(a, payload);
    let b = extract_binary_from_archive(&mut archive, &"b.bin".to_string()).unwrap();
    assert_eq!(b, b"other");
}

#[test]
fn repeated_extraction_of_one_name_yields_equal_results() {
    let payload: Vec<u8> = (0u32..10_000).map(|i| (i % 13) as u8).collect();
    let bundle = zip_with(&[("same.bin", &payload)]);
    let mut archive = create_archive_from_bytes(bundle).unwrap();
    let first = extract_binary_from_archive(&mut archive, &"same.bin".to_string()).unwrap();
    let second = extract_binary_from_archive(&mut archive, &"same.bin".to_string()).unwrap();
    assert_eq!(first, second);
    assert_eq!(first, payload);
}

#[test]
fn extracting_missing_entry_fails_with_its_name_and_yields_no_bytes() {
    let bundle = zip_with(&[("present.bin", b"data")]);
    let mut archive = create_archive_from_bytes(bundle).unwrap();
    let r = extract_binary_from_archive(&mut archive, &"absent.bin".to_string());
    match r {
        Err(FlashError::EntryNotFound { name }) => assert_eq!(name, "absent.bin"),
        other => panic!("expected the entry-not-found error, got {:?}", other.map(|v| v.len())),
    }
    // The archive stays usable, and the present entry still comes out whole.
    let d = extract_binary_from_archive(&mut archive, &"present.bin".to_string()).unwrap();
    assert_eq!(d, b"data");
}

#[test]
fn corrupted_entry_data_fails_as_a_read_error_with_no_bytes() {
    // A stored (uncompressed) entry whose data bytes are damaged after
    // writing: the entry is still listed, but its checksum no longer
    // matches, so extraction must fail rather than return damaged bytes.
    let cursor = std::io::Cursor::new(Vec::new());
    let mut writer = zip::write::ZipWriter::new(cursor);
    let options = zip::write::SimpleFileOptions::default()
        .compression_method(zip::CompressionMethod::Stored);
    writer.start_file("a.bin", options).unwrap();
    writer.write_all(&[0x55u8; 100]).unwrap();
    let mut bundle = writer.finish().unwrap().into_inner();
    // The local header is 30 bytes plus the 5-byte name; byte 50 sits
    // inside the stored data.
    bundle[50] ^= 0xFF;
    let mut archive = create_archive_from_bytes(bundle).unwrap();
    let r = extract_binary_from_archive(&mut archive, &"a.bin".to_string());
    match r {
        Err(FlashError::ReadError { name }) => assert_eq!(name, "a.bin"),
        other => panic!("expected the read error, got {:?}", other.map(|v| v.len())),
    }
}

#[test]
fn resolve_combines_board_release_version_and_names() {
    let boards = vec![board(9, "esp32-s3", "tbeam-s3-core"), board(4, "nrf52840", "rak4631")];
    let releases = FirmwareReleases {
        stable: vec![release("2.5.1.abc1234", "https://example.invalid/stable.zip")],
        alpha: vec![release("2.5.1.abc1234", "https://example.invalid/alpha.zip")],
    };
    let req = resolve_flash_request(&boards, &releases, 9, &"2.5.1.abc1234".to_string()).unwrap();
    assert_eq!(req.board.platformio_target, "tbeam-s3-core");
    // The stable channel wins the identifier collision.
    assert_eq!(req.release.zip_url, "https://example.invalid/stable.zip");
    assert_eq!(req.version.major_version, 2);
    assert_eq!(req.firmware_file_name, "firmware-tbeam-s3-core-2.5.1.abc1234.bin");
    assert_eq!(req.ble_ota_file_name, "bleota-s3.bin");
    assert_eq!(req.littlefs_file_name, "littlefs-2.5.1.abc1234.bin");
}

#[test]
fn resolve_reports_missing_board_and_release() {
    let boards = vec![board(9, "esp32", "tbeam")];
    let releases = FirmwareReleases {
        stable: vec![release("2.5.1.abc1234", "https://example.invalid/s.zip")],
        alpha: vec![],
    };
    assert_eq!(
        resolve_flash_request(&boards, &releases, 12, &"2.5.1.abc1234".to_string()).err(),
        Some(FlashError::BoardNotFound { hw_model: 12 })
    );
    assert_eq!(
        resolve_flash_request(&boards, &releases, 9, &"9.9.9.absent".to_string()).err(),
        Some(FlashError::ReleaseNotFound { id: "9.9.9.absent".to_string() })
    );
    assert_eq!(
        resolve_flash_request(&boards, &releases, 9, &"2.5.1.abc1234 ".to_string()).err(),
        Some(FlashError::ReleaseNotFound { id: "2.5.1.abc1234 ".to_string() })
    );
}

#[test]
fn esp_plan_holds_all_three_binaries() {
    let req = resolved("esp32-s3", "tbeam-s3-core");
    let bundle = zip_with(&[
        ("firmware-tbeam-s3-core-2.5.1.abc1234.bin", b"main-binary"),
        ("bleota-s3.bin", b"ota-binary"),
        ("littlefs-2.5.1.abc1234.bin", b"fs-binary"),
    ]);
    let plan = build_flash_plan(&req, bundle, &"/dev/ttyACM0".to_string()).unwrap();
    assert_eq!(plan.port_name, "/dev/ttyACM0");
    match plan.method {
        FlashMethod::EspSequence { main, ble_ota, littlefs } => {
            assert_eq!(main, b"main-binary");
            assert_eq!(ble_ota, b"ota-binary");
            assert_eq!(littlefs, b"fs-binary");
        }
        FlashMethod::MassStorageCopy { .. } => panic!("expected the chunked sequence"),
    }
}

#[test]
fn nrf_plan_copies_the_main_binary_under_its_entry_name() {
    let req = resolved("nrf52840", "rak4631");
    let bundle = zip_with(&[
        ("firmware-rak4631-2.5.1.abc1234.uf2", b"uf2-binary"),
        ("bleota.bin", b"ota"),
        ("littlefs-2.5.1.abc1234.bin", b"fs"),
    ]);
    let plan = build_flash_plan(&req, bundle, &"/media/RAK4631".to_string()).unwrap();
    match plan.method {
        FlashMethod::MassStorageCopy { file_name, binary } => {
            assert_eq!(file_name, "firmware-rak4631-2.5.1.abc1234.uf2");
            assert_eq!(binary, b"uf2-binary");
        }
        FlashMethod::EspSequence { .. } => panic!("expected the mass-storage copy"),
    }
}

#[test]
fn bundle_lacking_an_auxiliary_entry_fails_with_that_name() {
    let req = resolved("esp32-s3", "tbeam-s3-core");
    let bundle = zip_with(&[
        ("firmware-tbeam-s3-core-2.5.1.abc1234.bin", b"main-binary"),
        ("littlefs-2.5.1.abc1234.bin", b"fs-binary"),
    ]);
    let r = build_flash_plan(&req, bundle, &"/dev/ttyACM0".to_string());
    assert_eq!(
        r.err(),
        Some(FlashError::EntryNotFound { name: "bleota-s3.bin".to_string() })
    );
}

#[test]
fn pico_architecture_uses_the_mass_storage_copy() {
    let req = resolved("pico", "pico");
    let bundle = zip_with(&[
        ("firmware-pico-2.5.1.abc1234.uf2", b"uf2"),
        ("bleota.bin", b"ota"),
        ("littlefs-2.5.1.abc1234.bin", b"fs"),
    ]);
    let plan = build_flash_plan(&req, bundle, &"/media/PICO".to_string()).unwrap();
    assert!(matches!(plan.method, FlashMethod::MassStorageCopy { .. }));
}

#[test]
fn rp2040_architecture_uses_the_mass_storage_copy() {
    let req = resolved("rp2040", "pico");
    let bundle = zip_with(&[
        ("firmware-pico-2.5.1.abc1234.uf2", b"uf2"),
        ("bleota.bin", b"ota"),
        ("littlefs-2.5.1.abc1234.bin", b"fs"),
    ]);
    let plan = build_flash_plan(&req, bundle, &"/media/PICO".to_string()).unwrap();
    assert!(matches!(plan.method, FlashMethod::MassStorageCopy { .. }));
}

#[test]
fn whole_pipeline_resolves_builds_and_writes_in_protocol_order() {
    let boards = vec![board(9, "esp32-s3", "tbeam-s3-core")];
    let releases = FirmwareReleases {
        stable: vec![release("v2.5.1.abc1234", "https://example.invalid/fw.zip")],
        alpha: vec![],
    };
    let req =
        resolve_flash_request(&boards, &releases, 9, &"v2.5.1.abc1234".to_string()).unwrap();
    let bundle = zip_with(&[
        ("firmware-tbeam-s3-core-2.5.1.abc1234.bin", b"the-main-app"),
        ("bleota-s3.bin", b"the-ota-helper"),
        ("littlefs-2.5.1.abc1234.bin", b"the-filesystem"),
    ]);
    let plan = build_flash_plan(&req, bundle, &"/dev/ttyACM0".to_string()).unwrap();
    assert!(flash_plan_is_wf(&plan));

    let mut session = FlashSession::new(plan);
    let mut writes: Vec<(u32, Vec<u8>, bool)> = Vec::new();
    let mut connects: usize = 0;
    while let Some(action) = session.current_action() {
        match action {
            FlashAction::Connect { port_name } => {
                assert_eq!(port_name, "/dev/ttyACM0");
                connects += 1;
            }
            FlashAction::WriteChunk { offset, data, reboot } => {
                writes.push((offset, data, reboot));
            }
            FlashAction::CopyFile { .. } => panic!("the chunked sequence never copies files"),
        }
        session.report_success();
    }
    assert!(session.is_complete());
    // One connection per phase, each phase one chunk, fixed offsets in
    // order, reboot only after the last write.
    assert_eq!(connects, 3);
    assert_eq!(
        writes,
        vec![
            (0x0000_0000, b"the-main-app".to_vec(), false),
            (0x0026_0000, b"the-ota-helper".to_vec(), false),
            (0x0030_0000, b"the-filesystem".to_vec(), true),
        ]
    );
}

#[test]
fn corrupt_bundle_fails_before_any_extraction() {
    let req = resolved("esp32", "tbeam");
    let r = build_flash_plan(&req, b"not a zip at all".to_vec(), &"/dev/ttyACM0".to_string());
    assert_eq!(r.err(), Some(FlashError::ArchiveCorrupt));
}
