use meshflash::boards::file_name_slug_from_hw_model_slug;
use meshflash::catalog::Board;
use meshflash::errors::FlashError;
use meshflash::naming::{
    flash_status_topic, get_ble_ota_file_name, get_esp_firmware_name, get_firmware_file_name,
    get_littlefs_file_name, get_nrf_firmware_name, get_pico_firmware_name,
};
use meshflash::version::FirmwareVersion;

fn version_2_5_1() -> FirmwareVersion {
    FirmwareVersion {
        major_version: 2,
        minor_version: 5,
        patch_version: 1,
        version_hash: "abc1234".to_string(),
    }
}

fn board(architecture: &str, target: &str) -> Board {
    Board {
        hw_model: 9,
        hw_model_slug: "TBEAM_S3_CORE".to_string(),
        platformio_target: target.to_string(),
        architecture: architecture.to_string(),
        actively_supported: true,
        display_name: "T-Beam S3 Core".to_string(),
    }
}

#[test]
fn esp_firmware_file_name_is_exact() {
    let b = board("esp32-s3", "tbeam-s3-core");
    let name = get_firmware_file_name(&b, &version_2_5_1()).unwrap();
    assert_eq!(name, "firmware-tbeam-s3-core-2.5.1.abc1234.bin");
}

#[test]
fn slug_is_lowercased_in_file_name() {
    let name = get_esp_firmware_name(&"TBeam-S3-Core".to_string(), &version_2_5_1());
    assert_eq!(name, "firmware-tbeam-s3-core-2.5.1.abc1234.bin");
}

#[test]
fn nrf_and_pico_names_use_uf2_extension() {
    let v = version_2_5_1();
    assert_eq!(
        get_nrf_firmware_name(&"rak4631".to_string(), &v),
        "firmware-rak4631-2.5.1.abc1234.uf2"
    );
    assert_eq!(
        get_pico_firmware_name(&"pico".to_string(), &v),
        "firmware-pico-2.5.1.abc1234.uf2"
    );
    let b = board("nrf52840", "rak4631");
    assert_eq!(
        get_firmware_file_name(&b, &v).unwrap(),
        "firmware-rak4631-2.5.1.abc1234.uf2"
    );
    // Both canonical strings of the mass-storage sub-family name the same
    // kind of binary.
    let rp = board("rp2040", "pico");
    assert_eq!(
        get_firmware_file_name(&rp, &v).unwrap(),
        "firmware-pico-2.5.1.abc1234.uf2"
    );
    let pico = board("pico", "pico");
    assert_eq!(
        get_firmware_file_name(&pico, &v).unwrap(),
        "firmware-pico-2.5.1.abc1234.uf2"
    );
}

#[test]
fn unsupported_architecture_is_rejected_by_naming() {
    let b = board("avr", "uno");
    assert_eq!(
        get_firmware_file_name(&b, &version_2_5_1()),
        Err(FlashError::UnsupportedArchitecture { architecture: "avr".to_string() })
    );
}

#[test]
fn ble_ota_helper_name_depends_on_s3_variant() {
    assert_eq!(get_ble_ota_file_name(&"esp32-s3".to_string()), "bleota-s3.bin");
    assert_eq!(get_ble_ota_file_name(&"esp32".to_string()), "bleota.bin");
    assert_eq!(get_ble_ota_file_name(&"esp32-c3".to_string()), "bleota.bin");
    assert_eq!(get_ble_ota_file_name(&"nrf52840".to_string()), "bleota.bin");
}

#[test]
fn littlefs_image_name_is_exact() {
    assert_eq!(
        get_littlefs_file_name(&version_2_5_1()),
        "littlefs-2.5.1.abc1234.bin"
    );
}

#[test]
fn progress_topic_is_keyed_by_port_name() {
    assert_eq!(
        flash_status_topic(&"/dev/ttyACM0".to_string()),
        "flash-status-update-/dev/ttyACM0"
    );
}

#[test]
fn known_hw_model_slugs_map_to_file_name_fragments() {
    assert_eq!(
        file_name_slug_from_hw_model_slug("TBEAM_S3_CORE".to_string()),
        Some("tbeam-s3-core".to_string())
    );
    assert_eq!(
        file_name_slug_from_hw_model_slug("RPI_PICO".to_string()),
        Some("pico".to_string())
    );
    assert_eq!(
        file_name_slug_from_hw_model_slug("TLORA_V2_1_1P6".to_string()),
        Some("tlora-v2-1-1_6".to_string())
    );
}

#[test]
fn unknown_hw_model_slugs_have_no_mapping() {
    assert_eq!(file_name_slug_from_hw_model_slug("TLORA_V1_1P3".to_string()), None);
    assert_eq!(file_name_slug_from_hw_model_slug("tbeam".to_string()), None);
}
