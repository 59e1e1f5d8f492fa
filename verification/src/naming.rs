//! The firmware-naming resolver: computes the bundle entry names that must
//! be extracted for a board, from its architecture string, its build-target
//! slug, and a parsed version. The architecture families are told apart by
//! substring, exactly as the flashing dispatch does it: `esp` means the
//! flash-programmable family (`.bin`); `nrf`, `rp2040` and `pico` the
//! mass-storage family (`.uf2`).

use vstd::prelude::*;

use crate::catalog::Board;
use crate::errors::FlashError;
use crate::strings::{contains_seq, str_contains};
use crate::version::{spec_version_string, FirmwareVersion, format_firmware_version};

verus! {

/// What `str::to_lowercase` returns; the result depends on the characters
/// alone.
pub uninterp spec fn lower_of(s: Seq<char>) -> Seq<char>;

/// Relies on `str::to_lowercase` from std: Unicode lowercasing, a pure
/// function of the character sequence, named by `lower_of`.
#[verifier::external_body]
fn lowercase(s: &str) -> (r: String)
    ensures
        r@ == lower_of(s@),
{
    s.to_lowercase()
}

/// The bundle entry name of the main firmware binary:
/// `firmware-<lowercased slug>-<version>.<ext>`.
pub open spec fn spec_firmware_entry_name(
    target_slug: Seq<char>,
    v: FirmwareVersion,
    ext: Seq<char>,
) -> Seq<char> {
    "firmware-"@ + lower_of(target_slug) + "-"@ + spec_version_string(v) + ext
}

/// The main-binary entry name for the flash-programmable family.
pub fn get_esp_firmware_name(slug: &String, firmware_version: &FirmwareVersion) -> (r: String)
    ensures
        r@ == spec_firmware_entry_name(slug@, *firmware_version, ".bin"@),
{
    let mut s = "firmware-".to_owned();
    s.append(lowercase(slug.as_str()).as_str());
    s.append("-");
    s.append(format_firmware_version(firmware_version).as_str());
    s.append(".bin");
    proof {
        assert(s@ =~= spec_firmware_entry_name(slug@, *firmware_version, ".bin"@));
    }
    s
}

/// The main-binary entry name for the `nrf` mass-storage sub-family.
pub fn get_nrf_firmware_name(slug: &String, firmware_version: &FirmwareVersion) -> (r: String)
    ensures
        r@ == spec_firmware_entry_name(slug@, *firmware_version, ".uf2"@),
{
    let mut s = "firmware-".to_owned();
    s.append(lowercase(slug.as_str()).as_str());
    s.append("-");
    s.append(format_firmware_version(firmware_version).as_str());
    s.append(".uf2");
    proof {
        assert(s@ =~= spec_firmware_entry_name(slug@, *firmware_version, ".uf2"@));
    }
    s
}

/// The main-binary entry name for the `pico` mass-storage sub-family.
pub fn get_pico_firmware_name(slug: &String, firmware_version: &FirmwareVersion) -> (r: String)
    ensures
        r@ == spec_firmware_entry_name(slug@, *firmware_version, ".uf2"@),
{
    get_nrf_firmware_name(slug, firmware_version)
}

/// What the main-binary name resolution must yield for a board: the `.bin`
/// name for an architecture containing `esp`, the `.uf2` name for one
/// containing `nrf`, `rp2040` or `pico`, and `UnsupportedArchitecture`
/// otherwise.
pub open spec fn firmware_file_name_spec(b: Board, v: FirmwareVersion, r: Result<
    String,
    FlashError,
>) -> bool {
    if contains_seq(b.architecture@, "esp"@) {
        r matches Ok(s) && s@ == spec_firmware_entry_name(b.platformio_target@, v, ".bin"@)
    } else if contains_seq(b.architecture@, "nrf"@) {
        r matches Ok(s) && s@ == spec_firmware_entry_name(b.platformio_target@, v, ".uf2"@)
    } else if contains_seq(b.architecture@, "rp2040"@) || contains_seq(b.architecture@, "pico"@) {
        r matches Ok(s) && s@ == spec_firmware_entry_name(b.platformio_target@, v, ".uf2"@)
    } else {
        r matches Err(e) && (e matches FlashError::UnsupportedArchitecture { architecture }
            && architecture@ == b.architecture@)
    }
}

/// Resolve the main firmware binary's bundle entry name for a board.
pub fn get_firmware_file_name(
    board: &Board,
    parsed_firmware_version: &FirmwareVersion,
) -> (r: Result<String, FlashError>)
    ensures
        firmware_file_name_spec(*board, *parsed_firmware_version, r),
{
    if str_contains(board.architecture.as_str(), "esp") {
        Ok(get_esp_firmware_name(&board.platformio_target, parsed_firmware_version))
    } else if str_contains(board.architecture.as_str(), "nrf") {
        Ok(get_nrf_firmware_name(&board.platformio_target, parsed_firmware_version))
    } else if str_contains(board.architecture.as_str(), "rp2040") || str_contains(
        board.architecture.as_str(),
        "pico",
    ) {
        Ok(get_pico_firmware_name(&board.platformio_target, parsed_firmware_version))
    } else {
        Err(FlashError::UnsupportedArchitecture { architecture: board.architecture.clone() })
    }
}

/// The Bluetooth-OTA helper binary's entry name for an architecture:
/// `bleota-s3.bin` exactly when the architecture string contains
/// `esp32-s3`, and `bleota.bin` otherwise.
pub open spec fn ble_ota_name_spec(architecture: Seq<char>, name: Seq<char>) -> bool {
    if contains_seq(architecture, "esp32-s3"@) {
        name == "bleota-s3.bin"@
    } else {
        name == "bleota.bin"@
    }
}

/// The Bluetooth-OTA helper binary's entry name: `bleota-s3.bin` exactly
/// when the architecture string contains `esp32-s3`, and `bleota.bin`
/// otherwise.
pub fn get_ble_ota_file_name(architecture: &String) -> (r: String)
    ensures
        ble_ota_name_spec(architecture@, r@),
        contains_seq(architecture@, "esp32-s3"@) ==> r@ == "bleota-s3.bin"@,
        !contains_seq(architecture@, "esp32-s3"@) ==> r@ == "bleota.bin"@,
{
    if str_contains(architecture.as_str(), "esp32-s3") {
        "bleota-s3.bin".to_owned()
    } else {
        "bleota.bin".to_owned()
    }
}

/// The filesystem image binary's entry name:
/// `littlefs-<version>.bin`.
pub fn get_littlefs_file_name(firmware_version: &FirmwareVersion) -> (r: String)
    ensures
        r@ == "littlefs-"@ + spec_version_string(*firmware_version) + ".bin"@,
{
    let mut s = "littlefs-".to_owned();
    s.append(format_firmware_version(firmware_version).as_str());
    s.append(".bin");
    proof {
        assert(s@ =~= "littlefs-"@ + spec_version_string(*firmware_version) + ".bin"@);
    }
    s
}

/// The event topic on which progress for one port is published:
/// `flash-status-update-<port name>`.
pub fn flash_status_topic(port_name: &String) -> (r: String)
    ensures
        r@ == "flash-status-update-"@ + port_name@,
{
    let mut s = "flash-status-update-".to_owned();
    s.append(port_name.as_str());
    s
}

} // verus!
