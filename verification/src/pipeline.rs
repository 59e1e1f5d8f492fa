//! The flash pipeline's decision stages: resolve a board and a release
//! against the catalog snapshots, parse the version, compute the bundle
//! entry names, and turn a downloaded bundle into a flash plan. The
//! surrounding application performs the fetches and the downloads between
//! these stages and drives the write session after them.

use vstd::prelude::*;

use crate::archive::{
    create_archive_from_bytes, extract_binary_from_archive, zip_entries_of, zip_readable_of,
};
use crate::catalog::{
    find_board_by_hw_model, find_release_by_id, find_release_spec, first_board_with_model,
    first_release_with_id, Board, FirmwareRelease, FirmwareReleases,
};
use crate::errors::FlashError;
use crate::flash::{FlashMethod, FlashPlan};
use crate::naming::{
    ble_ota_name_spec, firmware_file_name_spec, get_ble_ota_file_name, get_firmware_file_name,
    get_littlefs_file_name,
};
use crate::strings::{contains_seq, str_contains};
use crate::version::{
    parse_firmware_version, parse_version_spec, spec_version_string, version_parses,
    FirmwareVersion,
};

verus! {

/// A fully resolved flash request: the board, the release whose bundle to
/// download, the parsed version, and the three bundle entry names. Only
/// constructed once board and release have both been found.
pub struct ResolvedFlashRequest {
    pub board: Board,
    pub release: FirmwareRelease,
    pub version: FirmwareVersion,
    pub firmware_file_name: String,
    pub ble_ota_file_name: String,
    pub littlefs_file_name: String,
}

/// What resolving a flash request against the catalog snapshots must
/// yield, stage by stage: no board means `BoardNotFound`; no release in
/// either channel means `ReleaseNotFound`; then the version must parse and
/// the architecture must name a family, and on success every component is
/// pinned by its stage's contract.
pub open spec fn resolve_spec(
    boards: Seq<Board>,
    stable: Seq<FirmwareRelease>,
    alpha: Seq<FirmwareRelease>,
    hw_model: u32,
    id: Seq<char>,
    r: Result<ResolvedFlashRequest, FlashError>,
) -> bool {
    match first_board_with_model(boards, hw_model) {
        None => r == Err::<ResolvedFlashRequest, FlashError>(
            FlashError::BoardNotFound { hw_model },
        ),
        Some(bi) => {
            let b = boards[bi];
            if first_release_with_id(stable, id) is None && first_release_with_id(alpha, id)
                is None {
                r matches Err(e) && (e matches FlashError::ReleaseNotFound { id: rid } && rid@
                    == id)
            } else {
                match r {
                    Ok(req) => {
                        &&& req.board == b
                        &&& find_release_spec(stable, alpha, id, Ok(req.release))
                        &&& parse_version_spec(id, Ok(req.version))
                        &&& firmware_file_name_spec(b, req.version, Ok(req.firmware_file_name))
                        &&& ble_ota_name_spec(b.architecture@, req.ble_ota_file_name@)
                        &&& req.littlefs_file_name@ == "littlefs-"@ + spec_version_string(
                            req.version,
                        ) + ".bin"@
                    },
                    Err(e) => {
                        ||| parse_version_spec(id, Err(e))
                        ||| {
                            &&& version_parses(id)
                            &&& e matches FlashError::UnsupportedArchitecture { architecture }
                                && architecture@ == b.architecture@
                            &&& !contains_seq(b.architecture@, "esp"@)
                            &&& !contains_seq(b.architecture@, "nrf"@)
                            &&& !contains_seq(b.architecture@, "rp2040"@)
                            &&& !contains_seq(b.architecture@, "pico"@)
                        }
                    },
                }
            }
        },
    }
}

/// Resolve a flash request: board by hardware model, release by identifier
/// (stable channel first), version by parsing the identifier, and the
/// three bundle entry names from board and version.
pub fn resolve_flash_request(
    boards: &Vec<Board>,
    releases: &FirmwareReleases,
    hw_model: u32,
    firmware_version_id: &String,
) -> (r: Result<ResolvedFlashRequest, FlashError>)
    ensures
        resolve_spec(
            boards@,
            releases.stable@,
            releases.alpha@,
            hw_model,
            firmware_version_id@,
            r,
        ),
{
    let board = match find_board_by_hw_model(boards, hw_model) {
        Ok(b) => b,
        Err(e) => {
            return Err(e);
        },
    };
    let release = match find_release_by_id(releases, firmware_version_id) {
        Ok(rel) => rel,
        Err(e) => {
            return Err(e);
        },
    };
    let version = match parse_firmware_version(firmware_version_id) {
        Ok(v) => v,
        Err(e) => {
            return Err(e);
        },
    };
    let firmware_file_name = match get_firmware_file_name(&board, &version) {
        Ok(n) => n,
        Err(e) => {
            return Err(e);
        },
    };
    let ble_ota_file_name = get_ble_ota_file_name(&board.architecture);
    let littlefs_file_name = get_littlefs_file_name(&version);
    Ok(
        ResolvedFlashRequest {
            board,
            release,
            version,
            firmware_file_name,
            ble_ota_file_name,
            littlefs_file_name,
        },
    )
}

/// What extracting one entry during plan construction must yield for the
/// rest of the chain: a missing entry fails with its own name, a present
/// one that does not decompress fails as a read error on that name, and
/// otherwise the chain goes on.
pub open spec fn entry_failure(
    entries: Map<Seq<char>, Seq<u8>>,
    name: Seq<char>,
    r: Result<FlashPlan, FlashError>,
) -> bool {
    if !entries.contains_key(name) {
        r matches Err(e) && (e matches FlashError::EntryNotFound { name: n } && n@ == name)
    } else {
        r matches Err(e) && (e matches FlashError::ReadError { name: n } && n@ == name)
    }
}

/// What turning a downloaded bundle into a plan must yield: a corrupt
/// buffer fails as such; the three entries are extracted in a fixed order,
/// a missing or unreadable one failing with its own name; and the
/// architecture then decides between the chunked sequence (all three
/// binaries) and the mass-storage copy (the main binary under its entry
/// name), every other architecture failing as unsupported. Since the
/// entry table and the readable set are functions of the bytes, the
/// result is pinned for every input.
pub open spec fn build_plan_spec(
    architecture: Seq<char>,
    fw_name: Seq<char>,
    ble_name: Seq<char>,
    lfs_name: Seq<char>,
    bundle: Seq<u8>,
    upload_port: Seq<char>,
    r: Result<FlashPlan, FlashError>,
) -> bool {
    match zip_entries_of(bundle) {
        None => r == Err::<FlashPlan, FlashError>(FlashError::ArchiveCorrupt),
        Some(entries) => {
            let readable = zip_readable_of(bundle);
            if !entries.contains_key(fw_name) || !readable.contains(fw_name) {
                entry_failure(entries, fw_name, r)
            } else if !entries.contains_key(ble_name) || !readable.contains(ble_name) {
                entry_failure(entries, ble_name, r)
            } else if !entries.contains_key(lfs_name) || !readable.contains(lfs_name) {
                entry_failure(entries, lfs_name, r)
            } else if contains_seq(architecture, "esp"@) {
                r matches Ok(plan) && {
                    &&& plan.port_name@ == upload_port
                    &&& plan.method matches FlashMethod::EspSequence { main, ble_ota, littlefs }
                        && {
                        &&& main@ == entries[fw_name]
                        &&& ble_ota@ == entries[ble_name]
                        &&& littlefs@ == entries[lfs_name]
                    }
                }
            } else if contains_seq(architecture, "nrf"@) || contains_seq(architecture, "rp2040"@)
                || contains_seq(architecture, "pico"@) {
                r matches Ok(plan) && {
                    &&& plan.port_name@ == upload_port
                    &&& plan.method matches FlashMethod::MassStorageCopy { file_name, binary }
                        && {
                        &&& file_name@ == fw_name
                        &&& binary@ == entries[fw_name]
                    }
                }
            } else {
                r matches Err(e) && (e matches FlashError::UnsupportedArchitecture {
                    architecture: a,
                } && a@ == architecture)
            }
        },
    }
}

/// Open the downloaded bundle, extract the three binaries (always all
/// three, in a fixed order), and build the plan the board's architecture
/// calls for: the chunked sequence for the flash-programmable family, the
/// single-file copy for the mass-storage family.
pub fn build_flash_plan(req: &ResolvedFlashRequest, bundle: Vec<u8>, upload_port: &String) -> (r:
    Result<FlashPlan, FlashError>)
    ensures
        build_plan_spec(
            req.board.architecture@,
            req.firmware_file_name@,
            req.ble_ota_file_name@,
            req.littlefs_file_name@,
            bundle@,
            upload_port@,
            r,
        ),
{
    let mut archive = match create_archive_from_bytes(bundle) {
        Ok(a) => a,
        Err(e) => {
            return Err(e);
        },
    };
    let firmware_binary = match extract_binary_from_archive(&mut archive, &req.firmware_file_name)
        {
        Ok(b) => b,
        Err(e) => {
            return Err(e);
        },
    };
    let ble_ota_binary = match extract_binary_from_archive(&mut archive, &req.ble_ota_file_name) {
        Ok(b) => b,
        Err(e) => {
            return Err(e);
        },
    };
    let littlefs_binary = match extract_binary_from_archive(&mut archive, &req.littlefs_file_name)
        {
        Ok(b) => b,
        Err(e) => {
            return Err(e);
        },
    };
    if str_contains(req.board.architecture.as_str(), "esp") {
        Ok(
            FlashPlan {
                port_name: upload_port.clone(),
                method: FlashMethod::EspSequence {
                    main: firmware_binary,
                    ble_ota: ble_ota_binary,
                    littlefs: littlefs_binary,
                },
            },
        )
    } else if str_contains(req.board.architecture.as_str(), "nrf") || str_contains(
        req.board.architecture.as_str(),
        "rp2040",
    ) || str_contains(req.board.architecture.as_str(), "pico") {
        Ok(
            FlashPlan {
                port_name: upload_port.clone(),
                method: FlashMethod::MassStorageCopy {
                    file_name: req.firmware_file_name.clone(),
                    binary: firmware_binary,
                },
            },
        )
    } else {
        Err(
            FlashError::UnsupportedArchitecture {
                architecture: req.board.architecture.clone(),
            },
        )
    }
}

} // verus!
