//! The legacy mapping from catalog hardware-model slugs to the lowercase
//! file-name fragments used inside firmware bundles
//! (`firmware-<fragment>-<version>.<ext>`). A historical compatibility
//! layer from before the catalog exposed a ready-to-use target slug; an
//! unmapped slug is "no mapping", not an error.

use vstd::prelude::*;

use crate::strings::str_eq;

verus! {

/// The mapped file-name fragment for a hardware-model slug, if any.
pub open spec fn spec_file_name_slug(s: Seq<char>) -> Option<Seq<char>> {
    if s == "TLORA_V2"@ {
        Some("tlora-v2"@)
    } else if s == "TLORA_V1"@ {
        Some("tlora-v1"@)
    } else if s == "TLORA_V2_1_1P6"@ {
        Some("tlora-v2-1-1_6"@)
    } else if s == "TLORA_V2_1_1P8"@ {
        Some("tlora-v2-1-1_8"@)
    } else if s == "TLORA_T3_S3"@ {
        Some("tlora-t3s3"@)
    } else if s == "TBEAM"@ {
        Some("tbeam"@)
    } else if s == "TBEAM_V0P7"@ {
        Some("tbeam0_7"@)
    } else if s == "TBEAM_S3_CORE"@ {
        Some("tbeam-s3-core"@)
    } else if s == "T_ECHO"@ {
        Some("t-echo"@)
    } else if s == "T_DECK"@ {
        Some("t-deck"@)
    } else if s == "T_WATCH_S3"@ {
        Some("t-watch-s3"@)
    } else if s == "RAK4631"@ {
        Some("rak4631"@)
    } else if s == "RAK11200"@ {
        Some("rak11200"@)
    } else if s == "RAK11310"@ {
        Some("rak11310"@)
    } else if s == "HELTEC_V2_0"@ {
        Some("heltec-v2_0"@)
    } else if s == "HELTEC_V2_1"@ {
        Some("heltec-v2_1"@)
    } else if s == "HELTEC_V1"@ {
        Some("heltec-v1"@)
    } else if s == "HELTEC_V3"@ {
        Some("heltec-v3"@)
    } else if s == "HELTEC_WSL_V3"@ {
        Some("heltec-wsl-v3"@)
    } else if s == "HELTEC_WIRELESS_TRACKER"@ {
        Some("heltec-wireless-tracker"@)
    } else if s == "HELTEC_WIRELESS_PAPER"@ {
        Some("heltec-wireless-paper"@)
    } else if s == "NANO_G1"@ {
        Some("nano-g1"@)
    } else if s == "NANO_G1_EXPLORER"@ {
        Some("nano-g1-explorer"@)
    } else if s == "STATION_G1"@ {
        Some("station-g1"@)
    } else if s == "NANO_G2_ULTRA"@ {
        Some("nano-g2-ultra"@)
    } else if s == "RPI_PICO"@ {
        Some("pico"@)
    } else if s == "PICOMPUTER_S3"@ {
        Some("picomputer-s3"@)
    } else if s == "DIY_V1"@ {
        Some("meshtastic-diy-v1"@)
    } else if s == "DR_DEV"@ {
        Some("meshtastic-dr-dev"@)
    } else if s == "M5STACK"@ {
        Some("m5stack"@)
    } else {
        None
    }
}

/// Map a hardware-model slug, as published by the catalog, to the canonical
/// lowercase file-name fragment of the firmware bundle.
pub fn file_name_slug_from_hw_model_slug(hw_model_slug: String) -> (r: Option<String>)
    ensures
        match r {
            Some(t) => spec_file_name_slug(hw_model_slug@) == Some(t@),
            None => spec_file_name_slug(hw_model_slug@) is None,
        },
{
    let s = hw_model_slug.as_str();
    if str_eq(s, "TLORA_V2") {
        Some("tlora-v2".to_owned())
    } else if str_eq(s, "TLORA_V1") {
        Some("tlora-v1".to_owned())
    } else if str_eq(s, "TLORA_V2_1_1P6") {
        Some("tlora-v2-1-1_6".to_owned())
    } else if str_eq(s, "TLORA_V2_1_1P8") {
        Some("tlora-v2-1-1_8".to_owned())
    } else if str_eq(s, "TLORA_T3_S3") {
        Some("tlora-t3s3".to_owned())
    } else if str_eq(s, "TBEAM") {
        Some("tbeam".to_owned())
    } else if str_eq(s, "TBEAM_V0P7") {
        Some("tbeam0_7".to_owned())
    } else if str_eq(s, "TBEAM_S3_CORE") {
        Some("tbeam-s3-core".to_owned())
    } else if str_eq(s, "T_ECHO") {
        Some("t-echo".to_owned())
    } else if str_eq(s, "T_DECK") {
        Some("t-deck".to_owned())
    } else if str_eq(s, "T_WATCH_S3") {
        Some("t-watch-s3".to_owned())
    } else if str_eq(s, "RAK4631") {
        Some("rak4631".to_owned())
    } else if str_eq(s, "RAK11200") {
        Some("rak11200".to_owned())
    } else if str_eq(s, "RAK11310") {
        Some("rak11310".to_owned())
    } else if str_eq(s, "HELTEC_V2_0") {
        Some("heltec-v2_0".to_owned())
    } else if str_eq(s, "HELTEC_V2_1") {
        Some("heltec-v2_1".to_owned())
    } else if str_eq(s, "HELTEC_V1") {
        Some("heltec-v1".to_owned())
    } else if str_eq(s, "HELTEC_V3") {
        Some("heltec-v3".to_owned())
    } else if str_eq(s, "HELTEC_WSL_V3") {
        Some("heltec-wsl-v3".to_owned())
    } else if str_eq(s, "HELTEC_WIRELESS_TRACKER") {
        Some("heltec-wireless-tracker".to_owned())
    } else if str_eq(s, "HELTEC_WIRELESS_PAPER") {
        Some("heltec-wireless-paper".to_owned())
    } else if str_eq(s, "NANO_G1") {
        Some("nano-g1".to_owned())
    } else if str_eq(s, "NANO_G1_EXPLORER") {
        Some("nano-g1-explorer".to_owned())
    } else if str_eq(s, "STATION_G1") {
        Some("station-g1".to_owned())
    } else if str_eq(s, "NANO_G2_ULTRA") {
        Some("nano-g2-ultra".to_owned())
    } else if str_eq(s, "RPI_PICO") {
        Some("pico".to_owned())
    } else if str_eq(s, "PICOMPUTER_S3") {
        Some("picomputer-s3".to_owned())
    } else if str_eq(s, "DIY_V1") {
        Some("meshtastic-diy-v1".to_owned())
    } else if str_eq(s, "DR_DEV") {
        Some("meshtastic-dr-dev".to_owned())
    } else if str_eq(s, "M5STACK") {
        Some("m5stack".to_owned())
    } else {
        None
    }
}

} // verus!
