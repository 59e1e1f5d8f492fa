use meshflash::errors::FlashError;
use meshflash::flash::{
    flash_plan_is_wf, FlashAction, FlashMethod, FlashPlan, FlashSession, FlashStatusUpdate,
};

const MIB: usize = 0x100000;

fn esp_plan(main: Vec<u8>, ble_ota: Vec<u8>, littlefs: Vec<u8>) -> FlashPlan {
    FlashPlan {
        port_name: "/dev/ttyACM0".to_string(),
        method: FlashMethod::EspSequence { main, ble_ota, littlefs },
    }
}

/// Drive one full phase: expect a connect action, then chunk writes until
/// the phase leaves the given offset base behind. Returns the progress
/// events and the (offset, length, reboot) triples of the chunks.
fn run_phase(
    session: &mut FlashSession,
    expected_base: u32,
) -> (Vec<FlashStatusUpdate>, Vec<(u32, usize, bool)>) {
    match session.current_action() {
        Some(FlashAction::Connect { port_name }) => {
            assert_eq!(port_name, "/dev/ttyACM0");
        }
        other => panic!("expected a connect action, got {:?}", action_kind(&other)),
    }
    assert!(session.report_success().is_none());
    let mut events = Vec::new();
    let mut chunks = Vec::new();
    loop {
        match session.current_action() {
            Some(FlashAction::WriteChunk { offset, data, reboot }) if offset >= expected_base => {
                chunks.push((offset, data.len(), reboot));
                let ev = session.report_success().expect("chunk write yields an event");
                events.push(ev);
            }
            _ => break,
        }
    }
    (events, chunks)
}

fn action_kind(a: &Option<FlashAction>) -> &'static str {
    match a {
        None => "none",
        Some(FlashAction::Connect { .. }) => "connect",
        Some(FlashAction::WriteChunk { .. }) => "write-chunk",
        Some(FlashAction::CopyFile { .. }) => "copy-file",
    }
}

#[test]
fn three_mib_phase_emits_exactly_three_monotone_events() {
    let main = vec![0xABu8; 3 * MIB];
    let plan = esp_plan(main, vec![0x01], vec![0x02]);
    assert!(flash_plan_is_wf(&plan));
    let mut session = FlashSession::new(plan);

    let (events, chunks) = run_phase(&mut session, 0);
    assert_eq!(events.len(), 3);
    assert_eq!(chunks.len(), 3);
    // Offsets advance by exactly the chunk length.
    assert_eq!(chunks[0], (0x0000_0000, MIB, false));
    assert_eq!(chunks[1], (0x0010_0000, MIB, false));
    assert_eq!(chunks[2], (0x0020_0000, MIB, false));
    // Currents are monotonically non-decreasing; totals are the payload
    // length throughout; the last current is the payload length.
    for w in events.windows(2) {
        assert!(w[0].current <= w[1].current);
    }
    for ev in &events {
        assert_eq!(ev.total, 3 * MIB);
        assert_eq!(ev.board_id.0, "/dev/ttyACM0");
    }
    assert_eq!(events[0].current, MIB);
    assert_eq!(events[1].current, 2 * MIB);
    assert_eq!(events[2].current, 3 * MIB);
}

#[test]
fn full_sequence_writes_three_phases_in_order_and_reboots_last() {
    let plan = esp_plan(vec![1u8; 10], vec![2u8; 20], vec![3u8; 30]);
    let mut session = FlashSession::new(plan);

    let (_, main_chunks) = run_phase(&mut session, 0x0000_0000);
    assert_eq!(main_chunks, vec![(0x0000_0000, 10, false)]);

    let (ota_events, ota_chunks) = run_phase(&mut session, 0x0026_0000);
    assert_eq!(ota_chunks, vec![(0x0026_0000, 20, false)]);
    assert_eq!(ota_events[0].total, 20);

    let (_, fs_chunks) = run_phase(&mut session, 0x0030_0000);
    // The final chunk of the final phase, and only it, reboots the device.
    assert_eq!(fs_chunks, vec![(0x0030_0000, 30, true)]);

    assert!(session.is_complete());
    assert!(session.current_action().is_none());
    assert!(session.failure().is_none());
}

#[test]
fn empty_final_binary_means_no_write_and_no_reboot() {
    let plan = esp_plan(vec![1u8; 4], vec![2u8; 4], vec![]);
    let mut session = FlashSession::new(plan);
    run_phase(&mut session, 0x0000_0000);
    run_phase(&mut session, 0x0026_0000);
    // The third phase still connects, but there is nothing to write.
    match session.current_action() {
        Some(FlashAction::Connect { .. }) => {}
        other => panic!("expected a connect action, got {:?}", action_kind(&other)),
    }
    assert!(session.report_success().is_none());
    assert!(session.is_complete());
}

#[test]
fn chunk_write_failure_is_fatal_and_names_the_offset() {
    let plan = esp_plan(vec![0u8; 2 * MIB + 5], vec![], vec![]);
    let mut session = FlashSession::new(plan);
    // Connect, then write the first chunk, then fail on the second.
    assert!(matches!(session.current_action(), Some(FlashAction::Connect { .. })));
    session.report_success();
    assert!(matches!(session.current_action(), Some(FlashAction::WriteChunk { .. })));
    session.report_success();
    assert!(matches!(session.current_action(), Some(FlashAction::WriteChunk { .. })));
    session.report_failure();
    assert_eq!(
        session.failure(),
        Some(FlashError::DeviceWriteFailed { offset: 0x0010_0000 })
    );
    assert!(session.current_action().is_none());
    assert!(!session.is_complete());
}

#[test]
fn connect_failure_is_fatal_for_the_whole_operation() {
    let plan = esp_plan(vec![1u8; 8], vec![], vec![]);
    let mut session = FlashSession::new(plan);
    assert!(matches!(session.current_action(), Some(FlashAction::Connect { .. })));
    session.report_failure();
    assert_eq!(session.failure(), Some(FlashError::DeviceConnectFailed));
    assert!(session.current_action().is_none());
}

#[test]
fn mass_storage_plan_is_a_single_file_copy() {
    let plan = FlashPlan {
        port_name: "/media/RAK4631".to_string(),
        method: FlashMethod::MassStorageCopy {
            file_name: "firmware-rak4631-2.5.1.abc1234.uf2".to_string(),
            binary: vec![7u8; 99],
        },
    };
    assert!(flash_plan_is_wf(&plan));
    let mut session = FlashSession::new(plan);
    match session.current_action() {
        Some(FlashAction::CopyFile { volume_path, file_name, data }) => {
            assert_eq!(volume_path, "/media/RAK4631");
            assert_eq!(file_name, "firmware-rak4631-2.5.1.abc1234.uf2");
            assert_eq!(data, vec![7u8; 99]);
        }
        other => panic!("expected a copy action, got {:?}", action_kind(&other)),
    }
    assert!(session.report_success().is_none());
    assert!(session.is_complete());
}

#[test]
fn mass_storage_copy_failure_names_the_destination_path() {
    let plan = FlashPlan {
        port_name: "/media/RAK4631".to_string(),
        method: FlashMethod::MassStorageCopy {
            file_name: "firmware-rak4631-2.5.1.abc1234.uf2".to_string(),
            binary: vec![7u8; 9],
        },
    };
    let mut session = FlashSession::new(plan);
    session.report_failure();
    assert_eq!(
        session.failure(),
        Some(FlashError::FileIoFailed {
            path: "/media/RAK4631/firmware-rak4631-2.5.1.abc1234.uf2".to_string()
        })
    );
}
