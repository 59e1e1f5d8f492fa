//! The device flasher: a state machine that, given a flash plan, hands the
//! surrounding application one action at a time — open a bootloader
//! connection, write one fixed-size chunk at one offset, or copy one file
//! onto a mounted volume — and consumes the outcome of each. The
//! flash-programmable sequence writes three binaries at fixed offsets,
//! strictly in order, in chunks of one mebibyte, rebooting the device only
//! after the final chunk of the final phase; every chunk write yields one
//! progress event. Any failure is terminal for the whole operation. A
//! session exists only once a plan and a resolved port stand; the idle
//! and port-resolving stages live in the resolver functions that build
//! the plan.

use vstd::prelude::*;

use crate::errors::FlashError;

verus! {

/// Chunk size of the bootloader write protocol: one mebibyte.
pub const FLASH_CHUNK_SIZE: usize = 0x100000;

/// Flash offset of the main application binary.
pub const MAIN_FIRMWARE_OFFSET: u32 = 0x0000_0000;

/// Flash offset of the Bluetooth-OTA helper binary.
pub const BLE_OTA_OFFSET: u32 = 0x0026_0000;

/// Flash offset of the filesystem image binary.
pub const LITTLEFS_OFFSET: u32 = 0x0030_0000;

/// The device/port identity that progress events are keyed by.
#[derive(Debug, PartialEq, Eq)]
pub struct BoardId(pub String);

impl Clone for BoardId {
    fn clone(&self) -> (r: Self)
        ensures
            r == *self,
    {
        BoardId(self.0.clone())
    }
}

/// One progress event: how many bytes of the current write phase are done,
/// out of how many in total.
#[derive(Debug, PartialEq, Eq)]
pub struct FlashStatusUpdate {
    pub board_id: BoardId,
    pub current: usize,
    pub total: usize,
}

/// How a board is written: the chunked bootloader sequence over three
/// binaries, or a single file copy onto a mounted volume.
pub enum FlashMethod {
    EspSequence { main: Vec<u8>, ble_ota: Vec<u8>, littlefs: Vec<u8> },
    MassStorageCopy { file_name: String, binary: Vec<u8> },
}

/// Everything one flashing operation writes, and where.
pub struct FlashPlan {
    pub port_name: String,
    pub method: FlashMethod,
}

/// The binary written in the given phase of the chunked sequence.
pub open spec fn phase_data(m: FlashMethod, phase: int) -> Seq<u8> {
    match m {
        FlashMethod::EspSequence { main, ble_ota, littlefs } => {
            if phase == 0 {
                main@
            } else if phase == 1 {
                ble_ota@
            } else {
                littlefs@
            }
        },
        FlashMethod::MassStorageCopy { .. } => Seq::empty(),
    }
}

/// The fixed flash offset at which the given phase starts.
pub open spec fn phase_offset(phase: int) -> u32 {
    if phase == 0 {
        MAIN_FIRMWARE_OFFSET
    } else if phase == 1 {
        BLE_OTA_OFFSET
    } else {
        LITTLEFS_OFFSET
    }
}

/// How many chunk writes a binary of the given length takes.
pub open spec fn num_chunks(len: nat) -> nat
    decreases len,
{
    if len == 0 {
        0
    } else if len <= FLASH_CHUNK_SIZE {
        1
    } else {
        1 + num_chunks((len - FLASH_CHUNK_SIZE) as nat)
    }
}

/// Where the given chunk starts inside its binary.
pub open spec fn chunk_lo(chunk: nat) -> nat {
    chunk * FLASH_CHUNK_SIZE as nat
}

/// Where the given chunk ends inside a binary of the given length; also
/// the cumulative byte count its progress event reports.
pub open spec fn chunk_hi(len: nat, chunk: nat) -> nat {
    if (chunk + 1) * FLASH_CHUNK_SIZE as nat <= len {
        (chunk + 1) * FLASH_CHUNK_SIZE as nat
    } else {
        len
    }
}

/// Chunk positions inside a binary: every chunk starts before the end,
/// ends by the end, and the last chunk ends exactly at the end.
pub proof fn lemma_chunk_bounds(len: nat, chunk: nat)
    requires
        chunk < num_chunks(len),
    ensures
        chunk_lo(chunk) < len,
        chunk_lo(chunk) < chunk_hi(len, chunk) <= len,
        chunk_hi(len, chunk) - chunk_lo(chunk) <= FLASH_CHUNK_SIZE,
        (chunk + 1 == num_chunks(len)) <==> chunk_hi(len, chunk) == len,
    decreases chunk,
{
    if chunk == 0 {
        assert(num_chunks(len) >= 1);
    } else {
        assert(len > FLASH_CHUNK_SIZE);
        lemma_chunk_bounds((len - FLASH_CHUNK_SIZE) as nat, (chunk - 1) as nat);
        assert(chunk_lo(chunk) == chunk_lo((chunk - 1) as nat) + FLASH_CHUNK_SIZE) by {
            assert(chunk * FLASH_CHUNK_SIZE as nat == (chunk - 1) * FLASH_CHUNK_SIZE as nat
                + FLASH_CHUNK_SIZE) by (nonlinear_arith);
        }
        assert((chunk + 1) * FLASH_CHUNK_SIZE as nat == chunk * FLASH_CHUNK_SIZE as nat
            + FLASH_CHUNK_SIZE) by (nonlinear_arith);
    }
}

/// Progress events of one phase are monotone, bounded by the phase length,
/// and the last one reports exactly the phase length: the general shape of
/// the progress stream, for every payload size.
pub proof fn lemma_phase_progress(len: nat, i: nat, j: nat)
    requires
        i <= j < num_chunks(len),
    ensures
        chunk_hi(len, i) <= chunk_hi(len, j) <= len,
        j + 1 == num_chunks(len) ==> chunk_hi(len, j) == len,
    decreases j - i,
{
    lemma_chunk_bounds(len, j);
    if i < j {
        lemma_phase_progress(len, i, (j - 1) as nat);
        lemma_chunk_bounds(len, (j - 1) as nat);
        assert((i + 1) * FLASH_CHUNK_SIZE as nat <= (j + 1) * FLASH_CHUNK_SIZE as nat)
            by (nonlinear_arith)
            requires
                i <= j,
        ;
    }
}

/// A plan whose chunked phases all fit below the 32-bit offset ceiling.
pub open spec fn plan_wf(plan: FlashPlan) -> bool {
    match plan.method {
        FlashMethod::EspSequence { main, ble_ota, littlefs } => {
            &&& MAIN_FIRMWARE_OFFSET + main@.len() <= u32::MAX
            &&& BLE_OTA_OFFSET + ble_ota@.len() <= u32::MAX
            &&& LITTLEFS_OFFSET + littlefs@.len() <= u32::MAX
        },
        FlashMethod::MassStorageCopy { .. } => true,
    }
}

/// Decide at run time whether a plan fits below the offset ceiling.
pub fn flash_plan_is_wf(plan: &FlashPlan) -> (r: bool)
    ensures
        r == plan_wf(*plan),
{
    match &plan.method {
        FlashMethod::EspSequence { main, ble_ota, littlefs } => {
            main.len() as u64 <= (u32::MAX - MAIN_FIRMWARE_OFFSET) as u64 && ble_ota.len() as u64
                <= (u32::MAX - BLE_OTA_OFFSET) as u64 && littlefs.len() as u64 <= (u32::MAX
                - LITTLEFS_OFFSET) as u64
        },
        FlashMethod::MassStorageCopy { .. } => true,
    }
}

/// Where the flashing operation stands.
pub enum SessionState {
    /// About to open the bootloader connection for the given phase.
    Connecting { phase: usize },
    /// About to write the given chunk of the given phase.
    Writing { phase: usize, chunk: usize },
    /// About to copy the single binary onto the mounted volume.
    CopyPending,
    /// Every write is done.
    Complete,
    /// A step failed; the whole operation is over.
    Failed { error: FlashError },
}

/// One outside step the application must perform next.
pub enum FlashAction {
    /// Open a bootloader connection (handshake, baud-rate negotiation) on
    /// this port.
    Connect { port_name: String },
    /// Write these bytes at this flash offset; reboot the device after the
    /// write exactly when `reboot` is set.
    WriteChunk { offset: u32, data: Vec<u8>, reboot: bool },
    /// Copy the binary onto the mounted volume under its canonical name.
    CopyFile { volume_path: String, file_name: String, data: Vec<u8> },
}

/// The state the session enters when the current phase is finished.
pub open spec fn next_phase_state(phase: int) -> SessionState {
    if phase < 2 {
        SessionState::Connecting { phase: (phase + 1) as usize }
    } else {
        SessionState::Complete
    }
}

/// The state the session enters once a phase's connection stands: writing
/// its first chunk, or — for an empty binary — moving straight on.
pub open spec fn state_after_connect(m: FlashMethod, phase: int) -> SessionState {
    if num_chunks(phase_data(m, phase).len()) > 0 {
        SessionState::Writing { phase: phase as usize, chunk: 0 }
    } else {
        next_phase_state(phase)
    }
}

/// The destination path of the mass-storage copy: the volume joined with
/// the canonical file name.
pub open spec fn mass_target_path(plan: FlashPlan) -> Seq<char> {
    match plan.method {
        FlashMethod::MassStorageCopy { file_name, .. } => plan.port_name@ + "/"@ + file_name@,
        FlashMethod::EspSequence { .. } => Seq::empty(),
    }
}

/// The terminal state a failure outcome puts the session into: the error
/// names the step that failed, and a failed chunk write carries the offset
/// at which the chunk began.
pub open spec fn failed_state_for(plan: FlashPlan, s: SessionState, t: SessionState) -> bool {
    match s {
        SessionState::Connecting { .. } => t == (SessionState::Failed {
            error: FlashError::DeviceConnectFailed,
        }),
        SessionState::Writing { phase, chunk } => t == (SessionState::Failed {
            error: FlashError::DeviceWriteFailed {
                offset: (phase_offset(phase as int) + chunk_lo(chunk as nat)) as u32,
            },
        }),
        SessionState::CopyPending => t matches SessionState::Failed { error }
            && (error matches FlashError::FileIoFailed { path } && path@ == mass_target_path(
            plan,
        )),
        _ => false,
    }
}

/// One flashing operation in progress.
pub struct FlashSession {
    plan: FlashPlan,
    state: SessionState,
}

impl FlashSession {
    pub closed spec fn spec_plan(&self) -> FlashPlan {
        self.plan
    }

    pub closed spec fn spec_state(&self) -> SessionState {
        self.state
    }

    /// The session's structural invariant: the plan fits the offsets, and
    /// the state indices stay inside the plan.
    pub open spec fn inv(&self) -> bool {
        &&& plan_wf(self.spec_plan())
        &&& match self.spec_state() {
            SessionState::Connecting { phase } => {
                &&& self.spec_plan().method is EspSequence
                &&& phase < 3
            },
            SessionState::Writing { phase, chunk } => {
                &&& self.spec_plan().method is EspSequence
                &&& phase < 3
                &&& (chunk as nat) < num_chunks(phase_data(self.spec_plan().method,
                    phase as int).len())
            },
            SessionState::CopyPending => self.spec_plan().method is MassStorageCopy,
            SessionState::Complete => true,
            SessionState::Failed { .. } => true,
        }
    }

    /// The session still has an action to perform.
    pub open spec fn active(&self) -> bool {
        match self.spec_state() {
            SessionState::Complete => false,
            SessionState::Failed { .. } => false,
            _ => true,
        }
    }

    /// Start a flashing operation: the chunked sequence begins by
    /// connecting for its first phase, the mass-storage copy with the copy
    /// itself.
    pub fn new(plan: FlashPlan) -> (r: Self)
        requires
            plan_wf(plan),
        ensures
            r.inv(),
            r.spec_plan() == plan,
            plan.method is EspSequence ==> r.spec_state() == (SessionState::Connecting {
                phase: 0usize,
            }),
            plan.method is MassStorageCopy ==> r.spec_state() == SessionState::CopyPending,
    {
        let state = match &plan.method {
            FlashMethod::EspSequence { .. } => SessionState::Connecting { phase: 0 },
            FlashMethod::MassStorageCopy { .. } => SessionState::CopyPending,
        };
        FlashSession { plan, state }
    }

    /// The next outside step, or nothing once the session has ended.
    pub fn current_action(&self) -> (r: Option<FlashAction>)
        requires
            self.inv(),
        ensures
            r is Some <==> self.active(),
            match self.spec_state() {
                SessionState::Connecting { phase } => r matches Some(a) && (
                a matches FlashAction::Connect { port_name } && port_name@
                    == self.spec_plan().port_name@),
                SessionState::Writing { phase, chunk } => r matches Some(a) && (
                a matches FlashAction::WriteChunk { offset, data, reboot } && {
                    let src = phase_data(self.spec_plan().method, phase as int);
                    &&& offset == phase_offset(phase as int) + chunk_lo(chunk as nat)
                    &&& data@ == src.subrange(
                        chunk_lo(chunk as nat) as int,
                        chunk_hi(src.len(), chunk as nat) as int,
                    )
                    &&& reboot == (phase == 2 && chunk + 1 == num_chunks(src.len()))
                }),
                SessionState::CopyPending => r matches Some(a) && (
                a matches FlashAction::CopyFile { volume_path, file_name, data } && {
                    &&& volume_path@ == self.spec_plan().port_name@
                    &&& self.spec_plan().method matches FlashMethod::MassStorageCopy {
                        file_name: f,
                        binary,
                    }
                    &&& file_name@ == f@
                    &&& data@ == binary@
                }),
                SessionState::Complete => r is None,
                SessionState::Failed { .. } => r is None,
            },
    {
        match &self.state {
            SessionState::Connecting { .. } => Some(FlashAction::Connect {
                port_name: self.plan.port_name.clone(),
            }),
            SessionState::Writing { phase, chunk } => {
                let phase: usize = *phase;
                let chunk: usize = *chunk;
                let src: &Vec<u8> = match &self.plan.method {
                    FlashMethod::EspSequence { main, ble_ota, littlefs } => {
                        if phase == 0 {
                            main
                        } else if phase == 1 {
                            ble_ota
                        } else {
                            littlefs
                        }
                    },
                    FlashMethod::MassStorageCopy { .. } => vstd::pervasive::unreached(),
                };
                proof {
                    lemma_chunk_bounds(src@.len(), chunk as nat);
                }
                let lo: usize = chunk * FLASH_CHUNK_SIZE;
                let hi: usize = if src.len() - lo > FLASH_CHUNK_SIZE {
                    lo + FLASH_CHUNK_SIZE
                } else {
                    src.len()
                };
                let last: bool = hi == src.len();
                let base: u32 = if phase == 0 {
                    MAIN_FIRMWARE_OFFSET
                } else if phase == 1 {
                    BLE_OTA_OFFSET
                } else {
                    LITTLEFS_OFFSET
                };
                Some(FlashAction::WriteChunk {
                    offset: base + lo as u32,
                    data: copy_range(src, lo, hi),
                    reboot: phase == 2 && last,
                })
            },
            SessionState::CopyPending => {
                match &self.plan.method {
                    FlashMethod::MassStorageCopy { file_name, binary } => Some(
                        FlashAction::CopyFile {
                            volume_path: self.plan.port_name.clone(),
                            file_name: file_name.clone(),
                            data: copy_range(binary, 0, binary.len()),
                        },
                    ),
                    FlashMethod::EspSequence { .. } => vstd::pervasive::unreached(),
                }
            },
            SessionState::Complete => None,
            SessionState::Failed { .. } => None,
        }
    }

    /// Consume a successful outcome of the current action. A finished
    /// chunk write yields its progress event: the cumulative bytes of the
    /// phase so far, out of the phase's total.
    pub fn report_success(&mut self) -> (ev: Option<FlashStatusUpdate>)
        requires
            old(self).inv(),
            old(self).active(),
        ensures
            final(self).inv(),
            final(self).spec_plan() == old(self).spec_plan(),
            match old(self).spec_state() {
                SessionState::Connecting { phase } => {
                    &&& ev is None
                    &&& final(self).spec_state() == state_after_connect(
                        old(self).spec_plan().method,
                        phase as int,
                    )
                },
                SessionState::Writing { phase, chunk } => {
                    let src = phase_data(old(self).spec_plan().method, phase as int);
                    &&& ev matches Some(u) && {
                        &&& u.board_id.0@ == old(self).spec_plan().port_name@
                        &&& u.current == chunk_hi(src.len(), chunk as nat)
                        &&& u.total == src.len()
                    }
                    &&& final(self).spec_state() == (if chunk + 1 < num_chunks(src.len()) {
                        SessionState::Writing { phase, chunk: (chunk + 1) as usize }
                    } else {
                        next_phase_state(phase as int)
                    })
                },
                SessionState::CopyPending => {
                    &&& ev is None
                    &&& final(self).spec_state() == SessionState::Complete
                },
                _ => false,
            },
    {
        match &self.state {
            SessionState::Connecting { phase } => {
                let phase: usize = *phase;
                let src_len: usize = match &self.plan.method {
                    FlashMethod::EspSequence { main, ble_ota, littlefs } => {
                        if phase == 0 {
                            main.len()
                        } else if phase == 1 {
                            ble_ota.len()
                        } else {
                            littlefs.len()
                        }
                    },
                    FlashMethod::MassStorageCopy { .. } => vstd::pervasive::unreached(),
                };
                if src_len > 0 {
                    self.state = SessionState::Writing { phase, chunk: 0 };
                } else if phase < 2 {
                    self.state = SessionState::Connecting { phase: phase + 1 };
                } else {
                    self.state = SessionState::Complete;
                }
                None
            },
            SessionState::Writing { phase, chunk } => {
                let phase: usize = *phase;
                let chunk: usize = *chunk;
                let src_len: usize = match &self.plan.method {
                    FlashMethod::EspSequence { main, ble_ota, littlefs } => {
                        if phase == 0 {
                            main.len()
                        } else if phase == 1 {
                            ble_ota.len()
                        } else {
                            littlefs.len()
                        }
                    },
                    FlashMethod::MassStorageCopy { .. } => vstd::pervasive::unreached(),
                };
                proof {
                    lemma_chunk_bounds(src_len as nat, chunk as nat);
                }
                let lo: usize = chunk * FLASH_CHUNK_SIZE;
                let hi: usize = if src_len - lo > FLASH_CHUNK_SIZE {
                    lo + FLASH_CHUNK_SIZE
                } else {
                    src_len
                };
                let ev = FlashStatusUpdate {
                    board_id: BoardId(self.plan.port_name.clone()),
                    current: hi,
                    total: src_len,
                };
                if hi < src_len {
                    proof {
                        lemma_chunk_bounds(src_len as nat, chunk as nat);
                    }
                    self.state = SessionState::Writing { phase, chunk: chunk + 1 };
                } else if phase < 2 {
                    self.state = SessionState::Connecting { phase: phase + 1 };
                } else {
                    self.state = SessionState::Complete;
                }
                Some(ev)
            },
            SessionState::CopyPending => {
                self.state = SessionState::Complete;
                None
            },
            SessionState::Complete => vstd::pervasive::unreached(),
            SessionState::Failed { .. } => vstd::pervasive::unreached(),
        }
    }

    /// Consume a failed outcome of the current action: the session ends in
    /// the failure that names the step, and a failed chunk write carries
    /// the offset at which the chunk began.
    pub fn report_failure(&mut self)
        requires
            old(self).inv(),
            old(self).active(),
        ensures
            final(self).inv(),
            final(self).spec_plan() == old(self).spec_plan(),
            failed_state_for(
                old(self).spec_plan(),
                old(self).spec_state(),
                final(self).spec_state(),
            ),
    {
        match &self.state {
            SessionState::Connecting { .. } => {
                self.state = SessionState::Failed { error: FlashError::DeviceConnectFailed };
            },
            SessionState::Writing { phase, chunk } => {
                let phase: usize = *phase;
                let chunk: usize = *chunk;
                let src_len: usize = match &self.plan.method {
                    FlashMethod::EspSequence { main, ble_ota, littlefs } => {
                        if phase == 0 {
                            main.len()
                        } else if phase == 1 {
                            ble_ota.len()
                        } else {
                            littlefs.len()
                        }
                    },
                    FlashMethod::MassStorageCopy { .. } => vstd::pervasive::unreached(),
                };
                proof {
                    lemma_chunk_bounds(src_len as nat, chunk as nat);
                }
                let lo: usize = chunk * FLASH_CHUNK_SIZE;
                let base: u32 = if phase == 0 {
                    MAIN_FIRMWARE_OFFSET
                } else if phase == 1 {
                    BLE_OTA_OFFSET
                } else {
                    LITTLEFS_OFFSET
                };
                self.state = SessionState::Failed {
                    error: FlashError::DeviceWriteFailed { offset: base + lo as u32 },
                };
            },
            SessionState::CopyPending => {
                let path = match &self.plan.method {
                    FlashMethod::MassStorageCopy { file_name, .. } => {
                        let mut p = self.plan.port_name.clone();
                        p.append("/");
                        p.append(file_name.as_str());
                        p
                    },
                    FlashMethod::EspSequence { .. } => vstd::pervasive::unreached(),
                };
                self.state = SessionState::Failed { error: FlashError::FileIoFailed { path } };
            },
            SessionState::Complete => vstd::pervasive::unreached(),
            SessionState::Failed { .. } => vstd::pervasive::unreached(),
        }
    }

    /// Every write is done.
    pub fn is_complete(&self) -> (r: bool)
        ensures
            r == (self.spec_state() is Complete),
    {
        match &self.state {
            SessionState::Complete => true,
            _ => false,
        }
    }

    /// The failure that ended the session, if one did.
    pub fn failure(&self) -> (r: Option<FlashError>)
        ensures
            match self.spec_state() {
                SessionState::Failed { error } => r == Some(error),
                _ => r is None,
            },
    {
        match &self.state {
            SessionState::Failed { error } => Some(error.clone()),
            _ => None,
        }
    }
}

/// Copy a byte range out of a buffer.
fn copy_range(v: &Vec<u8>, lo: usize, hi: usize) -> (r: Vec<u8>)
    requires
        lo <= hi <= v@.len(),
    ensures
        r@ == v@.subrange(lo as int, hi as int),
{
    let mut r: Vec<u8> = Vec::new();
    let mut i: usize = lo;
    while i < hi
        invariant
            lo <= i <= hi <= v@.len(),
            r@ == v@.subrange(lo as int, i as int),
        decreases hi - i,
    {
        r.push(v[i]);
        i = i + 1;
        proof {
            assert(r@ =~= v@.subrange(lo as int, i as int));
        }
    }
    proof {
        assert(r@ =~= v@.subrange(lo as int, hi as int));
    }
    r
}

} // verus!
