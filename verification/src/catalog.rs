//! The board and firmware catalogs: the fetched data types, the store that
//! caches the last snapshot of each, and the lookups that resolve a flash
//! request against those snapshots.

use vstd::prelude::*;

use crate::errors::FlashError;

verus! {

/// One supported hardware board, as published by the catalog service.
#[derive(Debug, PartialEq, Eq)]
pub struct Board {
    pub hw_model: u32,
    pub hw_model_slug: String,
    pub platformio_target: String,
    pub architecture: String,
    pub actively_supported: bool,
    pub display_name: String,
}

impl Clone for Board {
    fn clone(&self) -> (r: Self)
        ensures
            r == *self,
    {
        Board {
            hw_model: self.hw_model,
            hw_model_slug: self.hw_model_slug.clone(),
            platformio_target: self.platformio_target.clone(),
            architecture: self.architecture.clone(),
            actively_supported: self.actively_supported,
            display_name: self.display_name.clone(),
        }
    }
}

/// One published firmware release.
#[derive(Debug, PartialEq, Eq)]
pub struct FirmwareRelease {
    pub id: String,
    pub title: String,
    pub page_url: String,
    pub zip_url: String,
}

impl Clone for FirmwareRelease {
    fn clone(&self) -> (r: Self)
        ensures
            r == *self,
    {
        FirmwareRelease {
            id: self.id.clone(),
            title: self.title.clone(),
            page_url: self.page_url.clone(),
            zip_url: self.zip_url.clone(),
        }
    }
}

/// One open proposed-changes entry; carried in the catalog but not used by
/// flashing.
#[derive(Debug, PartialEq, Eq)]
pub struct PullRequest {
    pub id: String,
    pub title: String,
    pub page_url: String,
    pub zip_url: String,
}

impl Clone for PullRequest {
    fn clone(&self) -> (r: Self)
        ensures
            r == *self,
    {
        PullRequest {
            id: self.id.clone(),
            title: self.title.clone(),
            page_url: self.page_url.clone(),
            zip_url: self.zip_url.clone(),
        }
    }
}

/// The two release channels: stable entries take priority over pre-release
/// (alpha) entries on an identifier collision.
#[derive(Debug, PartialEq, Eq)]
pub struct FirmwareReleases {
    pub stable: Vec<FirmwareRelease>,
    pub alpha: Vec<FirmwareRelease>,
}

impl Clone for FirmwareReleases {
    fn clone(&self) -> (r: Self)
        ensures
            r.stable@ == self.stable@,
            r.alpha@ == self.alpha@,
    {
        FirmwareReleases { stable: clone_releases(&self.stable), alpha: clone_releases(&self.alpha) }
    }
}

/// The full answer of the firmware-catalog service.
#[derive(Debug, PartialEq, Eq)]
pub struct ListFirmwareResponse {
    pub releases: FirmwareReleases,
    pub pull_requests: Vec<PullRequest>,
}

impl Clone for ListFirmwareResponse {
    fn clone(&self) -> (r: Self)
        ensures
            r.releases.stable@ == self.releases.stable@,
            r.releases.alpha@ == self.releases.alpha@,
            r.pull_requests@ == self.pull_requests@,
    {
        ListFirmwareResponse {
            releases: self.releases.clone(),
            pull_requests: clone_pull_requests(&self.pull_requests),
        }
    }
}

fn clone_releases(v: &Vec<FirmwareRelease>) -> (r: Vec<FirmwareRelease>)
    ensures
        r@ == v@,
{
    let mut r: Vec<FirmwareRelease> = Vec::new();
    let mut i: usize = 0;
    while i < v.len()
        invariant
            i <= v@.len(),
            r@ == v@.subrange(0, i as int),
        decreases v@.len() - i,
    {
        r.push(v[i].clone());
        i = i + 1;
        proof {
            assert(r@ =~= v@.subrange(0, i as int));
        }
    }
    proof {
        assert(r@ =~= v@);
    }
    r
}

fn clone_pull_requests(v: &Vec<PullRequest>) -> (r: Vec<PullRequest>)
    ensures
        r@ == v@,
{
    let mut r: Vec<PullRequest> = Vec::new();
    let mut i: usize = 0;
    while i < v.len()
        invariant
            i <= v@.len(),
            r@ == v@.subrange(0, i as int),
        decreases v@.len() - i,
    {
        r.push(v[i].clone());
        i = i + 1;
        proof {
            assert(r@ =~= v@.subrange(0, i as int));
        }
    }
    proof {
        assert(r@ =~= v@);
    }
    r
}

/// Clone a board list element by element.
pub fn clone_boards(v: &Vec<Board>) -> (r: Vec<Board>)
    ensures
        r@ == v@,
{
    let mut r: Vec<Board> = Vec::new();
    let mut i: usize = 0;
    while i < v.len()
        invariant
            i <= v@.len(),
            r@ == v@.subrange(0, i as int),
        decreases v@.len() - i,
    {
        r.push(v[i].clone());
        i = i + 1;
        proof {
            assert(r@ =~= v@.subrange(0, i as int));
        }
    }
    proof {
        assert(r@ =~= v@);
    }
    r
}

/// The cache of the last fetched snapshots. Each list is replaced wholesale
/// on a successful refresh and read out as a copy; a fetch failure leaves
/// the previous value in place (the caller simply never calls replace).
/// Exclusive access during a read or replace is the surrounding
/// application's concern; the store itself is a pair of value cells.
pub struct CatalogStore {
    boards: Vec<Board>,
    firmware: ListFirmwareResponse,
}

impl CatalogStore {
    pub closed spec fn spec_boards(&self) -> Seq<Board> {
        self.boards@
    }

    pub closed spec fn spec_stable(&self) -> Seq<FirmwareRelease> {
        self.firmware.releases.stable@
    }

    pub closed spec fn spec_alpha(&self) -> Seq<FirmwareRelease> {
        self.firmware.releases.alpha@
    }

    pub closed spec fn spec_pull_requests(&self) -> Seq<PullRequest> {
        self.firmware.pull_requests@
    }

    /// A store that has not yet seen a catalog: both snapshots empty.
    pub fn new() -> (r: Self)
        ensures
            r.spec_boards() == Seq::<Board>::empty(),
            r.spec_stable() == Seq::<FirmwareRelease>::empty(),
            r.spec_alpha() == Seq::<FirmwareRelease>::empty(),
            r.spec_pull_requests() == Seq::<PullRequest>::empty(),
    {
        let r = CatalogStore {
            boards: Vec::new(),
            firmware: ListFirmwareResponse {
                releases: FirmwareReleases { stable: Vec::new(), alpha: Vec::new() },
                pull_requests: Vec::new(),
            },
        };
        proof {
            assert(r.spec_boards() =~= Seq::<Board>::empty());
            assert(r.spec_stable() =~= Seq::<FirmwareRelease>::empty());
            assert(r.spec_alpha() =~= Seq::<FirmwareRelease>::empty());
            assert(r.spec_pull_requests() =~= Seq::<PullRequest>::empty());
        }
        r
    }

    /// Replace the board snapshot wholesale; the firmware snapshot is
    /// untouched.
    pub fn replace_boards(&mut self, boards: Vec<Board>)
        ensures
            final(self).spec_boards() == boards@,
            final(self).spec_stable() == old(self).spec_stable(),
            final(self).spec_alpha() == old(self).spec_alpha(),
            final(self).spec_pull_requests() == old(self).spec_pull_requests(),
    {
        self.boards = boards;
    }

    /// Replace the firmware snapshot wholesale; the board snapshot is
    /// untouched.
    pub fn replace_firmware(&mut self, firmware: ListFirmwareResponse)
        ensures
            final(self).spec_boards() == old(self).spec_boards(),
            final(self).spec_stable() == firmware.releases.stable@,
            final(self).spec_alpha() == firmware.releases.alpha@,
            final(self).spec_pull_requests() == firmware.pull_requests@,
    {
        self.firmware = firmware;
    }

    /// Copy the current board snapshot out.
    pub fn read_boards(&self) -> (r: Vec<Board>)
        ensures
            r@ == self.spec_boards(),
    {
        clone_boards(&self.boards)
    }

    /// Copy the current firmware snapshot out.
    pub fn read_firmware(&self) -> (r: ListFirmwareResponse)
        ensures
            r.releases.stable@ == self.spec_stable(),
            r.releases.alpha@ == self.spec_alpha(),
            r.pull_requests@ == self.spec_pull_requests(),
    {
        self.firmware.clone()
    }
}

/// The position of the first board in the list with the given
/// hardware-model identifier.
pub open spec fn first_board_with_model(boards: Seq<Board>, hw_model: u32) -> Option<int>
    decreases boards.len(),
{
    if boards.len() == 0 {
        None
    } else if boards[0].hw_model == hw_model {
        Some(0int)
    } else {
        match first_board_with_model(boards.drop_first(), hw_model) {
            None => None,
            Some(i) => Some(i + 1),
        }
    }
}

pub proof fn lemma_first_board_with_model(boards: Seq<Board>, hw_model: u32)
    ensures
        match first_board_with_model(boards, hw_model) {
            None => forall|i: int| 0 <= i < boards.len() ==> boards[i].hw_model != hw_model,
            Some(i) => {
                &&& 0 <= i < boards.len()
                &&& boards[i].hw_model == hw_model
                &&& forall|j: int| 0 <= j < i ==> boards[j].hw_model != hw_model
            },
        },
    decreases boards.len(),
{
    if boards.len() > 0 {
        let d = boards.drop_first();
        lemma_first_board_with_model(d, hw_model);
        assert(forall|i: int| 0 <= i < d.len() ==> d[i] == #[trigger] boards[i + 1]);
        if boards[0].hw_model != hw_model {
            match first_board_with_model(d, hw_model) {
                None => {
                    assert forall|i: int| 0 <= i < boards.len() implies boards[i].hw_model
                        != hw_model by {
                        if i > 0 {
                            assert(d[i - 1] == boards[i]);
                        }
                    }
                },
                Some(i) => {
                    assert(boards[i + 1] == d[i]);
                    assert forall|j: int| 0 <= j < i + 1 implies boards[j].hw_model != hw_model by {
                        if j > 0 {
                            assert(d[j - 1] == boards[j]);
                        }
                    }
                },
            }
        }
    }
}

/// What looking a board up by its hardware-model identifier must yield: the
/// first board with that identifier, or `BoardNotFound` when there is none.
pub open spec fn find_board_spec(
    boards: Seq<Board>,
    hw_model: u32,
    r: Result<Board, FlashError>,
) -> bool {
    match first_board_with_model(boards, hw_model) {
        Some(i) => r == Ok::<Board, FlashError>(boards[i]),
        None => r == Err::<Board, FlashError>(FlashError::BoardNotFound { hw_model }),
    }
}

/// Look a board up by its hardware-model identifier.
#[verifier::loop_isolation(false)]
pub fn find_board_by_hw_model(boards: &Vec<Board>, hw_model: u32) -> (r: Result<Board, FlashError>)
    ensures
        find_board_spec(boards@, hw_model, r),
{
    proof {
        lemma_first_board_with_model(boards@, hw_model);
    }
    let mut i: usize = 0;
    while i < boards.len()
        invariant
            i <= boards@.len(),
            forall|j: int| 0 <= j < i ==> boards@[j].hw_model != hw_model,
        decreases boards@.len() - i,
    {
        if boards[i].hw_model == hw_model {
            return Ok(boards[i].clone());
        }
        i = i + 1;
    }
    Err(FlashError::BoardNotFound { hw_model })
}

/// The position of the first release in the list with the given identifier.
pub open spec fn first_release_with_id(rs: Seq<FirmwareRelease>, id: Seq<char>) -> Option<int>
    decreases rs.len(),
{
    if rs.len() == 0 {
        None
    } else if rs[0].id@ == id {
        Some(0int)
    } else {
        match first_release_with_id(rs.drop_first(), id) {
            None => None,
            Some(i) => Some(i + 1),
        }
    }
}

pub proof fn lemma_first_release_with_id(rs: Seq<FirmwareRelease>, id: Seq<char>)
    ensures
        match first_release_with_id(rs, id) {
            None => forall|i: int| 0 <= i < rs.len() ==> rs[i].id@ != id,
            Some(i) => {
                &&& 0 <= i < rs.len()
                &&& rs[i].id@ == id
                &&& forall|j: int| 0 <= j < i ==> rs[j].id@ != id
            },
        },
    decreases rs.len(),
{
    if rs.len() > 0 {
        let d = rs.drop_first();
        lemma_first_release_with_id(d, id);
        assert(forall|i: int| 0 <= i < d.len() ==> d[i] == #[trigger] rs[i + 1]);
        if rs[0].id@ != id {
            match first_release_with_id(d, id) {
                None => {
                    assert forall|i: int| 0 <= i < rs.len() implies rs[i].id@ != id by {
                        if i > 0 {
                            assert(d[i - 1] == rs[i]);
                        }
                    }
                },
                Some(i) => {
                    assert(rs[i + 1] == d[i]);
                    assert forall|j: int| 0 <= j < i + 1 implies rs[j].id@ != id by {
                        if j > 0 {
                            assert(d[j - 1] == rs[j]);
                        }
                    }
                },
            }
        }
    }
}

/// What resolving a release identifier must yield: the first matching
/// stable entry, else the first matching pre-release entry, else
/// `ReleaseNotFound`.
pub open spec fn find_release_spec(
    stable: Seq<FirmwareRelease>,
    alpha: Seq<FirmwareRelease>,
    id: Seq<char>,
    r: Result<FirmwareRelease, FlashError>,
) -> bool {
    match first_release_with_id(stable, id) {
        Some(i) => r == Ok::<FirmwareRelease, FlashError>(stable[i]),
        None => match first_release_with_id(alpha, id) {
            Some(i) => r == Ok::<FirmwareRelease, FlashError>(alpha[i]),
            None => r matches Err(e) && (e matches FlashError::ReleaseNotFound { id: rid }
                && rid@ == id),
        },
    }
}

/// Resolve a firmware release identifier against the two channels, stable
/// channel first.
#[verifier::loop_isolation(false)]
pub fn find_release_by_id(releases: &FirmwareReleases, firmware_version_id: &String) -> (r: Result<
    FirmwareRelease,
    FlashError,
>)
    ensures
        find_release_spec(releases.stable@, releases.alpha@, firmware_version_id@, r),
{
    proof {
        lemma_first_release_with_id(releases.stable@, firmware_version_id@);
        lemma_first_release_with_id(releases.alpha@, firmware_version_id@);
    }
    let mut i: usize = 0;
    while i < releases.stable.len()
        invariant
            i <= releases.stable@.len(),
            forall|j: int| 0 <= j < i ==> releases.stable@[j].id@ != firmware_version_id@,
        decreases releases.stable@.len() - i,
    {
        if releases.stable[i].id.eq(firmware_version_id) {
            proof {
                lemma_first_release_with_id(releases.stable@, firmware_version_id@);
            }
            return Ok(releases.stable[i].clone());
        }
        i = i + 1;
    }
    let mut k: usize = 0;
    while k < releases.alpha.len()
        invariant
            k <= releases.alpha@.len(),
            forall|j: int| 0 <= j < k ==> releases.alpha@[j].id@ != firmware_version_id@,
        decreases releases.alpha@.len() - k,
    {
        if releases.alpha[k].id.eq(firmware_version_id) {
            proof {
                lemma_first_release_with_id(releases.alpha@, firmware_version_id@);
            }
            return Ok(releases.alpha[k].clone());
        }
        k = k + 1;
    }
    Err(FlashError::ReleaseNotFound { id: firmware_version_id.clone() })
}

/// A release identifier present in both channels resolves to the stable
/// entry: any result meeting the resolver's contract is the first stable
/// match whenever the stable channel holds the identifier at all.
pub proof fn lemma_stable_channel_priority(
    stable: Seq<FirmwareRelease>,
    alpha: Seq<FirmwareRelease>,
    id: Seq<char>,
    r: Result<FirmwareRelease, FlashError>,
)
    requires
        exists|i: int| 0 <= i < stable.len() && stable[i].id@ == id,
        find_release_spec(stable, alpha, id, r),
    ensures
        r matches Ok(rel) && {
            &&& rel.id@ == id
            &&& exists|i: int|
                {
                    &&& 0 <= i < stable.len()
                    &&& stable[i] == rel
                    &&& forall|j: int| 0 <= j < i ==> stable[j].id@ != id
                }
        },
{
    lemma_first_release_with_id(stable, id);
}

} // verus!
