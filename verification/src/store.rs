//! Pairing credentials, the host's store of them, and their export.

use crate::error::{ErrorView, PairingError};
use crate::views::{option_view, result_view};
use vstd::prelude::*;

verus! {

/// The mathematical value of a [`PairingRecord`].
pub struct RecordView {
    pub owner_identity: Seq<char>,
    pub payload: Seq<u8>,
}

/// The credential that lets the host command one device. The payload is
/// opaque: it is carried and never interpreted. A record is made once and
/// never changed; a new pairing yields a new record.
#[derive(Debug, PartialEq, Eq)]
pub struct PairingRecord {
    owner_identity: String,
    payload: Vec<u8>,
}

impl View for PairingRecord {
    type V = RecordView;

    closed spec fn view(&self) -> RecordView {
        RecordView { owner_identity: self.owner_identity@, payload: self.payload@ }
    }
}

impl Clone for PairingRecord {
    fn clone(&self) -> (copy: Self)
        ensures
            copy@ == self@,
    {
        let payload = self.payload.clone();
        assert(payload@ =~= self.payload@);
        PairingRecord { owner_identity: self.owner_identity.clone(), payload }
    }
}

impl PairingRecord {
    /// The record that authenticates `owner_identity` with `payload`. This is
    /// also how bytes that were exported are read back.
    pub fn new(owner_identity: String, payload: Vec<u8>) -> (record: Self)
        ensures
            record@ == (RecordView { owner_identity: owner_identity@, payload: payload@ }),
    {
        PairingRecord { owner_identity, payload }
    }

    pub fn owner_identity(&self) -> (identity: &String)
        ensures
            identity@ == self@.owner_identity,
    {
        &self.owner_identity
    }

    pub fn payload(&self) -> (payload: &Vec<u8>)
        ensures
            payload@ == self@.payload,
    {
        &self.payload
    }
}

/// The mathematical value of an [`ExportedFile`].
pub struct FileView {
    pub directory: Seq<char>,
    pub file_name: Seq<char>,
    pub contents: Seq<u8>,
}

/// One file that an export asks the driver to write: where, under which
/// name, and the bytes. Nothing is written by this crate.
#[derive(Debug, PartialEq, Eq)]
pub struct ExportedFile {
    directory: String,
    file_name: String,
    contents: Vec<u8>,
}

impl View for ExportedFile {
    type V = FileView;

    closed spec fn view(&self) -> FileView {
        FileView {
            directory: self.directory@,
            file_name: self.file_name@,
            contents: self.contents@,
        }
    }
}

impl Clone for ExportedFile {
    fn clone(&self) -> (copy: Self)
        ensures
            copy@ == self@,
    {
        let contents = self.contents.clone();
        assert(contents@ =~= self.contents@);
        ExportedFile {
            directory: self.directory.clone(),
            file_name: self.file_name.clone(),
            contents,
        }
    }
}

impl ExportedFile {
    pub fn directory(&self) -> (directory: &String)
        ensures
            directory@ == self@.directory,
    {
        &self.directory
    }

    pub fn file_name(&self) -> (file_name: &String)
        ensures
            file_name@ == self@.file_name,
    {
        &self.file_name
    }

    pub fn contents(&self) -> (contents: &Vec<u8>)
        ensures
            contents@ == self@.contents,
    {
        &self.contents
    }

    /// Settles an export once the driver has tried to write the file.
    pub fn confirm(&self, written: bool) -> (result: Result<(), PairingError>)
        ensures
            result_view(result) == confirm_write(written),
    {
        if written {
            Ok(())
        } else {
            Err(PairingError::DestinationUnwritable)
        }
    }
}

/// The name of the file a device's credential is exported to. It is fixed by
/// the identity alone.
pub open spec fn export_file_name(identity: Seq<char>) -> Seq<char> {
    identity + ".plist"@
}

impl RecordView {
    /// What exporting this record to `destination` asks for: one file, named
    /// by the owner, holding the payload as it is; or a refusal when no
    /// destination was chosen.
    pub open spec fn export(self, destination: Option<Seq<char>>) -> Result<FileView, ErrorView> {
        match destination {
            Some(directory) => Ok(
                FileView {
                    directory,
                    file_name: export_file_name(self.owner_identity),
                    contents: self.payload,
                },
            ),
            None => Err(ErrorView::DestinationNotSelected),
        }
    }
}

impl FileView {
    /// The record that reading this file back under `identity` yields.
    pub open spec fn read_back(self, identity: Seq<char>) -> RecordView {
        RecordView { owner_identity: identity, payload: self.contents }
    }
}

/// How an export ends, given whether the file was written.
pub open spec fn confirm_write(written: bool) -> Result<(), ErrorView> {
    if written {
        Ok(())
    } else {
        Err(ErrorView::DestinationUnwritable)
    }
}

/// The credentials of a host: at most one payload for each identity.
pub type StoreView = Map<Seq<char>, Seq<u8>>;

/// What reading the credential of `identity` yields.
pub open spec fn read_record(store: StoreView, identity: Seq<char>) -> Result<
    RecordView,
    ErrorView,
> {
    if store.dom().contains(identity) {
        Ok(RecordView { owner_identity: identity, payload: store[identity] })
    } else {
        Err(ErrorView::PairingRecordNotFound)
    }
}

/// The store after the host was seen to hold `on_host` for `identity`:
/// that payload replaces what was there, and no payload removes it.
pub open spec fn refresh_record(
    store: StoreView,
    identity: Seq<char>,
    on_host: Option<Seq<u8>>,
) -> StoreView {
    match on_host {
        Some(payload) => store.insert(identity, payload),
        None => store.remove(identity),
    }
}

/// The host's pairing credentials, keyed by device identity.
#[derive(Debug)]
pub struct PairingRecordStore {
    records: Vec<PairingRecord>,
}

/// Record `i` of `records` exists and belongs to `identity`.
closed spec fn owned_at(records: Seq<PairingRecord>, i: int, identity: Seq<char>) -> bool {
    0 <= i < records.len() && records[i]@.owner_identity == identity
}

/// No two records belong to one identity.
closed spec fn one_per_identity(records: Seq<PairingRecord>) -> bool {
    forall|i: int, j: int|
        0 <= i < records.len() && 0 <= j < records.len() && records[i]@.owner_identity
            == records[j]@.owner_identity ==> i == j
}

/// The credentials that a list of records holds.
closed spec fn credentials(records: Seq<PairingRecord>) -> StoreView {
    Map::new(
        |identity: Seq<char>| exists|i: int| owned_at(records, i, identity),
        |identity: Seq<char>| records[choose|i: int| owned_at(records, i, identity)]@.payload,
    )
}

/// In a list with one record for each identity, the record found for an
/// identity is the one that its credential is read from.
proof fn lemma_credential_at(records: Seq<PairingRecord>, i: int, identity: Seq<char>)
    requires
        one_per_identity(records),
        owned_at(records, i, identity),
    ensures
        credentials(records).dom().contains(identity),
        credentials(records)[identity] == records[i]@.payload,
{
    let chosen = choose|k: int| owned_at(records, k, identity);
    assert(chosen == i);
}

/// Putting a record in the place of the one its identity had, or at the end
/// where it had none, keeps one record for each identity and changes the
/// credential of that identity alone.
proof fn lemma_credentials_after_put(
    before: Seq<PairingRecord>,
    after: Seq<PairingRecord>,
    place: int,
    record: PairingRecord,
)
    requires
        one_per_identity(before),
        owned_at(before, place, record@.owner_identity) && after == before.update(place, record)
            || (forall|i: int| !owned_at(before, i, record@.owner_identity)) && place
            == before.len() && after == before.push(record),
    ensures
        one_per_identity(after),
        credentials(after) == credentials(before).insert(record@.owner_identity, record@.payload),
{
    let owner = record@.owner_identity;
    let target = credentials(before).insert(owner, record@.payload);
    assert(owned_at(after, place, owner));
    assert forall|k: int, identity: Seq<char>| k != place implies (owned_at(after, k, identity)
        <==> owned_at(before, k, identity)) by {}
    assert(one_per_identity(after)) by {
        assert forall|i: int, j: int|
            0 <= i < after.len() && 0 <= j < after.len() && after[i]@.owner_identity
                == after[j]@.owner_identity implies i == j by {
            if i != place && j == place {
                assert(owned_at(before, i, owner));
            } else if i == place && j != place {
                assert(owned_at(before, j, owner));
            }
        }
    }
    assert forall|identity: Seq<char>| target.dom().contains(identity) implies credentials(
        after,
    ).dom().contains(identity) && credentials(after)[identity] == target[identity] by {
        if identity == owner {
            lemma_credential_at(after, place, identity);
        } else {
            let k = choose|k: int| owned_at(before, k, identity);
            assert(owned_at(after, k, identity));
            lemma_credential_at(before, k, identity);
            lemma_credential_at(after, k, identity);
        }
    }
    assert forall|identity: Seq<char>|
        credentials(after).dom().contains(identity) implies target.dom().contains(identity) by {
        let k = choose|k: int| owned_at(after, k, identity);
        if k != place {
            assert(owned_at(before, k, identity));
        }
    }
    assert(credentials(after) =~= target);
}

/// Taking the record of an identity out of the list keeps one record for
/// each identity and takes away the credential of that identity alone.
proof fn lemma_credentials_after_removal(before: Seq<PairingRecord>, place: int, identity: Seq<char>)
    requires
        one_per_identity(before),
        owned_at(before, place, identity),
    ensures
        one_per_identity(before.remove(place)),
        credentials(before.remove(place)) == credentials(before).remove(identity),
{
    let after = before.remove(place);
    let target = credentials(before).remove(identity);
    assert forall|k: int, owner: Seq<char>|
        owned_at(after, k, owner) <==> 0 <= k && owned_at(
            before,
            if k < place {
                k
            } else {
                k + 1
            },
            owner,
        ) by {}
    assert(one_per_identity(after)) by {
        assert forall|i: int, j: int|
            0 <= i < after.len() && 0 <= j < after.len() && after[i]@.owner_identity
                == after[j]@.owner_identity implies i == j by {
            let i0 = if i < place { i } else { i + 1 };
            let j0 = if j < place { j } else { j + 1 };
            assert(before[i0]@.owner_identity == before[j0]@.owner_identity);
        }
    }
    assert forall|owner: Seq<char>|
        credentials(after).dom().contains(owner) <==> target.dom().contains(owner) by {
        if exists|k: int| owned_at(after, k, owner) {
            let k = choose|k: int| owned_at(after, k, owner);
            let k0 = if k < place { k } else { k + 1 };
            assert(owned_at(before, k0, owner));
            if owner == identity {
                assert(before[k0]@.owner_identity == before[place]@.owner_identity);
            }
        }
        if owner != identity && exists|k: int| owned_at(before, k, owner) {
            let k0 = choose|k: int| owned_at(before, k, owner);
            let k = if k0 < place { k0 } else { k0 - 1 };
            assert(owned_at(after, k, owner));
        }
    }
    assert forall|owner: Seq<char>| target.dom().contains(owner) implies credentials(after)[owner]
        == target[owner] by {
        let k = choose|k: int| owned_at(after, k, owner);
        let k0 = if k < place { k } else { k + 1 };
        assert(owned_at(before, k0, owner));
        lemma_credential_at(before, k0, owner);
        lemma_credential_at(after, k, owner);
    }
    assert(credentials(after) =~= target);
}

impl View for PairingRecordStore {
    type V = StoreView;

    closed spec fn view(&self) -> StoreView {
        credentials(self.records@)
    }
}

impl PairingRecordStore {
    #[verifier::type_invariant]
    closed spec fn well_formed(&self) -> bool {
        one_per_identity(self.records@)
    }

    /// A store that holds no credential.
    pub fn new() -> (store: Self)
        ensures
            store@ == Map::<Seq<char>, Seq<u8>>::empty(),
    {
        let store = PairingRecordStore { records: Vec::new() };
        assert(store@ =~= Map::<Seq<char>, Seq<u8>>::empty());
        store
    }

    /// The place of the record of `identity`, if there is one.
    fn locate(&self, identity: &String) -> (found: Option<usize>)
        ensures
            match found {
                Some(i) => owned_at(self.records@, i as int, identity@),
                None => forall|i: int| !owned_at(self.records@, i, identity@),
            },
    {
        let mut i: usize = 0;
        while i < self.records.len()
            invariant
                i <= self.records.len(),
                forall|k: int| 0 <= k < i ==> !owned_at(self.records@, k, identity@),
            decreases self.records.len() - i,
        {
            if self.records[i].owner_identity == *identity {
                return Some(i);
            }
            i += 1;
        }
        None
    }

    /// Hands out the list of records and leaves the store empty, so that
    /// the list can be changed and put back as a whole.
    fn take_records(&mut self) -> (records: Vec<PairingRecord>)
        ensures
            records@ == old(self).records@,
    {
        let mut taken = PairingRecordStore { records: Vec::new() };
        core::mem::swap(self, &mut taken);
        taken.records
    }

    /// Tells whether the host holds a credential for `identity`.
    pub fn contains(&self, identity: &String) -> (held: bool)
        ensures
            held == self@.dom().contains(identity@),
    {
        self.locate(identity).is_some()
    }

    /// Reads the credential of `identity`. The store is left as it is.
    pub fn read(&self, identity: &String) -> (result: Result<PairingRecord, PairingError>)
        ensures
            result_view(result) == read_record(self@, identity@),
    {
        match self.locate(identity) {
            Some(i) => {
                proof {
                    use_type_invariant(self);
                    lemma_credential_at(self.records@, i as int, identity@);
                }
                Ok(self.records[i].clone())
            },
            None => Err(PairingError::PairingRecordNotFound),
        }
    }

    /// Puts `record` in the store. A record that was there for the same
    /// identity is replaced as a whole; every other identity keeps its own.
    pub fn install(&mut self, record: PairingRecord)
        ensures
            final(self)@ == old(self)@.insert(record@.owner_identity, record@.payload),
    {
        let found = self.locate(&record.owner_identity);
        let ghost before = self.records@;
        let ghost place = match found {
            Some(i) => i as int,
            None => before.len() as int,
        };
        proof {
            use_type_invariant(&*self);
        }
        let mut records = self.take_records();
        match found {
            Some(i) => {
                records.set(i, record);
            },
            None => {
                records.push(record);
            },
        }
        proof {
            lemma_credentials_after_put(before, records@, place, record);
        }
        *self = PairingRecordStore { records };
    }

    /// Takes the credential of `identity` out of the store, if it holds one.
    /// Every other identity keeps its own.
    pub fn remove(&mut self, identity: &String)
        ensures
            final(self)@ == old(self)@.remove(identity@),
    {
        match self.locate(identity) {
            Some(i) => {
                proof {
                    use_type_invariant(&*self);
                    lemma_credentials_after_removal(self.records@, i as int, identity@);
                }
                let mut records = self.take_records();
                records.remove(i);
                *self = PairingRecordStore { records };
            },
            None => {
                assert(self@ =~= old(self)@.remove(identity@));
            },
        }
    }

    /// Brings the store in line with what the host was seen to hold for
    /// `identity`: that payload, or nothing.
    pub fn refresh(&mut self, identity: &String, on_host: Option<Vec<u8>>)
        ensures
            final(self)@ == refresh_record(old(self)@, identity@, option_view(on_host)),
    {
        match on_host {
            Some(payload) => {
                self.install(PairingRecord::new(identity.clone(), payload));
            },
            None => {
                self.remove(identity);
            },
        }
    }

    /// Plans the export of `record` to `destination`, the directory the
    /// caller chose, or `None` where the caller declined to choose. The store
    /// and the record are left as they are, and the file is always named
    /// after the record's own identity.
    pub fn export(&self, record: &PairingRecord, destination: Option<String>) -> (result: Result<
        ExportedFile,
        PairingError,
    >)
        ensures
            result_view(result) == record@.export(option_view(destination)),
    {
        match destination {
            Some(directory) => {
                let mut file_name = record.owner_identity.clone();
                file_name.append(".plist");
                let contents = record.payload.clone();
                assert(contents@ =~= record.payload@);
                Ok(ExportedFile { directory, file_name, contents })
            },
            None => Err(PairingError::DestinationNotSelected),
        }
    }
}

/// Exporting the credential that was read and reading the exported bytes
/// back yields the payload that was read, byte for byte; taking those bytes
/// into the store again leaves the store as it was.
pub proof fn export_round_trip(store: StoreView, identity: Seq<char>, directory: Seq<char>)
    requires
        store.dom().contains(identity),
    ensures
        ({
            let record = read_record(store, identity)->Ok_0;
            let file = record.export(Some(directory))->Ok_0;
            let reread = refresh_record(store, identity, Some(file.contents));
            &&& read_record(store, identity) is Ok
            &&& record.export(Some(directory)) is Ok
            &&& file.contents == record.payload
            &&& file.file_name == export_file_name(identity)
            &&& file.read_back(identity) == record
            &&& reread == store
            &&& read_record(reread, identity) == Ok::<RecordView, ErrorView>(record)
        }),
{
    let record = read_record(store, identity)->Ok_0;
    let file = record.export(Some(directory))->Ok_0;
    assert(refresh_record(store, identity, Some(file.contents)) =~= store);
}

/// An export to a destination that was not chosen asks for no file, whatever
/// the record.
pub proof fn export_needs_destination(record: RecordView)
    ensures
        record.export(None) == Err::<FileView, ErrorView>(ErrorView::DestinationNotSelected),
{
}

/// A credential taken into the store replaces the one the identity had: the
/// last one wins as a whole, whatever was there, and no other identity is
/// touched.
pub proof fn last_credential_wins(
    store: StoreView,
    identity: Seq<char>,
    first: Seq<u8>,
    second: Seq<u8>,
    other: Seq<char>,
)
    requires
        other != identity,
    ensures
        ({
            let once = refresh_record(store, identity, Some(second));
            let twice = refresh_record(
                refresh_record(store, identity, Some(first)),
                identity,
                Some(second),
            );
            &&& twice == once
            &&& read_record(once, identity) == Ok::<RecordView, ErrorView>(
                RecordView { owner_identity: identity, payload: second },
            )
            &&& read_record(once, other) == read_record(store, other)
        }),
{
    let once = refresh_record(store, identity, Some(second));
    let twice = refresh_record(
        refresh_record(store, identity, Some(first)),
        identity,
        Some(second),
    );
    assert(twice =~= once);
}

/// Once the host is seen to hold nothing for an identity, reading it fails,
/// and no other identity is touched.
pub proof fn removed_credential_is_not_found(store: StoreView, identity: Seq<char>, other: Seq<char>)
    requires
        other != identity,
    ensures
        read_record(refresh_record(store, identity, None), identity) == Err::<RecordView, ErrorView>(
            ErrorView::PairingRecordNotFound,
        ),
        read_record(refresh_record(store, identity, None), other) == read_record(store, other),
{
}

} // verus!
