//! The files service's decisions: which files belong to a folder, what a purge
//! removes from storage, and how an upload is accounted for.
use vstd::prelude::*;

use crate::models::files::{self, StoragePath};
use crate::models::{encrypted_blobs, encrypted_vault, folders};
use crate::service::error::ServiceError;

verus! {

/// The smallest chunk an upload accepts, in bytes: 5 MiB.
pub const MIN_UPLOAD_CHUNK_SIZE: i64 = 5 * 1024 * 1024;

/// The files service, over a storage, a repository, an id generator and an
/// updates service.
pub struct BasicFilesService<FS, FR, IGS, US> {
    pub files_storage: FS,
    pub files_repository: FR,
    pub id_generator_service: IGS,
    pub updates_service: US,
}

/// A failure of the files service: of its storage or of its repository.
pub enum Error<SE, RE> {
    Storage(SE),
    Repository(RE),
}

impl<FS, FR, IGS, US> BasicFilesService<FS, FR, IGS, US> {
    pub fn new(files_storage: FS, files_repository: FR, id_generator_service: IGS, updates_service: US) -> (r: Self)
        ensures
            r.files_storage == files_storage,
            r.files_repository == files_repository,
            r.id_generator_service == id_generator_service,
            r.updates_service == updates_service,
    {
        BasicFilesService { files_storage, files_repository, id_generator_service, updates_service }
    }

    /// The smallest chunk an upload accepts, in bytes.
    pub fn min_upload_chunk_size(&self) -> (r: i64)
        ensures
            r == 5 * 1024 * 1024,
    {
        MIN_UPLOAD_CHUNK_SIZE
    }
}

/// A file found by its public id counts only if it lies in folder `folder_id`.
pub fn file_in_folder(found: Option<files::Model>, folder_id: folders::Id) -> (r: Option<files::Model>)
    ensures
        found matches Some(f) ==> (f.folder_id == folder_id ==> r == found) && (f.folder_id != folder_id ==> r is None),
        found is None ==> r is None,
{
    match found {
        Some(f) => {
            if f.folder_id == folder_id {
                Some(f)
            } else {
                None
            }
        },
        None => None,
    }
}

/// The file to delete when asked to delete the file `public_id` of folder
/// `folder_id`: the file found by that public id, if it lies in that folder.
pub fn file_to_delete(found: &Option<files::Model>, folder_id: folders::Id) -> (r: Option<files::Id>)
    ensures
        found matches Some(f) ==> (f.folder_id == folder_id ==> r == Some(f.id)) && (f.folder_id != folder_id ==> r is None),
        found is None ==> r is None,
{
    match found {
        Some(f) => {
            if f.folder_id == folder_id {
                Some(f.id)
            } else {
                None
            }
        },
        None => None,
    }
}

/// The storage paths of the given files, in order.
pub open spec fn storage_paths(files: Seq<files::Model>) -> Seq<StoragePath> {
    files.map_values(|f: files::Model| f.storage_path)
}

/// What to remove from storage after the repository deleted `deleted`, the files of
/// a folder: nothing when no file was deleted, else the storage path of each.
pub fn storage_purge(deleted: &Vec<files::Model>) -> (r: Option<Vec<StoragePath>>)
    ensures
        deleted@.len() == 0 ==> r is None,
        deleted@.len() > 0 ==> (r matches Some(p) && p@ == storage_paths(deleted@)),
{
    if deleted.len() == 0 {
        return None;
    }
    let mut paths: Vec<StoragePath> = Vec::new();
    let mut i: usize = 0;
    while i < deleted.len()
        invariant
            i <= deleted.len(),
            paths@ == storage_paths(deleted@.take(i as int)),
        decreases deleted.len() - i,
    {
        paths.push(deleted[i].storage_path);
        assert(storage_paths(deleted@.take(i + 1)) =~= storage_paths(deleted@.take(i as int)).push(deleted@[i as int].storage_path));
        i = i + 1;
    }
    assert(deleted@.take(deleted.len() as int) =~= deleted@);
    Some(paths)
}

/// How many bytes of an upload have arrived.
pub struct UploadProgress {
    pub total_bytes_received: u64,
}

/// What the upload does with the next item of the chunk stream.
pub enum ChunkStep<E> {
    /// Send these bytes to storage as the next part.
    Upload(Vec<u8>),
    /// The client sent an error: stop with it as a business error.
    Abort(E),
    /// The stream has ended: complete the upload.
    Complete,
}

impl UploadProgress {
    pub fn new() -> (r: UploadProgress)
        ensures
            r.total_bytes_received == 0,
    {
        UploadProgress { total_bytes_received: 0 }
    }

    /// Takes the next item of the chunk stream: a chunk is counted and uploaded, an
    /// error aborts the upload, the end of the stream completes it.
    pub fn on_chunk<E>(&mut self, item: Option<Result<Vec<u8>, E>>) -> (r: ChunkStep<E>)
        requires
            item matches Some(Ok(c)) ==> old(self).total_bytes_received + c@.len() <= u64::MAX,
        ensures
            item matches Some(Ok(c)) ==> r == ChunkStep::<E>::Upload(c)
                && final(self).total_bytes_received == old(self).total_bytes_received + c@.len(),
            item matches Some(Err(e)) ==> r == ChunkStep::<E>::Abort(e) && *final(self) == *old(self),
            item is None ==> r is Complete && *final(self) == *old(self),
    {
        match item {
            Some(Ok(c)) => {
                self.total_bytes_received = self.total_bytes_received + c.len() as u64;
                ChunkStep::Upload(c)
            },
            Some(Err(e)) => ChunkStep::Abort(e),
            None => ChunkStep::Complete,
        }
    }

    /// The size recorded for the uploaded file: the bytes received, as an `i64`.
    pub fn file_size(&self) -> (r: i64)
        ensures
            r == self.total_bytes_received as i64,
    {
        #[verifier::truncate] (self.total_bytes_received as i64)
    }
}

/// The business error an upload stops with when the client sends an error.
pub fn aborted_upload<E, I>(e: E) -> (r: ServiceError<E, I>)
    ensures
        r == ServiceError::<E, I>::Business(e),
{
    ServiceError::Business(e)
}

/// The record of a file whose contents are stored.
pub struct NewFile {
    pub public_id: files::PublicId,
    pub folder_id: folders::Id,
    pub data_meta: encrypted_vault::Model,
    pub meta: encrypted_blobs::Model,
    pub storage_path: StoragePath,
    pub file_size: i64,
}

/// The record of an uploaded file: a fresh public id, the folder, the encryption
/// parameters, where the contents were stored, and the bytes received.
pub fn new_file_record(
    public_id: files::PublicId,
    folder_id: folders::Id,
    data_meta: encrypted_vault::Model,
    meta: encrypted_blobs::Model,
    storage_path: StoragePath,
    progress: &UploadProgress,
) -> (r: NewFile)
    ensures
        r.public_id@ == public_id@,
        r.folder_id == folder_id,
        r.data_meta == data_meta,
        r.meta == meta,
        r.storage_path == storage_path,
        r.file_size == progress.total_bytes_received as i64,
{
    NewFile { public_id, folder_id, data_meta, meta, storage_path, file_size: progress.file_size() }
}

/// What an upload carries to its completion: the folder, the encryption
/// parameters and the number of bytes received.
pub struct UploadFileData {
    pub folder_id: folders::Id,
    pub data_meta: encrypted_vault::Model,
    pub meta: encrypted_blobs::Model,
    pub file_size: i64,
}

/// The record of a file whose upload S3 completed at `storage_path`, under a fresh
/// public id.
pub fn completed_file_record(public_id: files::PublicId, upload: UploadFileData, storage_path: StoragePath) -> (r: NewFile)
    ensures
        r.public_id@ == public_id@,
        r.folder_id == upload.folder_id,
        r.data_meta == upload.data_meta,
        r.meta == upload.meta,
        r.storage_path == storage_path,
        r.file_size == upload.file_size,
{
    NewFile {
        public_id,
        folder_id: upload.folder_id,
        data_meta: upload.data_meta,
        meta: upload.meta,
        storage_path,
        file_size: upload.file_size,
    }
}

/// What follows the repository's deletion of a file: when it deleted one, its
/// stored contents are deleted (a failure there is only logged) and its deletion
/// is announced; when it deleted none, nothing follows.
pub fn storage_to_delete(deleted: &Option<files::Model>) -> (r: Option<StoragePath>)
    ensures
        deleted matches Some(f) ==> r == Some(f.storage_path),
        deleted is None ==> r is None,
{
    match deleted {
        Some(f) => Some(f.storage_path),
        None => None,
    }
}

/// Where an upload stands.
pub enum UploadState {
    /// The storage upload is being created.
    Starting,
    /// The next item of the chunk stream is awaited.
    Reading(UploadProgress),
    /// The last chunk is being stored as the next part.
    Storing(UploadProgress),
    /// The storage upload is being completed.
    Completing(UploadProgress),
    /// The file's record is being written.
    Recording,
    /// The upload is over.
    Done,
}

/// What an upload has just learned.
pub enum UploadEvent<E, SE, RE> {
    /// The storage upload was created, or its creation failed.
    Started(Result<(), SE>),
    /// The next item of the chunk stream: a chunk, the client's error, or the end.
    Chunk(Option<Result<Vec<u8>, E>>),
    /// The last chunk was stored, or storing it failed.
    PartStored(Result<(), SE>),
    /// The storage upload was completed at this path, or completing it failed.
    Completed(Result<StoragePath, SE>),
    /// The file's record was written, or writing it failed.
    Recorded(Result<files::Model, RE>),
}

/// What an upload does next.
pub enum UploadAction<E, SE, RE> {
    /// Read the next item of the chunk stream.
    ReadChunk,
    /// Store these bytes as the next part.
    StorePart(Vec<u8>),
    /// Complete the storage upload.
    Complete,
    /// Write the record of the file stored at this path, with the bytes received.
    Record { storage_path: StoragePath, progress: UploadProgress },
    /// Answer the caller.
    Finish(Result<files::Model, ServiceError<E, Error<SE, RE>>>),
}

/// Whether `event` is what an upload in `state` waits for.
pub open spec fn upload_expects<E, SE, RE>(state: UploadState, event: UploadEvent<E, SE, RE>) -> bool {
    match state {
        UploadState::Starting => event is Started,
        UploadState::Reading(_) => event is Chunk,
        UploadState::Storing(_) => event is PartStored,
        UploadState::Completing(_) => event is Completed,
        UploadState::Recording => event is Recorded,
        UploadState::Done => false,
    }
}

/// The first step of an upload: create the storage upload.
pub fn upload_start() -> (r: UploadState)
    ensures
        r is Starting,
{
    UploadState::Starting
}

/// The step an upload in `state` takes on `event`: once the storage upload exists,
/// chunks are read and stored one by one and counted; the end of the stream
/// completes the storage upload and the file's record is written with the bytes
/// received. The client's error ends the upload as a business error; a failure of
/// the storage or of the repository ends it as an internal error of that kind.
pub open spec fn upload_next<E, SE, RE>(state: UploadState, event: UploadEvent<E, SE, RE>) -> (UploadState, UploadAction<E, SE, RE>) {
    match (state, event) {
        (UploadState::Starting, UploadEvent::Started(Ok(_))) =>
            (UploadState::Reading(UploadProgress { total_bytes_received: 0 }), UploadAction::ReadChunk),
        (UploadState::Starting, UploadEvent::Started(Err(se))) =>
            (UploadState::Done, UploadAction::Finish(Err(ServiceError::Internal(Error::Storage(se))))),
        (UploadState::Reading(p), UploadEvent::Chunk(Some(Ok(c)))) => (
            UploadState::Storing(UploadProgress { total_bytes_received: (p.total_bytes_received + c@.len()) as u64 }),
            UploadAction::StorePart(c),
        ),
        (UploadState::Reading(_), UploadEvent::Chunk(Some(Err(e)))) =>
            (UploadState::Done, UploadAction::Finish(Err(ServiceError::Business(e)))),
        (UploadState::Reading(p), UploadEvent::Chunk(None)) => (UploadState::Completing(p), UploadAction::Complete),
        (UploadState::Storing(p), UploadEvent::PartStored(Ok(_))) => (UploadState::Reading(p), UploadAction::ReadChunk),
        (UploadState::Storing(_), UploadEvent::PartStored(Err(se))) =>
            (UploadState::Done, UploadAction::Finish(Err(ServiceError::Internal(Error::Storage(se))))),
        (UploadState::Completing(p), UploadEvent::Completed(Ok(path))) =>
            (UploadState::Recording, UploadAction::Record { storage_path: path, progress: p }),
        (UploadState::Completing(_), UploadEvent::Completed(Err(se))) =>
            (UploadState::Done, UploadAction::Finish(Err(ServiceError::Internal(Error::Storage(se))))),
        (UploadState::Recording, UploadEvent::Recorded(Ok(m))) => (UploadState::Done, UploadAction::Finish(Ok(m))),
        (UploadState::Recording, UploadEvent::Recorded(Err(re))) =>
            (UploadState::Done, UploadAction::Finish(Err(ServiceError::Internal(Error::Repository(re))))),
        _ => (UploadState::Done, UploadAction::ReadChunk),
    }
}

/// One step of an upload, as `upload_next` says.
pub fn upload_step<E, SE, RE>(state: UploadState, event: UploadEvent<E, SE, RE>) -> (r: (UploadState, UploadAction<E, SE, RE>))
    requires
        upload_expects(state, event),
        state matches UploadState::Reading(p) ==> (event matches UploadEvent::Chunk(Some(Ok(c)))
            ==> p.total_bytes_received + c@.len() <= u64::MAX),
    ensures
        r == upload_next(state, event),
{
    match state {
        UploadState::Starting => match event {
            UploadEvent::Started(Ok(())) => (UploadState::Reading(UploadProgress::new()), UploadAction::ReadChunk),
            UploadEvent::Started(Err(se)) => (UploadState::Done, UploadAction::Finish(Err(ServiceError::Internal(Error::Storage(se))))),
            _ => (UploadState::Done, UploadAction::ReadChunk),
        },
        UploadState::Reading(mut progress) => match event {
            UploadEvent::Chunk(item) => match progress.on_chunk(item) {
                ChunkStep::Upload(c) => (UploadState::Storing(progress), UploadAction::StorePart(c)),
                ChunkStep::Abort(e) => (UploadState::Done, UploadAction::Finish(Err(aborted_upload(e)))),
                ChunkStep::Complete => (UploadState::Completing(progress), UploadAction::Complete),
            },
            _ => (UploadState::Done, UploadAction::ReadChunk),
        },
        UploadState::Storing(progress) => match event {
            UploadEvent::PartStored(Ok(())) => (UploadState::Reading(progress), UploadAction::ReadChunk),
            UploadEvent::PartStored(Err(se)) => (UploadState::Done, UploadAction::Finish(Err(ServiceError::Internal(Error::Storage(se))))),
            _ => (UploadState::Done, UploadAction::ReadChunk),
        },
        UploadState::Completing(progress) => match event {
            UploadEvent::Completed(Ok(path)) => (UploadState::Recording, UploadAction::Record { storage_path: path, progress }),
            UploadEvent::Completed(Err(se)) => (UploadState::Done, UploadAction::Finish(Err(ServiceError::Internal(Error::Storage(se))))),
            _ => (UploadState::Done, UploadAction::ReadChunk),
        },
        UploadState::Recording => match event {
            UploadEvent::Recorded(Ok(m)) => (UploadState::Done, UploadAction::Finish(Ok(m))),
            UploadEvent::Recorded(Err(re)) => (UploadState::Done, UploadAction::Finish(Err(ServiceError::Internal(Error::Repository(re))))),
            _ => (UploadState::Done, UploadAction::ReadChunk),
        },
        UploadState::Done => (UploadState::Done, UploadAction::ReadChunk),
    }
}

/// The state an upload reaches from `state` through `events`.
pub open spec fn run_upload<E, SE, RE>(state: UploadState, events: Seq<UploadEvent<E, SE, RE>>) -> UploadState
    decreases events.len(),
{
    if events.len() == 0 {
        state
    } else {
        upload_next(run_upload(state, events.drop_last()), events.last()).0
    }
}

/// The events of reading `chunks` one after the other and storing each of them.
pub open spec fn stored_chunks<E, SE, RE>(chunks: Seq<Vec<u8>>) -> Seq<UploadEvent<E, SE, RE>>
    decreases chunks.len(),
{
    if chunks.len() == 0 {
        seq![]
    } else {
        stored_chunks(chunks.drop_last()) + seq![
            UploadEvent::Chunk(Some(Ok(chunks.last()))),
            UploadEvent::PartStored(Ok(())),
        ]
    }
}

/// The number of bytes of the chunks together.
pub open spec fn total_len(chunks: Seq<Vec<u8>>) -> int
    decreases chunks.len(),
{
    if chunks.len() == 0 {
        0
    } else {
        total_len(chunks.drop_last()) + chunks.last()@.len()
    }
}

proof fn lemma_total_len_grows(chunks: Seq<Vec<u8>>)
    ensures
        total_len(chunks) >= 0,
    decreases chunks.len(),
{
    if chunks.len() > 0 {
        lemma_total_len_grows(chunks.drop_last());
    }
}

/// An upload waiting for the next chunk, having received `n` bytes.
pub open spec fn reading(n: u64) -> UploadState {
    UploadState::Reading(UploadProgress { total_bytes_received: n })
}

/// Writing the record of a file stored at `path` after receiving `n` bytes.
pub open spec fn recording<E, SE, RE>(path: StoragePath, n: u64) -> UploadAction<E, SE, RE> {
    UploadAction::Record { storage_path: path, progress: UploadProgress { total_bytes_received: n } }
}

/// An upload counts exactly the bytes it stores: reading and storing chunks one
/// after the other adds their lengths to the bytes received, and at the end of the
/// stream that count is what the completed upload records.
pub proof fn lemma_upload_counts_bytes<E, SE, RE>(received: u64, chunks: Seq<Vec<u8>>, path: StoragePath)
    requires
        received + total_len(chunks) <= u64::MAX,
    ensures
        run_upload(reading(received), stored_chunks::<E, SE, RE>(chunks)) == reading((received + total_len(chunks)) as u64),
        upload_next(upload_next(reading((received + total_len(chunks)) as u64), UploadEvent::<E, SE, RE>::Chunk(None)).0,
            UploadEvent::<E, SE, RE>::Completed(Ok(path))).1 == recording::<E, SE, RE>(path, (received + total_len(chunks)) as u64),
    decreases chunks.len(),
{
    if chunks.len() == 0 {
        assert(stored_chunks::<E, SE, RE>(chunks) =~= Seq::<UploadEvent<E, SE, RE>>::empty());
    } else {
        let rest = chunks.drop_last();
        let c = chunks.last();
        lemma_total_len_grows(rest);
        lemma_upload_counts_bytes::<E, SE, RE>(received, rest, path);
        let events = stored_chunks::<E, SE, RE>(chunks);
        let before = stored_chunks::<E, SE, RE>(rest);
        let read = UploadEvent::<E, SE, RE>::Chunk(Some(Ok(c)));
        assert(events.drop_last() =~= before.push(read));
        assert(events.drop_last().drop_last() =~= before);
        assert(events.last() == UploadEvent::<E, SE, RE>::PartStored(Ok(())));
        assert(events.drop_last().last() == read);
        let mid = run_upload(reading(received), events.drop_last());
        assert(run_upload(reading(received), events.drop_last().drop_last()) == reading((received + total_len(rest)) as u64));
        assert(mid == upload_next(reading((received + total_len(rest)) as u64), read).0);
        assert(mid == UploadState::Storing(UploadProgress {
            total_bytes_received: (received + total_len(rest) + c@.len()) as u64,
        }));
        assert(run_upload(reading(received), events) == upload_next(mid, UploadEvent::<E, SE, RE>::PartStored(Ok(()))).0);
    }
}

} // verus!
