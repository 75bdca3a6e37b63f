//! The folders service's decisions: which folders have expired, when a folder is
//! gone, and when a new folder expires.
use vstd::prelude::*;

use crate::folders::repository::db::FolderActiveModel;
use crate::models::{folders, ActiveValue};
use crate::models::time::{fits_after, nanos_after, Duration, UtcTimestamp};

verus! {

/// The folders service, over a folders repository, a files service and an id generator.
pub struct BasicFoldersService<FR, FS, IGS> {
    pub folder_repository: FR,
    pub files_service: FS,
    pub id_generator_service: IGS,
}

/// A failure of the folders service: of its repository, or of the files service.
pub enum Error<RE, FE> {
    Repository(RE),
    Files(FE),
}

impl<FR, FS, IGS> BasicFoldersService<FR, FS, IGS> {
    pub fn new(folder_repository: FR, files_service: FS, id_generator_service: IGS) -> (r: Self)
        ensures
            r.folder_repository == folder_repository,
            r.files_service == files_service,
            r.id_generator_service == id_generator_service,
    {
        BasicFoldersService { folder_repository, files_service, id_generator_service }
    }
}

/// Whether a folder with expiry `expired_at` has expired at `now`: it has an expiry
/// and `now` is strictly after it.
pub open spec fn expired(expired_at: Option<UtcTimestamp>, now: UtcTimestamp) -> bool {
    match expired_at {
        Some(exp) => now.spec_after(exp),
        None => false,
    }
}

/// Whether a folder with expiry `expired_at` has expired at `now`.
pub fn is_expired(expired_at: Option<UtcTimestamp>, now: UtcTimestamp) -> (r: bool)
    ensures
        r == expired(expired_at, now),
{
    match expired_at {
        Some(exp) => now.is_after(&exp),
        None => false,
    }
}

/// The outcome of looking a folder up by its public id.
pub struct FolderLookup {
    /// The folder, if it exists and has not expired.
    pub folder: Option<folders::Model>,
    /// The id of an expired folder whose removal is to be started in the background.
    pub remove: Option<folders::Id>,
}

/// Decides what a lookup answers, given what the repository found at `now`: an
/// expired folder is answered as missing, and its removal is started; any other
/// result is answered as it is.
pub fn lookup_outcome(found: Option<folders::Model>, now: UtcTimestamp) -> (r: FolderLookup)
    ensures
        found is None ==> r.folder is None && r.remove is None,
        found matches Some(f) ==> (expired(f.expired_at, now) ==> r.folder is None && r.remove == Some(f.id)),
        found matches Some(f) ==> (!expired(f.expired_at, now) ==> r.folder == found && r.remove is None),
{
    match found {
        None => FolderLookup { folder: None, remove: None },
        Some(f) => {
            if is_expired(f.expired_at, now) {
                let id = f.id;
                FolderLookup { folder: None, remove: Some(id) }
            } else {
                FolderLookup { folder: Some(f), remove: None }
            }
        },
    }
}

/// The answer of removing a folder, once its files are gone: whether the
/// repository deleted a folder, or its failure.
pub fn folder_deleted<RE, FE>(deleted: Result<Option<folders::Model>, RE>) -> (r: Result<bool, Error<RE, FE>>)
    ensures
        deleted matches Ok(f) ==> r == Ok::<bool, Error<RE, FE>>(f is Some),
        deleted matches Err(e) ==> r == Err::<bool, Error<RE, FE>>(Error::Repository(e)),
{
    match deleted {
        Ok(f) => Ok(f.is_some()),
        Err(e) => Err(Error::Repository(e)),
    }
}

/// When a folder created at `now` with lifetime `expires` expires: never without a
/// lifetime, else `expires` after `now`.
pub fn expiry_for(now: UtcTimestamp, expires: Option<Duration>) -> (r: Option<UtcTimestamp>)
    requires
        now.wf(),
        expires matches Some(d) ==> d.wf() && fits_after(now, d),
    ensures
        expires is None ==> r is None,
        expires matches Some(d) ==> (r matches Some(t) && t.wf() && t.total_nanos() == nanos_after(now, d)),
{
    match expires {
        None => None,
        Some(d) => Some(now.plus(d)),
    }
}

/// The row inserted for a new folder named `encrypted_name`, created at `now` with
/// lifetime `expires`: a fresh public id, the name, the creation time, and the
/// expiry when there is a lifetime (without one the expiry is not written); the id
/// is left to the database.
pub fn folder_to_create(
    public_id: folders::PublicId,
    encrypted_name: folders::FolderName,
    expires: Option<Duration>,
    now: UtcTimestamp,
) -> (r: FolderActiveModel)
    requires
        now.wf(),
        expires matches Some(d) ==> d.wf() && fits_after(now, d),
    ensures
        r.id is NotSet,
        r.public_id matches ActiveValue::SetValue(p) && p@ == public_id@,
        r.encrypted_name == ActiveValue::SetValue(encrypted_name),
        r.created_at == ActiveValue::SetValue(now),
        expires is None ==> r.expired_at is NotSet,
        expires matches Some(d) ==> (r.expired_at matches ActiveValue::SetValue(Some(t)) && t.wf()
            && t.total_nanos() == nanos_after(now, d)),
{
    let expired_at = match expiry_for(now, expires) {
        Some(t) => ActiveValue::SetValue(Some(t)),
        None => ActiveValue::NotSet,
    };
    FolderActiveModel {
        id: ActiveValue::NotSet,
        public_id: ActiveValue::SetValue(public_id),
        encrypted_name: ActiveValue::SetValue(encrypted_name),
        expired_at,
        created_at: ActiveValue::SetValue(now),
    }
}

/// A folder created with a lifetime has not expired at its creation, and has
/// expired at every later instant past its lifetime.
pub proof fn lemma_new_folder_expiry(now: UtcTimestamp, d: Duration, later: UtcTimestamp, exp: UtcTimestamp)
    requires
        now.wf(),
        d.wf(),
        exp.wf(),
        later.wf(),
        exp.total_nanos() == nanos_after(now, d),
    ensures
        !expired(Some(exp), now),
        later.total_nanos() > exp.total_nanos() ==> expired(Some(exp), later),
{
    crate::models::time::lemma_after_is_later(now, exp);
    crate::models::time::lemma_after_is_later(later, exp);
}

} // verus!
