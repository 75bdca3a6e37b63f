//! Conversions between the wire messages and the domain model.
use chrono::{Datelike, Timelike};
use vstd::prelude::*;

use crate::grpc::schema::{status_parts, invalid_argument_status, Code, ServiceErrorExt, Status};
use crate::models::encrypted_vault::{self, algo_name, valid_iv_text, valid_tag_text, EncryptionAlgo, IV, Tag};
use crate::auth::service::jwt::{max_delta_nanos, SignedDuration};
use crate::grpc::schema::with_message;
use crate::models::encrypted_blobs;
use crate::models::time::{Duration, UtcTimestamp, MAX_UTC_SECS, MIN_UTC_SECS, NANOS_PER_SEC};
use crate::models::{files, folders};
use crate::text::fits_tiny_ascii;

verus! {

/// A folder id on the wire.
pub struct FolderId {
    pub value: String,
}

/// A file id on the wire.
pub struct FileId {
    pub value: String,
}

/// A duration on the wire, as `google.protobuf.Duration`: seconds and nanoseconds,
/// each of which may be negative.
#[derive(Copy, Clone)]
pub struct ProtoDuration {
    pub seconds: i64,
    pub nanos: i32,
}

/// Encryption parameters on the wire.
pub struct EncryptedVault {
    pub iv: String,
    pub tag: String,
    pub version: u32,
    pub algo: String,
}

/// Why a wire duration cannot be a `Duration`.
#[derive(Debug, Clone, Copy, PartialEq, Eq, Structural)]
pub enum ConvertDurationError {
    Negative,
    OutOfRange,
}

/// Reads a wire duration as a span of time. A negative part is refused; otherwise
/// nanoseconds of a second or more carry over into the seconds.
pub fn prost_duration_to_std_duration(duration: ProtoDuration) -> (r: Result<Duration, ConvertDurationError>)
    ensures
        (duration.seconds < 0 || duration.nanos < 0) <==> r == Err::<Duration, ConvertDurationError>(ConvertDurationError::Negative),
        r is Err ==> r == Err::<Duration, ConvertDurationError>(ConvertDurationError::Negative),
        r matches Ok(d) ==> d.wf() && d.total_nanos() == duration.seconds * 1_000_000_000 + duration.nanos,
{
    if duration.seconds < 0 || duration.nanos < 0 {
        return Err(ConvertDurationError::Negative);
    }
    let secs = duration.seconds as u64;
    let nanos = duration.nanos as u32;
    Ok(Duration::new(secs, nanos))
}

/// The message of the status answered for an id that is not one.
pub open spec fn invalid_id_status() -> (Code, Seq<char>) {
    invalid_argument_status(Some("invalid id"@))
}

/// Reads a folder's public id from the wire: at most 8 non-NUL ASCII characters,
/// else `invalid argument: invalid id`.
pub fn folder_public_id_from_wire(value: FolderId) -> (r: Result<folders::PublicId, Status>)
    ensures
        r is Ok <==> fits_tiny_ascii(value.value@, 8),
        r matches Ok(id) ==> id@ == value.value@,
        r matches Err(s) ==> status_parts(s) == invalid_id_status(),
{
    folders::PublicId::parse(value.value.as_str()).ok_or_invalid_argument("invalid id")
}

/// Reads a file's public id from the wire: at most 16 non-NUL ASCII characters,
/// else `invalid argument: invalid id`.
pub fn file_public_id_from_wire(value: FileId) -> (r: Result<files::PublicId, Status>)
    ensures
        r is Ok <==> fits_tiny_ascii(value.value@, 16),
        r matches Ok(id) ==> id@ == value.value@,
        r matches Err(s) ==> status_parts(s) == invalid_id_status(),
{
    files::PublicId::parse(value.value.as_str()).ok_or_invalid_argument("invalid id")
}

/// A folder's public id on the wire.
pub fn folder_public_id_to_wire(value: &folders::PublicId) -> (r: FolderId)
    ensures
        r.value@ == value@,
        fits_tiny_ascii(r.value@, 8),
{
    FolderId { value: value.as_str().to_owned() }
}

/// A file's public id on the wire.
pub fn file_public_id_to_wire(value: &files::PublicId) -> (r: FileId)
    ensures
        r.value@ == value@,
        fits_tiny_ascii(r.value@, 16),
{
    FileId { value: value.as_str().to_owned() }
}

/// Whether the wire accepts encryption parameters: a valid IV and tag, and a known
/// algorithm.
pub open spec fn vault_accepted(iv: Seq<char>, tag: Seq<char>, algo: Seq<char>) -> bool {
    valid_iv_text(iv) && valid_tag_text(tag) && algo == algo_name(EncryptionAlgo::Aes256Gcm)
}

/// Why encryption parameters on the wire are refused: the IV is checked first, then
/// the tag, then the algorithm. A bad tag gets the same message as a bad IV.
pub open spec fn vault_refusal(value: EncryptedVault) -> Option<Seq<char>> {
    if !valid_iv_text(value.iv@) {
        Some("invalid iv"@)
    } else if !valid_tag_text(value.tag@) {
        Some("invalid iv"@)
    } else if value.algo@ != algo_name(EncryptionAlgo::Aes256Gcm) {
        Some("unsupported algo"@)
    } else {
        None
    }
}

/// Encryption parameters as the wire writes them.
pub open spec fn vault_on_wire(m: encrypted_vault::Model, w: EncryptedVault) -> bool {
    &&& w.iv@ == m.iv@
    &&& w.tag@ == m.tag@
    &&& w.version == m.ver.0 as u32
    &&& w.algo@ == algo_name(m.algo)
}

/// What reading encryption parameters of the vault `id` from the wire answers.
pub open spec fn vault_read(id: encrypted_vault::Id, value: EncryptedVault, r: Result<encrypted_vault::Model, Status>) -> bool {
    match vault_refusal(value) {
        Some(msg) => r matches Err(s) && s.code == Code::InvalidArgument && s.message@ == msg,
        None => r matches Ok(m) && m.id == id && m.iv@ == value.iv@ && m.tag@ == value.tag@
            && m.ver.0 == value.version as i16 && algo_name(m.algo) == value.algo@,
    }
}

/// Reads encryption parameters from the wire for the vault `id`.
pub fn encrypted_vault_from_wire(id: encrypted_vault::Id, value: EncryptedVault) -> (r: Result<encrypted_vault::Model, Status>)
    ensures
        vault_read(id, value, r),
        r is Ok <==> vault_accepted(value.iv@, value.tag@, value.algo@),
{
    let iv = match IV::parse(value.iv.as_str()) {
        Some(iv) => iv,
        None => return Err(Status::invalid_argument("invalid iv")),
    };
    let tag = match Tag::parse(value.tag.as_str()) {
        Some(tag) => tag,
        None => return Err(Status::invalid_argument("invalid iv")),
    };
    let ver = encrypted_vault::Version(#[verifier::truncate] (value.version as i16));
    let algo = match EncryptionAlgo::from_name(value.algo.as_str()) {
        Some(a) => a,
        None => return Err(Status::invalid_argument("unsupported algo")),
    };
    Ok(encrypted_vault::Model { id, iv, tag, ver, algo })
}

/// Encryption parameters on the wire; they are always accepted back.
pub fn encrypted_vault_to_wire(value: &encrypted_vault::Model) -> (r: EncryptedVault)
    ensures
        vault_on_wire(*value, r),
        valid_iv_text(r.iv@),
        valid_tag_text(r.tag@),
{
    EncryptedVault {
        iv: value.iv.as_str().to_owned(),
        tag: value.tag.as_str().to_owned(),
        version: #[verifier::truncate] (value.ver.0 as u32),
        algo: value.algo.name().to_owned(),
    }
}

/// What `encrypted_vault_to_wire` writes, `encrypted_vault_from_wire` reads back:
/// the parameters of every vault are accepted, and the version comes back as it was.
pub proof fn lemma_vault_round_trip(iv: Seq<char>, tag: Seq<char>, ver: i16, algo: EncryptionAlgo)
    requires
        valid_iv_text(iv),
        valid_tag_text(tag),
    ensures
        vault_accepted(iv, tag, algo_name(algo)),
        (ver as u32) as i16 == ver,
{
    assert((ver as u32) as i16 == ver) by (bit_vector);
}

/// The largest number of whole seconds `chrono::TimeDelta::seconds` takes, either way.
pub open spec fn max_delta_secs() -> int {
    (i64::MAX as int) / 1000
}

/// Reads a wire duration as a signed span of time: the seconds plus the
/// nanoseconds, either of which may be negative. The seconds must be within what
/// `TimeDelta::seconds` takes and the sum within what a `TimeDelta` holds (it
/// panics otherwise).
pub fn prost_duration_to_datetime_duration(duration: ProtoDuration) -> (r: SignedDuration)
    requires
        -max_delta_secs() <= duration.seconds <= max_delta_secs(),
        -max_delta_nanos() <= duration.seconds * 1_000_000_000 + duration.nanos <= max_delta_nanos(),
    ensures
        r.wf(),
        r.total_nanos() == duration.seconds * 1_000_000_000 + duration.nanos,
{
    let s = duration.seconds;
    let n: i64 = duration.nanos as i64;
    let (secs, nanos): (i64, i64) = if n < -2_000_000_000 {
        (s - 3, n + 3_000_000_000)
    } else if n < -1_000_000_000 {
        (s - 2, n + 2_000_000_000)
    } else if n < 0 {
        (s - 1, n + 1_000_000_000)
    } else if n < 1_000_000_000 {
        (s, n)
    } else if n < 2_000_000_000 {
        (s + 1, n - 1_000_000_000)
    } else {
        (s + 2, n - 2_000_000_000)
    };
    SignedDuration { secs, nanos: nanos as u32 }
}

/// A value read from text, or, when it is not one, the status `invalid argument`
/// with the message `invalid value` (followed by `: ` and the value's name when one
/// is given).
pub fn from_str_or_invalid_argument<T, E>(parsed: Result<T, E>, value_name: Option<&str>) -> (r: Result<T, Status>)
    ensures
        parsed matches Ok(v) ==> r == Ok::<T, Status>(v),
        parsed is Err ==> (r matches Err(s) && status_parts(s) == invalid_argument_status(Some(
            with_message("invalid value"@, match value_name { Some(n) => Some(n@), None => None }),
        ))),
{
    let msg = crate::grpc::schema::message_with("invalid value", value_name);
    parsed.ok_or_invalid_argument(msg)
}

/// A date and time on the wire (`google.type.DateTime`), at UTC offset zero.
pub struct WireDateTime {
    pub year: i32,
    pub month: i32,
    pub day: i32,
    pub hours: i32,
    pub minutes: i32,
    pub seconds: i32,
    pub nanos: i32,
    pub utc_offset: ProtoDuration,
}

/// The calendar fields in UTC of the instant `secs` seconds and `nanos`
/// nanoseconds after the epoch, as `chrono` reads them: year, month, day, hour,
/// minute, second and nanosecond.
pub uninterp spec fn utc_calendar(secs: i64, nanos: u32) -> (i32, u32, u32, u32, u32, u32, u32);

/// Reads the calendar fields of an instant with `chrono`: `DateTime::from_timestamp`,
/// then its `year`, `month`, `day`, `hour`, `minute`, `second` and `nanosecond`.
/// Every instant in `chrono`'s range has a date, so `from_timestamp` succeeds; the
/// fields are named, not described.
#[verifier::external_body]
fn calendar_of(secs: i64, nanos: u32) -> (r: (i32, u32, u32, u32, u32, u32, u32))
    requires
        MIN_UTC_SECS <= secs <= MAX_UTC_SECS,
        nanos < NANOS_PER_SEC,
    ensures
        r == utc_calendar(secs, nanos),
{
    let t = chrono::DateTime::from_timestamp(secs, nanos).unwrap();
    (t.year(), t.month(), t.day(), t.hour(), t.minute(), t.second(), t.nanosecond())
}

/// An instant as the wire writes it.
pub open spec fn datetime_on_wire(t: UtcTimestamp, w: WireDateTime) -> bool {
    let c = utc_calendar(t.secs, t.nanos);
    &&& w.year == c.0
    &&& w.month == c.1 as i32
    &&& w.day == c.2 as i32
    &&& w.hours == c.3 as i32
    &&& w.minutes == c.4 as i32
    &&& w.seconds == c.5 as i32
    &&& w.nanos == c.6 as i32
    &&& w.utc_offset == ProtoDuration { seconds: 0, nanos: 0 }
}

/// An instant on the wire: its calendar fields in UTC.
pub fn datetime_to_wire(t: UtcTimestamp) -> (r: WireDateTime)
    requires
        t.wf(),
    ensures
        datetime_on_wire(t, r),
{
    let (year, month, day, hours, minutes, seconds, nanos) = calendar_of(t.secs, t.nanos);
    WireDateTime {
        year,
        month: #[verifier::truncate] (month as i32),
        day: #[verifier::truncate] (day as i32),
        hours: #[verifier::truncate] (hours as i32),
        minutes: #[verifier::truncate] (minutes as i32),
        seconds: #[verifier::truncate] (seconds as i32),
        nanos: #[verifier::truncate] (nanos as i32),
        utc_offset: ProtoDuration { seconds: 0, nanos: 0 },
    }
}

/// Encrypted data on the wire.
pub struct WireEncryptedBlobs {
    pub meta: EncryptedVault,
    pub data: Vec<u8>,
}

/// Encrypted data as the wire writes it.
pub open spec fn blobs_on_wire(m: encrypted_blobs::Model, w: WireEncryptedBlobs) -> bool {
    vault_on_wire(m.meta, w.meta) && w.data@ == m.data@
}

/// Encrypted data on the wire.
pub fn encrypted_blobs_to_wire(value: encrypted_blobs::Model) -> (r: WireEncryptedBlobs)
    ensures
        blobs_on_wire(value, r),
{
    let meta = encrypted_vault_to_wire(&value.meta);
    WireEncryptedBlobs { meta, data: value.data }
}

/// Reads encrypted data from the wire, for the vault `id`: its parameters are read
/// as `encrypted_vault_from_wire` reads them, and the bytes are kept.
pub fn encrypted_blobs_from_wire(id: encrypted_vault::Id, value: WireEncryptedBlobs) -> (r: Result<encrypted_blobs::Model, Status>)
    ensures
        vault_refusal(value.meta) matches Some(msg) ==> (r matches Err(s) && s.code == Code::InvalidArgument && s.message@ == msg),
        vault_refusal(value.meta) is None ==> (r matches Ok(m) && m.data@ == value.data@
            && vault_read(id, value.meta, Ok::<encrypted_vault::Model, Status>(m.meta))),
{
    let ghost wire_meta = value.meta;
    match encrypted_vault_from_wire(id, value.meta) {
        Ok(meta) => Ok(encrypted_blobs::Model::new(meta, value.data)),
        Err(s) => Err(s),
    }
}

/// A folder on the wire.
pub struct WireFolder {
    pub id: FolderId,
    pub name: WireEncryptedBlobs,
    pub created_at: WireDateTime,
    pub expired_at: Option<WireDateTime>,
}

/// A folder as the wire writes it.
pub open spec fn folder_on_wire(f: folders::Model, w: WireFolder) -> bool {
    &&& w.id.value@ == f.public_id@
    &&& blobs_on_wire(f.encrypted_name.0, w.name)
    &&& datetime_on_wire(f.created_at, w.created_at)
    &&& match (f.expired_at, w.expired_at) {
        (Some(t), Some(x)) => datetime_on_wire(t, x),
        (None, None) => true,
        _ => false,
    }
}

/// A folder on the wire: its public id, encrypted name, creation and expiry.
pub fn folder_to_wire(value: folders::Model) -> (r: WireFolder)
    requires
        value.created_at.wf(),
        value.expired_at matches Some(t) ==> t.wf(),
    ensures
        folder_on_wire(value, r),
{
    let id = folder_public_id_to_wire(&value.public_id);
    let created_at = datetime_to_wire(value.created_at);
    let expired_at = match value.expired_at {
        Some(t) => Some(datetime_to_wire(t)),
        None => None,
    };
    let name = encrypted_blobs_to_wire(value.encrypted_name.0);
    WireFolder { id, name, created_at, expired_at }
}

/// A file as a folder's listing shows it.
pub struct FileView {
    pub id: FileId,
    pub metadata: WireEncryptedBlobs,
    pub size: i64,
}

/// A file as the wire shows it: its public id, its encrypted metadata and its size.
pub open spec fn file_view_of(f: files::Model, v: FileView) -> bool {
    &&& v.id.value@ == f.public_id@
    &&& blobs_on_wire(f.meta, v.metadata)
    &&& v.size == f.file_size
}

/// A file as a folder's listing shows it.
pub fn file_view(value: files::Model) -> (r: FileView)
    ensures
        file_view_of(value, r),
{
    let id = file_public_id_to_wire(&value.public_id);
    let size = value.file_size;
    let metadata = encrypted_blobs_to_wire(value.meta);
    FileView { id, metadata, size }
}

/// What happened to a folder, as the updates service reports it.
pub enum FolderUpdateKind {
    FileUploaded { file: files::Model },
    FolderRenamed { new_folder_name: folders::FolderName },
    FolderDeleted,
    FileDeleted { file: files::Model },
}

/// An update of a folder on the wire.
pub enum Update {
    NewFile(FileView),
    FolderNameChanged(WireEncryptedBlobs),
    FolderDeleted,
    FileDeleted(FileId),
}

/// An update on the wire: an uploaded file is shown as in a listing, a new name as
/// its encrypted data, a deleted file by its public id.
pub fn update_to_wire(update: FolderUpdateKind) -> (r: Update)
    ensures
        update matches FolderUpdateKind::FileUploaded { file } ==> (r matches Update::NewFile(v) && file_view_of(file, v)),
        update matches FolderUpdateKind::FolderRenamed { new_folder_name } ==> (r matches Update::FolderNameChanged(n)
            && blobs_on_wire(new_folder_name.0, n)),
        update is FolderDeleted ==> r is FolderDeleted,
        update matches FolderUpdateKind::FileDeleted { file } ==> (r matches Update::FileDeleted(id) && id.value@ == file.public_id@),
{
    match update {
        FolderUpdateKind::FileUploaded { file } => Update::NewFile(file_view(file)),
        FolderUpdateKind::FolderRenamed { new_folder_name } => Update::FolderNameChanged(encrypted_blobs_to_wire(new_folder_name.0)),
        FolderUpdateKind::FolderDeleted => Update::FolderDeleted,
        FolderUpdateKind::FileDeleted { file } => Update::FileDeleted(file_public_id_to_wire(&file.public_id)),
    }
}

} // verus!
