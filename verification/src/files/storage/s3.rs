//! Multipart uploads to S3: numbering the parts, completing the upload, and
//! deleting objects in batches.
use vstd::prelude::*;

use super::{FILES_PREFIX, HasRawMultipartUploadHandle, IntoRawMultipartUploadHandle, LockRawMultipartUploadHandle, MultipartUploadHandle, RawMultipartUploadHandle};
use crate::models::files::StoragePath;

verus! {

/// How many objects one S3 bulk-delete request removes at most.
pub const AWS_BULK_DELETE_CHUNKS: usize = 150;

/// Why an upload step failed before any request was sent.
#[derive(Debug, Clone, Copy, PartialEq, Eq, Structural)]
pub enum UploadError {
    /// S3 answered the creation of the upload without an upload id.
    MissingUploadId,
    /// The upload's handle was already taken apart.
    MultipartHandlerDropped,
}

/// A part that S3 has accepted: its number and the entity tag S3 gave it.
pub struct RawCompletedPart {
    pub part_number: i32,
    pub e_tag: String,
}

impl RawCompletedPart {
    /// A copy of the part.
    pub fn duplicate(&self) -> (r: RawCompletedPart)
        ensures
            r == *self,
    {
        RawCompletedPart { part_number: self.part_number, e_tag: self.e_tag.clone() }
    }

    /// A completed part as S3 describes it, where a missing number reads as 0 and a
    /// missing tag as the empty string.
    pub fn from_reported(part_number: Option<i32>, e_tag: Option<String>) -> (r: RawCompletedPart)
        ensures
            r.part_number == match part_number { Some(n) => n, None => 0i32 },
            r.e_tag@ == match e_tag { Some(t) => t@, None => Seq::<char>::empty() },
    {
        RawCompletedPart {
            part_number: match part_number { Some(n) => n, None => 0 },
            e_tag: match e_tag { Some(t) => t, None => String::new() },
        }
    }
}

/// The serialisable state of a multipart upload.
pub struct RawS3MultipartFileUpload {
    pub bucket: String,
    pub key: StoragePath,
    pub upload_id: String,
    pub next_part_number: i32,
    pub completed_parts: Vec<RawCompletedPart>,
}

impl RawMultipartUploadHandle for RawS3MultipartFileUpload {}

/// The parts, in the order they are listed, that carry the part number `n`.
pub open spec fn parts_numbered(s: Seq<RawCompletedPart>, n: i32) -> Seq<RawCompletedPart>
    decreases s.len(),
{
    if s.len() == 0 {
        seq![]
    } else if s.last().part_number == n {
        parts_numbered(s.drop_last(), n).push(s.last())
    } else {
        parts_numbered(s.drop_last(), n)
    }
}

/// Whether the parts are listed by ascending part number.
pub open spec fn sorted_by_part_number(s: Seq<RawCompletedPart>) -> bool {
    forall|i: int, j: int| 0 <= i <= j < s.len() ==> s[i].part_number <= s[j].part_number
}

/// `r` lists the parts of `s` by ascending part number, keeping the order in which
/// parts of the same number were listed: what a stable sort by part number gives.
pub open spec fn is_stable_sort_by_part_number(s: Seq<RawCompletedPart>, r: Seq<RawCompletedPart>) -> bool {
    &&& r.len() == s.len()
    &&& sorted_by_part_number(r)
    &&& forall|n: i32| #[trigger] parts_numbered(r, n) == parts_numbered(s, n)
}

proof fn lemma_parts_numbered_append(a: Seq<RawCompletedPart>, b: Seq<RawCompletedPart>, n: i32)
    ensures
        parts_numbered(a + b, n) == parts_numbered(a, n) + parts_numbered(b, n),
    decreases b.len(),
{
    if b.len() == 0 {
        assert(a + b =~= a);
        assert(parts_numbered(b, n) =~= seq![]);
        assert(parts_numbered(a, n) + parts_numbered(b, n) =~= parts_numbered(a, n));
    } else {
        lemma_parts_numbered_append(a, b.drop_last(), n);
        assert((a + b).drop_last() =~= a + b.drop_last());
        assert((a + b).last() == b.last());
        if b.last().part_number == n {
            assert(parts_numbered(a, n) + parts_numbered(b.drop_last(), n).push(b.last())
                =~= (parts_numbered(a, n) + parts_numbered(b.drop_last(), n)).push(b.last()));
        }
    }
}

proof fn lemma_parts_numbered_none(b: Seq<RawCompletedPart>, n: i32)
    requires
        forall|j: int| 0 <= j < b.len() ==> (#[trigger] b[j]).part_number != n,
    ensures
        parts_numbered(b, n) == Seq::<RawCompletedPart>::empty(),
    decreases b.len(),
{
    if b.len() > 0 {
        assert(b.last() == b[b.len() - 1]);
        lemma_parts_numbered_none(b.drop_last(), n);
    }
}

proof fn lemma_parts_numbered_single(x: RawCompletedPart, n: i32)
    ensures
        parts_numbered(seq![x], n) == (if x.part_number == n { seq![x] } else { Seq::<RawCompletedPart>::empty() }),
{
    assert(seq![x].drop_last() =~= Seq::<RawCompletedPart>::empty());
    assert(seq![x].last() == x);
    assert(parts_numbered(Seq::<RawCompletedPart>::empty(), n) =~= Seq::<RawCompletedPart>::empty());
    assert(Seq::<RawCompletedPart>::empty().push(x) =~= seq![x]);
}

/// Lists `parts` by ascending part number, keeping the order among parts of the
/// same number.
pub fn sort_parts_by_number(parts: &Vec<RawCompletedPart>) -> (r: Vec<RawCompletedPart>)
    ensures
        is_stable_sort_by_part_number(parts@, r@),
{
    let mut out: Vec<RawCompletedPart> = Vec::new();
    let mut i: usize = 0;
    while i < parts.len()
        invariant
            i <= parts.len(),
            out@.len() == i,
            sorted_by_part_number(out@),
            forall|n: i32| #[trigger] parts_numbered(out@, n) == parts_numbered(parts@.take(i as int), n),
        decreases parts.len() - i,
    {
        let x = parts[i].duplicate();
        let mut pos: usize = 0;
        while pos < out.len() && out[pos].part_number <= x.part_number
            invariant
                pos <= out@.len(),
                forall|j: int| 0 <= j < pos ==> (#[trigger] out@[j]).part_number <= x.part_number,
            decreases out@.len() - pos,
        {
            pos = pos + 1;
        }
        let ghost old_out = out@;
        out.insert(pos, x);
        proof {
            let left = old_out.subrange(0, pos as int);
            let right = old_out.subrange(pos as int, old_out.len() as int);
            assert(out@ =~= left + seq![x] + right);
            assert(old_out =~= left + right);
            // every part after the insertion point has a larger number
            assert forall|j: int| 0 <= j < right.len() implies (#[trigger] right[j]).part_number > x.part_number by {
                assert(old_out[pos as int].part_number > x.part_number);
                assert(right[j] == old_out[pos + j]);
            }
            assert forall|a: int, b: int| 0 <= a <= b < out@.len() implies out@[a].part_number <= out@[b].part_number by {
                if b < pos {
                } else if a > pos {
                    assert(out@[a] == old_out[a - 1]);
                    assert(out@[b] == old_out[b - 1]);
                } else if a == pos && b == pos {
                } else if a == pos {
                    assert(out@[b] == right[b - pos - 1]);
                } else {
                    if b == pos {
                    } else {
                        assert(out@[b] == right[b - pos - 1]);
                        assert(out@[a] == old_out[a]);
                    }
                }
            }
            let prefix = parts@.take(i + 1);
            assert(prefix.drop_last() =~= parts@.take(i as int));
            assert(prefix.last() == x);
            assert forall|n: i32| #[trigger] parts_numbered(out@, n) == parts_numbered(parts@.take(i + 1), n) by {
                lemma_parts_numbered_append(left + seq![x], right, n);
                lemma_parts_numbered_append(left, seq![x], n);
                lemma_parts_numbered_append(left, right, n);
                lemma_parts_numbered_single(x, n);
                if x.part_number == n {
                    lemma_parts_numbered_none(right, n);
                    assert(parts_numbered(left, n) + seq![x] + Seq::<RawCompletedPart>::empty()
                        =~= (parts_numbered(left, n) + Seq::<RawCompletedPart>::empty()).push(x));
                    assert(parts_numbered(old_out, n) == parts_numbered(left, n) + Seq::<RawCompletedPart>::empty());
                } else {
                    assert(parts_numbered(left, n) + Seq::<RawCompletedPart>::empty() + parts_numbered(right, n)
                        =~= parts_numbered(left, n) + parts_numbered(right, n));
                }
            }
        }
        i = i + 1;
    }
    assert(parts@.take(parts.len() as int) =~= parts@);
    out
}

impl RawS3MultipartFileUpload {
    /// The state of an upload just created: no part yet, and the first part to come
    /// is part 1.
    pub fn start(bucket: String, key: StoragePath, upload_id: String) -> (r: Self)
        ensures
            r.bucket@ == bucket@,
            r.key == key,
            r.upload_id@ == upload_id@,
            r.next_part_number == 1,
            r.completed_parts@.len() == 0,
            parts_view(r) == (run_parts(seq![]).next, run_parts(seq![]).recorded),
    {
        let r = RawS3MultipartFileUpload { bucket, key, upload_id, next_part_number: 1, completed_parts: Vec::new() };
        assert(r.completed_parts@.map_values(|p: RawCompletedPart| p.part_number as int) =~= Seq::<int>::empty());
        r
    }

    /// Hands out the next part number and moves the counter on by one.
    pub fn take_part_number(&mut self) -> (r: i32)
        requires
            old(self).next_part_number < i32::MAX,
        ensures
            r == old(self).next_part_number,
            final(self).next_part_number == old(self).next_part_number + 1,
            final(self).bucket == old(self).bucket,
            final(self).key == old(self).key,
            final(self).upload_id == old(self).upload_id,
            final(self).completed_parts@ == old(self).completed_parts@,
            parts_view(*final(self)) == (parts_view(*old(self)).0 + 1, parts_view(*old(self)).1),
    {
        let part = self.next_part_number;
        self.next_part_number = self.next_part_number + 1;
        part
    }

    /// Records a part S3 has accepted, with the tag it answered (empty if none).
    pub fn record_part(&mut self, part_number: i32, e_tag: Option<String>)
        ensures
            final(self).completed_parts@.len() == old(self).completed_parts@.len() + 1,
            final(self).completed_parts@.drop_last() == old(self).completed_parts@,
            final(self).completed_parts@.last().part_number == part_number,
            final(self).completed_parts@.last().e_tag@ == match e_tag { Some(t) => t@, None => Seq::<char>::empty() },
            final(self).next_part_number == old(self).next_part_number,
            final(self).bucket == old(self).bucket,
            final(self).key == old(self).key,
            final(self).upload_id == old(self).upload_id,
            parts_view(*final(self)) == (parts_view(*old(self)).0, parts_view(*old(self)).1.push(part_number as int)),
    {
        let e_tag = match e_tag { Some(t) => t, None => String::new() };
        self.completed_parts.push(RawCompletedPart { part_number, e_tag });
        assert(self.completed_parts@.drop_last() =~= old(self).completed_parts@);
        assert(parts_view(*self).1 =~= parts_view(*old(self)).1.push(part_number as int));
    }

    /// The parts to complete the upload with: those recorded, by ascending part number.
    pub fn parts_for_completion(&self) -> (r: Vec<RawCompletedPart>)
        ensures
            is_stable_sort_by_part_number(self.completed_parts@, r@),
    {
        sort_parts_by_number(&self.completed_parts)
    }
}

/// The upload id S3 answered, or `MissingUploadId` when there is none.
pub fn upload_id_or_missing(upload_id: Option<String>) -> (r: Result<String, UploadError>)
    ensures
        upload_id matches Some(u) ==> (r matches Ok(v) && v@ == u@),
        upload_id is None ==> r == Err::<String, UploadError>(UploadError::MissingUploadId),
{
    match upload_id {
        Some(u) => Ok(u),
        None => Err(UploadError::MissingUploadId),
    }
}

/// A lower-case hexadecimal digit.
pub open spec fn hex_lower(d: nat) -> char {
    if d < 10 { ((d + 48) as u32) as char } else { ((d + 87) as u32) as char }
}

/// The `k`-th hexadecimal digit of a 128-bit value, most significant first.
pub open spec fn uuid_nibble(v: u128, k: int) -> nat {
    ((v >> ((124 - 4 * k) as u128)) & 15u128) as nat
}

/// How `uuid::Uuid` displays the UUID with value `v`: 32 lower-case hexadecimal
/// digits, most significant first, with hyphens after the 8th, 12th, 16th and 20th.
pub open spec fn uuid_text(v: u128) -> Seq<char> {
    Seq::new(36, |i: int|
        if i == 8 || i == 13 || i == 18 || i == 23 {
            '-'
        } else {
            hex_lower(uuid_nibble(v, if i < 8 { i } else if i < 13 { i - 1 } else if i < 18 { i - 2 } else if i < 23 { i - 3 } else { i - 4 }))
        })
}

/// Displays the UUID with value `v` through `uuid::Uuid::from_u128(v).to_string()`.
///
/// The crate displays a UUID as its hyphenated lower-case form; the contract
/// states that form.
#[verifier::external_body]
fn uuid_to_text(v: u128) -> (r: String)
    ensures
        r@ == uuid_text(v),
{
    uuid::Uuid::from_u128(v).to_string()
}

/// The object key of the file stored at `path`: `files/` and the UUID.
pub open spec fn object_key_text(path: StoragePath) -> Seq<char> {
    "files/"@ + uuid_text(path.0)
}

/// The object key of the file stored at `path`.
pub fn object_key(path: StoragePath) -> (r: String)
    ensures
        r@ == object_key_text(path),
{
    let mut s = String::new();
    s.append(FILES_PREFIX);
    s.append("/");
    let u = uuid_to_text(path.0);
    s.append(u.as_str());
    proof {
        reveal_strlit("files");
        reveal_strlit("/");
        reveal_strlit("files/");
        assert(s@ =~= "files/"@ + uuid_text(path.0));
    }
    s
}

/// The batches of a bulk delete: the ids, in order, cut into runs of at most 150.
pub open spec fn delete_batches_spec(ids: Seq<StoragePath>) -> Seq<Seq<StoragePath>>
    decreases ids.len(),
{
    if ids.len() == 0 {
        seq![]
    } else if ids.len() <= AWS_BULK_DELETE_CHUNKS {
        seq![ids]
    } else {
        seq![ids.take(AWS_BULK_DELETE_CHUNKS as int)] + delete_batches_spec(ids.skip(AWS_BULK_DELETE_CHUNKS as int))
    }
}

/// The batches put back together, in order.
pub open spec fn flatten_batches(b: Seq<Seq<StoragePath>>) -> Seq<StoragePath>
    decreases b.len(),
{
    if b.len() == 0 {
        seq![]
    } else {
        b[0] + flatten_batches(b.drop_first())
    }
}

/// A bulk delete removes each id once and in order: the batches put back together
/// give the ids, and every batch holds between 1 and 150 of them.
pub proof fn lemma_delete_batches_cover(ids: Seq<StoragePath>)
    ensures
        flatten_batches(delete_batches_spec(ids)) == ids,
        forall|i: int| 0 <= i < delete_batches_spec(ids).len() ==>
            1 <= (#[trigger] delete_batches_spec(ids)[i]).len() <= AWS_BULK_DELETE_CHUNKS,
    decreases ids.len(),
{
    if ids.len() == 0 {
        assert(flatten_batches(Seq::<Seq<StoragePath>>::empty()) =~= Seq::<StoragePath>::empty());
    } else if ids.len() <= AWS_BULK_DELETE_CHUNKS {
        let b = seq![ids];
        assert(b.drop_first() =~= Seq::<Seq<StoragePath>>::empty());
        assert(flatten_batches(b.drop_first()) =~= Seq::<StoragePath>::empty());
        assert(ids + Seq::<StoragePath>::empty() =~= ids);
    } else {
        let rest = ids.skip(AWS_BULK_DELETE_CHUNKS as int);
        lemma_delete_batches_cover(rest);
        let b = seq![ids.take(AWS_BULK_DELETE_CHUNKS as int)] + delete_batches_spec(rest);
        assert(b.drop_first() =~= delete_batches_spec(rest));
        assert(ids.take(AWS_BULK_DELETE_CHUNKS as int) + rest =~= ids);
        assert forall|i: int| 0 <= i < b.len() implies 1 <= (#[trigger] b[i]).len() <= AWS_BULK_DELETE_CHUNKS by {
            if i > 0 {
                assert(b[i] == delete_batches_spec(rest)[i - 1]);
            }
        }
    }
}

/// Cuts the ids of a bulk delete into batches of at most 150, in order, as
/// `slice::chunks` does. No ids, no batch: no request is sent.
pub fn delete_batches(ids: &Vec<StoragePath>) -> (r: Vec<Vec<StoragePath>>)
    ensures
        r@.len() == delete_batches_spec(ids@).len(),
        forall|i: int| 0 <= i < r@.len() ==> (#[trigger] r@[i])@ == delete_batches_spec(ids@)[i],
{
    let mut out: Vec<Vec<StoragePath>> = Vec::new();
    let mut start: usize = 0;
    let n = ids.len();
    assert(ids@.skip(0) =~= ids@);
    while start < n
        invariant
            n == ids@.len(),
            start <= n,
            start % AWS_BULK_DELETE_CHUNKS == 0 || start == n,
            out@.len() + delete_batches_spec(ids@.skip(start as int)).len() == delete_batches_spec(ids@).len(),
            forall|i: int| 0 <= i < out@.len() ==> (#[trigger] out@[i])@ == delete_batches_spec(ids@)[i],
            forall|i: int| 0 <= i < delete_batches_spec(ids@.skip(start as int)).len() ==>
                #[trigger] delete_batches_spec(ids@.skip(start as int))[i] == delete_batches_spec(ids@)[out@.len() + i],
        decreases n - start,
    {
        let end = if n - start <= AWS_BULK_DELETE_CHUNKS { n } else { start + AWS_BULK_DELETE_CHUNKS };
        let mut batch: Vec<StoragePath> = Vec::new();
        let mut j = start;
        while j < end
            invariant
                start <= j <= end,
                end <= n,
                n == ids@.len(),
                batch@ == ids@.subrange(start as int, j as int),
            decreases end - j,
        {
            batch.push(ids[j]);
            assert(ids@.subrange(start as int, j + 1) =~= ids@.subrange(start as int, j as int).push(ids@[j as int]));
            j = j + 1;
        }
        let ghost rest = ids@.skip(start as int);
        proof {
            assert(rest.len() > 0);
            if rest.len() <= AWS_BULK_DELETE_CHUNKS {
                assert(delete_batches_spec(rest) == seq![rest]);
                assert(batch@ =~= rest);
                assert(ids@.skip(end as int).len() == 0);
                assert(delete_batches_spec(ids@.skip(end as int)) =~= Seq::<Seq<StoragePath>>::empty());
            } else {
                assert(batch@ =~= rest.take(AWS_BULK_DELETE_CHUNKS as int));
                assert(rest.skip(AWS_BULK_DELETE_CHUNKS as int) =~= ids@.skip(end as int));
            }
            assert(delete_batches_spec(rest)[0] == batch@);
        }
        out.push(batch);
        proof {
            assert forall|i: int| 0 <= i < delete_batches_spec(ids@.skip(end as int)).len() implies
                #[trigger] delete_batches_spec(ids@.skip(end as int))[i] == delete_batches_spec(ids@)[out@.len() + i] by {
                if rest.len() > AWS_BULK_DELETE_CHUNKS {
                    assert(delete_batches_spec(rest)[i + 1] == delete_batches_spec(ids@.skip(end as int))[i]);
                }
            }
        }
        start = end;
    }
    proof {
        assert(ids@.skip(start as int).len() == 0);
        assert(delete_batches_spec(ids@.skip(start as int)) =~= Seq::<Seq<StoragePath>>::empty());
    }
    out
}

/// What an upload handle holds while it is alive: the S3 client and the upload's
/// state.
pub struct S3MultipartFileUploadInner<C> {
    pub client: C,
    pub inner: RawS3MultipartFileUpload,
}

/// The handle of a multipart upload. It holds the client and the upload's state
/// until it is taken apart; S3 is told to abort an upload whose handle is dropped
/// while it still holds them.
pub struct S3MultipartUploadHandle<C> {
    pub inner: Option<S3MultipartFileUploadInner<C>>,
}

/// Where the next part goes: its number, and the bucket, upload and key it belongs to.
pub struct PartTarget {
    pub part_number: i32,
    pub bucket: String,
    pub upload_id: String,
    pub key: StoragePath,
}

impl<C> HasRawMultipartUploadHandle for S3MultipartUploadHandle<C> {
    type Raw = RawS3MultipartFileUpload;
}

impl<C> IntoRawMultipartUploadHandle for S3MultipartUploadHandle<C> {
    type Rest = C;

    open spec fn raw_state(&self) -> Option<RawS3MultipartFileUpload> {
        match self.inner {
            Some(i) => Some(i.inner),
            None => None,
        }
    }

    open spec fn rest_state(&self) -> Option<C> {
        match self.inner {
            Some(i) => Some(i.client),
            None => None,
        }
    }

    fn into_raw(self) -> (r: Option<(RawS3MultipartFileUpload, C)>) {
        match self.inner {
            Some(i) => Some((i.inner, i.client)),
            None => None,
        }
    }

    fn from_raw(raw: RawS3MultipartFileUpload, rest: C) -> (r: Self) {
        S3MultipartUploadHandle { inner: Some(S3MultipartFileUploadInner { client: rest, inner: raw }) }
    }
}

impl<C> LockRawMultipartUploadHandle for S3MultipartUploadHandle<C> {
    fn read_raw(&self) -> (r: Option<&RawS3MultipartFileUpload>) {
        match &self.inner {
            Some(i) => Some(&i.inner),
            None => None,
        }
    }
}

impl<C> MultipartUploadHandle for S3MultipartUploadHandle<C> {}

impl<C> S3MultipartUploadHandle<C> {
    /// The handle of an upload S3 has just created, or `MissingUploadId` when S3
    /// answered without an upload id.
    pub fn create(client: C, bucket: String, key: StoragePath, upload_id: Option<String>) -> (r: Result<Self, UploadError>)
        ensures
            upload_id is None ==> r == Err::<Self, UploadError>(UploadError::MissingUploadId),
            upload_id matches Some(u) ==> (r matches Ok(h) && (h.inner matches Some(i) && i.client == client
                && i.inner.bucket@ == bucket@ && i.inner.key == key && i.inner.upload_id@ == u@
                && i.inner.next_part_number == 1 && i.inner.completed_parts@.len() == 0)),
            r matches Ok(h) ==> run_matches(h, run_parts(seq![])),
    {
        let upload_id = match upload_id_or_missing(upload_id) {
            Ok(u) => u,
            Err(e) => return Err(e),
        };
        Ok(S3MultipartUploadHandle {
            inner: Some(S3MultipartFileUploadInner {
                client,
                inner: RawS3MultipartFileUpload::start(bucket, key, upload_id),
            }),
        })
    }

    /// Reserves the number of the next part, as the first half of uploading a part.
    pub fn begin_part(&mut self) -> (r: Result<PartTarget, UploadError>)
        requires
            old(self).inner matches Some(i) ==> i.inner.next_part_number < i32::MAX,
        ensures
            old(self).inner is None ==> r == Err::<PartTarget, UploadError>(UploadError::MultipartHandlerDropped) && final(self).inner is None,
            old(self).inner matches Some(i) ==> (r matches Ok(t) && (final(self).inner matches Some(f) && {
                &&& t.part_number == i.inner.next_part_number
                &&& t.bucket@ == i.inner.bucket@
                &&& t.upload_id@ == i.inner.upload_id@
                &&& t.key == i.inner.key
                &&& f.client == i.client
                &&& f.inner.next_part_number == i.inner.next_part_number + 1
                &&& f.inner.completed_parts@ == i.inner.completed_parts@
                &&& f.inner.bucket == i.inner.bucket
                &&& f.inner.key == i.inner.key
                &&& f.inner.upload_id == i.inner.upload_id
            })),
            forall|run: PartsRun| #[trigger] run_matches(*old(self), run) ==> run_matches(*final(self), part_step(run, PartOp::Reserve))
                && (r matches Ok(t) ==> t.part_number == run.next),
    {
        match self.inner.take() {
            None => Err(UploadError::MultipartHandlerDropped),
            Some(mut i) => {
                let part_number = i.inner.take_part_number();
                let t = PartTarget {
                    part_number,
                    bucket: i.inner.bucket.clone(),
                    upload_id: i.inner.upload_id.clone(),
                    key: i.inner.key,
                };
                self.inner = Some(i);
                Ok(t)
            },
        }
    }

    /// Records a part S3 has accepted, as the second half of uploading a part.
    pub fn finish_part(&mut self, part_number: i32, e_tag: Option<String>) -> (r: Result<(), UploadError>)
        ensures
            old(self).inner is None ==> r == Err::<(), UploadError>(UploadError::MultipartHandlerDropped) && final(self).inner is None,
            old(self).inner matches Some(i) ==> (r is Ok && (final(self).inner matches Some(f) && {
                &&& f.client == i.client
                &&& f.inner.completed_parts@.drop_last() == i.inner.completed_parts@
                &&& f.inner.completed_parts@.len() == i.inner.completed_parts@.len() + 1
                &&& f.inner.completed_parts@.last().part_number == part_number
                &&& f.inner.completed_parts@.last().e_tag@ == match e_tag { Some(t) => t@, None => Seq::<char>::empty() }
                &&& f.inner.next_part_number == i.inner.next_part_number
                &&& f.inner.bucket == i.inner.bucket
                &&& f.inner.key == i.inner.key
                &&& f.inner.upload_id == i.inner.upload_id
            })),
            forall|run: PartsRun, k: nat| run_matches(*old(self), run) && k < run.handed.len() && part_number == run.handed[k as int]
                ==> #[trigger] run_matches(*final(self), part_step(run, PartOp::Record(k))),
    {
        match self.inner.take() {
            None => Err(UploadError::MultipartHandlerDropped),
            Some(mut i) => {
                i.inner.record_part(part_number, e_tag);
                self.inner = Some(i);
                Ok(())
            },
        }
    }
}

/// What completing an upload sends to S3: the upload's state, the client, and the
/// parts by ascending number.
pub struct Completion<C> {
    pub raw: RawS3MultipartFileUpload,
    pub client: C,
    pub parts: Vec<RawCompletedPart>,
}

/// Takes the handle apart to complete the upload, or fails with
/// `MultipartHandlerDropped` when it was already taken apart.
pub fn prepare_completion<C>(handle: S3MultipartUploadHandle<C>) -> (r: Result<Completion<C>, UploadError>)
    ensures
        handle.inner is None ==> r == Err::<Completion<C>, UploadError>(UploadError::MultipartHandlerDropped),
        handle.inner matches Some(i) ==> (r matches Ok(c) && c.raw == i.inner && c.client == i.client
            && is_stable_sort_by_part_number(i.inner.completed_parts@, c.parts@)),
{
    match handle.into_raw() {
        None => Err(UploadError::MultipartHandlerDropped),
        Some((raw, client)) => {
            let parts = raw.parts_for_completion();
            Ok(Completion { raw, client, parts })
        },
    }
}

/// What completing an upload comes to, once S3 has answered the completion request:
/// the stored object's path when S3 accepted it; otherwise S3's error, and the
/// handle rebuilt from the completion, whose drop aborts the upload.
pub fn completion_outcome<C, E>(c: Completion<C>, sent: Result<(), E>) -> (r: (Result<StoragePath, E>, Option<S3MultipartUploadHandle<C>>))
    ensures
        sent is Ok ==> r.0 == Ok::<StoragePath, E>(c.raw.key) && r.1 is None,
        sent matches Err(e) ==> r.0 == Err::<StoragePath, E>(e)
            && (r.1 matches Some(h) && (h.inner matches Some(i) && i.inner == c.raw && i.client == c.client)),
{
    match sent {
        Ok(()) => (Ok(c.raw.key), None),
        Err(e) => (Err(e), Some(S3MultipartUploadHandle::from_raw(c.raw, c.client))),
    }
}

/// What deleting a stored file sends: the bucket and the file's object key.
pub struct DeleteRequest {
    pub bucket: String,
    pub key: String,
}

/// Files stored in an S3 bucket through a client.
pub struct S3FilesStorage<C> {
    pub client: C,
    pub bucket: String,
}

impl<C> S3FilesStorage<C> {
    pub fn new(client: C, bucket: String) -> (r: Self)
        ensures
            r.client == client,
            r.bucket@ == bucket@,
    {
        S3FilesStorage { client, bucket }
    }

    /// The handle of an upload of `key` that S3 created with `upload_id`, holding
    /// `client`; `MissingUploadId` when S3 answered without an id.
    pub fn start_upload(&self, client: C, key: StoragePath, upload_id: Option<String>) -> (r: Result<S3MultipartUploadHandle<C>, UploadError>)
        ensures
            upload_id is None ==> r == Err::<S3MultipartUploadHandle<C>, UploadError>(UploadError::MissingUploadId),
            upload_id matches Some(u) ==> (r matches Ok(h) && (h.inner matches Some(i) && i.client == client
                && i.inner.bucket@ == self.bucket@ && i.inner.key == key && i.inner.upload_id@ == u@
                && i.inner.next_part_number == 1 && i.inner.completed_parts@.len() == 0)),
    {
        S3MultipartUploadHandle::create(client, self.bucket.clone(), key, upload_id)
    }
}

impl<C> S3FilesStorage<C> {
    /// The request that deletes the stored file `id`.
    pub fn delete_request(&self, id: StoragePath) -> (r: DeleteRequest)
        ensures
            r.bucket@ == self.bucket@,
            r.key@ == object_key_text(id),
    {
        DeleteRequest { bucket: self.bucket.clone(), key: object_key(id) }
    }
}

/// What aborting an abandoned upload sends: its bucket, object key and upload id.
pub struct AbortRequest {
    pub bucket: String,
    pub key: String,
    pub upload_id: String,
}

/// Takes apart a handle that is dropped: an upload it still holds is aborted with
/// its client; a handle already taken apart asks for nothing.
pub fn abort_on_drop<C>(handle: &mut S3MultipartUploadHandle<C>) -> (r: Option<(C, AbortRequest)>)
    ensures
        final(handle).inner is None,
        old(handle).inner is None ==> r is None,
        old(handle).inner matches Some(i) ==> (r matches Some((c, a)) && c == i.client && a.bucket@ == i.inner.bucket@
            && a.key@ == object_key_text(i.inner.key) && a.upload_id@ == i.inner.upload_id@),
        forall|run: PartsRun| #[trigger] run_matches(*old(handle), run) ==> run_matches(*final(handle), part_step(run, PartOp::TakeApart)),
{
    match handle.inner.take() {
        None => None,
        Some(i) => {
            let key = object_key(i.inner.key);
            let request = AbortRequest { bucket: i.inner.bucket, key, upload_id: i.inner.upload_id };
            Some((i.client, request))
        },
    }
}

/// How S3 answered a request for an object.
pub enum GetObjectOutcome<S, E> {
    /// The object's contents.
    Found(S),
    /// There is no object under the key.
    NoSuchKey,
    /// Any other failure.
    Failed(E),
}

/// The contents of a stored file: `None` when there is no such object, the error
/// of any other failure.
pub fn get_file_result<S, E>(outcome: GetObjectOutcome<S, E>) -> (r: Result<Option<S>, E>)
    ensures
        outcome matches GetObjectOutcome::Found(s) ==> r == Ok::<Option<S>, E>(Some(s)),
        outcome is NoSuchKey ==> r == Ok::<Option<S>, E>(None),
        outcome matches GetObjectOutcome::Failed(e) ==> r == Err::<Option<S>, E>(e),
{
    match outcome {
        GetObjectOutcome::Found(s) => Ok(Some(s)),
        GetObjectOutcome::NoSuchKey => Ok(None),
        GetObjectOutcome::Failed(e) => Err(e),
    }
}

/// The next part number and the numbers of the recorded parts of an upload.
pub open spec fn parts_view(raw: RawS3MultipartFileUpload) -> (int, Seq<int>) {
    (raw.next_part_number as int, raw.completed_parts@.map_values(|p: RawCompletedPart| p.part_number as int))
}

/// A step on the parts of an upload, by the `upload_part` calls made on its handle,
/// in the order the handle's lock takes them (calls may interleave): a call reserves
/// the next part number (`begin_part`); the `k`-th call that got a number has its
/// part accepted by S3 and recorded (`finish_part`; a call whose part failed records
/// nothing); or the handle is taken apart (completed, or dropped and aborted).
pub enum PartOp {
    Reserve,
    Record(nat),
    TakeApart,
}

/// The parts of an upload after some steps: whether the handle still holds the
/// upload, the next part number, the numbers handed out in order, the numbers
/// recorded in order, and which call each recorded number belongs to.
pub struct PartsRun {
    pub alive: bool,
    pub next: int,
    pub handed: Seq<int>,
    pub recorded: Seq<int>,
    pub calls: Seq<nat>,
}

/// One step. On a handle taken apart, reserving and recording are refused
/// (`MultipartHandlerDropped`) and change nothing.
pub open spec fn part_step(r: PartsRun, op: PartOp) -> PartsRun {
    match op {
        PartOp::Reserve => if r.alive {
            PartsRun { next: r.next + 1, handed: r.handed.push(r.next), ..r }
        } else {
            r
        },
        PartOp::Record(k) => if r.alive {
            PartsRun { recorded: r.recorded.push(r.handed[k as int]), calls: r.calls.push(k), ..r }
        } else {
            r
        },
        PartOp::TakeApart => PartsRun { alive: false, ..r },
    }
}

/// The parts after `ops` on a handle just created: next part 1, nothing handed out
/// or recorded.
pub open spec fn run_parts(ops: Seq<PartOp>) -> PartsRun
    decreases ops.len(),
{
    if ops.len() == 0 {
        PartsRun { alive: true, next: 1, handed: seq![], recorded: seq![], calls: seq![] }
    } else {
        part_step(run_parts(ops.drop_last()), ops.last())
    }
}

/// Each recorded call got its number before, and no call records twice: what the
/// shape of `upload_part` (reserve, send, then record its own number once) gives.
pub open spec fn parts_ops_valid(ops: Seq<PartOp>) -> bool
    decreases ops.len(),
{
    if ops.len() == 0 {
        true
    } else {
        &&& parts_ops_valid(ops.drop_last())
        &&& match ops.last() {
            PartOp::Record(k) => k < run_parts(ops.drop_last()).handed.len()
                && (forall|i: int| 0 <= i < ops.len() - 1 ==> ops[i] != PartOp::Record(k)),
            _ => true,
        }
    }
}

/// Whether a handle is in the state a run describes: it holds the upload exactly
/// while the run is alive, with the run's next number and recorded numbers.
pub open spec fn run_matches<C>(h: S3MultipartUploadHandle<C>, r: PartsRun) -> bool {
    match h.inner {
        Some(i) => r.alive && parts_view(i.inner) == (r.next, r.recorded),
        None => !r.alive,
    }
}

/// Part numbering: on a handle fresh from `create`, the numbers handed out are 1,
/// 2, 3, … in order of reservation, hence distinct, and the next number is one past
/// the last; each recorded part carries the number its call was handed, so there is
/// one record per successful call, the recorded numbers are distinct, and each is
/// below the next number.
pub proof fn lemma_part_numbering(ops: Seq<PartOp>)
    requires
        parts_ops_valid(ops),
    ensures
        run_parts(ops).next == run_parts(ops).handed.len() + 1,
        forall|i: int| 0 <= i < run_parts(ops).handed.len() ==> #[trigger] run_parts(ops).handed[i] == i + 1,
        run_parts(ops).recorded.len() == run_parts(ops).calls.len(),
        forall|j: int| 0 <= j < run_parts(ops).recorded.len() ==> #[trigger] run_parts(ops).recorded[j] == run_parts(ops).calls[j] + 1,
        run_parts(ops).calls.no_duplicates(),
        run_parts(ops).recorded.no_duplicates(),
        forall|j: int| 0 <= j < run_parts(ops).recorded.len() ==> 1 <= #[trigger] run_parts(ops).recorded[j] < run_parts(ops).next,
    decreases ops.len(),
{
    if ops.len() > 0 {
        let prev = ops.drop_last();
        lemma_part_numbering(prev);
        lemma_recorded_calls_in_ops(prev);
        let r = run_parts(prev);
        let s = run_parts(ops);
        match ops.last() {
            PartOp::Reserve => {
                if r.alive {
                    assert(s.handed == r.handed.push(r.next));
                }
            },
            PartOp::TakeApart => {},
            PartOp::Record(k) => {
                if r.alive {
                    assert(s.calls == r.calls.push(k));
                    assert(s.recorded == r.recorded.push(r.handed[k as int]));
                    assert(!r.calls.contains(k)) by {
                        if r.calls.contains(k) {
                            let j = choose|j: int| 0 <= j < r.calls.len() && r.calls[j] == k;
                            let i = choose|i: int| 0 <= i < prev.len() && prev[i] == PartOp::Record(r.calls[j]);
                            assert(ops[i] == prev[i]);
                        }
                    }
                    assert forall|a: int, b: int| 0 <= a < s.calls.len() && 0 <= b < s.calls.len() && a != b
                        implies s.calls[a] != s.calls[b] by {
                        if a == r.calls.len() as int {
                            assert(s.calls[b] == r.calls[b]);
                        } else if b == r.calls.len() as int {
                            assert(s.calls[a] == r.calls[a]);
                        }
                    }
                    assert forall|j: int| 0 <= j < s.recorded.len() implies #[trigger] s.recorded[j] == s.calls[j] + 1 by {
                        if j < r.recorded.len() {
                            assert(s.recorded[j] == r.recorded[j]);
                            assert(s.calls[j] == r.calls[j]);
                        }
                    }
                    assert forall|a: int, b: int| 0 <= a < s.recorded.len() && 0 <= b < s.recorded.len() && a != b
                        implies s.recorded[a] != s.recorded[b] by {
                        assert(s.recorded[a] == s.calls[a] + 1);
                        assert(s.recorded[b] == s.calls[b] + 1);
                    }
                    assert forall|j: int| 0 <= j < s.recorded.len() implies 1 <= #[trigger] s.recorded[j] < s.next by {
                        if j < r.recorded.len() {
                            assert(s.recorded[j] == r.recorded[j]);
                        }
                    }
                }
            },
        }
    }
}

/// Every call in a run's records was recorded by a step of the run.
proof fn lemma_recorded_calls_in_ops(ops: Seq<PartOp>)
    ensures
        forall|j: int| 0 <= j < run_parts(ops).calls.len() ==> exists|i: int| 0 <= i < ops.len() && ops[i] == PartOp::Record(#[trigger] run_parts(ops).calls[j]),
    decreases ops.len(),
{
    if ops.len() > 0 {
        let prev = ops.drop_last();
        lemma_recorded_calls_in_ops(prev);
        let r = run_parts(prev);
        let s = run_parts(ops);
        assert forall|j: int| 0 <= j < s.calls.len() implies exists|i: int| 0 <= i < ops.len() && ops[i] == PartOp::Record(#[trigger] s.calls[j]) by {
            if j < r.calls.len() {
                if ops.last() is Record && r.alive {
                    assert(s.calls[j] == r.calls[j]);
                } else {
                    assert(s.calls == r.calls);
                }
                let i = choose|i: int| 0 <= i < prev.len() && prev[i] == PartOp::Record(r.calls[j]);
                assert(ops[i] == prev[i]);
            } else {
                assert(ops[ops.len() - 1] == PartOp::Record(s.calls[j]));
            }
        }
    }
}

/// Once the handle is taken apart, no further step hands out or records anything.
pub proof fn lemma_taken_apart_is_final(ops: Seq<PartOp>, more: Seq<PartOp>)
    requires
        !run_parts(ops).alive,
    ensures
        !run_parts(ops + more).alive,
        run_parts(ops + more).handed == run_parts(ops).handed,
        run_parts(ops + more).recorded == run_parts(ops).recorded,
        run_parts(ops + more).calls == run_parts(ops).calls,
    decreases more.len(),
{
    if more.len() > 0 {
        lemma_taken_apart_is_final(ops, more.drop_last());
        assert((ops + more).drop_last() =~= ops + more.drop_last());
    } else {
        assert(ops + more =~= ops);
    }
}

} // verus!
