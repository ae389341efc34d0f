//! What counts as success for each registry operation, and the integrity check
//! of a downloaded blob.
use crate::hash::{digest_ref, hasher_input, sha256_of, Sha256Hasher};
use crate::text::str_eq;
use vstd::utf8::encode_utf8;
use vstd::prelude::*;

verus! {

/// Why a registry operation failed.
#[derive(Clone, Debug)]
pub enum RegistryError {
    /// The registry answered with a status the operation does not accept.
    UnexpectedStatus(u16),
    /// A response that must carry a `Location` header had none.
    MissingLocation,
    /// The registry root did not answer as a registry.
    ProbeFailed,
    /// The downloaded bytes do not hash to the expected digest.
    DigestMismatch,
    /// The downloaded bytes are not as many as expected.
    LengthMismatch,
}

/// A blob presence check: 200 means present, 404 absent, anything else fails.
pub fn blob_exists_from_status(status: u16) -> (r: Result<bool, RegistryError>)
    ensures
        status == 200 ==> r == Ok::<bool, RegistryError>(true),
        status == 404 ==> r == Ok::<bool, RegistryError>(false),
        status != 200 && status != 404 ==> (r matches Err(RegistryError::UnexpectedStatus(s)) && s == status),
{
    if status == 404 {
        Ok(false)
    } else if status == 200 {
        Ok(true)
    } else {
        Err(RegistryError::UnexpectedStatus(status))
    }
}

/// A cross-repository mount succeeded only with 201.
pub fn mount_result(status: u16) -> (r: Result<(), RegistryError>)
    ensures
        status == 201 ==> r is Ok,
        status != 201 ==> (r matches Err(RegistryError::UnexpectedStatus(s)) && s == status),
{
    if status == 201 {
        Ok(())
    } else {
        Err(RegistryError::UnexpectedStatus(status))
    }
}

/// The start of an upload: 202 with the location to send the data to.
pub fn upload_location(status: u16, location: Option<String>) -> (r: Result<String, RegistryError>)
    ensures
        status != 202 ==> (r matches Err(RegistryError::UnexpectedStatus(s)) && s == status),
        status == 202 && location is None ==> r matches Err(RegistryError::MissingLocation),
        status == 202 && location is Some ==> r == Ok::<String, RegistryError>(location->Some_0),
{
    if status != 202 {
        return Err(RegistryError::UnexpectedStatus(status));
    }
    match location {
        Some(l) => Ok(l),
        None => Err(RegistryError::MissingLocation),
    }
}

/// The end of a blob upload: 201 or 200, with a location.
pub fn upload_finished(status: u16, has_location: bool) -> (r: Result<(), RegistryError>)
    ensures
        status != 201 && status != 200 ==> (r matches Err(RegistryError::UnexpectedStatus(s)) && s == status),
        (status == 201 || status == 200) && !has_location ==> r matches Err(RegistryError::MissingLocation),
        (status == 201 || status == 200) && has_location ==> r is Ok,
{
    if status != 201 && status != 200 {
        return Err(RegistryError::UnexpectedStatus(status));
    }
    if has_location {
        Ok(())
    } else {
        Err(RegistryError::MissingLocation)
    }
}

/// A manifest upload: 201, with the location where it was stored.
pub fn manifest_uploaded(status: u16, location: Option<String>) -> (r: Result<String, RegistryError>)
    ensures
        status != 201 ==> (r matches Err(RegistryError::UnexpectedStatus(s)) && s == status),
        status == 201 && location is None ==> r matches Err(RegistryError::MissingLocation),
        status == 201 && location is Some ==> r == Ok::<String, RegistryError>(location->Some_0),
{
    if status != 201 {
        return Err(RegistryError::UnexpectedStatus(status));
    }
    match location {
        Some(l) => Ok(l),
        None => Err(RegistryError::MissingLocation),
    }
}

/// A fetch of a manifest, a config or a blob: only 200 carries the content.
pub fn content_status(status: u16) -> (r: Result<(), RegistryError>)
    ensures
        status == 200 ==> r is Ok,
        status != 200 ==> (r matches Err(RegistryError::UnexpectedStatus(s)) && s == status),
{
    if status == 200 {
        Ok(())
    } else {
        Err(RegistryError::UnexpectedStatus(status))
    }
}

/// The registry root probe: the answer must carry `docker-distribution-api-version`.
pub fn probe_result(has_api_version_header: bool) -> (r: Result<(), RegistryError>)
    ensures
        has_api_version_header ==> r is Ok,
        !has_api_version_header ==> r matches Err(RegistryError::ProbeFailed),
{
    if has_api_version_header {
        Ok(())
    } else {
        Err(RegistryError::ProbeFailed)
    }
}

/// A fetched manifest or config, with its content type when given.
#[derive(Clone, Debug)]
pub struct ContentAndContentType {
    pub content_type: Option<String>,
    pub content: String,
}

/// Whether the registry already holds exactly these manifest bytes under the
/// tag, so that the upload can be skipped.
pub fn manifest_already_present(manifest_bytes: &Vec<u8>, existing: &Option<ContentAndContentType>) -> (r: bool)
    ensures
        r == (existing matches Some(c) && encode_utf8(c.content@) == manifest_bytes@),
{
    match existing {
        Some(c) => {
            let b = c.content.as_str().as_bytes();
            if b.len() != manifest_bytes.len() {
                return false;
            }
            let mut i: usize = 0;
            while i < b.len()
                invariant
                    *existing == Some::<ContentAndContentType>(*c),
                    b@ == encode_utf8(c.content@),
                    b@.len() == manifest_bytes@.len(),
                    0 <= i <= b@.len(),
                    forall|j: int| 0 <= j < i ==> b@[j] == manifest_bytes@[j],
                decreases b@.len() - i,
            {
                if b[i] != manifest_bytes[i] {
                    assert(b@[i as int] != manifest_bytes@[i as int]);
                    return false;
                }
                i += 1;
            }
            assert(b@ =~= manifest_bytes@);
            true
        },
        None => false,
    }
}

/// The integrity check of a download: the bytes are hashed as they arrive.
pub struct DownloadCheck {
    hasher: Sha256Hasher,
    total: u64,
    overflowed: bool,
}

impl DownloadCheck {
    /// The bytes received so far.
    pub closed spec fn received(&self) -> Seq<u8> {
        hasher_input(&self.hasher)
    }

    /// Whether the byte count is kept.
    pub closed spec fn wf(&self) -> bool {
        &&& self.overflowed == (self.received().len() > u64::MAX)
        &&& !self.overflowed ==> self.total == self.received().len()
    }

    /// A check that has received nothing.
    pub fn new() -> (r: DownloadCheck)
        ensures
            r.wf(),
            r.received() == Seq::<u8>::empty(),
    {
        DownloadCheck { hasher: Sha256Hasher::new(), total: 0, overflowed: false }
    }

    /// Takes the next chunk of the download.
    pub fn feed(&mut self, chunk: &[u8])
        requires
            old(self).wf(),
        ensures
            final(self).wf(),
            final(self).received() == old(self).received() + chunk@,
    {
        self.hasher.update(chunk);
        let n = chunk.len() as u64;
        if !self.overflowed {
            match self.total.checked_add(n) {
                Some(t) => {
                    self.total = t;
                },
                None => {
                    self.overflowed = true;
                },
            }
        }
    }

    /// Accepts the download when its digest is `expected_digest` and its length
    /// `expected_length`.
    pub fn finish(self, expected_digest: &str, expected_length: u64) -> (r: Result<(), RegistryError>)
        requires
            self.wf(),
        ensures
            digest_ref(sha256_of(self.received())) != expected_digest@ ==> r matches Err(RegistryError::DigestMismatch),
            digest_ref(sha256_of(self.received())) == expected_digest@ && self.received().len() != expected_length
                ==> r matches Err(RegistryError::LengthMismatch),
            digest_ref(sha256_of(self.received())) == expected_digest@ && self.received().len() == expected_length
                ==> r is Ok,
    {
        let length_ok = !self.overflowed && self.total == expected_length;
        let digest = self.hasher.finish().digest_string();
        if !str_eq(digest.as_str(), expected_digest) {
            return Err(RegistryError::DigestMismatch);
        }
        if !length_ok {
            return Err(RegistryError::LengthMismatch);
        }
        Ok(())
    }
}

} // verus!
