//! The artifact store and its lookup of artifacts by id.
use crate::buffer::{bytes_contents, bytes_mut_freeze, bytes_mut_put_bytes, bytes_mut_with_capacity};
use crate::numeral::{parse_usize, parsed_usize};
use bytes::Bytes;
use vstd::prelude::*;

verus! {

/// The name under which the installinator asks for a test artifact. For that
/// name the version is not a version but the size of the artifact in bytes.
pub const INSTALLINATOR_TEST_ARTIFACT_NAME: &'static str = "__installinator-test";

/// The path parameters of an artifact request.
#[derive(Clone, Debug)]
pub struct ArtifactId {
    /// The artifact's name.
    pub name: String,
    /// The version of the artifact.
    pub version: String,
}

/// The artifact store. It holds no artifacts yet: only the test artifact,
/// which it makes on request, can be found in it.
#[derive(Debug)]
pub struct ArtifactStore {}

/// `id` names the installinator's test artifact.
pub open spec fn is_test_artifact(id: ArtifactId) -> bool {
    id.name@ == INSTALLINATOR_TEST_ARTIFACT_NAME@
}

/// The artifact that the store hands out for `id`, as its bytes: for the test
/// artifact with a version that parses as a `usize` `n`, `n` zero bytes; for any
/// other id, nothing.
pub open spec fn artifact_for(id: ArtifactId) -> Option<Seq<u8>> {
    if is_test_artifact(id) {
        match parsed_usize(id.version@) {
            Some(n) => Some(Seq::new(n as nat, |i: int| 0u8)),
            None => None,
        }
    } else {
        None
    }
}

/// The sizes that can be handed out without a panic: the test artifact's size
/// must not exceed `isize::MAX`, the most that a buffer can hold.
pub open spec fn size_can_be_allocated(id: ArtifactId) -> bool {
    is_test_artifact(id) ==> match parsed_usize(id.version@) {
        Some(n) => n <= isize::MAX,
        None => true,
    }
}

/// For the test artifact the version is the size: a version that parses as `n`
/// gives an artifact of exactly `n` bytes, all of them zero.
pub proof fn test_artifact_size_is_version(id: ArtifactId, n: usize)
    requires
        is_test_artifact(id),
        parsed_usize(id.version@) == Some(n),
    ensures
        artifact_for(id) matches Some(a) && a.len() == n && forall|i: int|
            0 <= i < n ==> a[i] == 0u8,
{
}

/// An artifact is found exactly for the test artifact's name with a version that
/// parses as a size: any other name, or a version that does not parse, finds
/// nothing.
pub proof fn artifact_found_only_for_sized_test_ids(id: ArtifactId)
    ensures
        artifact_for(id) is Some <==> is_test_artifact(id) && parsed_usize(id.version@) is Some,
{
}

impl ArtifactStore {
    /// Creates an empty store.
    pub fn new() -> (s: ArtifactStore)
        ensures
            s == (ArtifactStore {}),
    {
        ArtifactStore {}
    }

    /// Looks an artifact up by id. For the test artifact the version, parsed as a
    /// decimal `usize`, is the size, and the artifact is that many zero bytes; a
    /// version that does not parse gives `None`. Every other id gives `None`.
    pub fn get_artifact(&self, id: &ArtifactId) -> (r: Option<Bytes>)
        requires
            size_can_be_allocated(*id),
        ensures
            r is Some <==> artifact_for(*id) is Some,
            r matches Some(b) ==> artifact_for(*id) == Some(bytes_contents(b)),
    {
        let test_name = INSTALLINATOR_TEST_ARTIFACT_NAME.to_owned();
        if id.name == test_name {
            let size = match parse_usize(id.version.as_str()) {
                Some(size) => size,
                None => {
                    return None;
                },
            };
            let mut bytes = bytes_mut_with_capacity(size);
            bytes_mut_put_bytes(&mut bytes, 0, size);
            let frozen = bytes_mut_freeze(bytes);
            assert(bytes_contents(frozen) =~= Seq::new(size as nat, |i: int| 0u8));
            return Some(frozen);
        }
        None
    }
}

} // verus!
