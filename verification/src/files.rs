//! Decisions about plugin package files: which directory entries are
//! packages, and how a file size is handed to the file-mapping call.
use vstd::prelude::*;

verus! {

/// ASCII lower-casing of one byte.
pub open spec fn ascii_lower(b: u8) -> u8 {
    if 0x41u8 <= b <= 0x5Au8 {
        (b + 0x20) as u8
    } else {
        b
    }
}

/// Two byte strings are equal up to ASCII case (as `eq_ignore_ascii_case` compares).
pub open spec fn eq_ignore_ascii_case(a: Seq<u8>, b: Seq<u8>) -> bool {
    a.len() == b.len() && forall|i: int| 0 <= i < a.len() ==> ascii_lower(#[trigger] a[i]) == ascii_lower(b[i])
}

fn to_ascii_lower(b: u8) -> (r: u8)
    ensures
        r == ascii_lower(b),
{
    if 0x41u8 <= b && b <= 0x5Au8 {
        b + 0x20
    } else {
        b
    }
}

/// Compares two byte strings ignoring ASCII case.
pub fn bytes_eq_ignore_ascii_case(a: &[u8], b: &[u8]) -> (r: bool)
    ensures
        r == eq_ignore_ascii_case(a@, b@),
{
    if a.len() != b.len() {
        return false;
    }
    let mut i: usize = 0;
    while i < a.len()
        invariant
            a@.len() == b@.len(),
            i <= a@.len(),
            forall|k: int| 0 <= k < i ==> ascii_lower(#[trigger] a@[k]) == ascii_lower(b@[k]),
        decreases a@.len() - i,
    {
        if to_ascii_lower(a[i]) != to_ascii_lower(b[i]) {
            return false;
        }
        i += 1;
    }
    true
}

/// The file extension of plugin packages, `tnzip`.
pub open spec fn package_extension() -> Seq<u8> {
    seq![0x74u8, 0x6Eu8, 0x7Au8, 0x69u8, 0x70u8]
}

/// Whether a file extension (its bytes, without the dot) marks a plugin
/// package: `tnzip` in any ASCII case.
pub fn is_package_extension(extension: &[u8]) -> (r: bool)
    ensures
        r == eq_ignore_ascii_case(extension@, package_extension()),
{
    let expected: [u8; 5] = [0x74u8, 0x6Eu8, 0x7Au8, 0x69u8, 0x70u8];
    assert(expected@ =~= package_extension());
    bytes_eq_ignore_ascii_case(extension, expected.as_slice())
}

#[verifier::external_type_specification]
#[verifier::external_body]
pub struct ExRapidRandomState<
    const AVALANCHE: bool,
    const SPONGE: bool,
    const COMPACT: bool,
    const PROTECTED: bool,
>(rapidhash::inner::RandomState<AVALANCHE, SPONGE, COMPACT, PROTECTED>);

/// The canonical paths, as bytes, held by a set of package files already met.
pub uninterp spec fn seen_paths(seen: rapidhash::RapidHashSet<Vec<u8>>) -> Set<Seq<u8>>;

/// Adds `path` to a set of paths (`HashSet::insert`); true when the set did
/// not hold an equal path before. Byte vectors are equal exactly when their
/// bytes are.
#[verifier::external_body]
fn insert_seen(seen: &mut rapidhash::RapidHashSet<Vec<u8>>, path: Vec<u8>) -> (inserted: bool)
    ensures
        seen_paths(*final(seen)) == seen_paths(*old(seen)).insert(path@),
        inserted == !seen_paths(*old(seen)).contains(path@),
{
    seen.insert(path)
}

/// A directory entry names a package file: it is a file, and its extension
/// is the package extension.
pub open spec fn is_package_entry(is_file: bool, extension: Option<&[u8]>) -> bool {
    is_file && match extension {
        Some(e) => eq_ignore_ascii_case(e@, package_extension()),
        None => false,
    }
}

/// Whether a directory entry is a package to load: a file with the package
/// extension whose canonical path was not met before, in this root or an
/// earlier one. The canonical path of every package file is recorded as
/// met, whether or not it is loaded.
pub fn admit_package_file(
    seen: &mut rapidhash::RapidHashSet<Vec<u8>>,
    is_file: bool,
    extension: Option<&[u8]>,
    canonical_path: Vec<u8>,
) -> (load: bool)
    ensures
        load == (is_package_entry(is_file, extension)
            && !seen_paths(*old(seen)).contains(canonical_path@)),
        seen_paths(*final(seen)) == if is_package_entry(is_file, extension) {
            seen_paths(*old(seen)).insert(canonical_path@)
        } else {
            seen_paths(*old(seen))
        },
{
    if !is_file {
        return false;
    }
    let package = match extension {
        Some(e) => is_package_extension(e),
        None => false,
    };
    if !package {
        return false;
    }
    insert_seen(seen, canonical_path)
}

/// Law: a package file is loaded at most once. Of two admissions of the
/// same canonical path in a row, at most one loads it, and the set of paths
/// met only grows.
pub proof fn lemma_package_loaded_once(
    met: Set<Seq<u8>>,
    path: Seq<u8>,
    first_is_file: bool,
    first_extension: Option<&[u8]>,
    second_is_file: bool,
    second_extension: Option<&[u8]>,
)
    ensures
        ({
            let after_first = if is_package_entry(first_is_file, first_extension) {
                met.insert(path)
            } else {
                met
            };
            let first_loads = is_package_entry(first_is_file, first_extension) && !met.contains(path);
            let second_loads = is_package_entry(second_is_file, second_extension)
                && !after_first.contains(path);
            &&& !(first_loads && second_loads)
            &&& met.subset_of(after_first)
        }),
{
}

/// A file size as the two 32-bit halves a file mapping is created with:
/// `(high, low)` with `size == high * 2^32 + low`.
pub fn split_file_size(size: u64) -> (r: (u32, u32))
    ensures
        r.0 as int * 0x1_0000_0000 + r.1 as int == size as int,
{
    let high_bits = size >> 32u64;
    let low_bits = size & 0xFFFF_FFFFu64;
    assert(high_bits <= 0xFFFF_FFFFu64 && low_bits <= 0xFFFF_FFFFu64 && high_bits
        * 0x1_0000_0000u64 + low_bits == size) by (bit_vector)
        requires
            high_bits == size >> 32u64,
            low_bits == size & 0xFFFF_FFFFu64,
    ;
    (high_bits as u32, low_bits as u32)
}

} // verus!
