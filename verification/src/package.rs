//! Reading a plugin package: a ZIP archive held in memory that stores the
//! manifest, the pipelines and the shaders of a plugin.
use vstd::prelude::*;
use std::io::Read;
use vstd::utf8::{decode_utf8, valid_utf8};

use crate::pipelines::Pipelines;

verus! {

#[verifier::external_type_specification]
#[verifier::external_body]
#[verifier::reject_recursive_types(R)]
pub struct ExZipArchive<R>(zip::ZipArchive<R>);

#[verifier::external_type_specification]
#[verifier::external_body]
#[verifier::reject_recursive_types(T)]
pub struct ExCursor<T>(std::io::Cursor<T>);

/// Name of the manifest entry inside a package.
pub fn manifest_entry_name() -> (r: String)
    ensures
        r@ == "technoir.cbor"@,
{
    "technoir.cbor".to_owned()
}

/// What `zip::ZipArchive::new` makes of the bytes of an in-memory archive:
/// `None` when they do not form a ZIP archive, else the entries that can be
/// read from it, each name with its decompressed contents.
pub uninterp spec fn zip_archive_of(bytes: Seq<u8>) -> Option<Map<Seq<char>, Seq<u8>>>;

/// The entries that can be read from an opened archive, each name with its
/// decompressed contents.
pub uninterp spec fn zip_entries(archive: zip::ZipArchive<std::io::Cursor<&[u8]>>) -> Map<Seq<char>, Seq<u8>>;

/// Opens the ZIP archive stored in `bytes` (`zip::ZipArchive::new` over an
/// in-memory cursor).
#[verifier::external_body]
fn open_archive<'a>(bytes: &'a [u8]) -> (r: Option<zip::ZipArchive<std::io::Cursor<&'a [u8]>>>)
    ensures
        r is Some <==> zip_archive_of(bytes@) is Some,
        r matches Some(archive) ==> zip_archive_of(bytes@) == Some(zip_entries(archive)),
{
    zip::ZipArchive::new(std::io::Cursor::new(bytes)).ok()
}

/// Reads the whole entry `path` of an archive (`zip::ZipArchive::by_name`,
/// then reading the entry to its end): its contents when the archive holds
/// a readable entry of that name, else `None`. Reading leaves the entries
/// as they were.
#[verifier::external_body]
fn read_entry<'a>(archive: &mut zip::ZipArchive<std::io::Cursor<&'a [u8]>>, path: &str) -> (r: Option<Vec<u8>>)
    ensures
        zip_entries(*final(archive)) == zip_entries(*old(archive)),
        r is Some <==> zip_entries(*old(archive)).contains_key(path@),
        r matches Some(contents) ==> contents@ == zip_entries(*old(archive))[path@],
{
    let mut file = archive.by_name(path).ok()?;
    let mut buf = Vec::new();
    file.read_to_end(&mut buf).ok()?;
    Some(buf)
}

/// The text `String::from_utf8_lossy` makes of `bytes`: their UTF-8 decoding,
/// with each invalid sequence replaced by U+FFFD.
pub uninterp spec fn utf8_lossy_text(bytes: Seq<u8>) -> Seq<char>;

/// Decodes bytes as UTF-8, replacing invalid sequences
/// (`String::from_utf8_lossy`). Valid UTF-8 is decoded unchanged.
#[verifier::external_body]
fn decode_lossy(bytes: &[u8]) -> (r: String)
    ensures
        r@ == utf8_lossy_text(bytes@),
        valid_utf8(bytes@) ==> r@ == decode_utf8(bytes@),
{
    String::from_utf8_lossy(bytes).into_owned()
}

/// A plugin package opened for reading: a ZIP archive over the package bytes.
pub struct PackageArchive<'a> {
    archive: zip::ZipArchive<std::io::Cursor<&'a [u8]>>,
}

impl<'a> PackageArchive<'a> {
    /// The files of the package, each path with its contents.
    pub closed spec fn files(&self) -> Map<Seq<char>, Seq<u8>> {
        zip_entries(self.archive)
    }

    /// Opens the package stored in `bytes`: `None` when the file is empty or
    /// is not a ZIP archive.
    pub fn open(bytes: &'a [u8]) -> (r: Option<PackageArchive<'a>>)
        ensures
            r is Some <==> (bytes@.len() > 0 && zip_archive_of(bytes@) is Some),
            r matches Some(package) ==> zip_archive_of(bytes@) == Some(package.files()),
    {
        if bytes.len() == 0 {
            return None;
        }
        match open_archive(bytes) {
            Some(archive) => Some(PackageArchive { archive }),
            None => None,
        }
    }

    /// The whole contents of the package file `path`, if the package holds it.
    pub fn read_file(&mut self, path: &str) -> (r: Option<Vec<u8>>)
        ensures
            final(self).files() == old(self).files(),
            r is Some <==> old(self).files().contains_key(path@),
            r matches Some(contents) ==> contents@ == old(self).files()[path@],
    {
        read_entry(&mut self.archive, path)
    }

    /// The shader text of every pipeline, under the pipeline's name. A
    /// pipeline's shader path is relative to the package's `shaders/`
    /// directory. `None` when the package lacks a pipeline's shader file.
    /// Each shader file is read once; pipelines naming the same file share its text.
    pub fn shaders(&mut self, pipelines: &Pipelines) -> (r: Option<rapidhash::RapidHashMap<String, String>>)
        ensures
            final(self).files() == old(self).files(),
            match r {
                Some(shaders) => shaders_of_pipelines(old(self).files(), string_map(shaders), pipelines.view_map()),
                None => exists|name: Seq<char>|
                    #[trigger] pipelines.view_map().contains_key(name) && !old(self).files().contains_key(
                        shader_entry(pipelines.view_map()[name].shader@),
                    ),
            },
    {
        collect_shaders(&mut self.archive, pipelines)
    }
}

/// The bytes of the package manifest (`technoir.cbor`) stored in a package
/// file: `None` when the file is empty, is not a ZIP archive or has no
/// manifest entry.
pub fn manifest_bytes(package: &[u8]) -> (r: Option<Vec<u8>>)
    ensures
        r is Some <==> (package@.len() > 0 && (zip_archive_of(package@) matches Some(files)
            && files.contains_key("technoir.cbor"@))),
        r matches Some(contents) ==> (zip_archive_of(package@) matches Some(files) && contents@
            == files["technoir.cbor"@]),
{
    let mut archive = match PackageArchive::open(package) {
        Some(archive) => archive,
        None => return None,
    };
    let name = manifest_entry_name();
    archive.read_file(name.as_str())
}

/// The package file that holds the shader a pipeline names: pipeline shader
/// paths are relative to the package's `shaders/` directory.
pub open spec fn shader_entry(shader: Seq<char>) -> Seq<char> {
    "shaders/"@ + shader
}

/// `shaders` holds the shader text of each of `pipelines`, under the
/// pipeline's name: the decoded contents of the package file its shader path
/// names.
pub open spec fn shaders_of_pipelines(
    files: Map<Seq<char>, Seq<u8>>,
    shaders: Map<Seq<char>, Seq<char>>,
    pipelines: Map<Seq<char>, crate::pipelines::Pipeline>,
) -> bool {
    &&& forall|name: Seq<char>| #[trigger] shaders.contains_key(name) <==> pipelines.contains_key(name)
    &&& forall|name: Seq<char>|
        #[trigger] pipelines.contains_key(name) ==> {
            &&& files.contains_key(shader_entry(pipelines[name].shader@))
            &&& shaders[name] == utf8_lossy_text(files[shader_entry(pipelines[name].shader@)])
        }
}

/// Law: pipelines that name the same shader file get the same shader text.
pub proof fn lemma_shared_shader_text(
    files: Map<Seq<char>, Seq<u8>>,
    shaders: Map<Seq<char>, Seq<char>>,
    pipelines: Map<Seq<char>, crate::pipelines::Pipeline>,
    a: Seq<char>,
    b: Seq<char>,
)
    requires
        shaders_of_pipelines(files, shaders, pipelines),
        pipelines.contains_key(a),
        pipelines.contains_key(b),
        pipelines[a].shader@ == pipelines[b].shader@,
    ensures
        shaders[a] == shaders[b],
{
}

/// The texts a map of strings holds, each key with its text.
pub uninterp spec fn string_map(map: rapidhash::RapidHashMap<String, String>) -> Map<Seq<char>, Seq<char>>;

/// No texts.
pub open spec fn no_string_map() -> Map<Seq<char>, Seq<char>> {
    Map::empty()
}

/// An empty map of texts with room for `capacity` of them
/// (`HashMap::with_capacity_and_hasher`).
#[verifier::external_body]
fn new_string_map(capacity: usize) -> (r: rapidhash::RapidHashMap<String, String>)
    ensures
        string_map(r) == no_string_map(),
{
    rapidhash::RapidHashMap::with_capacity_and_hasher(capacity, Default::default())
}

/// The text held for the key `key` (`HashMap::get`, cloned).
/// Strings are equal keys exactly when they hold the same characters.
#[verifier::external_body]
fn string_map_get(map: &rapidhash::RapidHashMap<String, String>, key: &str) -> (r: Option<String>)
    ensures
        r is Some <==> string_map(*map).contains_key(key@),
        r matches Some(text) ==> text@ == string_map(*map)[key@],
{
    map.get(key).cloned()
}

/// Puts `text` under `key` (`HashMap::insert`), replacing any text held
/// for an equal key.
#[verifier::external_body]
fn string_map_insert(map: &mut rapidhash::RapidHashMap<String, String>, key: String, text: String)
    ensures
        string_map(*final(map)) == string_map(*old(map)).insert(key@, text@),
{
    map.insert(key, text);
}

/// The shader text of every pipeline of a package, under the pipeline's
/// name. Each shader file is read from the archive once; pipelines naming
/// the same file share its text. Shader paths are relative to the package's
/// `shaders/` directory. `None` when a shader file is missing.
fn collect_shaders<'a>(
    archive: &mut zip::ZipArchive<std::io::Cursor<&'a [u8]>>,
    pipelines: &Pipelines,
) -> (r: Option<rapidhash::RapidHashMap<String, String>>)
    ensures
        zip_entries(*final(archive)) == zip_entries(*old(archive)),
        match r {
            Some(shaders) => shaders_of_pipelines(zip_entries(*old(archive)), string_map(shaders), pipelines.view_map()),
            None => exists|name: Seq<char>|
                #[trigger] pipelines.view_map().contains_key(name) && !zip_entries(*old(archive)).contains_key(
                    shader_entry(pipelines.view_map()[name].shader@),
                ),
        },
{
    let ghost files = zip_entries(*archive);
    let ghost pipes = pipelines.view_map();
    let entries = pipelines.iter();
    let ghost models = crate::pipelines::borrowed_entry_models(entries@);
    let mut cache = new_string_map(entries.len());
    let mut shaders = new_string_map(entries.len());
    let mut i: usize = 0;
    while i < entries.len()
        invariant
            files == zip_entries(*old(archive)),
            zip_entries(*archive) == files,
            pipes == pipelines.view_map(),
            models == crate::pipelines::borrowed_entry_models(entries@),
            crate::pipelines::lists_pipelines(models, pipes),
            i <= entries@.len(),
            forall|name: Seq<char>|
                #[trigger] string_map(shaders).contains_key(name) <==> exists|j: int|
                    0 <= j < i && #[trigger] models[j].0 == name,
            forall|j: int|
                #![trigger models[j]]
                0 <= j < i ==> {
                    &&& files.contains_key(shader_entry(models[j].1.shader@))
                    &&& string_map(shaders)[models[j].0] == utf8_lossy_text(files[shader_entry(models[j].1.shader@)])
                },
            forall|path: Seq<char>|
                #[trigger] string_map(cache).contains_key(path) ==> {
                    &&& files.contains_key(shader_entry(path))
                    &&& string_map(cache)[path] == utf8_lossy_text(files[shader_entry(path)])
                },
        decreases entries@.len() - i,
    {
        let name = entries[i].0;
        let pipeline = entries[i].1;
        let path = &pipeline.shader;
        assert(models[i as int] == ((*name)@, *pipeline));
        let text: String = match string_map_get(&cache, path.as_str()) {
            Some(text) => text,
            None => {
                let mut entry = "shaders/".to_owned();
                entry.append(path.as_str());
                assert(entry@ == shader_entry(path@));
                let bytes = match read_entry(archive, entry.as_str()) {
                    Some(bytes) => bytes,
                    None => {
                        assert(pipes.contains_key(models[i as int].0));
                        assert(!files.contains_key(shader_entry(pipes[(*name)@].shader@)));
                        return None;
                    },
                };
                let text = decode_lossy(bytes.as_slice());
                string_map_insert(&mut cache, path.clone(), text.clone());
                text
            },
        };
        let ghost before = string_map(shaders);
        string_map_insert(&mut shaders, name.clone(), text);
        proof {
            assert forall|j: int| #![trigger models[j]] 0 <= j < i + 1 implies {
                &&& files.contains_key(shader_entry(models[j].1.shader@))
                &&& string_map(shaders)[models[j].0] == utf8_lossy_text(files[shader_entry(models[j].1.shader@)])
            } by {
                if j < i {
                    assert(models[j].0 != models[i as int].0);
                }
            }
            assert forall|n: Seq<char>|
                #[trigger] string_map(shaders).contains_key(n) <==> exists|j: int|
                    0 <= j < i + 1 && #[trigger] models[j].0 == n by {
                if string_map(shaders).contains_key(n) && n != (*name)@ {
                    assert(before.contains_key(n));
                }
                if n == (*name)@ {
                    assert(models[i as int].0 == n);
                }
            }
        }
        i += 1;
    }
    proof {
        assert forall|n: Seq<char>| #[trigger] pipes.contains_key(n) implies {
            &&& files.contains_key(shader_entry(pipes[n].shader@))
            &&& string_map(shaders)[n] == utf8_lossy_text(files[shader_entry(pipes[n].shader@)])
        } by {
            let j = choose|j: int| 0 <= j < models.len() && #[trigger] models[j].0 == n;
            assert(models[j].1 == pipes[n]);
        }
        assert forall|n: Seq<char>| #[trigger] string_map(shaders).contains_key(n) <==> pipes.contains_key(n) by {
            if string_map(shaders).contains_key(n) {
                let j = choose|j: int| 0 <= j < i && #[trigger] models[j].0 == n;
            }
            if pipes.contains_key(n) {
                let j = choose|j: int| 0 <= j < models.len() && #[trigger] models[j].0 == n;
                assert(0 <= j < i);
            }
        }
    }
    Some(shaders)
}

} // verus!
