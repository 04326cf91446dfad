//! What packing a plugin project computes: minified shaders under numbered
//! names, and the manifest rewritten for the compiled entry point.
use vstd::prelude::*;
use vstd::utf8::encode_utf8;

use crate::manifest::PluginManifest;
use crate::package::shader_entry;
use crate::pipelines::{entry_models, Pipeline, Pipelines};
use crate::text::{lower_hex, push_lower_hex};
use crate::wgsl_minifier::{minify_wgsl, wgsl_outcome, MinifyError, WgslOutcome};

verus! {

/// Name of the compiled Luau entry point inside a package.
pub fn packed_entry_point() -> (r: String)
    ensures
        r@ == "main.luauc"@,
{
    "main.luauc".to_owned()
}

/// The name given to the `index`-th shader of a package: the index in
/// lower-case hexadecimal, then `.wgsl`.
pub fn shader_file_name(index: usize) -> (r: String)
    ensures
        r@ == lower_hex(index as nat) + ".wgsl"@,
{
    let mut name = String::new();
    push_lower_hex(&mut name, index);
    name.append(".wgsl");
    assert(name@ =~= lower_hex(index as nat) + ".wgsl"@);
    name
}

/// Where the `index`-th shader is stored inside a package archive.
pub fn shader_archive_path(index: usize) -> (r: String)
    ensures
        r@ == "shaders/"@ + lower_hex(index as nat) + ".wgsl"@,
{
    let mut path = "shaders/".to_owned();
    push_lower_hex(&mut path, index);
    path.append(".wgsl");
    assert(path@ =~= "shaders/"@ + lower_hex(index as nat) + ".wgsl"@);
    path
}

/// The shader of one pipeline could not be minified.
pub struct StageError {
    /// Position of the pipeline whose shader failed.
    pub index: usize,
    /// Why it failed.
    pub error: MinifyError,
}

/// `after` is `before` with only its shader path changed.
pub open spec fn same_but_shader(before: Pipeline, after: Pipeline) -> bool {
    &&& after.entry_points == before.entry_points
    &&& after.constants == before.constants
    &&& after.vertex_buffers == before.vertex_buffers
    &&& after.targets == before.targets
    &&& after.primitive == before.primitive
    &&& after.depth_stencil == before.depth_stencil
    &&& after.multisample == before.multisample
}

/// `shader` is what packing makes of the WGSL source `source`: the source
/// compiles, and `shader` is the whitespace-minified text the compiler printed.
pub open spec fn is_minified_shader_of(source: Seq<char>, shader: Seq<char>) -> bool {
    wgsl_outcome(source) == WgslOutcome::Minified(shader)
}

/// `error` reports the stage at which compiling `source` fails.
pub open spec fn reports_failure_of(error: MinifyError, source: Seq<char>) -> bool {
    match wgsl_outcome(source) {
        WgslOutcome::ParseFails => error matches MinifyError::Parse(_),
        WgslOutcome::ValidationFails => error matches MinifyError::Validate(_),
        WgslOutcome::WriteFails => error matches MinifyError::Write(_),
        WgslOutcome::Minified(_) => false,
    }
}

/// Sets a pipeline's shader path.
fn rename_shader(pipeline: Pipeline, shader: String) -> (r: Pipeline)
    ensures
        r.shader == shader,
        same_but_shader(pipeline, r),
{
    let mut pipeline = pipeline;
    pipeline.shader = shader;
    pipeline
}

/// Minifies the shader of every pipeline, in the order of `entries`, and
/// renames each pipeline's shader to its numbered package name (`0.wgsl`,
/// `1.wgsl`, ..., in hexadecimal). `entries` are the named pipelines of a
/// plugin, as its pipeline map was walked; `sources[i]` is the WGSL source of
/// the `i`-th. Returns the staged pipelines and the minified shaders in that
/// order, or the first pipeline whose shader could not be minified.
pub fn stage_shaders(entries: Vec<(String, Pipeline)>, sources: &Vec<String>) -> (r: Result<
    (Pipelines, Vec<String>),
    StageError,
>)
    requires
        entries@.len() == sources@.len(),
        forall|i: int, j: int|
            0 <= i < j < entries@.len() ==> #[trigger] entries@[i].0@ != #[trigger] entries@[j].0@,
    ensures
        match r {
            Ok((staged, shaders)) => {
                &&& shaders@.len() == entries@.len()
                &&& forall|name: Seq<char>|
                    #[trigger] staged.view_map().contains_key(name) <==> exists|i: int|
                        0 <= i < entries@.len() && #[trigger] entries@[i].0@ == name
                &&& forall|i: int|
                    #![trigger entries@[i]]
                    0 <= i < entries@.len() ==> {
                        &&& staged.view_map()[entries@[i].0@].shader@ == lower_hex(i as nat) + ".wgsl"@
                        &&& same_but_shader(entries@[i].1, staged.view_map()[entries@[i].0@])
                    }
                &&& forall|i: int|
                    #![trigger shaders@[i]]
                    0 <= i < shaders@.len() ==> {
                        is_minified_shader_of(sources@[i]@, shaders@[i]@)
                    }
            },
            Err(e) => {
                &&& e.index < sources@.len()
                &&& reports_failure_of(e.error, sources@[e.index as int]@)
                &&& forall|i: int|
                    0 <= i < e.index ==> (#[trigger] wgsl_outcome(sources@[i]@) is Minified)
            },
        },
{
    let ghost given = entries@;
    let mut remaining = entries;
    let mut staged: Vec<(String, Pipeline)> = Vec::new();
    let mut shaders: Vec<String> = Vec::new();
    let mut index: usize = 0;
    while index < sources.len()
        invariant
            given.len() == sources@.len(),
            index <= given.len(),
            remaining@ == given.subrange(index as int, given.len() as int),
            staged@.len() == index,
            shaders@.len() == index,
            forall|i: int|
                #![trigger staged@[i]]
                0 <= i < index ==> {
                    &&& staged@[i].0 == given[i].0
                    &&& staged@[i].1.shader@ == lower_hex(i as nat) + ".wgsl"@
                    &&& same_but_shader(given[i].1, staged@[i].1)
                },
            forall|i: int|
                #![trigger shaders@[i]]
                0 <= i < index ==> {
                    is_minified_shader_of(sources@[i]@, shaders@[i]@)
                },
        decreases given.len() - index,
    {
        let minified_shader = match minify_wgsl(sources[index].as_str()) {
            Ok(text) => text,
            Err(error) => {
                proof {
                    assert forall|i: int| 0 <= i < index implies (#[trigger] wgsl_outcome(
                        sources@[i]@,
                    ) is Minified) by {
                        assert(is_minified_shader_of(sources@[i]@, shaders@[i]@));
                    }
                }
                return Err(StageError { index, error });
            },
        };
        let (name, pipeline) = remaining.remove(0);
        shaders.push(minified_shader);
        let renamed = rename_shader(pipeline, shader_file_name(index));
        staged.push((name, renamed));
        index += 1;
        assert(remaining@ =~= given.subrange(index as int, given.len() as int));
    }
    let ghost staged_entries = staged@;
    assert forall|i: int, j: int|
        0 <= i < j < staged_entries.len() implies #[trigger] staged_entries[i].0@ != #[trigger] staged_entries[j].0@ by {
        assert(staged_entries[i].0 == given[i].0);
        assert(staged_entries[j].0 == given[j].0);
    }
    let result = Pipelines::from_entries(staged);
    proof {
        let models = entry_models(staged_entries);
        let map = result.view_map();
        assert forall|i: int|
            #![trigger given[i]]
            0 <= i < given.len() implies {
                &&& map[given[i].0@].shader@ == lower_hex(i as nat) + ".wgsl"@
                &&& same_but_shader(given[i].1, map[given[i].0@])
            } by {
            assert(models[i] == (staged_entries[i].0@, staged_entries[i].1));
            assert(staged_entries[i].0 == given[i].0);
            assert(map.contains_key(models[i].0));
            assert(map[models[i].0] == models[i].1);
        }
        assert forall|name: Seq<char>|
            #[trigger] map.contains_key(name) <==> exists|i: int|
                0 <= i < given.len() && #[trigger] given[i].0@ == name by {
            if map.contains_key(name) {
                let i = choose|i: int| 0 <= i < models.len() && #[trigger] models[i].0 == name;
                assert(models[i] == (staged_entries[i].0@, staged_entries[i].1));
                assert(staged_entries[i].0 == given[i].0);
                assert(given[i].0@ == name);
            }
            if exists|i: int| 0 <= i < given.len() && #[trigger] given[i].0@ == name {
                let i = choose|i: int| 0 <= i < given.len() && #[trigger] given[i].0@ == name;
                assert(models[i] == (staged_entries[i].0@, staged_entries[i].1));
                assert(staged_entries[i].0 == given[i].0);
                assert(map.contains_key(models[i].0));
            }
        }
    }
    Ok((result, shaders))
}

/// Name of the pipeline file inside a package.
pub fn packed_pipelines_name() -> (r: String)
    ensures
        r@ == "pipelines.cbor"@,
{
    "pipelines.cbor".to_owned()
}

/// Points the manifest at the files packing stores: the compiled entry
/// point and the encoded pipeline file. Everything else is kept.
pub fn use_packed_files(manifest: &mut PluginManifest)
    ensures
        final(manifest).plugin.entry_point@ == "main.luauc"@,
        final(manifest).plugin.pipelines@ == "pipelines.cbor"@,
        final(manifest).plugin.name == old(manifest).plugin.name,
        final(manifest).plugin.id == old(manifest).plugin.id,
        final(manifest).plugin.version == old(manifest).plugin.version,
        final(manifest).plugin.api_version == old(manifest).plugin.api_version,
        final(manifest).plugin.plugin_type == old(manifest).plugin.plugin_type,
        final(manifest).plugin.description == old(manifest).plugin.description,
        final(manifest).plugin.author == old(manifest).plugin.author,
        final(manifest).plugin.license == old(manifest).plugin.license,
        final(manifest).plugin.icon == old(manifest).plugin.icon,
        final(manifest).plugin.tags == old(manifest).plugin.tags,
{
    manifest.plugin.entry_point = packed_entry_point();
    manifest.plugin.pipelines = packed_pipelines_name();
}

/// Compiler settings for Luau code.
#[derive(Clone, Copy, Debug, PartialEq, Eq, Structural)]
pub struct LuauOptions {
    /// Optimization level (0 to 2).
    pub optimization_level: u8,
    /// Type information level (0 or 1).
    pub type_info_level: u8,
    /// Debug information level (0 to 2).
    pub debug_level: u8,
}

impl LuauOptions {
    /// The settings plugins are packed with: full optimization, no type
    /// information, no debug information.
    pub fn release() -> (r: Self)
        ensures
            r == (LuauOptions { optimization_level: 2, type_info_level: 0, debug_level: 0 }),
    {
        LuauOptions { optimization_level: 2, type_info_level: 0, debug_level: 0 }
    }

    /// The settings plugin source is loaded with: full optimization, line
    /// information and function names kept.
    pub fn loader() -> (r: Self)
        ensures
            r == (LuauOptions { optimization_level: 2, type_info_level: 0, debug_level: 1 }),
    {
        LuauOptions { optimization_level: 2, type_info_level: 0, debug_level: 1 }
    }
}

/// The bytecode the Luau compiler (`mlua::Compiler::compile`) makes of
/// `source` with the given optimization, type information and debug levels;
/// `None` when the source does not compile.
pub uninterp spec fn luau_bytecode(source: Seq<u8>, optimization: u8, type_info: u8, debug: u8) -> Option<
    Seq<u8>,
>;

/// Compiles Luau source with `mlua::Compiler`, set to the given levels.
#[verifier::external_body]
fn compile_luau(source: &[u8], optimization: u8, type_info: u8, debug: u8) -> (r: Option<Vec<u8>>)
    ensures
        r is Some <==> luau_bytecode(source@, optimization, type_info, debug) is Some,
        r matches Some(code) ==> luau_bytecode(source@, optimization, type_info, debug) == Some(
            code@,
        ),
{
    mlua::chunk::Compiler::new()
        .set_optimization_level(optimization)
        .set_type_info_level(type_info)
        .set_debug_level(debug)
        .compile(source)
        .ok()
}

/// Compiles a plugin's Luau code with `options`; `None` when it does not compile.
pub fn compile_entry_point(source: &[u8], options: LuauOptions) -> (r: Option<Vec<u8>>)
    ensures
        r is Some <==> luau_bytecode(
            source@,
            options.optimization_level,
            options.type_info_level,
            options.debug_level,
        ) is Some,
        r matches Some(code) ==> luau_bytecode(
            source@,
            options.optimization_level,
            options.type_info_level,
            options.debug_level,
        ) == Some(code@),
{
    compile_luau(source, options.optimization_level, options.type_info_level, options.debug_level)
}

/// The `i`-th shader is stored, under its numbered name in `shaders/`, as
/// the fourth file onwards.
pub open spec fn holds_packed_shader(files: Seq<(String, Vec<u8>)>, shaders: Seq<String>, i: int) -> bool {
    &&& files[3 + i].0@ == "shaders/"@ + lower_hex(i as nat) + ".wgsl"@
    &&& files[3 + i].1@ == encode_utf8(shaders[i]@)
}

/// The files of a package, in the order packing writes them: the compiled
/// entry point, the encoded pipelines, the encoded manifest, then the
/// shaders under `shaders/` with their numbered names.
pub open spec fn is_package_layout(
    files: Seq<(String, Vec<u8>)>,
    code: Seq<u8>,
    pipelines: Seq<u8>,
    manifest: Seq<u8>,
    shaders: Seq<String>,
) -> bool {
    &&& files.len() == 3 + shaders.len()
    &&& files[0].0@ == "main.luauc"@ && files[0].1@ == code
    &&& files[1].0@ == "pipelines.cbor"@ && files[1].1@ == pipelines
    &&& files[2].0@ == "manifest.cbor"@ && files[2].1@ == manifest
    &&& forall|i: int| 0 <= i < shaders.len() ==> #[trigger] holds_packed_shader(files, shaders, i)
}

/// The files of the package for the compiled entry point `code`, the
/// encoded pipelines and manifest, and the staged shaders.
pub fn package_files(code: Vec<u8>, pipelines: Vec<u8>, manifest: Vec<u8>, shaders: &Vec<String>) -> (r: Vec<
    (String, Vec<u8>),
>)
    ensures
        is_package_layout(r@, code@, pipelines@, manifest@, shaders@),
{
    let ghost code_bytes = code@;
    let ghost pipeline_bytes = pipelines@;
    let ghost manifest_bytes = manifest@;
    let mut files: Vec<(String, Vec<u8>)> = Vec::new();
    files.push((packed_entry_point(), code));
    files.push((packed_pipelines_name(), pipelines));
    files.push(("manifest.cbor".to_owned(), manifest));
    let mut i: usize = 0;
    while i < shaders.len()
        invariant
            i <= shaders@.len(),
            files@.len() == 3 + i,
            files@[0].0@ == "main.luauc"@ && files@[0].1@ == code_bytes,
            files@[1].0@ == "pipelines.cbor"@ && files@[1].1@ == pipeline_bytes,
            files@[2].0@ == "manifest.cbor"@ && files@[2].1@ == manifest_bytes,
            forall|j: int| 0 <= j < i ==> #[trigger] holds_packed_shader(files@, shaders@, j),
        decreases shaders@.len() - i,
    {
        let text = shaders[i].as_str();
        let bytes = text.as_bytes_vec();
        assert(bytes@ == encode_utf8(shaders@[i as int]@));
        let path = shader_archive_path(i);
        let ghost before = files@;
        files.push((path, bytes));
        assert(files@[3 + i as int].1@ == encode_utf8(shaders@[i as int]@));
        assert(files@[3 + i as int].0@ == "shaders/"@ + lower_hex(i as nat) + ".wgsl"@);
        i += 1;
        assert forall|j: int| 0 <= j < i implies #[trigger] holds_packed_shader(files@, shaders@, j) by {
            if j < i - 1 {
                assert(holds_packed_shader(before, shaders@, j));
                assert(files@[3 + j] == before[3 + j]);
            }
        }
    }
    files
}

/// Law: what packing writes is what loading looks for. Each staged
/// pipeline's shader is stored at the package path the loader reads it from
/// (`shaders/` and the pipeline's shader name), holding that pipeline's
/// minified shader, and the pipeline file the rewritten manifest names is
/// stored in the package.
///
/// The manifest is left out: packing stores it as `manifest.cbor`, while
/// `manifest_bytes` reads a package's manifest from `technoir.cbor`, so a
/// package laid out by `package_files` has no manifest where the loader
/// looks for one.
pub proof fn lemma_packed_files_are_found(
    entries: Seq<(String, Pipeline)>,
    staged: Map<Seq<char>, Pipeline>,
    shaders: Seq<String>,
    files: Seq<(String, Vec<u8>)>,
    code: Seq<u8>,
    pipelines: Seq<u8>,
    manifest: Seq<u8>,
    packed_manifest: PluginManifest,
)
    requires
        entries.len() == shaders.len(),
        forall|i: int|
            0 <= i < entries.len() ==> staged[(#[trigger] entries[i]).0@].shader@ == lower_hex(i as nat)
                + ".wgsl"@,
        is_package_layout(files, code, pipelines, manifest, shaders),
        packed_manifest.plugin.pipelines@ == "pipelines.cbor"@,
    ensures
        forall|i: int|
            0 <= i < entries.len() ==> {
                &&& files[3 + i].0@ == shader_entry(staged[(#[trigger] entries[i]).0@].shader@)
                &&& files[3 + i].1@ == encode_utf8(shaders[i]@)
            },
        files[1].0@ == packed_manifest.plugin.pipelines@,
{
    assert forall|i: int| 0 <= i < entries.len() implies {
        &&& files[3 + i].0@ == shader_entry(staged[(#[trigger] entries[i]).0@].shader@)
        &&& files[3 + i].1@ == encode_utf8(shaders[i]@)
    } by {
        assert(holds_packed_shader(files, shaders, i));
        assert(("shaders/"@ + lower_hex(i as nat)) + ".wgsl"@ =~= "shaders/"@ + (lower_hex(i as nat)
            + ".wgsl"@));
    }
}

/// Law: the shaders of a package are stored under pairwise different names.
pub proof fn lemma_shader_names_distinct(i: nat, j: nat)
    requires
        i != j,
    ensures
        lower_hex(i) + ".wgsl"@ != lower_hex(j) + ".wgsl"@,
        "shaders/"@ + lower_hex(i) + ".wgsl"@ != "shaders/"@ + lower_hex(j) + ".wgsl"@,
{
    let suffix = ".wgsl"@;
    let prefix = "shaders/"@;
    if lower_hex(i) + suffix == lower_hex(j) + suffix {
        let a = lower_hex(i) + suffix;
        assert(lower_hex(i) =~= a.subrange(0, a.len() - suffix.len()));
        assert(lower_hex(j) =~= a.subrange(0, a.len() - suffix.len()));
        crate::text::lemma_lower_hex_injective(i, j);
    }
    if prefix + lower_hex(i) + suffix == prefix + lower_hex(j) + suffix {
        let a = prefix + lower_hex(i) + suffix;
        assert(lower_hex(i) =~= a.subrange(prefix.len() as int, a.len() - suffix.len()));
        assert(lower_hex(j) =~= a.subrange(prefix.len() as int, a.len() - suffix.len()));
        crate::text::lemma_lower_hex_injective(i, j);
    }
}

} // verus!
