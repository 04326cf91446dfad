use std::path::Path;
use technoir::output_path::package_output_path;
use technoir::packager::{
    compile_entry_point, package_files, shader_archive_path, shader_file_name, stage_shaders,
    use_packed_files, LuauOptions,
};
use technoir::pipelines::{
    BlendPreset, BlendState, ColorTarget, MultisampleState, Pipeline, PrimitiveState,
    WriteMask,
};
use technoir::wgsl_minifier::{
    is_word_byte, is_word_continue, is_word_start, minify_wgsl, minify_whitespace, needs_separator,
    needs_space, MinifyError, TokenKind,
};

const SHADER: &str = "@vertex\nfn vs_main(@builtin(vertex_index) index: u32) -> @builtin(position) vec4<f32> {\n    let x = f32(index);\n    return vec4<f32>(x, 0.0, 0.0, 1.0);\n}\n";

fn pipeline(shader: &str) -> Pipeline {
    Pipeline {
        shader: shader.to_string(),
        entry_points: None,
        constants: rapidhash::RapidHashMap::default(),
        vertex_buffers: Vec::new(),
        targets: vec![Some(ColorTarget::default())],
        primitive: PrimitiveState::default(),
        depth_stencil: None,
        multisample: MultisampleState::default(),
    }
}

#[test]
fn minify_whitespace_joins_tokens() {
    let out = minify_whitespace("fn  main ( )  {\n    let x = 1;\n}\n");
    assert_eq!(out, "fn main(){let x=1;}");
}

#[test]
fn minify_whitespace_keeps_single_space_between_words() {
    assert_eq!(minify_whitespace("a \t\r\n b"), "a b");
    assert_eq!(minify_whitespace("a ; b"), "a;b");
    assert_eq!(minify_whitespace("x_1\n\n2y"), "x_1 2y");
}

#[test]
fn minify_whitespace_drops_leading_and_trailing_runs() {
    assert_eq!(minify_whitespace("   \n\tvalue  \n"), "value");
    assert_eq!(minify_whitespace(""), "");
    assert_eq!(minify_whitespace(" \n\t "), "");
}

#[test]
fn minify_whitespace_is_idempotent_on_ascii() {
    let once = minify_whitespace(SHADER);
    let twice = minify_whitespace(&once);
    assert_eq!(once, twice);
    assert!(once.len() <= SHADER.len());
}

#[test]
fn minify_whitespace_keeps_visible_text() {
    let input = "let  a =\n b + c ;";
    let out = minify_whitespace(input);
    let visible_in: String = input.chars().filter(|c| !c.is_ascii_whitespace()).collect();
    let visible_out: String = out.chars().filter(|c| !c.is_ascii_whitespace()).collect();
    assert_eq!(visible_in, visible_out);
    assert_eq!(out, "let a=b+c;");
}

#[test]
fn minify_whitespace_maps_each_byte_to_a_char() {
    // Non-ASCII bytes are kept one character per byte.
    let out = minify_whitespace("é");
    assert_eq!(out.chars().count(), 2);
    assert_eq!(out.chars().next(), Some('\u{c3}'));
}

#[test]
fn byte_classes() {
    assert!(is_word_byte(b'a'));
    assert!(is_word_byte(b'Z'));
    assert!(is_word_byte(b'7'));
    assert!(is_word_byte(b'_'));
    assert!(!is_word_byte(b'('));
    assert!(is_word_start(b'_'));
    assert!(!is_word_start(b'7'));
    assert!(is_word_continue(b'7'));
    assert!(needs_separator(b'a', b'1'));
    assert!(!needs_separator(b'a', b'{'));
    assert!(needs_space(TokenKind::Word, TokenKind::Word));
    assert!(!needs_space(TokenKind::Word, TokenKind::Punctuation));
    assert!(!needs_space(TokenKind::Nothing, TokenKind::Word));
}

#[test]
fn minify_wgsl_accepts_valid_shader() {
    let out = minify_wgsl(SHADER).ok().expect("valid shader");
    assert!(!out.contains('\n'));
    assert!(!out.contains("  "));
    assert!(out.contains("fn vs_main("));
    assert_eq!(minify_whitespace(&out), out);
}

#[test]
fn minify_wgsl_reports_parse_errors() {
    match minify_wgsl("fn broken( {") {
        Err(err @ MinifyError::Parse(_)) => {
            assert!(err.message().starts_with("WGSL parse error: "));
        }
        _ => panic!("expected a parse error"),
    }
}

#[test]
fn minify_wgsl_reports_validation_errors() {
    // Parses, but the function never returns its value.
    let source = "fn f() -> i32 { var x: i32; }";
    match minify_wgsl(source) {
        Err(err @ MinifyError::Validate(_)) => {
            assert!(err.message().starts_with("WGSL validation error: "));
        }
        Err(other) => panic!("unexpected error: {}", other.message()),
        Ok(_) => panic!("expected a validation error"),
    }
}

#[test]
fn shader_names_are_hexadecimal() {
    assert_eq!(shader_file_name(0), "0.wgsl");
    assert_eq!(shader_file_name(10), "a.wgsl");
    assert_eq!(shader_file_name(255), "ff.wgsl");
    assert_eq!(shader_file_name(4096), "1000.wgsl");
    assert_eq!(shader_archive_path(26), "shaders/1a.wgsl");
    assert_eq!(format!("{:x}.wgsl", 123456usize), shader_file_name(123456));
}

#[test]
fn stage_shaders_renames_and_minifies() {
    let pipelines = vec![
        ("background".to_string(), pipeline("bg.wgsl")),
        ("overlay".to_string(), pipeline("overlay.wgsl")),
    ];
    let sources = vec![SHADER.to_string(), SHADER.to_string()];
    let (staged, shaders) = match stage_shaders(pipelines, &sources) {
        Ok(result) => result,
        Err(e) => panic!("staging failed at {}: {}", e.index, e.error.message()),
    };
    assert_eq!(shaders.len(), 2);
    assert_eq!(staged.0.len(), 2);
    assert_eq!(staged.get("background").unwrap().shader, "0.wgsl");
    assert_eq!(staged.get("overlay").unwrap().shader, "1.wgsl");
    assert!(matches!(staged.get("overlay").unwrap().targets[0], Some(ColorTarget { blend: BlendState::Preset(BlendPreset::Opaque), write_mask: WriteMask::All })));
    assert!(!shaders[0].contains('\n'));
}

#[test]
fn stage_shaders_stops_at_first_bad_shader() {
    let pipelines = vec![
        ("a".to_string(), pipeline("a.wgsl")),
        ("b".to_string(), pipeline("b.wgsl")),
        ("c".to_string(), pipeline("c.wgsl")),
    ];
    let sources = vec![SHADER.to_string(), "not wgsl".to_string(), "also bad".to_string()];
    match stage_shaders(pipelines, &sources) {
        Err(e) => {
            assert_eq!(e.index, 1);
            assert!(matches!(e.error, MinifyError::Parse(_)));
        }
        Ok(_) => panic!("expected a failure"),
    }
}

#[test]
fn packed_manifest_points_at_compiled_code() {
    let mut manifest = technoir::manifest::PluginManifest {
        plugin: technoir::manifest::Plugin {
            name: "Rain".to_string(),
            id: "org.example.rain".to_string(),
            version: semver::Version::new(1, 2, 3),
            api_version: semver::Version::new(0, 1, 0),
            plugin_type: technoir::manifest::PluginType::Wallpaper,
            entry_point: "src/main.luau".to_string(),
            description: None,
            author: None,
            license: None,
            pipelines: technoir::manifest::default_pipelines(),
            icon: None,
            tags: Vec::new(),
        },
    };
    manifest.plugin.tags = vec!["weather".to_string()];
    manifest.plugin.author = Some("Ada".to_string());
    use_packed_files(&mut manifest);
    assert_eq!(manifest.plugin.entry_point, "main.luauc");
    assert_eq!(manifest.plugin.pipelines, "pipelines.cbor");
    assert_eq!(manifest.plugin.version, semver::Version::new(1, 2, 3));
    assert_eq!(manifest.plugin.tags, vec!["weather".to_string()]);
    assert_eq!(manifest.plugin.author.as_deref(), Some("Ada"));
    assert_eq!(manifest.plugin.instance_name(), "org_example_rain");
}

#[test]
fn default_package_paths_follow_path_with_extension() {
    let ids = [
        "com.example.rain", "rain", "a.", ".hidden", "dir.d/rain", "dir/.rc", "ünï.cödé", "foo.bar/",
        "", "..", "a/..", ".", "a/.", "a/./", "foo.txt/.//", "a..b", "...", "..a", "/", "/abs.x",
        "//two.y", "a//b.c", "x\\y.z", "C:foo.bar", "..a/", "x/..ab", "..a/.", "a.bcdef/", "é.ü/",
        "..é", "..é/", "...b", "q.r/..", "/..",
    ];
    for id in ids {
        let expected = Path::new("build").join(id).with_extension("zip");
        assert_eq!(package_output_path(id, false), expected.to_str().unwrap(), "id {id:?}");
    }
}

#[test]
fn default_package_paths_on_windows() {
    assert_eq!(package_output_path("com.example.rain", true), "build\\com.example.zip");
    assert_eq!(package_output_path("foo.bar/", true), "build\\foo.zip");
    assert_eq!(package_output_path("", true), "build.zip");
    assert_eq!(package_output_path("..", true), "build\\..");
    assert_eq!(package_output_path("..a", true), "build\\..");
    assert_eq!(package_output_path("..a\\", true), "build\\..zip");
    assert_eq!(package_output_path("a.b\\c", true), "build\\a.b\\c.zip");
    assert_eq!(package_output_path("\\x.y", true), "\\x.zip");
    assert_eq!(package_output_path("C:foo.bar", true), "C:foo.zip");
    assert_eq!(package_output_path("C:", true), "C:");
    assert_eq!(package_output_path("C:.", true), "C:.");
    assert_eq!(package_output_path("\\\\server\\share", true), "\\\\server\\share");
    assert_eq!(package_output_path("\\\\server\\share\\x.y", true), "\\\\server\\share\\x.zip");
    assert_eq!(package_output_path("\\\\server", true), "\\\\server.zip");
}

#[test]
fn package_files_are_laid_out_in_order() {
    let shaders = vec!["fn a(){}".to_string(), "fn b(){}".to_string()];
    let files = package_files(vec![1, 2], vec![3], vec![4], &shaders);
    let names: Vec<&str> = files.iter().map(|(name, _)| name.as_str()).collect();
    assert_eq!(names, ["main.luauc", "pipelines.cbor", "manifest.cbor", "shaders/0.wgsl", "shaders/1.wgsl"]);
    assert_eq!(files[0].1, vec![1, 2]);
    assert_eq!(files[1].1, vec![3]);
    assert_eq!(files[2].1, vec![4]);
    assert_eq!(files[4].1, b"fn b(){}".to_vec());
}

#[test]
fn luau_entry_points_compile() {
    assert_eq!(LuauOptions::release(), LuauOptions { optimization_level: 2, type_info_level: 0, debug_level: 0 });
    assert_eq!(LuauOptions::loader().debug_level, 1);
    let code = compile_entry_point(b"return function() return 1 end", LuauOptions::release());
    assert!(matches!(code, Some(ref bytes) if !bytes.is_empty()));
    assert_ne!(code, Some(b"return function() return 1 end".to_vec()));
    assert_eq!(compile_entry_point(b"return +", LuauOptions::release()), None);
}
