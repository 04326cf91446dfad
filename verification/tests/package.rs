use std::io::{Cursor, Write};

use technoir::package::{manifest_bytes, manifest_entry_name, PackageArchive};
use technoir::packager::{package_files, stage_shaders};
use technoir::pipelines::{MultisampleState, Pipeline, Pipelines, PrimitiveState};

fn pipeline(shader: &str) -> Pipeline {
    Pipeline {
        shader: shader.to_string(),
        entry_points: None,
        constants: rapidhash::RapidHashMap::default(),
        vertex_buffers: Vec::new(),
        targets: Vec::new(),
        primitive: PrimitiveState::default(),
        depth_stencil: None,
        multisample: MultisampleState::default(),
    }
}

fn archive(files: &[(&str, &[u8])]) -> Vec<u8> {
    let mut writer = zip::ZipWriter::new(Cursor::new(Vec::new()));
    for (name, bytes) in files {
        writer
            .start_file(*name, zip::write::SimpleFileOptions::default().compression_method(zip::CompressionMethod::Deflated))
            .unwrap();
        writer.write_all(bytes).unwrap();
    }
    writer.finish().unwrap().into_inner()
}

#[test]
fn manifest_entry_is_read_from_the_package() {
    assert_eq!(manifest_entry_name(), "technoir.cbor");
    let bytes = archive(&[("technoir.cbor", b"\xa0"), ("other", b"x")]);
    assert_eq!(manifest_bytes(&bytes), Some(vec![0xa0]));
    let without = archive(&[("other", b"x")]);
    assert_eq!(manifest_bytes(&without), None);
    assert_eq!(manifest_bytes(&[]), None);
    assert_eq!(manifest_bytes(b"not a zip archive"), None);
}

#[test]
fn shaders_are_collected_once_per_file() {
    let bytes = archive(&[("shaders/a.wgsl", b"fn a() {}"), ("shaders/b.wgsl", b"fn b() {}\xff"), ("a.wgsl", b"root")]);
    let mut package = PackageArchive::open(&bytes).expect("a package");
    let pipelines = Pipelines::from_entries(vec![
        ("first".to_string(), pipeline("a.wgsl")),
        ("second".to_string(), pipeline("b.wgsl")),
        ("third".to_string(), pipeline("a.wgsl")),
    ]);
    let shaders = package.shaders(&pipelines).expect("all shaders present");
    assert_eq!(shaders.len(), 3);
    assert_eq!(shaders["first"], "fn a() {}");
    assert_eq!(shaders["second"], "fn b() {}\u{fffd}");
    assert_eq!(shaders["third"], "fn a() {}");
}

#[test]
fn missing_shader_fails_collection() {
    let bytes = archive(&[("shaders/a.wgsl", b"fn a() {}"), ("missing.wgsl", b"at the root")]);
    let mut package = PackageArchive::open(&bytes).expect("a package");
    let pipelines = Pipelines::from_entries(vec![
        ("first".to_string(), pipeline("a.wgsl")),
        ("second".to_string(), pipeline("missing.wgsl")),
    ]);
    assert!(package.shaders(&pipelines).is_none());
    assert_eq!(package.read_file("shaders/a.wgsl"), Some(b"fn a() {}".to_vec()));
    assert_eq!(package.read_file("shaders/missing.wgsl"), None);
    assert!(PackageArchive::open(&[]).is_none());
}

#[test]
fn packed_shaders_are_found_by_the_loader() {
    let pipelines = vec![
        ("sky".to_string(), pipeline("sky.wgsl")),
        ("rain".to_string(), pipeline("rain.wgsl")),
    ];
    let sources = vec![
        "@fragment fn main() -> @location(0) vec4<f32> { return vec4<f32>(1.0); }".to_string(),
        "@vertex fn main() -> @builtin(position) vec4<f32> { return vec4<f32>(0.0); }".to_string(),
    ];
    let (staged, shaders) = stage_shaders(pipelines, &sources).ok().expect("both shaders compile");
    let files = package_files(vec![0], vec![1], vec![2], &shaders);
    let entries: Vec<(&str, &[u8])> = files.iter().map(|(n, c)| (n.as_str(), c.as_slice())).collect();
    let bytes = archive(&entries);
    let mut package = PackageArchive::open(&bytes).expect("a package");
    let found = package.shaders(&staged).expect("every shader is stored");
    assert_eq!(found["sky"], shaders[0]);
    assert_eq!(found["rain"], shaders[1]);
    assert_eq!(package.read_file("pipelines.cbor"), Some(vec![1]));
}
