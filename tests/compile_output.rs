use ash_runner::compile::{
    ends_with_spv, load_shader, select_spirv_paths, shader_name_from_path, CompileFailure,
    SpirvArtifacts,
};

fn message(reason: &str, files: Option<Vec<&str>>) -> SpirvArtifacts {
    SpirvArtifacts {
        reason: reason.to_string(),
        filenames: files.map(|v| v.into_iter().map(|s| s.to_string()).collect()),
    }
}

#[test]
fn picks_spirv_files_of_last_artifact() {
    let messages = vec![
        message("compiler-artifact", Some(vec!["deps/libcore.rlib"])),
        message("build-script-executed", None),
        message(
            "compiler-artifact",
            Some(vec!["out/sky_shader.spv", "out/libsky_shader.rlib", "out/other.spv"]),
        ),
        message("build-finished", None),
    ];
    let paths = select_spirv_paths(&messages).unwrap();
    assert_eq!(paths, vec!["out/sky_shader.spv".to_string(), "out/other.spv".to_string()]);
}

#[test]
fn no_artifact_message_is_a_failure() {
    let messages = vec![message("build-finished", None)];
    assert_eq!(select_spirv_paths(&messages).unwrap_err(), CompileFailure::NoArtifactEvent);
    assert_eq!(select_spirv_paths(&vec![]).unwrap_err(), CompileFailure::NoArtifactEvent);
}

#[test]
fn artifact_without_files_is_a_failure() {
    let messages = vec![
        message("compiler-artifact", Some(vec!["a.spv"])),
        message("compiler-artifact", None),
    ];
    assert_eq!(select_spirv_paths(&messages).unwrap_err(), CompileFailure::NoArtifactFilenames);
}

#[test]
fn artifact_without_spirv_is_a_failure() {
    let messages = vec![message("compiler-artifact", Some(vec!["a.rlib", "spv"]))];
    assert_eq!(select_spirv_paths(&messages).unwrap_err(), CompileFailure::NoShaderFiles);
}

#[test]
fn spirv_extension() {
    assert!(ends_with_spv("a.spv"));
    assert!(ends_with_spv(".spv"));
    assert!(!ends_with_spv("a.spv.d"));
    assert!(!ends_with_spv("spv"));
    assert!(!ends_with_spv(""));
}

#[test]
fn shader_name_is_base_name_without_extension() {
    assert_eq!(
        shader_name_from_path("shaders/target/spirv-unknown-unknown/release/sky_shader.spv", false),
        Some("sky_shader".to_string())
    );
    assert_eq!(
        shader_name_from_path("shaders\\target\\release\\sky_shader.spv", true),
        Some("sky_shader".to_string())
    );
    assert_eq!(
        shader_name_from_path("shaders\\release\\sky_shader.spv", false),
        Some("shaders\\release\\sky_shader".to_string())
    );
    assert_eq!(shader_name_from_path("plain.spv", false), Some("plain".to_string()));
    assert_eq!(shader_name_from_path("a.b.spv", false), Some("a.b".to_string()));
    assert_eq!(shader_name_from_path("dir/..spv", false), Some(".".to_string()));
    assert_eq!(shader_name_from_path("dir/.spv", false), Some(".spv".to_string()));
    assert_eq!(shader_name_from_path("dir/shader.rlib", false), None);
}

#[test]
fn shader_name_matches_file_stem() {
    for p in ["out/sky_shader.spv", "a.b.spv", "dir/.spv", "dir/..spv", "x.spv"] {
        let stem = std::path::Path::new(p).file_stem().unwrap().to_str().unwrap().to_string();
        assert_eq!(shader_name_from_path(p, false), Some(stem));
    }
}

const MAGIC_LE: [u8; 4] = [0x03, 0x02, 0x23, 0x07];

#[test]
fn little_endian_module_loads_as_is() {
    let mut bytes = MAGIC_LE.to_vec();
    bytes.extend_from_slice(&[0x01, 0x00, 0x00, 0x00]);
    let shader = load_shader("out/sky_shader.spv", &bytes, false).unwrap();
    assert_eq!(shader.name, "sky_shader");
    assert_eq!(shader.spirv, vec![0x0723_0203, 1]);
}

#[test]
fn big_endian_module_is_swapped() {
    let bytes = vec![0x07, 0x23, 0x02, 0x03, 0x00, 0x00, 0x01, 0x02];
    let shader = load_shader("out/m.spv", &bytes, false).unwrap();
    assert_eq!(shader.spirv, vec![0x0723_0203, 0x0000_0102]);
}

#[test]
fn broken_modules_are_refused() {
    let mut short = MAGIC_LE.to_vec();
    short.push(0);
    assert_eq!(load_shader("a.spv", &short, false).unwrap_err(), CompileFailure::InvalidSpirv);
    assert_eq!(load_shader("a.spv", &vec![], false).unwrap_err(), CompileFailure::InvalidSpirv);
    assert_eq!(load_shader("a.spv", &vec![1, 2, 3, 4], false).unwrap_err(), CompileFailure::InvalidSpirv);
    assert_eq!(
        load_shader("a.rlib", &MAGIC_LE.to_vec(), false).unwrap_err(),
        CompileFailure::UnnamedArtifact
    );
}
