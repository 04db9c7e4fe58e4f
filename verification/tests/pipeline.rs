use kiln::{Device, DeviceHandle, Error, Library, MissingField, PixelFormat};

fn device() -> Device {
    Device::from_handle(DeviceHandle { id: 3 })
}

fn library(d: &Device) -> Library {
    d.compile_library_from_source("triangle", "vertex_main fragment_main")
        .expect("compile")
}

#[test]
fn compile_keeps_name_and_source() {
    let d = device();
    let lib = library(&d);
    assert_eq!(lib.name().as_str(), "triangle");
    assert_eq!(lib.source().as_str(), "vertex_main fragment_main");
}

#[test]
fn build_without_anything_names_vertex() {
    let d = device();
    let lib = library(&d);
    assert_eq!(
        d.pipeline_builder(&lib).build().err(),
        Some(Error::ConfigError { missing: MissingField::VertexFunction })
    );
}

#[test]
fn build_without_vertex_names_vertex() {
    let d = device();
    let lib = library(&d);
    let r = d
        .pipeline_builder(&lib)
        .fragment("fragment_main")
        .color_format(PixelFormat::Bgra8Unorm)
        .build();
    assert_eq!(
        r.err(),
        Some(Error::ConfigError { missing: MissingField::VertexFunction })
    );
}

#[test]
fn build_without_fragment_names_fragment() {
    let d = device();
    let lib = library(&d);
    let r = d
        .pipeline_builder(&lib)
        .vertex("vertex_main")
        .color_format(PixelFormat::Bgra8Unorm)
        .build();
    assert_eq!(
        r.err(),
        Some(Error::ConfigError { missing: MissingField::FragmentFunction })
    );
}

#[test]
fn build_without_color_format_names_color_format() {
    let d = device();
    let lib = library(&d);
    let r = d
        .pipeline_builder(&lib)
        .vertex("vertex_main")
        .fragment("fragment_main")
        .build();
    assert_eq!(
        r.err(),
        Some(Error::ConfigError { missing: MissingField::ColorFormat })
    );
}

#[test]
fn build_with_only_color_format_names_vertex_first() {
    let d = device();
    let lib = library(&d);
    let r = d
        .pipeline_builder(&lib)
        .color_format(PixelFormat::Rgba8Unorm)
        .build();
    assert_eq!(
        r.err(),
        Some(Error::ConfigError { missing: MissingField::VertexFunction })
    );
}

#[test]
fn build_with_only_vertex_names_fragment_first() {
    let d = device();
    let lib = library(&d);
    let r = d.pipeline_builder(&lib).vertex("v").build();
    assert_eq!(
        r.err(),
        Some(Error::ConfigError { missing: MissingField::FragmentFunction })
    );
}

#[test]
fn build_with_all_three_succeeds() {
    let d = device();
    let lib = library(&d);
    let ps = d
        .pipeline_builder(&lib)
        .vertex("vertex_main")
        .fragment("fragment_main")
        .color_format(PixelFormat::Bgra8UnormSrgb)
        .build()
        .expect("pipeline");
    assert_eq!(ps.vertex_function().as_str(), "vertex_main");
    assert_eq!(ps.fragment_function().as_str(), "fragment_main");
    assert_eq!(ps.color_format(), PixelFormat::Bgra8UnormSrgb);
    assert!(!ps.blending());
    assert_eq!(ps.library().as_str(), "triangle");
}

#[test]
fn build_carries_blending() {
    let d = device();
    let lib = library(&d);
    let ps = d
        .pipeline_builder(&lib)
        .vertex("v")
        .fragment("f")
        .color_format(PixelFormat::Bgra8Unorm)
        .blending(true)
        .build()
        .expect("pipeline");
    assert!(ps.blending());
}

#[test]
fn rebuild_over_same_library_with_new_entry_points() {
    let d = device();
    let lib = library(&d);
    let first = d
        .pipeline_builder(&lib)
        .vertex("v1")
        .fragment("f1")
        .color_format(PixelFormat::Bgra8Unorm)
        .build()
        .expect("first");
    let second = d
        .pipeline_builder(&lib)
        .vertex("v2")
        .fragment("f2")
        .color_format(PixelFormat::Rgba8Unorm)
        .build()
        .expect("second");
    assert_eq!(first.vertex_function().as_str(), "v1");
    assert_eq!(second.vertex_function().as_str(), "v2");
    assert_eq!(second.color_format(), PixelFormat::Rgba8Unorm);
}

#[test]
fn error_messages_match_taxonomy() {
    assert_eq!(
        Error::ConfigError { missing: MissingField::VertexFunction }
            .message()
            .as_str(),
        "vertex function name not set"
    );
    assert_eq!(
        Error::ConfigError { missing: MissingField::FragmentFunction }
            .message()
            .as_str(),
        "fragment function name not set"
    );
    assert_eq!(
        Error::ConfigError { missing: MissingField::ColorFormat }
            .message()
            .as_str(),
        "color format not set"
    );
    assert_eq!(Error::IndexOutOfRange.message().as_str(), "index out of range");
    assert_eq!(Error::SliceTooLarge.message().as_str(), "slice larger than buffer");
    assert_eq!(
        Error::CompilationError.message().as_str(),
        "failed to compile shader library"
    );
}
