use shader_wallpaper::shader::{
    contains_bytes, format_shader_src, load_fragment_shader, load_vertex_shader,
    unsupported_uniforms, DEFAULT_FRAG_SRC, DEFAULT_VERT_SRC, PREFIX, SUFFIX,
};

#[test]
fn shader_src_is_wrapped() {
    let src = "void mainImage(out vec4 c, in vec2 p) { c = vec4(1); }";
    let full = format_shader_src(src);
    assert_eq!(full, format!("{}\n{}\n{}", PREFIX, src, SUFFIX));
    assert!(full.starts_with("\n#version 440 core\n"));
    assert!(full.contains("layout(binding=3) uniform vec4       iMouse;"));
    assert!(full.ends_with("    mainImage(fragColor, fragCoord);\n}\n"));
    assert_eq!(format_shader_src(""), format!("{}\n\n{}", PREFIX, SUFFIX));
}

#[test]
fn vertex_shader_is_fixed() {
    assert_eq!(load_vertex_shader(), DEFAULT_VERT_SRC);
    assert!(load_vertex_shader().contains("layout(location=0) out vec2 fragCoord;"));
}

#[test]
fn default_fragment_shader_loads() {
    let full = load_fragment_shader(DEFAULT_FRAG_SRC).unwrap();
    assert_eq!(full, format_shader_src(DEFAULT_FRAG_SRC));
}

#[test]
fn unsupported_uniforms_rejected() {
    let src = "uniform float x; float t = iDate.x + iTimeDelta;";
    assert_eq!(unsupported_uniforms(src), vec!["iTimeDelta", "iDate"]);
    assert_eq!(
        load_fragment_shader(src),
        Err("unsupported uniforms: [\"iTimeDelta\", \"iDate\"]".to_string())
    );
    assert_eq!(
        load_fragment_shader("float r = iSampleRate;"),
        Err("unsupported uniforms: [\"iSampleRate\"]".to_string())
    );
    let all = "iSampleRate iDate iChannelResolution iChannelTime iTimeDelta";
    assert_eq!(
        unsupported_uniforms(all),
        vec!["iTimeDelta", "iChannelTime", "iChannelResolution", "iDate", "iSampleRate"]
    );
    assert!(unsupported_uniforms("iTime iChannel0 iResolution").is_empty());
}

#[test]
fn byte_search() {
    assert!(contains_bytes(b"hello world", b"lo w"));
    assert!(contains_bytes(b"hello", b"hello"));
    assert!(contains_bytes(b"hello", b""));
    assert!(contains_bytes(b"", b""));
    assert!(!contains_bytes(b"hello", b"hello!"));
    assert!(!contains_bytes(b"hello", b"ol"));
    assert!(contains_bytes(b"aaab", b"aab"));
}
