use shader_wallpaper::shadertoy::{
    addr_mode, check_shader_response, filter_mode, last_index_of, shader_dir_name,
    shader_id_from_arg, shader_query, str_equal, str_starts_with, underscore_spaces, ArgValues,
    FilterMode, WrapMode,
};

#[test]
fn shader_id_from_links() {
    assert_eq!(shader_id_from_arg("https://www.shadertoy.com/view/Ms2SD1"), "Ms2SD1");
    assert_eq!(shader_id_from_arg("http://www.shadertoy.com/view/XsX3zB"), "XsX3zB");
    assert_eq!(shader_id_from_arg("www.shadertoy.com/view/4dl3zn"), "4dl3zn");
    assert_eq!(shader_id_from_arg("https://www.shadertoy.com/view/a/view/b"), "b");
    assert_eq!(shader_id_from_arg("Ms2SD1"), "Ms2SD1");
    assert_eq!(shader_id_from_arg("shadertoy.com/view/x"), "shadertoy.com/view/x");
    assert_eq!(shader_id_from_arg(""), "");
}

#[test]
fn dir_name_is_lower_snake() {
    assert_eq!(shader_dir_name("Happy Jumping"), "happy_jumping");
    assert_eq!(shader_dir_name("Seascape"), "seascape");
    assert_eq!(shader_dir_name(" A  B "), "_a__b_");
    assert_eq!(shader_dir_name(""), "");
    assert_eq!(underscore_spaces("Ab c"), "Ab_c");
}

#[test]
fn string_helpers() {
    assert!(str_equal("abc", "abc"));
    assert!(!str_equal("abc", "abd"));
    assert!(!str_equal("abc", "ab"));
    assert!(str_starts_with("view/x", "view/"));
    assert!(!str_starts_with("vie", "view/"));
    assert_eq!(last_index_of("a/view/b/view/c", "view/"), Some(9));
    assert_eq!(last_index_of("abc", "view/"), None);
    assert_eq!(last_index_of("abc", ""), Some(3));
}

#[test]
fn request_and_response() {
    assert_eq!(shader_query("Ms2SD1"), "{\"shaders\": [\"Ms2SD1\"]}");
    assert_eq!(check_shader_response("[]".to_string()), Err("empty response?".to_string()));
    assert_eq!(check_shader_response("[{}]".to_string()), Ok("[{}]".to_string()));
}

#[test]
fn sampler_modes() {
    assert_eq!(addr_mode("repeat"), WrapMode::Repeat);
    assert_eq!(addr_mode("clamp"), WrapMode::ClampToEdge);
    assert_eq!(addr_mode("mirror"), WrapMode::MirrorRepeat);
    assert_eq!(addr_mode("border"), WrapMode::ClampToBorder);
    assert_eq!(addr_mode("Clamp"), WrapMode::Repeat);
    assert_eq!(addr_mode(""), WrapMode::Repeat);
    assert_eq!(filter_mode("mipmap"), FilterMode::Linear);
    assert_eq!(filter_mode("linear"), FilterMode::Nearest);
    assert_eq!(filter_mode("nearest"), FilterMode::Nearest);
}

#[test]
fn channel_inputs() {
    let mut av = ArgValues::new(Some("Ms2SD1".to_string()));
    assert_eq!(av.getid.as_deref(), Some("Ms2SD1"));
    assert_eq!(av.wrap0, WrapMode::ClampToEdge);
    assert_eq!(av.filter2, FilterMode::Nearest);
    av.set_channel_input(0, "a.jpg".to_string(), "repeat", "mipmap");
    av.set_channel_input(2, "c.png".to_string(), "mirror", "linear");
    av.set_channel_input(3, "d.png".to_string(), "border", "mipmap");
    av.set_channel_input(4, "e.png".to_string(), "clamp", "mipmap");
    assert_eq!(av.texture0path.as_deref(), Some("a.jpg"));
    assert_eq!((av.wrap0, av.filter0), (WrapMode::Repeat, FilterMode::Linear));
    assert_eq!(av.texture1path, None);
    assert_eq!((av.wrap1, av.filter1), (WrapMode::ClampToEdge, FilterMode::Nearest));
    assert_eq!(av.texture2path.as_deref(), Some("c.png"));
    assert_eq!((av.wrap2, av.filter2), (WrapMode::MirrorRepeat, FilterMode::Nearest));
    assert_eq!(av.texture3path.as_deref(), Some("d.png"));
    assert_eq!((av.wrap3, av.filter3), (WrapMode::ClampToBorder, FilterMode::Linear));
    assert_eq!(av.shaderpath, None);
}
