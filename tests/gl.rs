use thorium::gl::{
    active_variable, debug_message_line, text_from_fill, GlDataTy, ShaderType, TextureTarget, GL_DEBUG_SEVERITY_HIGH_KHR,
    GL_DEBUG_SOURCE_API_KHR, GL_DEBUG_TYPE_ERROR_KHR, GL_FLOAT_VEC3, GL_FRAGMENT_SHADER, GL_SAMPLER_2D,
    GL_TEXTURE_CUBE_MAP, GL_VERTEX_SHADER,
};

#[test]
fn gl_data_types_round_trip_through_their_codes() {
    assert_eq!(GlDataTy::new(0x1406), GlDataTy::F32);
    assert_eq!(GlDataTy::new(GL_FLOAT_VEC3), GlDataTy::Vec3);
    assert_eq!(GlDataTy::new(GL_SAMPLER_2D), GlDataTy::Sampler2d);
    assert_eq!(GlDataTy::new(0x8DD7), GlDataTy::USampler2dArray);
    assert_eq!(GlDataTy::Mat4x3.code(), 0x8B6A);
    assert_eq!(GlDataTy::new(GlDataTy::Mat4x3.code()), GlDataTy::Mat4x3);
}

#[test]
fn unknown_gl_codes_map_to_unknown() {
    assert_eq!(GlDataTy::new(0), GlDataTy::Unknown);
    assert_eq!(GlDataTy::new(0x1234), GlDataTy::Unknown);
    assert_eq!(GlDataTy::Unknown.code(), 0);
}

#[test]
fn shader_and_texture_kinds_have_gl_codes() {
    assert_eq!(ShaderType::Vertex.code(), 0x8B31);
    assert_eq!(ShaderType::from_query(GL_FRAGMENT_SHADER as i32), Some(ShaderType::Fragment));
    assert_eq!(ShaderType::from_query(GL_VERTEX_SHADER as i32), Some(ShaderType::Vertex));
    assert_eq!(ShaderType::from_query(0), None);
    assert_eq!(TextureTarget::Texture2d.code(), 0x0DE1);
    assert_eq!(TextureTarget::TextureCubeMap.code(), GL_TEXTURE_CUBE_MAP);
}

#[test]
fn info_log_text_is_trimmed_and_lenient() {
    let mut buf = b"link failed".to_vec();
    buf.extend_from_slice(&[0; 5]);
    assert_eq!(text_from_fill(buf, 11), Some("link failed".to_string()));
    assert_eq!(text_from_fill(vec![b'a', 0xFF, b'b'], 3), Some("a\u{FFFD}b".to_string()));
    assert_eq!(text_from_fill(vec![b'a'], 2), None);
}

#[test]
fn active_variables_need_a_fitting_name_and_size() {
    let mut name = b"position".to_vec();
    name.extend_from_slice(&[0; 8]);
    let v = active_variable(name.clone(), 8, 1, GL_FLOAT_VEC3).expect("attribute");
    assert_eq!(v, ("position".to_string(), 1, GlDataTy::Vec3));
    assert!(active_variable(name.clone(), 8, -1, GL_FLOAT_VEC3).is_none());
    assert!(active_variable(name, 40, 1, GL_FLOAT_VEC3).is_none());
}

#[test]
fn debug_messages_are_labelled() {
    let line = debug_message_line(GL_DEBUG_SOURCE_API_KHR, GL_DEBUG_TYPE_ERROR_KHR, GL_DEBUG_SEVERITY_HIGH_KHR, b"bad enum");
    assert_eq!(line, "GL[Api][Error][SeverityHigh]> bad enum");
    let line = debug_message_line(1, 2, 3, &[0xC3, 0x28]);
    assert_eq!(line, "GL[UnknownSrc][UnknownType][SeverityUnknown]> message was not UTF8");
}
