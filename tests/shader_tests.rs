use trash_render::shader::{find_section, stage_name_bytes, OglShader, ShaderError, ShaderStage};

#[test]
fn both_sections_build_a_program() {
    let src = "#shader vertex\nvoid main() { gl_Position = vec4(0); }\n#shader fragment\nvoid main() {}\n";
    let sh = OglShader::new_from_file(5, src.as_bytes()).unwrap();
    assert_eq!(sh.get_id(), 5);
    assert_eq!(sh.vertex_source().as_slice(), "\nvoid main() { gl_Position = vec4(0); }\n".as_bytes());
    assert_eq!(sh.fragment_source().as_slice(), "\nvoid main() {}\n".as_bytes());
}

#[test]
fn invalid_stage_source_still_builds() {
    let src = "#shader vertex\nthis is not glsl\n#shader fragment\nneither is this";
    let sh = OglShader::new_from_file(1, src.as_bytes()).unwrap();
    assert_eq!(sh.vertex_source().as_slice(), "\nthis is not glsl\n".as_bytes());
    assert_eq!(sh.fragment_source().as_slice(), "\nneither is this".as_bytes());
}

#[test]
fn missing_fragment_section_fails() {
    let src = "#shader vertex\nvoid main() {}\n";
    let r = OglShader::new_from_file(1, src.as_bytes());
    assert!(matches!(r, Err(ShaderError::MissingSection(ShaderStage::Fragment))));
}

#[test]
fn missing_vertex_section_fails() {
    let src = "#shader fragment\nvoid main() {}\n";
    let r = OglShader::new_from_file(1, src.as_bytes());
    assert!(matches!(r, Err(ShaderError::MissingSection(ShaderStage::Vertex))));
}

#[test]
fn empty_file_names_vertex_first() {
    let r = OglShader::new_from_file(1, b"");
    assert!(matches!(r, Err(ShaderError::MissingSection(ShaderStage::Vertex))));
}

#[test]
fn section_name_without_newline_is_no_section() {
    let src = "#shader fragment\nvoid main() {}\n#shader vertex";
    let r = OglShader::new_from_file(1, src.as_bytes());
    assert!(matches!(r, Err(ShaderError::MissingSection(ShaderStage::Vertex))));
}

#[test]
fn later_section_of_same_name_wins() {
    let src = "#shader vertex\nA\n#shader fragment\nF\n#shader vertex\nB\n";
    assert_eq!(find_section(src.as_bytes(), ShaderStage::Vertex), Some(b"\nB\n".to_vec()));
    assert_eq!(find_section(src.as_bytes(), ShaderStage::Fragment), Some(b"\nF\n".to_vec()));
}

#[test]
fn unmarked_fragment_line_is_no_section() {
    let src = "fragment\nvoid main() {}\n#shader vertex\nvoid main() {}\n";
    let r = OglShader::new_from_file(1, src.as_bytes());
    assert!(matches!(r, Err(ShaderError::MissingSection(ShaderStage::Fragment))));
}

#[test]
fn unmarked_vertex_line_is_no_section() {
    let src = "vertex\nvoid main() {}\n#shader fragment\nvoid main() {}\n";
    let r = OglShader::new_from_file(1, src.as_bytes());
    assert!(matches!(r, Err(ShaderError::MissingSection(ShaderStage::Vertex))));
}

#[test]
fn file_without_markers_has_no_sections() {
    let src = "vertex\nA\nfragment\nB\n";
    assert_eq!(find_section(src.as_bytes(), ShaderStage::Vertex), None);
    assert_eq!(find_section(src.as_bytes(), ShaderStage::Fragment), None);
}

#[test]
fn comment_before_first_marker_is_ignored() {
    let src = "// header\n#shader fragment\nF";
    assert_eq!(find_section(src.as_bytes(), ShaderStage::Fragment), Some(b"\nF".to_vec()));
    assert_eq!(find_section(src.as_bytes(), ShaderStage::Vertex), None);
}

#[test]
fn stage_names() {
    assert_eq!(stage_name_bytes(ShaderStage::Vertex), b"vertex".to_vec());
    assert_eq!(stage_name_bytes(ShaderStage::Fragment), b"fragment".to_vec());
}
