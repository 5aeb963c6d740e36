use engine::shader::{step_outcome, ShaderBuilder};

#[test]
fn builder_keeps_sources() {
    let b = ShaderBuilder::new("void main() {}", "precision mediump float;");
    assert_eq!(b.vert_src(), "void main() {}");
    assert_eq!(b.frag_src(), "precision mediump float;");
}

#[test]
fn failed_step_returns_log() {
    assert_eq!(step_outcome(3u32, false, String::from("ERROR: 0:1")), Err(String::from("ERROR: 0:1")));
}

#[test]
fn successful_step_returns_object_even_with_log() {
    assert_eq!(step_outcome(3u32, true, String::from("warning")), Ok(3u32));
    assert_eq!(step_outcome(4u32, true, String::new()), Ok(4u32));
}
