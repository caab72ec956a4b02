//! Sounds, logging, shader decisions, and resource routing.

use nengine::logging::{
    file_name_of, format_line, gl_error_to_message, LogEntry, Logger, LogLevel,
};
use nengine::model::{model_format, ModelFormat};
use nengine::shader::{
    compile_status_succeeded, plan_uniform_upload, Shader, ShaderSources, UniformUpload,
};
use nengine::sound::{Sound, SoundManager};
use nengine::texture::{upload_format, PixelLayout, Texture, GL_RGB, GL_RGB8, GL_RGBA, GL_RGBA8};

#[test]
fn adding_a_sound_starts_playback_only_when_asked_and_unmuted() {
    let mut m = SoundManager::default();
    let quiet = Sound::new(1, String::from("a.wav"), (0.5f32).to_bits(), false);
    assert!(!m.add(quiet));
    let loud = Sound::new(2, String::from("b.wav"), (1.0f32).to_bits(), true);
    assert!(m.add(loud));
    let mut muted = Sound::new(3, String::from("c.wav"), (1.0f32).to_bits(), true);
    muted.mute();
    assert!(!m.add(muted));
    assert_eq!(m.sounds.len(), 3);
}

#[test]
fn removing_a_sound_keeps_the_others_in_order() {
    let mut m = SoundManager::default();
    m.add(Sound::new(1, String::from("a.wav"), 0, false));
    m.add(Sound::new(2, String::from("b.wav"), 0, false));
    m.add(Sound::new(1, String::from("c.wav"), 0, false));
    m.remove(1);
    let left: Vec<&str> = m.sounds.iter().map(|s| s.source.as_str()).collect();
    assert_eq!(left, vec!["b.wav"]);
}

#[test]
fn mute_gates_playback_until_unmute() {
    let mut s = Sound::new(9, String::from("s.ogg"), 0, true);
    assert!(s.play());
    s.mute();
    assert!(!s.play());
    s.unmute();
    assert!(s.play());
}

#[test]
fn duplicate_log_entries_are_dropped() {
    let mut l = Logger::new("debug/test.log");
    assert!(l.log(LogLevel::Error, String::from("boom"), String::from("a.rs"), 3, 100));
    assert!(!l.log(LogLevel::Error, String::from("boom"), String::from("b.rs"), 9, 200));
    assert!(l.log(LogLevel::Info, String::from("boom"), String::from("a.rs"), 3, 300));
    assert_eq!(l.len(), 2);
}

#[test]
fn log_entries_are_ordered_by_level_then_time() {
    let mut l = Logger::new("debug/test.log");
    l.log(LogLevel::Error, String::from("e"), String::from("f.rs"), 1, 50);
    l.log(LogLevel::Info, String::from("i"), String::from("f.rs"), 2, 80);
    l.log(LogLevel::Warning, String::from("w"), String::from("f.rs"), 3, 10);
    l.log(LogLevel::Info, String::from("i2"), String::from("f.rs"), 4, 20);
    let order: Vec<String> = (0..l.len()).map(|i| l.entry_at(i).message.clone()).collect();
    assert_eq!(order, vec!["i2", "i", "w", "e"]);
}

#[test]
fn equal_level_and_time_keep_insertion_order() {
    let mut l = Logger::new("debug/test.log");
    l.log(LogLevel::Info, String::from("first"), String::from("f.rs"), 1, 5);
    l.log(LogLevel::Info, String::from("second"), String::from("f.rs"), 2, 5);
    l.log(LogLevel::Info, String::from("third"), String::from("f.rs"), 3, 5);
    let order: Vec<String> = (0..l.len()).map(|i| l.entry_at(i).message.clone()).collect();
    assert_eq!(order, vec!["first", "second", "third"]);
}

#[test]
fn a_file_line_names_level_time_place_and_message() {
    let e = LogEntry::new(
        LogLevel::Warning,
        String::from("watch out"),
        String::from("src/core/utils.rs"),
        42,
        1700000000,
    );
    assert_eq!(format_line(&e), "[WARNING] 1700000000 - utils.rs:42: watch out");
}

#[test]
fn file_names_drop_their_directories() {
    assert_eq!(file_name_of("src/a/b.rs"), "b.rs");
    assert_eq!(file_name_of("b.rs"), "b.rs");
    assert_eq!(file_name_of(""), "");
}

#[test]
fn gl_errors_decode_to_their_messages() {
    assert_eq!(gl_error_to_message(0), "No error");
    assert_eq!(
        gl_error_to_message(0x0500),
        "Invalid enum: An unacceptable value is specified for an enumerated argument."
    );
    assert_eq!(
        gl_error_to_message(0x0505),
        "Out of memory: There is not enough memory left to execute the command."
    );
    assert_eq!(gl_error_to_message(7), "Unknown error code");
}

#[test]
fn uniform_uploads_skip_absent_names() {
    assert_eq!(plan_uniform_upload(-1), UniformUpload::Skip);
    assert_eq!(plan_uniform_upload(0), UniformUpload::Upload(0));
    assert_eq!(plan_uniform_upload(3), UniformUpload::Upload(3));
}

#[test]
fn compile_status_reads_the_gl_flag() {
    assert!(compile_status_succeeded(1));
    assert!(!compile_status_succeeded(0));
}

#[test]
fn a_new_shader_is_unlinked_until_the_host_records_a_program() {
    let mut s = Shader::new(ShaderSources {
        vertex: String::from("void main() {}"),
        fragment: String::from("void main() {}"),
    });
    assert_eq!(s.program_id, 0);
    s.record_program(7);
    assert_eq!(s.program_id, 7);
    assert_eq!(s.content.vertex, "void main() {}");
}

#[test]
fn model_paths_route_by_their_extension() {
    assert_eq!(model_format("examples/models/cube.obj"), ModelFormat::Obj);
    assert_eq!(model_format("scene.gltf"), ModelFormat::Gltf);
    assert_eq!(model_format("scene.glb"), ModelFormat::Gltf);
    assert_eq!(model_format("image.png"), ModelFormat::Unsupported);
    assert_eq!(model_format("model.xobj"), ModelFormat::Unsupported);
    assert_eq!(model_format("a.gltf.bak"), ModelFormat::Unsupported);
}

#[test]
fn texture_formats_follow_the_pixel_layout() {
    let rgba = upload_format(PixelLayout::Rgba8);
    assert_eq!(
        (rgba.internal_format, rgba.format, rgba.has_alpha),
        (GL_RGBA8, GL_RGBA, true)
    );
    let rgb = upload_format(PixelLayout::Rgb8);
    assert_eq!((rgb.internal_format, rgb.format, rgb.has_alpha), (GL_RGB8, GL_RGB, false));
    let other = upload_format(PixelLayout::Other);
    assert_eq!((other.internal_format, other.format, other.has_alpha), (GL_RGB8, GL_RGB, false));
}

#[test]
fn a_new_texture_tracks_its_upload() {
    let mut t = Texture::new("examples/models/textures/CarrotTexture.png", true);
    assert_eq!(t.id, 0);
    assert!(t.flipv);
    assert!(!t.has_alpha);
    t.record_upload(5, 6, true);
    assert_eq!((t.id, t.linear_sampler, t.has_alpha), (5, 6, true));
    assert_eq!(t.src, "examples/models/textures/CarrotTexture.png");
}
