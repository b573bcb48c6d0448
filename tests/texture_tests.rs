use screen_mirror::command::{GlCommand, TexParam, TexValue};
use screen_mirror::frame::Frame;
use screen_mirror::texture::TextureStreamer;

#[test]
fn texture_create_configures_filtering_and_wrapping() {
    let (t, cmds) = TextureStreamer::create(5);
    assert_eq!(t.handle(), 5);
    assert_eq!(t.dimensions(), (0, 0));
    assert_eq!(
        cmds,
        vec![
            GlCommand::BindTexture(5),
            GlCommand::TexParameter(TexParam::WrapS, TexValue::Repeat),
            GlCommand::TexParameter(TexParam::WrapT, TexValue::Repeat),
            GlCommand::TexParameter(TexParam::MinFilter, TexValue::Linear),
            GlCommand::TexParameter(TexParam::MagFilter, TexValue::Linear),
        ]
    );
}

#[test]
fn texture_upload_takes_frame_dimensions() {
    let (mut t, _) = TextureStreamer::create(9);
    let cmds = t.upload(Frame::filled(4, 3, (0, 0, 0, 0)).unwrap());
    assert_eq!(t.dimensions(), (4, 3));
    assert_eq!(cmds, vec![GlCommand::BindTexture(9), GlCommand::TexImage2D(Frame::filled(4, 3, (0, 0, 0, 0)).unwrap())]);
    t.upload(Frame::filled(1, 2, (0, 0, 0, 0)).unwrap());
    assert_eq!(t.dimensions(), (1, 2));
    assert_eq!(t.handle(), 9);
}

#[test]
fn texture_release_deletes_handle() {
    let (t, _) = TextureStreamer::create(3);
    assert_eq!(t.release(), GlCommand::DeleteTexture(3));
}
