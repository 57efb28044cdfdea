use space_boss_battles::gl::{GLError, ShaderType};
use space_boss_battles::window::{RenderingContext, Textures};

#[test]
fn gl_error_codes() {
    assert_eq!(GLError::from_error_code(0), Ok(()));
    assert_eq!(GLError::from_error_code(0x0500), Err(GLError::InvalidEnum));
    assert_eq!(GLError::from_error_code(0x0501), Err(GLError::InvalidValue));
    assert_eq!(GLError::from_error_code(0x0502), Err(GLError::InvalidOperation));
    assert_eq!(GLError::from_error_code(0x0505), Err(GLError::OutOfMemory));
    assert_eq!(GLError::from_error_code(0x0506), Err(GLError::InvalidFramebufferOperation));
    assert_eq!(GLError::from_error_code(0x0503), Err(GLError::UnknownError(0x0503)));
}

#[test]
fn shader_type_gl_values() {
    assert_eq!(ShaderType::Vertex.as_gl_enum(), 0x8B31);
    assert_eq!(ShaderType::Fragment.as_gl_enum(), 0x8B30);
}

#[test]
fn rendering_contexts_and_textures_differ() {
    assert_ne!(RenderingContext::OpenGL, RenderingContext::OpenGLES);
    assert_ne!(Textures::Player, Textures::Enemy);
}
