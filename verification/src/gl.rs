//! OpenGL error codes and shader types.

use vstd::prelude::*;

verus! {

/// OpenGL's value of "no error".
pub const GL_NO_ERROR: u32 = 0;
/// OpenGL's value of an invalid enum error.
pub const GL_INVALID_ENUM: u32 = 0x0500;
/// OpenGL's value of an invalid value error.
pub const GL_INVALID_VALUE: u32 = 0x0501;
/// OpenGL's value of an invalid operation error.
pub const GL_INVALID_OPERATION: u32 = 0x0502;
/// OpenGL's value of an out of memory error.
pub const GL_OUT_OF_MEMORY: u32 = 0x0505;
/// OpenGL's value of an invalid framebuffer operation error.
pub const GL_INVALID_FRAMEBUFFER_OPERATION: u32 = 0x0506;
/// OpenGL's value of the fragment shader type.
pub const GL_FRAGMENT_SHADER: u32 = 0x8B30;
/// OpenGL's value of the vertex shader type.
pub const GL_VERTEX_SHADER: u32 = 0x8B31;

/// OpenGL error types
#[derive(Debug, Clone, Copy, PartialEq, Eq, Structural)]
pub enum GLError {
    InvalidEnum,
    InvalidValue,
    InvalidOperation,
    InvalidFramebufferOperation,
    OutOfMemory,
    UnknownError(u32),
}

impl GLError {
    /// The error that OpenGL's error code `error` stands for, or `Ok` for no error.
    pub fn from_error_code(error: u32) -> (res: Result<(), GLError>)
        ensures
            res == if error == GL_NO_ERROR {
                Ok(())
            } else if error == GL_INVALID_ENUM {
                Err(GLError::InvalidEnum)
            } else if error == GL_INVALID_VALUE {
                Err(GLError::InvalidValue)
            } else if error == GL_INVALID_OPERATION {
                Err(GLError::InvalidOperation)
            } else if error == GL_OUT_OF_MEMORY {
                Err(GLError::OutOfMemory)
            } else if error == GL_INVALID_FRAMEBUFFER_OPERATION {
                Err(GLError::InvalidFramebufferOperation)
            } else {
                Err(GLError::UnknownError(error))
            },
    {
        if error == GL_NO_ERROR {
            return Ok(());
        }
        let error = if error == GL_INVALID_ENUM {
            GLError::InvalidEnum
        } else if error == GL_INVALID_VALUE {
            GLError::InvalidValue
        } else if error == GL_INVALID_OPERATION {
            GLError::InvalidOperation
        } else if error == GL_OUT_OF_MEMORY {
            GLError::OutOfMemory
        } else if error == GL_INVALID_FRAMEBUFFER_OPERATION {
            GLError::InvalidFramebufferOperation
        } else {
            GLError::UnknownError(error)
        };
        Err(error)
    }
}

/// Type of shader
#[derive(Debug, Clone, Copy, PartialEq, Eq, Structural)]
pub enum ShaderType {
    Vertex,
    Fragment,
}

impl ShaderType {
    /// Return shader as `GLenum`. This is useful when calling functions
    /// from raw OpenGL bindings.
    pub fn as_gl_enum(self) -> (value: u32)
        ensures
            value == match self {
                ShaderType::Fragment => GL_FRAGMENT_SHADER,
                ShaderType::Vertex => GL_VERTEX_SHADER,
            },
    {
        match self {
            ShaderType::Fragment => GL_FRAGMENT_SHADER,
            ShaderType::Vertex => GL_VERTEX_SHADER,
        }
    }
}

} // verus!
