//! OpenGL objects and values: data types, shader and texture kinds, owned
//! object names, and the text the driver hands back.

use vstd::prelude::*;
use vstd::string::StringExecFns;

use crate::buffer::trim_filled;
use crate::handle::{acquire_outcome, HandleModel, OwnedHandle};
use crate::text::{utf8_lossy, utf8_text, utf8_text_lossy};
use vstd::utf8::{decode_utf8, valid_utf8};

verus! {

pub const GL_FLOAT: u32 = 0x1406;

pub const GL_FLOAT_VEC2: u32 = 0x8B50;

pub const GL_FLOAT_VEC3: u32 = 0x8B51;

pub const GL_FLOAT_VEC4: u32 = 0x8B52;

pub const GL_INT: u32 = 0x1404;

pub const GL_INT_VEC2: u32 = 0x8B53;

pub const GL_INT_VEC3: u32 = 0x8B54;

pub const GL_INT_VEC4: u32 = 0x8B55;

pub const GL_UNSIGNED_INT: u32 = 0x1405;

pub const GL_UNSIGNED_INT_VEC2: u32 = 0x8DC6;

pub const GL_UNSIGNED_INT_VEC3: u32 = 0x8DC7;

pub const GL_UNSIGNED_INT_VEC4: u32 = 0x8DC8;

pub const GL_BOOL: u32 = 0x8B56;

pub const GL_BOOL_VEC2: u32 = 0x8B57;

pub const GL_BOOL_VEC3: u32 = 0x8B58;

pub const GL_BOOL_VEC4: u32 = 0x8B59;

pub const GL_FLOAT_MAT2: u32 = 0x8B5A;

pub const GL_FLOAT_MAT3: u32 = 0x8B5B;

pub const GL_FLOAT_MAT4: u32 = 0x8B5C;

pub const GL_FLOAT_MAT2X3: u32 = 0x8B65;

pub const GL_FLOAT_MAT2X4: u32 = 0x8B66;

pub const GL_FLOAT_MAT3X2: u32 = 0x8B67;

pub const GL_FLOAT_MAT3X4: u32 = 0x8B68;

pub const GL_FLOAT_MAT4X2: u32 = 0x8B69;

pub const GL_FLOAT_MAT4X3: u32 = 0x8B6A;

pub const GL_SAMPLER_2D: u32 = 0x8B5E;

pub const GL_SAMPLER_3D: u32 = 0x8B5F;

pub const GL_SAMPLER_CUBE: u32 = 0x8B60;

pub const GL_SAMPLER_2D_SHADOW: u32 = 0x8B62;

pub const GL_SAMPLER_2D_ARRAY: u32 = 0x8DC1;

pub const GL_SAMPLER_2D_ARRAY_SHADOW: u32 = 0x8DC4;

pub const GL_SAMPLER_CUBE_SHADOW: u32 = 0x8DC5;

pub const GL_INT_SAMPLER_2D: u32 = 0x8DCA;

pub const GL_INT_SAMPLER_3D: u32 = 0x8DCB;

pub const GL_INT_SAMPLER_CUBE: u32 = 0x8DCC;

pub const GL_INT_SAMPLER_2D_ARRAY: u32 = 0x8DCF;

pub const GL_UNSIGNED_INT_SAMPLER_2D: u32 = 0x8DD2;

pub const GL_UNSIGNED_INT_SAMPLER_3D: u32 = 0x8DD3;

pub const GL_UNSIGNED_INT_SAMPLER_CUBE: u32 = 0x8DD4;

pub const GL_UNSIGNED_INT_SAMPLER_2D_ARRAY: u32 = 0x8DD7;

pub const GL_VERTEX_SHADER: u32 = 0x8B31;

pub const GL_FRAGMENT_SHADER: u32 = 0x8B30;

pub const GL_TEXTURE_2D: u32 = 0x0DE1;

pub const GL_TEXTURE_3D: u32 = 0x806F;

pub const GL_TEXTURE_2D_ARRAY: u32 = 0x8C1A;

pub const GL_TEXTURE_CUBE_MAP: u32 = 0x8513;

pub const GL_DEBUG_SOURCE_API_KHR: u32 = 0x8246;

pub const GL_DEBUG_SOURCE_WINDOW_SYSTEM_KHR: u32 = 0x8247;

pub const GL_DEBUG_SOURCE_SHADER_COMPILER_KHR: u32 = 0x8248;

pub const GL_DEBUG_SOURCE_THIRD_PARTY_KHR: u32 = 0x8249;

pub const GL_DEBUG_SOURCE_APPLICATION_KHR: u32 = 0x824A;

pub const GL_DEBUG_SOURCE_OTHER_KHR: u32 = 0x824B;

pub const GL_DEBUG_TYPE_ERROR_KHR: u32 = 0x824C;

pub const GL_DEBUG_TYPE_DEPRECATED_BEHAVIOR_KHR: u32 = 0x824D;

pub const GL_DEBUG_TYPE_UNDEFINED_BEHAVIOR_KHR: u32 = 0x824E;

pub const GL_DEBUG_TYPE_PORTABILITY_KHR: u32 = 0x824F;

pub const GL_DEBUG_TYPE_PERFORMANCE_KHR: u32 = 0x8250;

pub const GL_DEBUG_TYPE_OTHER_KHR: u32 = 0x8251;

pub const GL_DEBUG_TYPE_MARKER_KHR: u32 = 0x8268;

pub const GL_DEBUG_SEVERITY_HIGH_KHR: u32 = 0x9146;

pub const GL_DEBUG_SEVERITY_MEDIUM_KHR: u32 = 0x9147;

pub const GL_DEBUG_SEVERITY_LOW_KHR: u32 = 0x9148;

pub const GL_DEBUG_SEVERITY_NOTIFICATION_KHR: u32 = 0x826B;

/// The type of a shader attribute or uniform.
#[derive(Debug, Clone, Copy, PartialEq, Eq, Structural)]
pub enum GlDataTy {
    F32,
    Vec2,
    Vec3,
    Vec4,
    I32,
    IVec2,
    IVec3,
    IVec4,
    U32,
    UVec2,
    UVec3,
    UVec4,
    Bool,
    BVec2,
    BVec3,
    BVec4,
    Mat2,
    Mat3,
    Mat4,
    Mat2x3,
    Mat2x4,
    Mat3x2,
    Mat3x4,
    Mat4x2,
    Mat4x3,
    Sampler2d,
    Sampler3d,
    SamplerCube,
    Sampler2dShadow,
    Sampler2dArray,
    Sampler2dArrayShadow,
    SamplerCubeShadow,
    ISampler2d,
    ISampler3d,
    ISamplerCube,
    ISampler2dArray,
    USampler2d,
    USampler3d,
    USamplerCube,
    USampler2dArray,
    Unknown,
}

/// The GL enumerant of a data type; zero for `Unknown`.
pub open spec fn gl_data_ty_code(t: GlDataTy) -> u32 {
    match t {
            GlDataTy::F32 => GL_FLOAT,
            GlDataTy::Vec2 => GL_FLOAT_VEC2,
            GlDataTy::Vec3 => GL_FLOAT_VEC3,
            GlDataTy::Vec4 => GL_FLOAT_VEC4,
            GlDataTy::I32 => GL_INT,
            GlDataTy::IVec2 => GL_INT_VEC2,
            GlDataTy::IVec3 => GL_INT_VEC3,
            GlDataTy::IVec4 => GL_INT_VEC4,
            GlDataTy::U32 => GL_UNSIGNED_INT,
            GlDataTy::UVec2 => GL_UNSIGNED_INT_VEC2,
            GlDataTy::UVec3 => GL_UNSIGNED_INT_VEC3,
            GlDataTy::UVec4 => GL_UNSIGNED_INT_VEC4,
            GlDataTy::Bool => GL_BOOL,
            GlDataTy::BVec2 => GL_BOOL_VEC2,
            GlDataTy::BVec3 => GL_BOOL_VEC3,
            GlDataTy::BVec4 => GL_BOOL_VEC4,
            GlDataTy::Mat2 => GL_FLOAT_MAT2,
            GlDataTy::Mat3 => GL_FLOAT_MAT3,
            GlDataTy::Mat4 => GL_FLOAT_MAT4,
            GlDataTy::Mat2x3 => GL_FLOAT_MAT2X3,
            GlDataTy::Mat2x4 => GL_FLOAT_MAT2X4,
            GlDataTy::Mat3x2 => GL_FLOAT_MAT3X2,
            GlDataTy::Mat3x4 => GL_FLOAT_MAT3X4,
            GlDataTy::Mat4x2 => GL_FLOAT_MAT4X2,
            GlDataTy::Mat4x3 => GL_FLOAT_MAT4X3,
            GlDataTy::Sampler2d => GL_SAMPLER_2D,
            GlDataTy::Sampler3d => GL_SAMPLER_3D,
            GlDataTy::SamplerCube => GL_SAMPLER_CUBE,
            GlDataTy::Sampler2dShadow => GL_SAMPLER_2D_SHADOW,
            GlDataTy::Sampler2dArray => GL_SAMPLER_2D_ARRAY,
            GlDataTy::Sampler2dArrayShadow => GL_SAMPLER_2D_ARRAY_SHADOW,
            GlDataTy::SamplerCubeShadow => GL_SAMPLER_CUBE_SHADOW,
            GlDataTy::ISampler2d => GL_INT_SAMPLER_2D,
            GlDataTy::ISampler3d => GL_INT_SAMPLER_3D,
            GlDataTy::ISamplerCube => GL_INT_SAMPLER_CUBE,
            GlDataTy::ISampler2dArray => GL_INT_SAMPLER_2D_ARRAY,
            GlDataTy::USampler2d => GL_UNSIGNED_INT_SAMPLER_2D,
            GlDataTy::USampler3d => GL_UNSIGNED_INT_SAMPLER_3D,
            GlDataTy::USamplerCube => GL_UNSIGNED_INT_SAMPLER_CUBE,
            GlDataTy::USampler2dArray => GL_UNSIGNED_INT_SAMPLER_2D_ARRAY,
            GlDataTy::Unknown => 0,
    }
}

/// Whether `u` is the enumerant of a data type this library names.
pub open spec fn is_known_gl_data_ty(u: u32) -> bool {
    u == GL_FLOAT || u == GL_FLOAT_VEC2 || u == GL_FLOAT_VEC3 || u == GL_FLOAT_VEC4 || u == GL_INT || u == GL_INT_VEC2 || u == GL_INT_VEC3 || u == GL_INT_VEC4 || u == GL_UNSIGNED_INT || u == GL_UNSIGNED_INT_VEC2 || u == GL_UNSIGNED_INT_VEC3 || u == GL_UNSIGNED_INT_VEC4 || u == GL_BOOL || u == GL_BOOL_VEC2 || u == GL_BOOL_VEC3 || u == GL_BOOL_VEC4 || u == GL_FLOAT_MAT2 || u == GL_FLOAT_MAT3 || u == GL_FLOAT_MAT4 || u == GL_FLOAT_MAT2X3 || u == GL_FLOAT_MAT2X4 || u == GL_FLOAT_MAT3X2 || u == GL_FLOAT_MAT3X4 || u == GL_FLOAT_MAT4X2 || u == GL_FLOAT_MAT4X3 || u == GL_SAMPLER_2D || u == GL_SAMPLER_3D || u == GL_SAMPLER_CUBE || u == GL_SAMPLER_2D_SHADOW || u == GL_SAMPLER_2D_ARRAY || u == GL_SAMPLER_2D_ARRAY_SHADOW || u == GL_SAMPLER_CUBE_SHADOW || u == GL_INT_SAMPLER_2D || u == GL_INT_SAMPLER_3D || u == GL_INT_SAMPLER_CUBE || u == GL_INT_SAMPLER_2D_ARRAY || u == GL_UNSIGNED_INT_SAMPLER_2D || u == GL_UNSIGNED_INT_SAMPLER_3D || u == GL_UNSIGNED_INT_SAMPLER_CUBE || u == GL_UNSIGNED_INT_SAMPLER_2D_ARRAY
}

impl GlDataTy {
    /// The data type a GL enumerant stands for, `Unknown` for any other
    /// value.
    pub fn new(u: u32) -> (r: Self)
        ensures
            is_known_gl_data_ty(u) ==> gl_data_ty_code(r) == u && r != GlDataTy::Unknown,
            !is_known_gl_data_ty(u) ==> r == GlDataTy::Unknown,
    {
        if u == GL_FLOAT {
            GlDataTy::F32
        } else if u == GL_FLOAT_VEC2 {
            GlDataTy::Vec2
        } else if u == GL_FLOAT_VEC3 {
            GlDataTy::Vec3
        } else if u == GL_FLOAT_VEC4 {
            GlDataTy::Vec4
        } else if u == GL_INT {
            GlDataTy::I32
        } else if u == GL_INT_VEC2 {
            GlDataTy::IVec2
        } else if u == GL_INT_VEC3 {
            GlDataTy::IVec3
        } else if u == GL_INT_VEC4 {
            GlDataTy::IVec4
        } else if u == GL_UNSIGNED_INT {
            GlDataTy::U32
        } else if u == GL_UNSIGNED_INT_VEC2 {
            GlDataTy::UVec2
        } else if u == GL_UNSIGNED_INT_VEC3 {
            GlDataTy::UVec3
        } else if u == GL_UNSIGNED_INT_VEC4 {
            GlDataTy::UVec4
        } else if u == GL_BOOL {
            GlDataTy::Bool
        } else if u == GL_BOOL_VEC2 {
            GlDataTy::BVec2
        } else if u == GL_BOOL_VEC3 {
            GlDataTy::BVec3
        } else if u == GL_BOOL_VEC4 {
            GlDataTy::BVec4
        } else if u == GL_FLOAT_MAT2 {
            GlDataTy::Mat2
        } else if u == GL_FLOAT_MAT3 {
            GlDataTy::Mat3
        } else if u == GL_FLOAT_MAT4 {
            GlDataTy::Mat4
        } else if u == GL_FLOAT_MAT2X3 {
            GlDataTy::Mat2x3
        } else if u == GL_FLOAT_MAT2X4 {
            GlDataTy::Mat2x4
        } else if u == GL_FLOAT_MAT3X2 {
            GlDataTy::Mat3x2
        } else if u == GL_FLOAT_MAT3X4 {
            GlDataTy::Mat3x4
        } else if u == GL_FLOAT_MAT4X2 {
            GlDataTy::Mat4x2
        } else if u == GL_FLOAT_MAT4X3 {
            GlDataTy::Mat4x3
        } else if u == GL_SAMPLER_2D {
            GlDataTy::Sampler2d
        } else if u == GL_SAMPLER_3D {
            GlDataTy::Sampler3d
        } else if u == GL_SAMPLER_CUBE {
            GlDataTy::SamplerCube
        } else if u == GL_SAMPLER_2D_SHADOW {
            GlDataTy::Sampler2dShadow
        } else if u == GL_SAMPLER_2D_ARRAY {
            GlDataTy::Sampler2dArray
        } else if u == GL_SAMPLER_2D_ARRAY_SHADOW {
            GlDataTy::Sampler2dArrayShadow
        } else if u == GL_SAMPLER_CUBE_SHADOW {
            GlDataTy::SamplerCubeShadow
        } else if u == GL_INT_SAMPLER_2D {
            GlDataTy::ISampler2d
        } else if u == GL_INT_SAMPLER_3D {
            GlDataTy::ISampler3d
        } else if u == GL_INT_SAMPLER_CUBE {
            GlDataTy::ISamplerCube
        } else if u == GL_INT_SAMPLER_2D_ARRAY {
            GlDataTy::ISampler2dArray
        } else if u == GL_UNSIGNED_INT_SAMPLER_2D {
            GlDataTy::USampler2d
        } else if u == GL_UNSIGNED_INT_SAMPLER_3D {
            GlDataTy::USampler3d
        } else if u == GL_UNSIGNED_INT_SAMPLER_CUBE {
            GlDataTy::USamplerCube
        } else if u == GL_UNSIGNED_INT_SAMPLER_2D_ARRAY {
            GlDataTy::USampler2dArray
        } else {
            GlDataTy::Unknown
        }
    }

    pub fn code(self) -> (r: u32)
        ensures
            r == gl_data_ty_code(self),
    {
        match self {
            GlDataTy::F32 => GL_FLOAT,
            GlDataTy::Vec2 => GL_FLOAT_VEC2,
            GlDataTy::Vec3 => GL_FLOAT_VEC3,
            GlDataTy::Vec4 => GL_FLOAT_VEC4,
            GlDataTy::I32 => GL_INT,
            GlDataTy::IVec2 => GL_INT_VEC2,
            GlDataTy::IVec3 => GL_INT_VEC3,
            GlDataTy::IVec4 => GL_INT_VEC4,
            GlDataTy::U32 => GL_UNSIGNED_INT,
            GlDataTy::UVec2 => GL_UNSIGNED_INT_VEC2,
            GlDataTy::UVec3 => GL_UNSIGNED_INT_VEC3,
            GlDataTy::UVec4 => GL_UNSIGNED_INT_VEC4,
            GlDataTy::Bool => GL_BOOL,
            GlDataTy::BVec2 => GL_BOOL_VEC2,
            GlDataTy::BVec3 => GL_BOOL_VEC3,
            GlDataTy::BVec4 => GL_BOOL_VEC4,
            GlDataTy::Mat2 => GL_FLOAT_MAT2,
            GlDataTy::Mat3 => GL_FLOAT_MAT3,
            GlDataTy::Mat4 => GL_FLOAT_MAT4,
            GlDataTy::Mat2x3 => GL_FLOAT_MAT2X3,
            GlDataTy::Mat2x4 => GL_FLOAT_MAT2X4,
            GlDataTy::Mat3x2 => GL_FLOAT_MAT3X2,
            GlDataTy::Mat3x4 => GL_FLOAT_MAT3X4,
            GlDataTy::Mat4x2 => GL_FLOAT_MAT4X2,
            GlDataTy::Mat4x3 => GL_FLOAT_MAT4X3,
            GlDataTy::Sampler2d => GL_SAMPLER_2D,
            GlDataTy::Sampler3d => GL_SAMPLER_3D,
            GlDataTy::SamplerCube => GL_SAMPLER_CUBE,
            GlDataTy::Sampler2dShadow => GL_SAMPLER_2D_SHADOW,
            GlDataTy::Sampler2dArray => GL_SAMPLER_2D_ARRAY,
            GlDataTy::Sampler2dArrayShadow => GL_SAMPLER_2D_ARRAY_SHADOW,
            GlDataTy::SamplerCubeShadow => GL_SAMPLER_CUBE_SHADOW,
            GlDataTy::ISampler2d => GL_INT_SAMPLER_2D,
            GlDataTy::ISampler3d => GL_INT_SAMPLER_3D,
            GlDataTy::ISamplerCube => GL_INT_SAMPLER_CUBE,
            GlDataTy::ISampler2dArray => GL_INT_SAMPLER_2D_ARRAY,
            GlDataTy::USampler2d => GL_UNSIGNED_INT_SAMPLER_2D,
            GlDataTy::USampler3d => GL_UNSIGNED_INT_SAMPLER_3D,
            GlDataTy::USamplerCube => GL_UNSIGNED_INT_SAMPLER_CUBE,
            GlDataTy::USampler2dArray => GL_UNSIGNED_INT_SAMPLER_2D_ARRAY,
            GlDataTy::Unknown => 0,
        }
    }
}

/// The stage a shader runs in.
#[derive(Debug, Clone, Copy, PartialEq, Eq, Structural, PartialOrd, Ord, Hash)]
pub enum ShaderType {
    Vertex,
    Fragment,
}

impl ShaderType {
    pub open spec fn spec_code(self) -> u32 {
        match self {
            ShaderType::Vertex => GL_VERTEX_SHADER,
            ShaderType::Fragment => GL_FRAGMENT_SHADER,
        }
    }

    pub fn code(self) -> (r: u32)
        ensures
            r == self.spec_code(),
    {
        match self {
            ShaderType::Vertex => GL_VERTEX_SHADER,
            ShaderType::Fragment => GL_FRAGMENT_SHADER,
        }
    }

    /// The shader type a `GL_SHADER_TYPE` query returned, if it is one.
    pub fn from_query(param: i32) -> (r: Option<Self>)
        ensures
            param == GL_VERTEX_SHADER ==> r == Some(ShaderType::Vertex),
            param == GL_FRAGMENT_SHADER ==> r == Some(ShaderType::Fragment),
            param != GL_VERTEX_SHADER && param != GL_FRAGMENT_SHADER ==> r.is_none(),
    {
        if param == GL_VERTEX_SHADER as i32 {
            Some(ShaderType::Vertex)
        } else if param == GL_FRAGMENT_SHADER as i32 {
            Some(ShaderType::Fragment)
        } else {
            None
        }
    }
}

/// What a texture is bound as.
#[derive(Debug, Clone, Copy, PartialEq, Eq, Structural, PartialOrd, Ord, Hash)]
pub enum TextureTarget {
    Texture2d,
    Texture3d,
    Texture2dArray,
    TextureCubeMap,
}

impl TextureTarget {
    pub open spec fn spec_code(self) -> u32 {
        match self {
            TextureTarget::Texture2d => GL_TEXTURE_2D,
            TextureTarget::Texture3d => GL_TEXTURE_3D,
            TextureTarget::Texture2dArray => GL_TEXTURE_2D_ARRAY,
            TextureTarget::TextureCubeMap => GL_TEXTURE_CUBE_MAP,
        }
    }

    pub fn code(self) -> (r: u32)
        ensures
            r == self.spec_code(),
    {
        match self {
            TextureTarget::Texture2d => GL_TEXTURE_2D,
            TextureTarget::Texture3d => GL_TEXTURE_3D,
            TextureTarget::Texture2dArray => GL_TEXTURE_2D_ARRAY,
            TextureTarget::TextureCubeMap => GL_TEXTURE_CUBE_MAP,
        }
    }
}

/// A linked shader program; its name is deleted exactly once.
#[derive(Debug)]
pub struct Program {
    handle: OwnedHandle,
}

/// A shader object; its name is deleted exactly once.
#[derive(Debug)]
pub struct Shader {
    handle: OwnedHandle,
}

/// A texture object; its name is deleted exactly once.
#[derive(Debug)]
pub struct Texture {
    handle: OwnedHandle,
}

impl View for Program {
    type V = HandleModel;

    closed spec fn view(&self) -> HandleModel {
        self.handle@
    }
}

impl View for Shader {
    type V = HandleModel;

    closed spec fn view(&self) -> HandleModel {
        self.handle@
    }
}

impl View for Texture {
    type V = HandleModel;

    closed spec fn view(&self) -> HandleModel {
        self.handle@
    }
}

impl Program {
    /// Takes ownership of the name the driver created; zero means the
    /// creation failed.
    pub fn from_name(name: u32) -> (r: Option<Self>)
        ensures
            r.is_some() == (name != 0),
            r matches Some(p) ==> p@ == (HandleModel { raw: name, live: true }),
            r.is_none() == acquire_outcome(name).is_none(),
            r matches Some(p) ==> Some(p@) == acquire_outcome(name),
    {
        match OwnedHandle::acquire(name) {
            Some(handle) => Some(Program { handle }),
            None => None,
        }
    }

    pub fn name(&self) -> (r: u32)
        ensures
            r == self@.raw,
    {
        self.handle.raw()
    }

    /// The name to delete the first time, nothing afterwards.
    pub fn take_release(&mut self) -> (r: Option<u32>)
        ensures
            (final(self)@, r) == crate::handle::release_step(old(self)@),
    {
        self.handle.take_release()
    }
}

impl Shader {
    /// Takes ownership of the name the driver created; zero means the
    /// creation failed.
    pub fn from_name(name: u32) -> (r: Option<Self>)
        ensures
            r.is_some() == (name != 0),
            r matches Some(s) ==> s@ == (HandleModel { raw: name, live: true }),
            r.is_none() == acquire_outcome(name).is_none(),
            r matches Some(s) ==> Some(s@) == acquire_outcome(name),
    {
        match OwnedHandle::acquire(name) {
            Some(handle) => Some(Shader { handle }),
            None => None,
        }
    }

    pub fn name(&self) -> (r: u32)
        ensures
            r == self@.raw,
    {
        self.handle.raw()
    }

    /// The name to delete the first time, nothing afterwards.
    pub fn take_release(&mut self) -> (r: Option<u32>)
        ensures
            (final(self)@, r) == crate::handle::release_step(old(self)@),
    {
        self.handle.take_release()
    }
}

impl Texture {
    /// Takes ownership of the name the driver generated; zero means no
    /// texture.
    pub fn from_name(name: u32) -> (r: Option<Self>)
        ensures
            r.is_some() == (name != 0),
            r matches Some(t) ==> t@ == (HandleModel { raw: name, live: true }),
            r.is_none() == acquire_outcome(name).is_none(),
            r matches Some(t) ==> Some(t@) == acquire_outcome(name),
    {
        match OwnedHandle::acquire(name) {
            Some(handle) => Some(Texture { handle }),
            None => None,
        }
    }

    pub fn name(&self) -> (r: u32)
        ensures
            r == self@.raw,
    {
        self.handle.raw()
    }

    /// The name to delete the first time, nothing afterwards.
    pub fn take_release(&mut self) -> (r: Option<u32>)
        ensures
            (final(self)@, r) == crate::handle::release_step(old(self)@),
    {
        self.handle.take_release()
    }
}

/// Text the driver wrote into `buf`, `length` bytes of it, read leniently:
/// malformed UTF-8 becomes U+FFFD. Nothing when the driver claims more
/// than the buffer holds.
pub fn text_from_fill(buf: Vec<u8>, length: u32) -> (r: Option<String>)
    ensures
        length as int <= buf@.len() ==> (r matches Some(s) && s@ == utf8_lossy(
            buf@.subrange(0, length as int),
        )),
        length as int > buf@.len() ==> r.is_none(),
{
    let fill: Result<usize, ()> = Ok(length as usize);
    match trim_filled(buf, fill) {
        Ok(bytes) => Some(utf8_text_lossy(bytes.as_slice())),
        Err(_) => None,
    }
}

/// The name, array size and type of an active attribute or uniform, from
/// the fill of its name buffer; nothing when the driver's answer does not
/// fit the buffer or reports a negative size.
pub fn active_variable(name_buf: Vec<u8>, length: u32, array_size: i32, type_: u32) -> (r: Option<
    (String, usize, GlDataTy),
>)
    ensures
        (length as int <= name_buf@.len() && array_size >= 0) ==> (r matches Some(v) && v.0@
            == utf8_lossy(name_buf@.subrange(0, length as int)) && v.1 == array_size as usize
            && (is_known_gl_data_ty(type_) ==> gl_data_ty_code(v.2) == type_ && v.2
            != GlDataTy::Unknown) && (!is_known_gl_data_ty(type_) ==> v.2 == GlDataTy::Unknown)),
        !(length as int <= name_buf@.len() && array_size >= 0) ==> r.is_none(),
{
    if array_size < 0 {
        return None;
    }
    match text_from_fill(name_buf, length) {
        Some(name) => Some((name, array_size as usize, GlDataTy::new(type_))),
        None => None,
    }
}
/// Where a debug message came from.
pub open spec fn debug_source_label(source: u32) -> Seq<char> {
    if source == GL_DEBUG_SOURCE_API_KHR {
        "[Api]"@
    } else if source == GL_DEBUG_SOURCE_WINDOW_SYSTEM_KHR {
        "[WindowSystem]"@
    } else if source == GL_DEBUG_SOURCE_SHADER_COMPILER_KHR {
        "[ShaderCompiler]"@
    } else if source == GL_DEBUG_SOURCE_THIRD_PARTY_KHR {
        "[3rdParty]"@
    } else if source == GL_DEBUG_SOURCE_APPLICATION_KHR {
        "[Application]"@
    } else if source == GL_DEBUG_SOURCE_OTHER_KHR {
        "[OtherSource]"@
    } else {
        "[UnknownSrc]"@
    }
}

pub fn debug_source_name(source: u32) -> (r: &'static str)
    ensures
        r@ == debug_source_label(source),
{
    if source == GL_DEBUG_SOURCE_API_KHR {
        "[Api]"
    } else if source == GL_DEBUG_SOURCE_WINDOW_SYSTEM_KHR {
        "[WindowSystem]"
    } else if source == GL_DEBUG_SOURCE_SHADER_COMPILER_KHR {
        "[ShaderCompiler]"
    } else if source == GL_DEBUG_SOURCE_THIRD_PARTY_KHR {
        "[3rdParty]"
    } else if source == GL_DEBUG_SOURCE_APPLICATION_KHR {
        "[Application]"
    } else if source == GL_DEBUG_SOURCE_OTHER_KHR {
        "[OtherSource]"
    } else {
        "[UnknownSrc]"
    }
}

/// What kind of event a debug message reports.
pub open spec fn debug_type_label(type_: u32) -> Seq<char> {
    if type_ == GL_DEBUG_TYPE_ERROR_KHR {
        "[Error]"@
    } else if type_ == GL_DEBUG_TYPE_DEPRECATED_BEHAVIOR_KHR {
        "[Deprecated]"@
    } else if type_ == GL_DEBUG_TYPE_UNDEFINED_BEHAVIOR_KHR {
        "[Undefined]"@
    } else if type_ == GL_DEBUG_TYPE_PORTABILITY_KHR {
        "[Portability]"@
    } else if type_ == GL_DEBUG_TYPE_PERFORMANCE_KHR {
        "[Performance]"@
    } else if type_ == GL_DEBUG_TYPE_OTHER_KHR {
        "[Other]"@
    } else if type_ == GL_DEBUG_TYPE_MARKER_KHR {
        "[Marker]"@
    } else {
        "[UnknownType]"@
    }
}

pub fn debug_type_name(type_: u32) -> (r: &'static str)
    ensures
        r@ == debug_type_label(type_),
{
    if type_ == GL_DEBUG_TYPE_ERROR_KHR {
        "[Error]"
    } else if type_ == GL_DEBUG_TYPE_DEPRECATED_BEHAVIOR_KHR {
        "[Deprecated]"
    } else if type_ == GL_DEBUG_TYPE_UNDEFINED_BEHAVIOR_KHR {
        "[Undefined]"
    } else if type_ == GL_DEBUG_TYPE_PORTABILITY_KHR {
        "[Portability]"
    } else if type_ == GL_DEBUG_TYPE_PERFORMANCE_KHR {
        "[Performance]"
    } else if type_ == GL_DEBUG_TYPE_OTHER_KHR {
        "[Other]"
    } else if type_ == GL_DEBUG_TYPE_MARKER_KHR {
        "[Marker]"
    } else {
        "[UnknownType]"
    }
}

/// How severe a debug message is.
pub open spec fn debug_severity_label(severity: u32) -> Seq<char> {
    if severity == GL_DEBUG_SEVERITY_HIGH_KHR {
        "[SeverityHigh]"@
    } else if severity == GL_DEBUG_SEVERITY_MEDIUM_KHR {
        "[SeverityMedium]"@
    } else if severity == GL_DEBUG_SEVERITY_LOW_KHR {
        "[SeverityLow]"@
    } else if severity == GL_DEBUG_SEVERITY_NOTIFICATION_KHR {
        "[Note]"@
    } else {
        "[SeverityUnknown]"@
    }
}

pub fn debug_severity_name(severity: u32) -> (r: &'static str)
    ensures
        r@ == debug_severity_label(severity),
{
    if severity == GL_DEBUG_SEVERITY_HIGH_KHR {
        "[SeverityHigh]"
    } else if severity == GL_DEBUG_SEVERITY_MEDIUM_KHR {
        "[SeverityMedium]"
    } else if severity == GL_DEBUG_SEVERITY_LOW_KHR {
        "[SeverityLow]"
    } else if severity == GL_DEBUG_SEVERITY_NOTIFICATION_KHR {
        "[Note]"
    } else {
        "[SeverityUnknown]"
    }
}

/// The message text, or a note that it was not UTF-8.
pub open spec fn debug_message_text(message: Seq<u8>) -> Seq<char> {
    if valid_utf8(message) {
        decode_utf8(message)
    } else {
        "message was not UTF8"@
    }
}

/// `GL[source][type][severity]> message`.
pub open spec fn debug_line(source: u32, type_: u32, severity: u32, message: Seq<u8>) -> Seq<
    char,
> {
    "GL"@ + debug_source_label(source) + debug_type_label(type_) + debug_severity_label(severity)
        + "> "@ + debug_message_text(message)
}

/// The line a GL debug message is reported as.
pub fn debug_message_line(source: u32, type_: u32, severity: u32, message: &[u8]) -> (r: String)
    ensures
        r@ == debug_line(source, type_, severity, message@),
{
    let mut line = String::from_str("GL");
    line.append(debug_source_name(source));
    line.append(debug_type_name(type_));
    line.append(debug_severity_name(severity));
    line.append("> ");
    match utf8_text(message) {
        Some(text) => line.append(text.as_str()),
        None => line.append("message was not UTF8"),
    }
    line
}

} // verus!
