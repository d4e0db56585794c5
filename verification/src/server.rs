//! The graphics server: the single production backend of this crate. It
//! owns every GPU resource (textures, buffers, programs) and the one
//! pipeline state record; render passes hold plain handles into it. The
//! backend is a software model: texture planes are flat word stores, and a
//! draw records the fully-specified pipeline state it was given.

use vstd::prelude::*;
use crate::buffer::{BufferId, BufferKind, BufferUsage, GpuBuffer, MAX_BUFFER_WORDS};
use crate::error::FrameworkError;
use crate::geom::Rect;
use crate::gpu_program::{find_name, names_view, spec_name_index, GpuProgram, ProgramId,
    UniformLocation};
use crate::gpu_texture::{Coordinate, GpuTexture, GpuTextureKind, MagnificationFilter,
    MinificationFilter, PixelKind, TextureId, WrapMode, MAX_TEXTURE_SIZE};
use crate::params::DrawParameters;
use crate::texel::filled_plane;

verus! {

/// One resource binding as it reaches the backend: the declarative
/// location has been resolved to a flat binding slot.
#[derive(Clone, Copy, Debug, PartialEq, Eq, Structural)]
pub enum AppliedBinding {
    /// A texture bound to a texture unit.
    Texture {
        /// The texture.
        texture: TextureId,
        /// The unit it is bound to.
        unit: usize,
    },
    /// A buffer range bound to a buffer binding point.
    Buffer {
        /// The buffer.
        buffer: BufferId,
        /// The binding point.
        binding_point: usize,
        /// First bound word.
        offset: usize,
        /// Number of bound words.
        size: usize,
    },
}

/// The backend pipeline state after the most recent draw. Every draw
/// replaces it wholesale; nothing of a previous draw survives.
#[derive(Debug)]
pub struct PipelineState {
    /// Program of the most recent draw.
    pub bound_program: Option<ProgramId>,
    /// Draw parameters of the most recent draw.
    pub params: DrawParameters,
    /// Resolved resource bindings of the most recent draw, in declaration
    /// order.
    pub bindings: Vec<AppliedBinding>,
    /// Viewport of the most recent draw.
    pub viewport: Rect<i32>,
    /// Color attachments the most recent draw rendered to.
    pub target_colors: Vec<TextureId>,
    /// Depth attachment the most recent draw rendered to.
    pub target_depth: Option<TextureId>,
}

/// The software graphics backend.
#[derive(Debug)]
pub struct GraphicsServer {
    /// Every texture ever created, by handle index.
    pub textures: Vec<GpuTexture>,
    /// Every buffer ever created, by handle index.
    pub buffers: Vec<GpuBuffer>,
    /// Every program ever created, by handle index.
    pub programs: Vec<GpuProgram>,
    /// The pipeline state record.
    pub state: PipelineState,
    /// Journal of every draw issued, oldest first: the pipeline state each
    /// draw installed.
    pub draws: Vec<PipelineState>,
}

/// What stops a texture from being created, if anything.
pub open spec fn spec_texture_error(
    kind: GpuTextureKind,
    mip_count: usize,
    data: Option<Seq<u32>>,
) -> Option<FrameworkError> {
    if kind.spec_width() < 1 || kind.spec_width() > MAX_TEXTURE_SIZE || kind.spec_height() < 1
        || kind.spec_height() > MAX_TEXTURE_SIZE || mip_count < 1 {
        Option::Some(FrameworkError::InvalidTextureSize)
    } else if data is Some && data.unwrap().len() != kind.spec_pixel_count() {
        Option::Some(FrameworkError::InvalidTextureData)
    } else {
        Option::None
    }
}

impl GraphicsServer {
    /// Every resource record is structurally sound.
    pub open spec fn wf(self) -> bool {
        &&& forall|i: int| 0 <= i < self.textures@.len() ==> self.textures@[i].well_formed()
        &&& forall|i: int| 0 <= i < self.buffers@.len() ==> self.buffers@[i].well_formed()
    }

    /// A fresh backend: no resources, neutral pipeline state.
    pub fn new() -> (s: GraphicsServer)
        ensures
            s.wf(),
            s.textures@.len() == 0,
            s.buffers@.len() == 0,
            s.programs@.len() == 0,
            s.state.bound_program is None,
            s.state.bindings@.len() == 0,
            s.draws@.len() == 0,
    {
        GraphicsServer {
            textures: Vec::new(),
            buffers: Vec::new(),
            programs: Vec::new(),
            state: PipelineState {
                bound_program: Option::None,
                params: Default::default(),
                bindings: Vec::new(),
                viewport: Rect { x: 0, y: 0, w: 0, h: 0 },
                target_colors: Vec::new(),
                target_depth: Option::None,
            },
            draws: Vec::new(),
        }
    }

    /// Creates a texture, optionally filled with initial texel words;
    /// without initial data every texel starts at zero.
    pub fn create_texture(
        &mut self,
        kind: GpuTextureKind,
        pixel_kind: PixelKind,
        min_filter: MinificationFilter,
        mag_filter: MagnificationFilter,
        mip_count: usize,
        data: Option<Vec<u32>>,
    ) -> (r: Result<TextureId, FrameworkError>)
        requires
            old(self).wf(),
        ensures
            final(self).wf(),
            final(self).buffers == old(self).buffers,
            final(self).programs == old(self).programs,
            final(self).state == old(self).state,
            final(self).draws == old(self).draws,
            match r {
                Result::Ok(id) => {
                    &&& spec_texture_error(
                        kind,
                        mip_count,
                        match data {
                            Option::Some(d) => Option::Some(d@),
                            Option::None => Option::None,
                        },
                    ) is None
                    &&& id.index == old(self).textures@.len()
                    &&& final(self).textures@.len() == old(self).textures@.len() + 1
                    &&& forall|i: int|
                        0 <= i < old(self).textures@.len() ==> final(self).textures@[i] == old(
                            self,
                        ).textures@[i]
                    &&& final(self).textures@[id.index as int].kind == kind
                    &&& final(self).textures@[id.index as int].pixel_kind == pixel_kind
                    &&& final(self).textures@[id.index as int].min_filter == min_filter
                    &&& final(self).textures@[id.index as int].mag_filter == mag_filter
                    &&& final(self).textures@[id.index as int].mip_count == mip_count
                    &&& final(self).textures@[id.index as int].wrap_s == WrapMode::ClampToEdge
                    &&& final(self).textures@[id.index as int].wrap_t == WrapMode::ClampToEdge
                    &&& final(self).textures@[id.index as int].texels@ == match data {
                        Option::Some(d) => d@,
                        Option::None => Seq::new(
                            kind.spec_pixel_count() as nat,
                            |i: int| 0u32,
                        ),
                    }
                },
                Result::Err(e) => {
                    &&& final(self).textures == old(self).textures
                    &&& spec_texture_error(
                        kind,
                        mip_count,
                        match data {
                            Option::Some(d) => Option::Some(d@),
                            Option::None => Option::None,
                        },
                    ) == Option::Some(e)
                },
            },
    {
        let w = kind.width();
        let h = kind.height();
        if w < 1 || w > MAX_TEXTURE_SIZE || h < 1 || h > MAX_TEXTURE_SIZE || mip_count < 1 {
            return Result::Err(FrameworkError::InvalidTextureSize);
        }
        let count = kind.pixel_count();
        let texels: Vec<u32> = match data {
            Option::Some(d) => {
                if d.len() != count {
                    return Result::Err(FrameworkError::InvalidTextureData);
                }
                d
            },
            Option::None => filled_plane(count, 0u32),
        };
        let stencil_len: usize = match pixel_kind {
            PixelKind::D24S8 => count,
            _ => 0,
        };
        let stencil: Vec<i32> = filled_plane(stencil_len, 0i32);
        let id = TextureId { index: self.textures.len() };
        self.textures.push(
            GpuTexture {
                kind,
                pixel_kind,
                min_filter,
                mag_filter,
                mip_count,
                wrap_s: WrapMode::ClampToEdge,
                wrap_t: WrapMode::ClampToEdge,
                texels,
                stencil,
            },
        );
        Result::Ok(id)
    }

    /// Read access to a texture record, for handles of this server.
    pub fn texture(&self, id: TextureId) -> (r: Option<&GpuTexture>)
        ensures
            match r {
                Option::Some(t) => id.index < self.textures@.len() && *t == self.textures@[id.index
                    as int],
                Option::None => id.index >= self.textures@.len(),
            },
    {
        if id.index < self.textures.len() {
            Option::Some(&self.textures[id.index])
        } else {
            Option::None
        }
    }

    /// Changes the addressing mode of one texture axis.
    pub fn set_texture_wrap(&mut self, id: TextureId, coordinate: Coordinate, mode: WrapMode) -> (r:
        Result<(), FrameworkError>)
        requires
            old(self).wf(),
        ensures
            final(self).wf(),
            final(self).buffers == old(self).buffers,
            final(self).programs == old(self).programs,
            final(self).state == old(self).state,
            final(self).draws == old(self).draws,
            final(self).textures@.len() == old(self).textures@.len(),
            match r {
                Result::Ok(_) => {
                    &&& id.index < old(self).textures@.len()
                    &&& forall|i: int|
                        0 <= i < old(self).textures@.len() && i != id.index ==> final(self).textures@[i]
                            == old(self).textures@[i]
                    &&& final(self).textures@[id.index as int] == (match coordinate {
                        Coordinate::S => GpuTexture {
                            wrap_s: mode,
                            ..old(self).textures@[id.index as int]
                        },
                        Coordinate::T => GpuTexture {
                            wrap_t: mode,
                            ..old(self).textures@[id.index as int]
                        },
                    })
                },
                Result::Err(e) => {
                    &&& e == FrameworkError::InvalidResource
                    &&& id.index >= old(self).textures@.len()
                    &&& final(self).textures == old(self).textures
                },
            },
    {
        if id.index >= self.textures.len() {
            return Result::Err(FrameworkError::InvalidResource);
        }
        match coordinate {
            Coordinate::S => {
                self.textures[id.index].wrap_s = mode;
            },
            Coordinate::T => {
                self.textures[id.index].wrap_t = mode;
            },
        }
        Result::Ok(())
    }

    /// Creates a data buffer of `size` 32-bit words.
    pub fn create_buffer(&mut self, size: usize, kind: BufferKind, usage: BufferUsage) -> (r:
        Result<BufferId, FrameworkError>)
        requires
            old(self).wf(),
        ensures
            final(self).wf(),
            final(self).textures == old(self).textures,
            final(self).programs == old(self).programs,
            final(self).state == old(self).state,
            final(self).draws == old(self).draws,
            match r {
                Result::Ok(id) => {
                    &&& 1 <= size <= MAX_BUFFER_WORDS
                    &&& id.index == old(self).buffers@.len()
                    &&& final(self).buffers@.len() == old(self).buffers@.len() + 1
                    &&& forall|i: int|
                        0 <= i < old(self).buffers@.len() ==> final(self).buffers@[i] == old(
                            self,
                        ).buffers@[i]
                    &&& final(self).buffers@[id.index as int].kind == kind
                    &&& final(self).buffers@[id.index as int].usage == usage
                    &&& final(self).buffers@[id.index as int].size == size
                    &&& final(self).buffers@[id.index as int].data@.len() == 0
                },
                Result::Err(e) => {
                    &&& e == FrameworkError::InvalidBufferSize
                    &&& (size < 1 || size > MAX_BUFFER_WORDS)
                    &&& final(self).buffers == old(self).buffers
                },
            },
    {
        if size < 1 || size > MAX_BUFFER_WORDS {
            return Result::Err(FrameworkError::InvalidBufferSize);
        }
        let id = BufferId { index: self.buffers.len() };
        self.buffers.push(GpuBuffer { kind, usage, size, data: Vec::new() });
        Result::Ok(id)
    }

    /// Replaces the contents of a buffer with `data`.
    pub fn write_buffer_data(&mut self, id: BufferId, data: Vec<u32>) -> (r: Result<
        (),
        FrameworkError,
    >)
        requires
            old(self).wf(),
        ensures
            final(self).wf(),
            final(self).textures == old(self).textures,
            final(self).programs == old(self).programs,
            final(self).state == old(self).state,
            final(self).draws == old(self).draws,
            final(self).buffers@.len() == old(self).buffers@.len(),
            match r {
                Result::Ok(_) => {
                    &&& id.index < old(self).buffers@.len()
                    &&& data@.len() <= old(self).buffers@[id.index as int].size
                    &&& forall|i: int|
                        0 <= i < old(self).buffers@.len() && i != id.index ==> final(self).buffers@[i]
                            == old(self).buffers@[i]
                    &&& final(self).buffers@[id.index as int] == (GpuBuffer {
                        data: final(self).buffers@[id.index as int].data,
                        ..old(self).buffers@[id.index as int]
                    })
                    &&& final(self).buffers@[id.index as int].data@ == data@
                },
                Result::Err(e) => {
                    &&& final(self).buffers == old(self).buffers
                    &&& if id.index >= old(self).buffers@.len() {
                        e == FrameworkError::InvalidResource
                    } else {
                        e == FrameworkError::BufferOverflow && data@.len() > old(
                            self,
                        ).buffers@[id.index as int].size
                    }
                },
            },
    {
        if id.index >= self.buffers.len() {
            return Result::Err(FrameworkError::InvalidResource);
        }
        if data.len() > self.buffers[id.index].size {
            return Result::Err(FrameworkError::BufferOverflow);
        }
        self.buffers[id.index].data = data;
        Result::Ok(())
    }

    /// Compiles and links a program. The software backend does not parse
    /// the stage sources; reflection data (sampler and block names) is
    /// declared by the caller, as a headless backend receives it from the
    /// shader toolchain. Compilation fails exactly when a stage source is
    /// empty.
    pub fn create_program(
        &mut self,
        name: &str,
        vertex_source: &str,
        fragment_source: &str,
        samplers: Vec<String>,
        blocks: Vec<String>,
    ) -> (r: Result<ProgramId, FrameworkError>)
        requires
            old(self).wf(),
        ensures
            final(self).wf(),
            final(self).textures == old(self).textures,
            final(self).buffers == old(self).buffers,
            final(self).state == old(self).state,
            final(self).draws == old(self).draws,
            match r {
                Result::Ok(id) => {
                    &&& vertex_source@.len() > 0
                    &&& fragment_source@.len() > 0
                    &&& id.index == old(self).programs@.len()
                    &&& final(self).programs@.len() == old(self).programs@.len() + 1
                    &&& forall|i: int|
                        0 <= i < old(self).programs@.len() ==> final(self).programs@[i] == old(
                            self,
                        ).programs@[i]
                    &&& final(self).programs@[id.index as int].name@ == name@
                    &&& final(self).programs@[id.index as int].vertex_source@ == vertex_source@
                    &&& final(self).programs@[id.index as int].fragment_source@ == fragment_source@
                    &&& final(self).programs@[id.index as int].samplers == samplers
                    &&& final(self).programs@[id.index as int].blocks == blocks
                },
                Result::Err(e) => {
                    &&& e == FrameworkError::ShaderCompilationFailed
                    &&& (vertex_source@.len() == 0 || fragment_source@.len() == 0)
                    &&& final(self).programs == old(self).programs
                },
            },
    {
        if vertex_source.unicode_len() == 0 || fragment_source.unicode_len() == 0 {
            return Result::Err(FrameworkError::ShaderCompilationFailed);
        }
        let id = ProgramId { index: self.programs.len() };
        self.programs.push(
            GpuProgram {
                name: name.to_owned(),
                vertex_source: vertex_source.to_owned(),
                fragment_source: fragment_source.to_owned(),
                samplers,
                blocks,
            },
        );
        Result::Ok(id)
    }

    /// Resolves the handle of a sampler uniform by name; fails exactly
    /// when the program does not exist or the name is not among its
    /// samplers.
    pub fn uniform_location(&self, program: ProgramId, name: &str) -> (r: Result<
        UniformLocation,
        FrameworkError,
    >)
        ensures
            match r {
                Result::Ok(loc) => {
                    &&& program.index < self.programs@.len()
                    &&& loc.program == program
                    &&& spec_name_index(
                        names_view(self.programs@[program.index as int].samplers@),
                        name@,
                    ) == Option::Some(loc.index as int)
                },
                Result::Err(e) => if program.index >= self.programs@.len() {
                    e == FrameworkError::InvalidResource
                } else {
                    &&& e == FrameworkError::UniformNotFound
                    &&& spec_name_index(
                        names_view(self.programs@[program.index as int].samplers@),
                        name@,
                    ) is None
                },
            },
    {
        if program.index >= self.programs.len() {
            return Result::Err(FrameworkError::InvalidResource);
        }
        match find_name(&self.programs[program.index].samplers, name) {
            Option::Some(i) => Result::Ok(UniformLocation { program, index: i }),
            Option::None => Result::Err(FrameworkError::UniformNotFound),
        }
    }

    /// Resolves the index of a uniform block by name; fails exactly when
    /// the program does not exist or the name is not among its blocks.
    pub fn uniform_block_index(&self, program: ProgramId, name: &str) -> (r: Result<
        usize,
        FrameworkError,
    >)
        ensures
            match r {
                Result::Ok(i) => {
                    &&& program.index < self.programs@.len()
                    &&& spec_name_index(
                        names_view(self.programs@[program.index as int].blocks@),
                        name@,
                    ) == Option::Some(i as int)
                },
                Result::Err(e) => if program.index >= self.programs@.len() {
                    e == FrameworkError::InvalidResource
                } else {
                    &&& e == FrameworkError::UniformBlockNotFound
                    &&& spec_name_index(
                        names_view(self.programs@[program.index as int].blocks@),
                        name@,
                    ) is None
                },
            },
    {
        if program.index >= self.programs.len() {
            return Result::Err(FrameworkError::InvalidResource);
        }
        match find_name(&self.programs[program.index].blocks, name) {
            Option::Some(i) => Result::Ok(i),
            Option::None => Result::Err(FrameworkError::UniformBlockNotFound),
        }
    }
}

} // verus!
