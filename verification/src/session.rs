//! The render session: a camera, the pointer-drag state, the viewport
//! dimensions and the lifecycle of the GPU objects, as a state machine.
//!
//! The GPU context itself is an outside service. Every GPU call happens
//! beyond this crate; what flows in are the reported outcomes (creation
//! flags, compile and link results), and what flows out are decisions:
//! the next state, the error to surface, which handles to release and the
//! parameters of the draw call.

use vstd::prelude::*;
use crate::fx::{fx_div_s, clamp_s, fx_div, clamp, ONE};
use crate::camera::{
    Camera, proj_s, camera_new_s, translate_s, DELTA_LIM, ASPECT_MIN, ASPECT_MAX,
};
use crate::mesh::mesh_indices_s;
use crate::shader::GlError;

verus! {

/// Vertical field of view a session's camera is built with (0.78 radians).
pub const FOVY_DEFAULT: i64 = 3195;

/// Near-clip distance a session's camera is built with (0.1 units).
pub const NEAR_DEFAULT: i64 = 410;

/// Far-clip distance a session's camera is built with (100 units).
pub const FAR_DEFAULT: i64 = 409600;

/// Lifecycle of a session.
#[derive(Clone, Copy, Debug, PartialEq, Eq, Structural)]
pub enum Phase {
    /// No program and no buffers exist yet; `render` is refused.
    Uninitialized,
    /// Program and buffers exist; `render` may proceed.
    Ready,
    /// All GPU objects have been released; operations are refused.
    Disposed,
}

/// The index data type of the draw call.
#[derive(Clone, Copy, Debug, PartialEq, Eq, Structural)]
pub enum IndexKind {
    UnsignedShort,
}

/// The primitive topology of the draw call.
#[derive(Clone, Copy, Debug, PartialEq, Eq, Structural)]
pub enum Topology {
    Triangles,
}

/// Everything a caller needs to issue the session's draw call: the vertex
/// attribute layout (three tightly packed coordinates per vertex, not
/// normalized) and the indexed draw parameters.
#[derive(Clone, Copy, Debug, PartialEq, Eq, Structural)]
pub struct DrawCall {
    pub index_count: u32,
    pub index_kind: IndexKind,
    pub topology: Topology,
    pub attrib_size: u32,
    pub attrib_stride: u32,
    pub attrib_normalized: bool,
}

/// Which GPU handles a `dispose` call must release.
#[derive(Clone, Copy, Debug, PartialEq, Eq, Structural)]
pub struct ReleasePlan {
    pub release_program: bool,
    pub release_buffers: bool,
}

/// The render session state.
#[derive(Clone, Debug)]
pub struct Context {
    pub width: u32,
    pub height: u32,
    pub mousex: Option<u32>,
    pub mousey: Option<u32>,
    pub camera: Camera,
    pub phase: Phase,
    pub has_program: bool,
    pub has_buffers: bool,
}

/// The aspect ratio of a viewport, clamped into the range the camera
/// accepts.
pub open spec fn clamp_aspect_s(a: int) -> int {
    if a < ASPECT_MIN as int {
        ASPECT_MIN as int
    } else if a > ASPECT_MAX as int {
        ASPECT_MAX as int
    } else {
        a
    }
}

/// The state of a fresh session.
pub open spec fn new_s(width: u32, height: u32) -> Context {
    Context {
        width,
        height,
        mousex: None,
        mousey: None,
        camera: camera_new_s(
            clamp_aspect_s((width as int) * (ONE as int) / (height as int)),
            FOVY_DEFAULT as int,
            NEAR_DEFAULT as int,
            FAR_DEFAULT as int,
        ),
        phase: Phase::Uninitialized,
        has_program: false,
        has_buffers: false,
    }
}

/// The state after `resize`: new dimensions, the drag state cleared, and the
/// projection rebuilt from the new aspect ratio only when asked to.
pub open spec fn resize_s(s: Context, width: u32, height: u32, rebuild: bool) -> Context {
    if s.phase is Disposed {
        s
    } else {
        Context {
            width,
            height,
            mousex: None,
            mousey: None,
            camera: if rebuild {
                Camera {
                    proj: proj_s(
                        clamp_aspect_s((width as int) * (ONE as int) / (height as int)),
                        FOVY_DEFAULT as int,
                        NEAR_DEFAULT as int,
                        FAR_DEFAULT as int,
                    ),
                    ..s.camera
                }
            } else {
                s.camera
            },
            ..s
        }
    }
}

/// The state after `mousemove`. While pressed, the pixel delta against the
/// last seen position (zero when none exists) is normalized by the viewport
/// dimensions, clamped, and pans the camera; the position is remembered.
/// Releasing clears the drag state and touches nothing else.
pub open spec fn mousemove_s(s: Context, x: u32, y: u32, clicked: bool) -> Context {
    if s.phase is Disposed {
        s
    } else if clicked {
        let dx_pix = match s.mousex {
            Some(px) => x as int - px as int,
            None => 0,
        };
        let dy_pix = match s.mousey {
            Some(py) => y as int - py as int,
            None => 0,
        };
        let ndx = clamp_s(fx_div_s(dx_pix, s.width as int), DELTA_LIM as int);
        let ndy = clamp_s(fx_div_s(dy_pix, s.height as int), DELTA_LIM as int);
        Context {
            mousex: Some(x),
            mousey: Some(y),
            camera: translate_s(s.camera, ndx, ndy),
            ..s
        }
    } else {
        Context { mousex: None, mousey: None, ..s }
    }
}

/// The state after `init`: only a fully successful initialization of an
/// uninitialized session reaches `Ready`; any failure leaves the session
/// uninitialized with no GPU objects.
pub open spec fn init_s(s: Context, shaders_ok: bool, mesh_ok: bool) -> Context {
    if s.phase is Uninitialized && shaders_ok && mesh_ok {
        Context { phase: Phase::Ready, has_program: true, has_buffers: true, ..s }
    } else {
        s
    }
}

/// The state after `dispose`: finalized, owning nothing, with no drag in
/// progress.
pub open spec fn dispose_s(s: Context) -> Context {
    Context {
        phase: Phase::Disposed,
        has_program: false,
        has_buffers: false,
        mousex: None,
        mousey: None,
        ..s
    }
}

/// What `dispose` asks the caller to release: exactly what the session owned.
pub open spec fn dispose_plan_s(s: Context) -> ReleasePlan {
    ReleasePlan { release_program: s.has_program, release_buffers: s.has_buffers }
}

/// The parameters of the session's draw call.
pub open spec fn draw_call_s() -> DrawCall {
    DrawCall {
        index_count: 6,
        index_kind: IndexKind::UnsignedShort,
        topology: Topology::Triangles,
        attrib_size: 3,
        attrib_stride: 0,
        attrib_normalized: false,
    }
}

impl Context {
    /// Validity: a well-formed camera, nonzero dimensions, a consistent drag
    /// state, and GPU ownership flags matching the lifecycle phase.
    pub open spec fn wf(self) -> bool {
        self.camera.wf() && 1 <= self.width && 1 <= self.height && (self.mousex is Some
            <==> self.mousey is Some) && (self.phase is Ready ==> self.has_program
            && self.has_buffers) && (!(self.phase is Ready) ==> !self.has_program
            && !self.has_buffers)
    }

    /// A fresh session: uninitialized, no drag in progress, camera at the
    /// origin with the default perspective for the viewport's aspect ratio.
    pub fn new(width: u32, height: u32) -> (r: Context)
        requires
            1 <= width,
            1 <= height,
        ensures
            r == new_s(width, height),
            r.wf(),
    {
        let araw = crate::fx::div_pos((width as i64) * ONE, height as i64);
        let aspect = if araw < ASPECT_MIN {
            ASPECT_MIN
        } else if araw > ASPECT_MAX {
            ASPECT_MAX
        } else {
            araw
        };
        let camera = Camera::new(aspect, FOVY_DEFAULT, NEAR_DEFAULT, FAR_DEFAULT);
        Context {
            width,
            height,
            mousex: None,
            mousey: None,
            camera,
            phase: Phase::Uninitialized,
            has_program: false,
            has_buffers: false,
        }
    }

    /// Record the new viewport dimensions and clear any drag in progress.
    /// The projection matrix is rebuilt from the new aspect ratio only when
    /// `rebuild_projection` asks for it; otherwise it keeps the aspect ratio
    /// it was constructed with.
    pub fn resize(&mut self, width: u32, height: u32, rebuild_projection: bool) -> (r: Result<
        (),
        GlError,
    >)
        requires
            old(self).wf(),
            1 <= width,
            1 <= height,
        ensures
            *final(self) == resize_s(*old(self), width, height, rebuild_projection),
            final(self).wf(),
            old(self).phase is Disposed ==> r == Err::<(), GlError>(GlError::SessionFinalized),
            !(old(self).phase is Disposed) ==> r == Ok::<(), GlError>(()),
    {
        if matches!(self.phase, Phase::Disposed) {
            return Err(GlError::SessionFinalized);
        }
        self.width = width;
        self.height = height;
        self.mousex = None;
        self.mousey = None;
        if rebuild_projection {
            let araw = crate::fx::div_pos((width as i64) * ONE, height as i64);
            let aspect = if araw < ASPECT_MIN {
                ASPECT_MIN
            } else if araw > ASPECT_MAX {
                ASPECT_MAX
            } else {
                araw
            };
            let rebuilt = Camera::new(aspect, FOVY_DEFAULT, NEAR_DEFAULT, FAR_DEFAULT);
            self.camera.proj = rebuilt.proj;
        }
        Ok(())
    }

    /// Track the pointer. While the button is held, pan the camera by the
    /// normalized movement since the last seen position; on release, forget
    /// the drag state.
    pub fn mousemove(&mut self, x: u32, y: u32, clicked: bool) -> (r: Result<(), GlError>)
        requires
            old(self).wf(),
        ensures
            *final(self) == mousemove_s(*old(self), x, y, clicked),
            final(self).wf(),
            old(self).phase is Disposed ==> r == Err::<(), GlError>(GlError::SessionFinalized),
            !(old(self).phase is Disposed) ==> r == Ok::<(), GlError>(()),
    {
        if matches!(self.phase, Phase::Disposed) {
            return Err(GlError::SessionFinalized);
        }
        if clicked {
            let dx_pix: i64 = match self.mousex {
                Some(px) => x as i64 - px as i64,
                None => 0,
            };
            let dy_pix: i64 = match self.mousey {
                Some(py) => y as i64 - py as i64,
                None => 0,
            };
            let ndx = clamp(fx_div(dx_pix, self.width as i64), DELTA_LIM);
            let ndy = clamp(fx_div(dy_pix, self.height as i64), DELTA_LIM);
            self.mousex = Some(x);
            self.mousey = Some(y);
            self.camera.translate_from_pixels(ndx, ndy);
        } else {
            self.mousex = None;
            self.mousey = None;
        }
        Ok(())
    }

    /// Apply the reported outcome of initialization: the shader-pipeline
    /// result and the mesh-upload result. Only a fully successful first
    /// initialization reaches `Ready`; the first failure is surfaced and the
    /// session then owns no GPU objects, so the caller must release whatever
    /// it created. Re-initialization and initialization after dispose are
    /// refused.
    pub fn init(&mut self, shaders: Result<(), GlError>, mesh: Result<(), GlError>) -> (r: Result<
        (),
        GlError,
    >)
        requires
            old(self).wf(),
        ensures
            *final(self) == init_s(*old(self), shaders is Ok, mesh is Ok),
            final(self).wf(),
            old(self).phase is Disposed ==> r == Err::<(), GlError>(GlError::SessionFinalized),
            old(self).phase is Ready ==> r == Err::<(), GlError>(GlError::AlreadyInitialized),
            old(self).phase is Uninitialized && shaders is Err ==> r == Err::<(), GlError>(
                shaders->Err_0,
            ),
            old(self).phase is Uninitialized && shaders is Ok && mesh is Err ==> r == Err::<
                (),
                GlError,
            >(mesh->Err_0),
            old(self).phase is Uninitialized && shaders is Ok && mesh is Ok ==> r == Ok::<
                (),
                GlError,
            >(()),
    {
        match self.phase {
            Phase::Disposed => Err(GlError::SessionFinalized),
            Phase::Ready => Err(GlError::AlreadyInitialized),
            Phase::Uninitialized => {
                match shaders {
                    Err(e) => Err(e),
                    Ok(()) => {
                        match mesh {
                            Err(e) => Err(e),
                            Ok(()) => {
                                self.phase = Phase::Ready;
                                self.has_program = true;
                                self.has_buffers = true;
                                Ok(())
                            },
                        }
                    },
                }
            },
        }
    }

    /// Decide the frame's draw call. Only a `Ready` session draws: the caller
    /// gets the attribute layout and the indexed draw parameters, covering
    /// every mesh index. A disposed session is refused, and one without a
    /// program draws nothing and reports so.
    pub fn render_plan(&self) -> (r: Result<DrawCall, GlError>)
        requires
            self.wf(),
        ensures
            self.phase is Disposed ==> r == Err::<DrawCall, GlError>(GlError::SessionFinalized),
            self.phase is Uninitialized ==> r == Err::<DrawCall, GlError>(GlError::NoProgram),
            self.phase is Ready ==> r == Ok::<DrawCall, GlError>(draw_call_s()),
            self.phase is Ready ==> (r matches Ok(d) && d.index_count == mesh_indices_s().len()),
    {
        match self.phase {
            Phase::Disposed => Err(GlError::SessionFinalized),
            Phase::Uninitialized => Err(GlError::NoProgram),
            Phase::Ready => Ok(
                DrawCall {
                    index_count: 6,
                    index_kind: IndexKind::UnsignedShort,
                    topology: Topology::Triangles,
                    attrib_size: 3,
                    attrib_stride: 0,
                    attrib_normalized: false,
                },
            ),
        }
    }

    /// Finalize the session, forget any drag in progress, and say which GPU
    /// handles the caller must now release: exactly those the session owned.
    /// A second call finds nothing left to release, so no handle is ever
    /// released twice.
    pub fn dispose(&mut self) -> (r: ReleasePlan)
        requires
            old(self).wf(),
        ensures
            *final(self) == dispose_s(*old(self)),
            final(self).wf(),
            r == dispose_plan_s(*old(self)),
    {
        let plan = ReleasePlan {
            release_program: self.has_program,
            release_buffers: self.has_buffers,
        };
        self.phase = Phase::Disposed;
        self.has_program = false;
        self.has_buffers = false;
        self.mousex = None;
        self.mousey = None;
        plan
    }
}


/// Releasing the pointer clears the drag state whatever came before, and
/// doing it twice in a row is the same as doing it once.
pub proof fn lemma_release_idempotent(s: Context, x1: u32, y1: u32, x2: u32, y2: u32)
    ensures
        mousemove_s(mousemove_s(s, x1, y1, false), x2, y2, false) == mousemove_s(s, x1, y1, false),
        !(s.phase is Disposed) ==> mousemove_s(s, x1, y1, false).mousex is None && mousemove_s(
            s,
            x1,
            y1,
            false,
        ).mousey is None,
{
}

/// Resizing a live session resets the drag state: no drag is in progress
/// afterwards, and the first pressed pointer event after the resize cannot
/// pan the camera with stale coordinates.
pub proof fn lemma_resize_resets_drag(s: Context, w: u32, h: u32, rebuild: bool, x: u32, y: u32)
    requires
        s.wf(),
        !(s.phase is Disposed),
        1 <= w,
        1 <= h,
    ensures
        resize_s(s, w, h, rebuild).mousex is None,
        resize_s(s, w, h, rebuild).mousey is None,
        mousemove_s(resize_s(s, w, h, rebuild), x, y, true).camera == resize_s(
            s,
            w,
            h,
            rebuild,
        ).camera,
{
    let s1 = resize_s(s, w, h, rebuild);
    assert(fx_div_s(0, s1.width as int) == 0);
    assert(clamp_s(0, DELTA_LIM as int) == 0);
    crate::camera::lemma_translate_zero(s1.camera);
}

/// Disposing twice is the same as disposing once, and the second call asks
/// the caller to release nothing, so no handle is ever released twice.
pub proof fn lemma_dispose_idempotent(s: Context)
    ensures
        dispose_s(dispose_s(s)) == dispose_s(s),
        dispose_plan_s(dispose_s(s)) == (ReleasePlan {
            release_program: false,
            release_buffers: false,
        }),
{
}


/// The first pressed pointer event of a drag only arms the drag state: with
/// no previous position there is no delta, so the camera does not move.
pub proof fn lemma_first_press_moves_nothing(s: Context, x: u32, y: u32)
    requires
        s.wf(),
        s.mousex is None,
    ensures
        mousemove_s(s, x, y, true).camera == s.camera,
{
    if !(s.phase is Disposed) {
        assert(fx_div_s(0, s.width as int) == 0);
        assert(clamp_s(0, DELTA_LIM as int) == 0);
        crate::camera::lemma_translate_zero(s.camera);
    }
}

} // verus!
