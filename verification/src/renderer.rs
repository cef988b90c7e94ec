//! The presentation pass: the quad it draws, the surface it draws to, and
//! what becomes of a frame whose surface image could not be acquired.

use vstd::prelude::*;
use crate::event::Event;
use crate::geometry::{quad_indices, QUAD_INDEX_COUNT};
use crate::math::UVec2;

verus! {

/// Why a frame could not be presented.
#[derive(Clone, Copy, Debug, PartialEq, Eq, Structural)]
pub enum PresentError {
    /// Acquiring the surface image took too long.
    Timeout,
    /// The surface has changed under the swap chain.
    Outdated,
    /// The swap chain is gone and has to be made again.
    Lost,
    /// No memory is left for a new frame.
    OutOfMemory,
}

/// The extent that the presentable surface is configured with.
#[derive(Clone, Copy, Debug, PartialEq, Eq, Structural)]
pub struct SurfaceConfig {
    pub width: u32,
    pub height: u32,
}

/// One indexed draw of the render pass.
#[derive(Clone, Copy, Debug, PartialEq, Eq, Structural)]
pub struct DrawCall {
    /// Indices `0..index_count` of the index buffer are drawn.
    pub index_count: u32,
    /// Added to each index before it picks a vertex.
    pub base_vertex: i32,
    /// Instances `0..instance_count` are drawn.
    pub instance_count: u32,
}

/// The host's side of the presentation engine.
#[derive(Clone, Copy, Debug)]
pub struct Renderer {
    num_indices: u32,
    size: UVec2,
}

impl Renderer {
    #[verifier::type_invariant]
    spec fn draws_the_quad(self) -> bool {
        self.num_indices == QUAD_INDEX_COUNT
    }

    /// The extent that the engine last took over: the one it was made with,
    /// or that of the last resize that was not ignored.
    pub closed spec fn extent(&self) -> UVec2 {
        self.size
    }

    /// An engine that presents to a surface of `size` pixels.
    pub fn new(size: UVec2) -> (renderer: Renderer)
        ensures
            renderer.extent() == size,
    {
        let indices = quad_indices();
        Renderer { num_indices: indices.len() as u32, size }
    }

    /// The extent that the engine last took over.
    pub fn size(&self) -> (size: UVec2)
        ensures
            size == self.extent(),
    {
        self.size
    }

    /// The number of indices that one frame draws: always the quad's six.
    pub fn num_indices(&self) -> (count: u32)
        ensures
            count == QUAD_INDEX_COUNT,
    {
        proof {
            use_type_invariant(self);
        }
        self.num_indices
    }

    /// Takes over a new extent of the window.
    ///
    /// Where both extents are positive, the surface's configuration and the
    /// engine's stored size become `new_size`, and the result is `true`: the
    /// caller has to configure the surface anew. A resize without area, as a
    /// minimised window reports it, changes nothing and returns `false`.
    pub fn resize(&mut self, new_size: UVec2, surface: &mut SurfaceConfig) -> (reconfigure: bool)
        ensures
            reconfigure == new_size.has_area(),
            reconfigure ==> final(self).extent() == new_size && *final(surface) == (SurfaceConfig {
                width: new_size.x,
                height: new_size.y,
            }),
            !reconfigure ==> *final(self) == *old(self) && *final(surface) == *old(surface),
    {
        if new_size.x > 0 && new_size.y > 0 {
            proof {
                use_type_invariant(&*self);
            }
            surface.width = new_size.x;
            surface.height = new_size.y;
            self.size = UVec2::new(new_size.x, new_size.y);
            true
        } else {
            false
        }
    }

    /// The engine has no use for events of the loop: it stays as it is.
    pub fn handle_events(&mut self, _event: &Event)
        ensures
            *final(self) == *old(self),
    {
    }

    /// Decides what a frame draws, once the surface image was asked for.
    ///
    /// `acquired` is how the acquisition ended. A failure is passed on as it
    /// is and nothing is drawn. Otherwise the frame is one draw of the quad:
    /// all six indices from the first, no vertex offset, one instance.
    pub fn render(&self, acquired: Result<(), PresentError>) -> (frame: Result<
        DrawCall,
        PresentError,
    >)
        ensures
            match acquired {
                Ok(_) => frame == Ok::<DrawCall, PresentError>(
                    DrawCall { index_count: QUAD_INDEX_COUNT, base_vertex: 0, instance_count: 1 },
                ),
                Err(e) => frame == Err::<DrawCall, PresentError>(e),
            },
    {
        match acquired {
            Ok(_) => Ok(
                DrawCall { index_count: self.num_indices(), base_vertex: 0, instance_count: 1 },
            ),
            Err(e) => Err(e),
        }
    }
}

} // verus!
