//! The compute pass: its dispatch grid and its parameter block.

use vstd::prelude::*;
use crate::bytes::{is_memory_of_u32s, memory_of_five_words, to_unsigned, twos_complement};
use crate::math::{ceil_div, covers, lemma_ceil_div_bounds, lemma_ceil_div_least, UVec2};

verus! {

/// Threads along each axis of one workgroup of the Mandelbrot kernel.
pub const WORKGROUP_SIZE: (u32, u32) = (16, 16);

/// Bytes in the kernel's parameter block.
pub const PARAMS_LEN: usize = 20;

/// The parameters of one compute pass: the rectangle of the complex plane
/// that the image samples, and the iteration cap.
///
/// The four bounds are single-precision numbers, held here as their IEEE 754
/// bit patterns: this crate lays them out and never computes with them.
#[derive(Clone, Copy, Debug, PartialEq, Eq, Structural)]
pub struct MandelbrotParams {
    pub x_min: u32,
    pub x_max: u32,
    pub y_min: u32,
    pub y_max: u32,
    pub max_iterations: i32,
}

impl MandelbrotParams {
    /// The five words of the parameter block in the order in which the
    /// kernel declares them: `x_min`, `x_max`, `y_min`, `y_max`, and the
    /// iteration cap as a signed word.
    pub open spec fn words(self) -> Seq<u32> {
        seq![self.x_min, self.x_max, self.y_min, self.y_max, twos_complement(self.max_iterations)]
    }

    /// The parameter block as the kernel reads it: twenty bytes, the five
    /// words of [`Self::words`] in order, in the byte order of the host.
    pub fn to_bytes(&self) -> (block: Vec<u8>)
        ensures
            block@.len() == PARAMS_LEN,
            is_memory_of_u32s(block@, self.words()),
    {
        let words: [u32; 5] = [
            self.x_min,
            self.x_max,
            self.y_min,
            self.y_max,
            to_unsigned(self.max_iterations),
        ];
        assert(words@ =~= self.words());
        memory_of_five_words(&words)
    }
}

/// What one compute pass hands to the device.
#[derive(Debug, PartialEq, Eq)]
pub struct Dispatch {
    /// The contents of the read-only parameter block.
    pub params: Vec<u8>,
    /// Workgroups along x, y and z.
    pub workgroups: (u32, u32, u32),
}

/// The host's side of the compute engine: the extent of the output image,
/// fixed when the engine is made.
#[derive(Clone, Copy, Debug)]
pub struct Computer {
    texture_size: UVec2,
}

impl Computer {
    /// The extent of the output image.
    pub closed spec fn size(&self) -> UVec2 {
        self.texture_size
    }

    /// An engine that writes an output image of `size` pixels.
    pub fn new(size: UVec2) -> (computer: Computer)
        ensures
            computer.size() == size,
    {
        Computer { texture_size: size }
    }

    /// The extent of the output image.
    pub fn texture_size(&self) -> (size: UVec2)
        ensures
            size == self.size(),
    {
        self.texture_size
    }

    /// Plans one pass over the output image with the given parameters.
    ///
    /// The parameter block is `params` laid out as the kernel reads it. The
    /// grid is two-dimensional: along x and y the least number of 16 by 16
    /// workgroups that covers the image, and a single layer along z.
    pub fn run(&self, params: &MandelbrotParams) -> (pass: Dispatch)
        ensures
            pass.params@.len() == PARAMS_LEN,
            is_memory_of_u32s(pass.params@, params.words()),
            pass.workgroups.0 == ceil_div(self.size().x as nat, WORKGROUP_SIZE.0 as nat),
            pass.workgroups.1 == ceil_div(self.size().y as nat, WORKGROUP_SIZE.1 as nat),
            pass.workgroups.2 == 1,
            covers(pass.workgroups.0 as nat, WORKGROUP_SIZE.0 as nat, self.size().x as nat),
            covers(pass.workgroups.1 as nat, WORKGROUP_SIZE.1 as nat, self.size().y as nat),
            forall|k: nat|
                covers(k, WORKGROUP_SIZE.0 as nat, self.size().x as nat) ==> k
                    >= pass.workgroups.0,
            forall|k: nat|
                covers(k, WORKGROUP_SIZE.1 as nat, self.size().y as nat) ==> k
                    >= pass.workgroups.1,
    {
        let block = params.to_bytes();
        let grid: (u32, u32) = compute_work_group_count(
            (self.texture_size.x, self.texture_size.y),
            WORKGROUP_SIZE,
        );
        Dispatch { params: block, workgroups: (grid.0, grid.1, 1) }
    }
}

/// The number of workgroups, along each axis, that a dispatch needs so that
/// every pixel of a `size.0` by `size.1` image falls to some thread, when one
/// workgroup covers `workgroup.0` by `workgroup.1` pixels.
///
/// Each count is the quotient rounded up. It covers the axis, and it is the
/// least count that does: where the extent is no multiple of the workgroup's,
/// the last workgroup reaches past the edge and the kernel discards what lies
/// outside.
pub fn compute_work_group_count(size: (u32, u32), workgroup: (u32, u32)) -> (grid: (u32, u32))
    requires
        workgroup.0 > 0,
        workgroup.1 > 0,
    ensures
        grid.0 == ceil_div(size.0 as nat, workgroup.0 as nat),
        grid.1 == ceil_div(size.1 as nat, workgroup.1 as nat),
        covers(grid.0 as nat, workgroup.0 as nat, size.0 as nat),
        covers(grid.1 as nat, workgroup.1 as nat, size.1 as nat),
        forall|k: nat| covers(k, workgroup.0 as nat, size.0 as nat) ==> k >= grid.0,
        forall|k: nat| covers(k, workgroup.1 as nat, size.1 as nat) ==> k >= grid.1,
{
    let x: u32 = groups_along(size.0, workgroup.0);
    let y: u32 = groups_along(size.1, workgroup.1);
    (x, y)
}

/// The workgroups along one axis: `extent / workgroup`, rounded up, computed
/// without leaving the range of `u32`.
fn groups_along(extent: u32, workgroup: u32) -> (count: u32)
    requires
        workgroup > 0,
    ensures
        count == ceil_div(extent as nat, workgroup as nat),
        covers(count as nat, workgroup as nat, extent as nat),
        forall|k: nat| covers(k, workgroup as nat, extent as nat) ==> k >= count,
{
    proof {
        lemma_ceil_div_bounds(extent as nat, workgroup as nat);
        assert forall|k: nat| covers(k, workgroup as nat, extent as nat) implies k >= ceil_div(
            extent as nat,
            workgroup as nat,
        ) by {
            lemma_ceil_div_least(extent as nat, workgroup as nat, k);
        }
    }
    let whole: u32 = extent / workgroup;
    if extent % workgroup == 0 {
        whole
    } else {
        assert(whole < u32::MAX) by (nonlinear_arith)
            requires
                whole == extent / workgroup,
                extent % workgroup != 0,
                workgroup > 0,
                extent <= u32::MAX,
        ;
        whole + 1
    }
}

/// Bytes that the start of each row of a texture copy is aligned to.
pub const ROW_ALIGNMENT: usize = 256;

/// The length in bytes of one row of `width` four-byte pixels, padded up to
/// a whole number of alignment units.
pub open spec fn padded_row_len(width: nat) -> nat {
    ceil_div(4 * width, 256) * 256
}

/// The number of bytes that one row of `width` pixels takes in a buffer
/// that the output image is copied to: four bytes for each pixel, rounded up
/// to the next multiple of 256.
///
/// The result has to fit the host's `usize`. Where `usize` has 64 bits every
/// width does; where it has 32, every width up to `0x3fff_ffc0`.
pub fn padded_bytes_per_row(width: u32) -> (padded: usize)
    requires
        padded_row_len(width as nat) <= usize::MAX,
    ensures
        padded == padded_row_len(width as nat),
        padded % ROW_ALIGNMENT == 0,
        4 * width <= padded < 4 * width + ROW_ALIGNMENT,
{
    proof {
        lemma_ceil_div_bounds(4 * (width as nat), 256);
    }
    let bytes_per_row: usize = width as usize * 4;
    let padding: usize = (256 - bytes_per_row % 256) % 256;
    bytes_per_row + padding
}

} // verus!
