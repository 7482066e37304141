//! The compute pass that mixes the pattern layers into the output texture.
//!
//! The pass reads the layered pattern texture and writes one storage texture.
//! Each frame the node either dispatches the mixing shader over a fixed grid
//! of workgroups or does nothing: it dispatches once the pattern is ready and
//! both the pipeline and the bind group exist.

use vstd::prelude::*;
use crate::readiness::PatternState;

verus! {

/// The shader source of the mixing pass.
pub const MIXER_SHADER_PATH: &'static str = "shaders/mixer.wgsl";

/// Width and height of the mixed texture, in texels.
pub const TEXTURE_EXTENT: u32 = 512;

/// Width and height of one workgroup of the mixing shader, in texels.
pub const WORKGROUP_EXTENT: u32 = 8;

/// What a slot of the pass's bind-group layout holds.
#[derive(Clone, Copy, Debug, PartialEq, Eq, Structural)]
pub enum BindingKind {
    /// The pattern, read as a 2D array texture.
    LayeredTextureInput,
    /// The mixed texture, written as a storage texture.
    StorageTextureOutput,
}

/// The number of workgroups along each axis of a dispatch.
#[derive(Clone, Copy, Debug, PartialEq, Eq, Structural)]
pub struct DispatchGrid {
    pub x: u32,
    pub y: u32,
    pub z: u32,
}

/// One frame's dispatch: the pipeline to run, the bind group to run it with,
/// and the grid to run it over.
pub struct Dispatch<'a, P, B> {
    pub pipeline: &'a P,
    pub bind_group: &'a B,
    pub grid: DispatchGrid,
}

/// The two textures a bind group of the pass refers to.
pub struct BoundTextures<'a, H> {
    pub pattern: &'a H,
    pub mixed: &'a H,
}

/// `n` divided by `d`, rounded up.
pub open spec fn ceil_div(n: int, d: int) -> int
    recommends
        n >= 0,
        d > 0,
{
    (n + d - 1) / d
}

/// The grid every dispatch of the pass runs over.
pub open spec fn mixing_grid() -> DispatchGrid {
    DispatchGrid { x: 64, y: 64, z: 1 }
}

/// Rounding up gives the least number of workgroups of extent `d` that cover
/// `n` texels.
pub proof fn law_ceil_div_is_least_cover(n: int, d: int)
    requires
        n >= 0,
        d > 0,
    ensures
        ceil_div(n, d) * d >= n,
        (ceil_div(n, d) - 1) * d < n,
        ceil_div(n, d) == n / d + if n % d == 0 { 0int } else { 1int },
{
    let q = n / d;
    let r = n % d;
    assert(n == q * d + r && 0 <= r < d) by (nonlinear_arith)
        requires
            q == n / d,
            r == n % d,
            d > 0,
    ;
    if r == 0 {
        assert((q * d + d - 1) / d == q) by (nonlinear_arith)
            requires
                d > 0,
        ;
    } else {
        assert((q * d + r + d - 1) / d == q + 1) by (nonlinear_arith)
            requires
                d > 0,
                0 < r < d,
        ;
    }
    assert(ceil_div(n, d) * d >= n && (ceil_div(n, d) - 1) * d < n) by (nonlinear_arith)
        requires
            n == q * d + r,
            0 <= r < d,
            ceil_div(n, d) == q + if r == 0 { 0int } else { 1int },
    ;
}

/// The number of workgroups of extent `workgroup` needed to cover `extent`
/// texels along one axis.
pub fn workgroups(extent: u32, workgroup: u32) -> (count: u32)
    requires
        workgroup > 0,
    ensures
        count == ceil_div(extent as int, workgroup as int),
{
    proof {
        law_ceil_div_is_least_cover(extent as int, workgroup as int);
    }
    let whole: u32 = extent / workgroup;
    if extent % workgroup == 0 {
        whole
    } else {
        assert(whole < u32::MAX) by (nonlinear_arith)
            requires
                whole == extent as int / workgroup as int,
                extent as int % workgroup as int != 0,
                workgroup > 0,
                extent <= u32::MAX,
        ;
        whole + 1
    }
}

/// The grid of a dispatch: enough workgroups to cover the mixed texture in
/// width and in height, one deep. It depends on nothing.
pub fn dispatch_grid() -> (grid: DispatchGrid)
    ensures
        grid == mixing_grid(),
        grid.x == ceil_div(TEXTURE_EXTENT as int, WORKGROUP_EXTENT as int),
        grid.y == ceil_div(TEXTURE_EXTENT as int, WORKGROUP_EXTENT as int),
        grid.z == 1,
{
    let across: u32 = workgroups(TEXTURE_EXTENT, WORKGROUP_EXTENT);
    DispatchGrid { x: across, y: across, z: 1 }
}

/// The layout of the pass's bind group, slot by slot: the layered pattern to
/// read, then the storage texture to write.
pub fn bind_group_layout() -> (slots: Vec<BindingKind>)
    ensures
        slots@ == seq![BindingKind::LayeredTextureInput, BindingKind::StorageTextureOutput],
{
    let mut slots: Vec<BindingKind> = Vec::new();
    slots.push(BindingKind::LayeredTextureInput);
    slots.push(BindingKind::StorageTextureOutput);
    assert(slots@ =~= seq![BindingKind::LayeredTextureInput, BindingKind::StorageTextureOutput]);
    slots
}

/// The textures to build the bind group from, if it is to be built now. The
/// bind group is built once: when the pattern is ready and none was built
/// before, from the state's own pattern and mixed texture.
pub fn bind_group_textures<'a, H>(state: &'a PatternState<H>, built: bool) -> (textures: Option<
    BoundTextures<'a, H>,
>)
    ensures
        textures is Some <==> state@.loaded && !built,
        textures is Some ==> *textures->0.pattern == state@.pattern && *textures->0.mixed
            == state@.mixed,
{
    if state.is_loaded() && !built {
        Some(BoundTextures { pattern: state.pattern(), mixed: state.mixed() })
    } else {
        None
    }
}

/// What the node does in one frame. It dispatches exactly if the pattern is
/// ready and both the pipeline and the bind group are there; then it runs that
/// pipeline with that bind group over the fixed grid. Otherwise the frame is
/// skipped.
pub fn plan_dispatch<'a, P, B>(
    loaded: bool,
    pipeline: Option<&'a P>,
    bind_group: Option<&'a B>,
) -> (plan: Option<Dispatch<'a, P, B>>)
    ensures
        plan is Some <==> loaded && pipeline is Some && bind_group is Some,
        plan is Some ==> plan->0.pipeline == pipeline->0 && plan->0.bind_group == bind_group->0
            && plan->0.grid == mixing_grid(),
{
    if !loaded {
        return None;
    }
    match (pipeline, bind_group) {
        (Some(pipeline), Some(bind_group)) => Some(
            Dispatch { pipeline, bind_group, grid: dispatch_grid() },
        ),
        _ => None,
    }
}

} // verus!
