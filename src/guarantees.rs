use vstd::prelude::*;

use crate::passes::{
    binding_of, ceil_div, pixel_after, CameraUniform, Command, DispatchStage, LoadOp,
    BACKGROUND_RGBA, FLAT_WORKGROUP_SIZE, IMAGE_WORKGROUP_SIDE,
};
use crate::renderer::{
    commands_upto, depth_before, raster_before, standard_kinds, RendererView,
};
use crate::surface::MIN_SURFACE_DIM;

verus! {

/// The commands of one frame of a well-formed renderer, written out.
pub open spec fn frame_shape(v: RendererView) -> Seq<Command> {
    let g = v.targets.generation;
    let w = v.targets.width() as int;
    let h = v.targets.height() as int;
    seq![
        Command::Raster { pass: 0, color: LoadOp::Clear, depth: None, camera: None, generation: g },
        Command::Raster { pass: 1, color: LoadOp::Load, depth: None, camera: None, generation: g },
        Command::Raster {
            pass: 2,
            color: LoadOp::Load,
            depth: Some(LoadOp::Clear),
            camera: Some(v.camera),
            generation: g,
        },
        Command::Dispatch {
            pass: 3,
            stage: DispatchStage::Image,
            x: ceil_div(w, IMAGE_WORKGROUP_SIDE as int) as u64,
            y: ceil_div(h, IMAGE_WORKGROUP_SIDE as int) as u64,
            z: 1,
            generation: g,
        },
        Command::Dispatch { pass: 4, stage: DispatchStage::Reset, x: 1, y: 1, z: 1, generation: g },
        Command::Dispatch {
            pass: 4,
            stage: DispatchStage::Scatter,
            x: ceil_div(w * h, FLAT_WORKGROUP_SIZE as int) as u64,
            y: 1,
            z: 1,
            generation: g,
        },
        Command::Blit { pass: 5, generation: g },
    ]
}

/// A frame records the three rasterization passes (the first clears the
/// color target, the camera-aware one clears depth), then the image-space
/// dispatch, the reset and scatter dispatches, and the blit, all against the
/// current target set.
pub proof fn lemma_frame_shape(v: RendererView)
    requires
        v.wf(),
    ensures
        v.frame_commands() == frame_shape(v),
{
    let p = v.passes;
    let s = v.targets;
    let c = v.camera;
    assert(standard_kinds().len() == 6);
    assert(p[0].kind == standard_kinds()[0]);
    assert(p[1].kind == standard_kinds()[1]);
    assert(p[2].kind == standard_kinds()[2]);
    assert(p[3].kind == standard_kinds()[3]);
    assert(p[4].kind == standard_kinds()[4]);
    assert(p[5].kind == standard_kinds()[5]);
    assert(p[3].binding == Some(binding_of(s)));
    assert(p[4].binding == Some(binding_of(s)));
    assert(p[5].binding == Some(binding_of(s)));
    reveal_with_fuel(raster_before, 7);
    reveal_with_fuel(depth_before, 7);
    reveal_with_fuel(commands_upto, 7);
    assert(v.frame_commands() =~= frame_shape(v));
}


/// After `resize(width, height)` with both at least the minimum size, every
/// target of the held set has exactly that size, and every pass's binding
/// set was built against that set; when a new set was built, no binding
/// refers to the discarded one.
pub proof fn lemma_resize_rebinds_every_pass(
    before: RendererView,
    after: RendererView,
    width: u32,
    height: u32,
)
    requires
        before.wf(),
        before.resized(after, width, height),
        width >= MIN_SURFACE_DIM,
        height >= MIN_SURFACE_DIM,
    ensures
        after.wf(),
        after.targets.color.has_size(width, height),
        after.targets.storage.has_size(width, height),
        after.targets.depth.has_size(width, height),
        forall|i: int|
            0 <= i < after.passes.len() && (#[trigger] after.passes[i]).binding is Some
                ==> after.passes[i].binding.unwrap().generation == after.targets.generation
                && after.passes[i].binding.unwrap().width == width
                && after.passes[i].binding.unwrap().height == height,
        after.targets.generation != before.targets.generation ==> forall|i: int|
            0 <= i < after.passes.len() && (#[trigger] after.passes[i]).binding is Some
                ==> after.passes[i].binding.unwrap().generation != before.targets.generation,
{
    if !(width == before.config.width && height == before.config.height) {
        assert forall|i: int| 0 <= i < after.passes.len() implies {
            &&& (#[trigger] after.passes[i]).kind == standard_kinds()[i]
            &&& after.passes[i].pipeline == i
        } by {
            assert(before.passes[i].kind == standard_kinds()[i]);
        }
    }
}

/// Resizing twice to the same size (at least the minimum) leaves the second
/// call without effect: the same target set, the same bindings.
pub proof fn lemma_resize_idempotent(
    first: RendererView,
    second: RendererView,
    third: RendererView,
    width: u32,
    height: u32,
)
    requires
        first.wf(),
        first.resized(second, width, height),
        second.resized(third, width, height),
        width >= MIN_SURFACE_DIM,
        height >= MIN_SURFACE_DIM,
    ensures
        third == second,
        third.targets.generation == second.targets.generation,
{
}

/// In a recorded frame each scatter dispatch comes right after the reset
/// dispatch of the same pass and target set, so the zeroed counter is what
/// the scatter starts from.
pub proof fn lemma_reset_precedes_scatter(v: RendererView)
    requires
        v.wf(),
    ensures
        forall|j: int|
            0 <= j < v.frame_commands().len() && (#[trigger] v.frame_commands()[j]).is_dispatch(
                DispatchStage::Scatter,
            ) ==> {
                &&& j > 0
                &&& v.frame_commands()[j - 1].is_dispatch(DispatchStage::Reset)
                &&& v.frame_commands()[j - 1].pass_index() == v.frame_commands()[j].pass_index()
                &&& v.frame_commands()[j - 1].generation() == v.frame_commands()[j].generation()
            },
        exists|j: int|
            0 <= j < v.frame_commands().len() && (#[trigger] v.frame_commands()[j]).is_dispatch(
                DispatchStage::Scatter,
            ),
{
    lemma_frame_shape(v);
    assert(v.frame_commands()[5].is_dispatch(DispatchStage::Scatter));
}

/// Every command of a recorded frame refers to the target set the renderer
/// holds, and the compute grids cover every pixel of it.
pub proof fn lemma_frame_uses_current_targets(v: RendererView)
    requires
        v.wf(),
    ensures
        forall|j: int|
            0 <= j < v.frame_commands().len() ==> (#[trigger] v.frame_commands()[j]).generation()
                == v.targets.generation,
        forall|j: int|
            #![trigger v.frame_commands()[j]]
            0 <= j < v.frame_commands().len() ==> match v.frame_commands()[j] {
                Command::Dispatch { stage: DispatchStage::Image, x, y, .. } => x
                    * IMAGE_WORKGROUP_SIDE >= v.targets.width() && y * IMAGE_WORKGROUP_SIDE
                    >= v.targets.height(),
                Command::Dispatch { stage: DispatchStage::Scatter, x, .. } => x
                    * FLAT_WORKGROUP_SIZE >= v.targets.width() * v.targets.height(),
                _ => true,
            },
{
    lemma_frame_shape(v);
    let w = v.targets.width() as int;
    let h = v.targets.height() as int;
    assert(ceil_div(w, 8) * 8 >= w) by (nonlinear_arith)
        requires w >= 0;
    assert(ceil_div(h, 8) * 8 >= h) by (nonlinear_arith)
        requires h >= 0;
    assert(ceil_div(w * h, 64) * 64 >= w * h) by (nonlinear_arith)
        requires w >= 0, h >= 0;
    assert(0 <= ceil_div(w * h, 64) <= w * h) by (nonlinear_arith)
        requires w >= 1, h >= 1;
    assert(w * h <= 0xffff_ffff * 0xffff_ffff) by (nonlinear_arith)
        requires 0 <= w <= 0xffff_ffff, 0 <= h <= 0xffff_ffff;
}

/// After the camera uniform was set to `view_proj`, the camera-aware pass of
/// the next recorded frame binds exactly that matrix, and no command carries
/// another one.
pub proof fn lemma_camera_matrix_is_current(before: RendererView, view_proj: [u32; 16])
    requires
        before.wf(),
    ensures
        ({
            let after = RendererView { camera: CameraUniform { view_proj }, ..before };
            &&& exists|j: int|
                0 <= j < after.frame_commands().len() && (#[trigger] after.frame_commands()[j]).camera_matrix()
                    == Some(view_proj)
            &&& forall|j: int|
                0 <= j < after.frame_commands().len() && (#[trigger] after.frame_commands()[j]).camera_matrix() is Some
                    ==> after.frame_commands()[j].camera_matrix() == Some(view_proj)
        }),
{
    let after = RendererView { camera: CameraUniform { view_proj }, ..before };
    lemma_frame_shape(after);
    assert(after.frame_commands()[2].camera_matrix() == Some(view_proj));
}

/// The color load operations of the rasterization passes among `cmds`, in order.
pub open spec fn raster_color_loads(cmds: Seq<Command>) -> Seq<LoadOp>
    decreases cmds.len(),
{
    if cmds.len() == 0 {
        seq![]
    } else {
        let rest = raster_color_loads(cmds.drop_last());
        match cmds.last() {
            Command::Raster { color, .. } => rest.push(color),
            _ => rest,
        }
    }
}

/// A pixel of the color target after rasterization passes with load
/// operations `loads`, where pass `k` drew `draws[k]` there (or nothing).
pub open spec fn pixel_through(loads: Seq<LoadOp>, prev: u32, draws: Seq<Option<u32>>) -> u32
    decreases loads.len(),
{
    if loads.len() == 0 || draws.len() == 0 {
        prev
    } else {
        pixel_after(
            loads.last(),
            pixel_through(loads.drop_last(), prev, draws.drop_last()),
            draws.last(),
        )
    }
}

/// The color of the last draw among `draws`, or `fallback` when none drew.
pub open spec fn latest_draw(draws: Seq<Option<u32>>, fallback: u32) -> u32
    decreases draws.len(),
{
    if draws.len() == 0 {
        fallback
    } else {
        match draws.last() {
            Some(c) => c,
            None => latest_draw(draws.drop_last(), fallback),
        }
    }
}

proof fn lemma_clear_then_loads(loads: Seq<LoadOp>, prev: u32, draws: Seq<Option<u32>>)
    requires
        loads.len() >= 1,
        draws.len() == loads.len(),
        loads[0] == LoadOp::Clear,
        forall|k: int| 1 <= k < loads.len() ==> loads[k] == LoadOp::Load,
    ensures
        pixel_through(loads, prev, draws) == latest_draw(draws, BACKGROUND_RGBA),
    decreases loads.len(),
{
    let shorter = loads.drop_last();
    if loads.len() > 1 {
        assert(shorter[0] == loads[0]);
        assert forall|k: int| 1 <= k < shorter.len() implies shorter[k] == LoadOp::Load by {
            assert(shorter[k] == loads[k]);
        }
        lemma_clear_then_loads(shorter, prev, draws.drop_last());
        assert(loads.last() == LoadOp::Load);
    } else {
        assert(loads.last() == LoadOp::Clear);
        assert(draws.drop_last().len() == 0);
        assert(shorter.len() == 0);
        assert(latest_draw(draws.drop_last(), BACKGROUND_RGBA) == BACKGROUND_RGBA);
        assert(pixel_through(shorter, prev, draws.drop_last()) == prev);
    }
    assert(pixel_through(loads, prev, draws) == pixel_after(
        loads.last(),
        pixel_through(shorter, prev, draws.drop_last()),
        draws.last(),
    ));
}

/// Within one frame the first rasterization pass clears the color target
/// and the later ones load it: whatever the pixel held before the frame, it
/// ends up with the color of the last pass that drew there, or the
/// background when no pass drew there.
pub proof fn lemma_first_raster_clears_later_load(
    v: RendererView,
    prev: u32,
    draws: Seq<Option<u32>>,
)
    requires
        v.wf(),
        draws.len() == raster_color_loads(v.frame_commands()).len(),
    ensures
        raster_color_loads(v.frame_commands()).len() >= 1,
        raster_color_loads(v.frame_commands())[0] == LoadOp::Clear,
        forall|k: int|
            1 <= k < raster_color_loads(v.frame_commands()).len() ==> #[trigger] raster_color_loads(
                v.frame_commands(),
            )[k] == LoadOp::Load,
        pixel_through(raster_color_loads(v.frame_commands()), prev, draws) == latest_draw(
            draws,
            BACKGROUND_RGBA,
        ),
{
    lemma_frame_shape(v);
    let f = frame_shape(v);
    reveal_with_fuel(raster_color_loads, 8);
    assert(f.drop_last().drop_last().drop_last().drop_last() =~= f.take(3));
    assert(raster_color_loads(f) =~= seq![LoadOp::Clear, LoadOp::Load, LoadOp::Load]);
    lemma_clear_then_loads(raster_color_loads(f), prev, draws);
}

} // verus!
