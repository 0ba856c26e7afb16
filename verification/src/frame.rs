//! Per-frame submission planning: resolve the shared uniforms, gather
//! and cull the drawables, and minimize pipeline switches.
//!
//! One frame is planned as a pure decision: given the registry and the
//! frame's entities in iteration order, [`build_frame_plan`] produces the
//! ordered commands the GPU layer executes — which camera feeds the
//! frame, which light uniforms to write, and the walk of pipeline binds
//! and draw calls.

use vstd::prelude::*;

use crate::asset_manager::AssetManager;
use crate::assets::{AssetRef, Error};
use crate::light::{Light, LightUniform};
use crate::math::{dist_sq, dist_sq_spec, Vec3Fx};
use crate::renderer::{draw_call_of, DrawCall, Renderable};
use crate::sprite::Sprite;
use crate::transform::Transform;

verus! {

/// The squared cull distance: 100 world units, squared, in squared
/// fixed-point units ((100 * 65536)^2).  An entity at squared distance
/// at or beyond this from the active camera is excluded from the draw
/// queue; the boundary is exclusive at exactly 100 units.
pub const CULL_DISTANCE_SQ: i128 = 6553600 * 6553600;

/// One light's per-frame update: which light it is, the uniform to
/// write into its buffer, and the buffer and bind group identifiers.
/// Updates are emitted for every light in iteration order; the pass
/// binds a single light slot, so the last one bound is in effect.
#[derive(Debug, Clone, Copy, PartialEq, Eq, Structural)]
pub struct LightUpdate {
    pub index: usize,
    pub uniform: LightUniform,
    pub buffer: u64,
    pub bind_group: u64,
}

/// One step of the draw walk.
#[derive(Debug, Clone, Copy, PartialEq, Eq, Structural)]
pub enum DrawStep {
    /// Bind the pipeline with this identifier.
    BindPipeline { pipeline: u64 },
    /// Submit this draw call.
    Draw { call: DrawCall },
}

/// A planned frame: the camera that feeds the frame's draws, the light
/// uniform writes, and the ordered pipeline binds and draw calls.
pub struct FramePlan {
    pub active_camera: Option<usize>,
    pub light_updates: Vec<LightUpdate>,
    pub steps: Vec<DrawStep>,
}

/// The world position culling measures from: the first camera's
/// position, or the origin when no camera is present.
pub open spec fn camera_position_spec(cameras: Seq<Transform>) -> Vec3Fx {
    if cameras.len() > 0 {
        cameras[0].position
    } else {
        Vec3Fx { x: 0, y: 0, z: 0 }
    }
}

/// The update of light `j`: its uniform recomputed from its transform
/// and color.
pub open spec fn light_update_spec(lights: Seq<(Light, Transform)>, j: int) -> LightUpdate {
    LightUpdate {
        index: j as usize,
        uniform: LightUniform { position: lights[j].1.position, color: lights[j].0.color },
        buffer: lights[j].0.buffer,
        bind_group: lights[j].0.bind_group,
    }
}

/// The updates of all lights, in iteration order.
pub open spec fn light_updates_spec(lights: Seq<(Light, Transform)>) -> Seq<LightUpdate> {
    Seq::new(lights.len(), |j: int| light_update_spec(lights, j))
}

/// The draw queue: the indices of the sprites that survive culling, in
/// iteration order.  Each sprite's material is resolved first (the first
/// failure is the frame's error); an entity at squared distance at or
/// beyond the cull threshold from the camera position is skipped
/// entirely.
pub open spec fn cull_spec(
    am: AssetManager,
    camera_position: Vec3Fx,
    sprites: Seq<(Sprite, Transform)>,
) -> Result<Seq<int>, Error>
    decreases sprites.len(),
{
    if sprites.len() == 0 {
        Ok(Seq::empty())
    } else {
        let i = sprites.len() - 1;
        match cull_spec(am, camera_position, sprites.drop_last()) {
            Err(e) => Err(e),
            Ok(q) => match am.materials.resolve_spec(sprites[i].0.material) {
                Err(e) => Err(e),
                Ok(_) => {
                    if dist_sq_spec(sprites[i].1.position, camera_position) < CULL_DISTANCE_SQ {
                        Ok(q.push(i))
                    } else {
                        Ok(q)
                    }
                },
            },
        }
    }
}

/// The name of a pipeline handle, when it has one.
pub open spec fn name_of(r: AssetRef) -> Option<Seq<char>> {
    match r.name {
        Some(n) => Some(n@),
        None => None,
    }
}

/// Whether the walk keeps the currently bound pipeline: only when a
/// pipeline is bound and both its handle and the next handle carry
/// names that agree.  Any nameless handle forces a rebind.
pub open spec fn same_pipeline(current: Option<Option<Seq<char>>>, next: AssetRef) -> bool {
    match (current, name_of(next)) {
        (Some(Some(c)), Some(n)) => c == n,
        _ => false,
    }
}

/// The draw walk over the queue: tracks the current pipeline handle by
/// resolved name, rebinds whenever the next entry's pipeline differs
/// (merging adjacent same-pipeline entries), and emits every entry's
/// draw call.  Returns the steps together with the walk's final current
/// pipeline name; the first failing resolution is the frame's error.
pub open spec fn walk_spec(
    am: AssetManager,
    sprites: Seq<(Sprite, Transform)>,
    queue: Seq<int>,
) -> Result<(Seq<DrawStep>, Option<Option<Seq<char>>>), Error>
    decreases queue.len(),
{
    if queue.len() == 0 {
        Ok((Seq::empty(), None))
    } else {
        match walk_spec(am, sprites, queue.drop_last()) {
            Err(e) => Err(e),
            Ok(acc) => {
                let i = queue.last();
                let s = sprites[i].0;
                let t = sprites[i].1;
                match am.materials.resolve_spec(s.material) {
                    Err(e) => Err(e),
                    Ok(mi) => {
                        let pipeline_ref = am.materials.resources()[mi].render_pipeline;
                        if same_pipeline(acc.1, pipeline_ref) {
                            match draw_call_of(am, s.mesh, s.material, t) {
                                Err(e) => Err(e),
                                Ok(call) => Ok((acc.0.push(DrawStep::Draw { call }), acc.1)),
                            }
                        } else {
                            match am.render_pipelines.resolve_spec(pipeline_ref) {
                                Err(e) => Err(e),
                                Ok(pi) => match draw_call_of(am, s.mesh, s.material, t) {
                                    Err(e) => Err(e),
                                    Ok(call) => Ok(
                                        (
                                            acc.0.push(
                                                DrawStep::BindPipeline {
                                                    pipeline: am.render_pipelines.resources()[pi].id,
                                                },
                                            ).push(DrawStep::Draw { call }),
                                            Some(name_of(pipeline_ref)),
                                        ),
                                    ),
                                },
                            }
                        }
                    },
                }
            },
        }
    }
}

/// A sequence of sprite indices, as mathematical integers.
pub open spec fn to_int_seq(q: Seq<usize>) -> Seq<int> {
    Seq::new(q.len(), |j: int| q[j] as int)
}

/// The walk state an exec current-pipeline borrow stands for.
pub open spec fn current_view(current: Option<&AssetRef>) -> Option<Option<Seq<char>>> {
    match current {
        Some(r) => Some(name_of(*r)),
        None => None,
    }
}

/// A culling error on a prefix is the error of every extension.
proof fn lemma_cull_err_extends(
    am: AssetManager,
    camera_position: Vec3Fx,
    sprites: Seq<(Sprite, Transform)>,
    n: int,
)
    requires
        0 <= n <= sprites.len(),
        cull_spec(am, camera_position, sprites.take(n)) is Err,
    ensures
        cull_spec(am, camera_position, sprites) == cull_spec(am, camera_position, sprites.take(n)),
    decreases sprites.len() - n,
{
    if n == sprites.len() {
        assert(sprites.take(n) =~= sprites);
    } else {
        assert(sprites.take(n + 1).drop_last() =~= sprites.take(n));
        lemma_cull_err_extends(am, camera_position, sprites, n + 1);
    }
}

/// A walk error on a queue prefix is the error of every extension.
proof fn lemma_walk_err_extends(
    am: AssetManager,
    sprites: Seq<(Sprite, Transform)>,
    queue: Seq<int>,
    n: int,
)
    requires
        0 <= n <= queue.len(),
        walk_spec(am, sprites, queue.take(n)) is Err,
    ensures
        walk_spec(am, sprites, queue) == walk_spec(am, sprites, queue.take(n)),
    decreases queue.len() - n,
{
    if n == queue.len() {
        assert(queue.take(n) =~= queue);
    } else {
        assert(queue.take(n + 1).drop_last() =~= queue.take(n));
        lemma_walk_err_extends(am, sprites, queue, n + 1);
    }
}

/// Law: every entry of the draw queue is the index of a sprite.
pub proof fn lemma_cull_queue_range(
    am: AssetManager,
    camera_position: Vec3Fx,
    sprites: Seq<(Sprite, Transform)>,
)
    ensures
        (match cull_spec(am, camera_position, sprites) {
            Ok(q) => forall|k: int| 0 <= k < q.len() ==> 0 <= #[trigger] q[k] < sprites.len(),
            Err(_) => true,
        }),
    decreases sprites.len(),
{
    if sprites.len() > 0 {
        lemma_cull_queue_range(am, camera_position, sprites.drop_last());
    }
}

/// Law: an entity survives culling exactly when its squared distance
/// from the camera position is strictly under the threshold — one at or
/// beyond 100 units is excluded from the draw queue, one strictly
/// inside is included, and the boundary is exclusive at exactly 100.
pub proof fn lemma_cull_membership(
    am: AssetManager,
    camera_position: Vec3Fx,
    sprites: Seq<(Sprite, Transform)>,
    i: int,
)
    requires
        0 <= i < sprites.len(),
    ensures
        (match cull_spec(am, camera_position, sprites) {
            Ok(q) => q.contains(i) <==> dist_sq_spec(sprites[i].1.position, camera_position)
                < CULL_DISTANCE_SQ,
            Err(_) => true,
        }),
    decreases sprites.len(),
{
    match cull_spec(am, camera_position, sprites) {
        Err(_) => {},
        Ok(q) => {
            let prefix = sprites.drop_last();
            let qp = cull_spec(am, camera_position, prefix)->Ok_0;
            lemma_cull_queue_range(am, camera_position, prefix);
            if i == sprites.len() - 1 {
                // The last element is in the queue exactly if it was pushed;
                // the prefix queue cannot contain it.
                assert(!qp.contains(i));
                if dist_sq_spec(sprites[i].1.position, camera_position) < CULL_DISTANCE_SQ {
                    assert(q == qp.push(i));
                    assert(q[q.len() - 1] == i);
                    assert(q.contains(i));
                } else {
                    assert(q == qp);
                }
            } else {
                lemma_cull_membership(am, camera_position, prefix, i);
                assert(prefix[i] == sprites[i]);
                if dist_sq_spec(sprites[i].1.position, camera_position) < CULL_DISTANCE_SQ {
                    assert(qp.contains(i));
                    let w = choose|k: int| 0 <= k < qp.len() && qp[k] == i;
                    assert(q[w] == i);
                    assert(q.contains(i));
                } else {
                    assert(!qp.contains(i));
                    if q.contains(i) {
                        let w = choose|k: int| 0 <= k < q.len() && q[k] == i;
                        assert(w < qp.len() || q == qp.push(sprites.len() - 1));
                        assert(qp.contains(i) || i == sprites.len() - 1);
                    }
                }
            }
        },
    }
}

/// Law: the camera processed first in iteration order is the only one
/// that feeds a frame's culling, so two frames whose camera lists share
/// the same first camera build identical draw queues — additional
/// cameras have no effect.
pub proof fn lemma_first_camera_decides(
    am: AssetManager,
    cameras1: Seq<Transform>,
    cameras2: Seq<Transform>,
    sprites: Seq<(Sprite, Transform)>,
)
    requires
        cameras1.len() > 0,
        cameras2.len() > 0,
        cameras1[0] == cameras2[0],
    ensures
        camera_position_spec(cameras1) == camera_position_spec(cameras2),
        cull_spec(am, camera_position_spec(cameras1), sprites) == cull_spec(
            am,
            camera_position_spec(cameras2),
            sprites,
        ),
{
}

/// Computes every light's uniform update, in iteration order.
fn plan_lights(lights: &Vec<(Light, Transform)>) -> (r: Vec<LightUpdate>)
    ensures
        r@ == light_updates_spec(lights@),
{
    let mut light_updates: Vec<LightUpdate> = Vec::new();
    let mut li: usize = 0;
    while li < lights.len()
        invariant
            li <= lights@.len(),
            light_updates@ == light_updates_spec(lights@).take(li as int),
        decreases lights@.len() - li,
    {
        let entry = &lights[li];
        let uniform = LightUniform { position: entry.1.position, color: entry.0.color };
        light_updates.push(
            LightUpdate { index: li, uniform, buffer: entry.0.buffer, bind_group: entry.0.bind_group },
        );
        proof {
            assert(light_updates@ =~= light_updates_spec(lights@).take(li as int + 1));
        }
        li += 1;
    }
    proof {
        assert(light_updates_spec(lights@).take(lights@.len() as int) =~= light_updates_spec(
            lights@,
        ));
    }
    light_updates
}

/// Builds the draw queue: resolves each sprite's material and culls
/// against the camera position.
fn cull_sprites(
    asset_manager: &AssetManager,
    camera_position: &Vec3Fx,
    sprites: &Vec<(Sprite, Transform)>,
) -> (r: Result<Vec<usize>, Error>)
    requires
        asset_manager.wf(),
        camera_position.bounded(),
        forall|i: int| 0 <= i < sprites@.len() ==> (#[trigger] sprites@[i]).1.wf(),
    ensures
        (match r {
            Ok(q) => {
                &&& cull_spec(*asset_manager, *camera_position, sprites@) == Ok::<
                    Seq<int>,
                    Error,
                >(to_int_seq(q@))
                &&& forall|k: int| 0 <= k < q@.len() ==> #[trigger] q@[k] < sprites@.len()
            },
            Err(e) => cull_spec(*asset_manager, *camera_position, sprites@) == Err::<
                Seq<int>,
                Error,
            >(e),
        }),
{
    let mut queue: Vec<usize> = Vec::new();
    let mut i: usize = 0;
    proof {
        assert(to_int_seq(queue@) =~= Seq::<int>::empty());
        assert(sprites@.take(0) =~= Seq::<(Sprite, Transform)>::empty());
    }
    while i < sprites.len()
        invariant
            i <= sprites@.len(),
            asset_manager.wf(),
            camera_position.bounded(),
            forall|j: int| 0 <= j < sprites@.len() ==> (#[trigger] sprites@[j]).1.wf(),
            forall|k: int| 0 <= k < queue@.len() ==> #[trigger] queue@[k] < i,
            cull_spec(*asset_manager, *camera_position, sprites@.take(i as int)) == Ok::<
                Seq<int>,
                Error,
            >(to_int_seq(queue@)),
        decreases sprites@.len() - i,
    {
        let pair = &sprites[i];
        proof {
            assert(sprites@.take(i as int + 1).drop_last() =~= sprites@.take(i as int));
        }
        match asset_manager.get_material(&pair.0.material) {
            Ok(_) => {},
            Err(e) => {
                proof {
                    assert(cull_spec(
                        *asset_manager,
                        *camera_position,
                        sprites@.take(i as int + 1),
                    ) == Err::<Seq<int>, Error>(e));
                    lemma_cull_err_extends(
                        *asset_manager,
                        *camera_position,
                        sprites@,
                        i as int + 1,
                    );
                }
                return Err(e);
            },
        };
        let d: i128 = dist_sq(&pair.1.position, camera_position);
        let ghost old_queue = queue@;
        if d < CULL_DISTANCE_SQ {
            queue.push(i);
            proof {
                assert(to_int_seq(queue@) =~= to_int_seq(old_queue).push(i as int));
            }
        }
        i += 1;
    }
    proof {
        assert(sprites@.take(sprites@.len() as int) =~= sprites@);
    }
    Ok(queue)
}

/// Walks the draw queue: rebinds the pipeline only when the next
/// entry's pipeline name differs from the current one, and emits every
/// entry's draw call.
fn walk_queue(
    asset_manager: &AssetManager,
    sprites: &Vec<(Sprite, Transform)>,
    queue: &Vec<usize>,
) -> (r: Result<Vec<DrawStep>, Error>)
    requires
        asset_manager.wf(),
        forall|i: int| 0 <= i < sprites@.len() ==> (#[trigger] sprites@[i]).1.wf(),
        forall|k: int| 0 <= k < queue@.len() ==> #[trigger] queue@[k] < sprites@.len(),
    ensures
        (match (r, walk_spec(*asset_manager, sprites@, to_int_seq(queue@))) {
            (Ok(steps), Ok(walk)) => steps@ == walk.0,
            (Err(e), Err(e2)) => e == e2,
            _ => false,
        }),
{
    let ghost full_queue = to_int_seq(queue@);
    let mut steps: Vec<DrawStep> = Vec::new();
    let mut current: Option<&AssetRef> = None;
    let mut k: usize = 0;
    proof {
        assert(full_queue.take(0) =~= Seq::<int>::empty());
    }
    while k < queue.len()
        invariant
            k <= queue@.len(),
            asset_manager.wf(),
            forall|j: int| 0 <= j < sprites@.len() ==> (#[trigger] sprites@[j]).1.wf(),
            forall|j: int| 0 <= j < queue@.len() ==> #[trigger] queue@[j] < sprites@.len(),
            full_queue == to_int_seq(queue@),
            walk_spec(*asset_manager, sprites@, full_queue.take(k as int)) == Ok::<
                (Seq<DrawStep>, Option<Option<Seq<char>>>),
                Error,
            >((steps@, current_view(current))),
        decreases queue@.len() - k,
    {
        let idx = queue[k];
        let pair = &sprites[idx];
        proof {
            assert(full_queue.take(k as int + 1).drop_last() =~= full_queue.take(k as int));
            assert(full_queue[k as int] == queue@[k as int] as int);
            assert(full_queue.take(k as int + 1).last() == idx as int);
        }
        let material = match asset_manager.get_material(&pair.0.material) {
            Ok(m) => m,
            Err(e) => {
                proof {
                    assert(walk_spec(*asset_manager, sprites@, full_queue.take(k as int + 1))
                        == Err::<(Seq<DrawStep>, Option<Option<Seq<char>>>), Error>(e));
                    lemma_walk_err_extends(*asset_manager, sprites@, full_queue, k as int + 1);
                }
                return Err(e);
            },
        };
        let pipeline_ref = &material.render_pipeline;
        let same: bool = match current {
            Some(c) => match (&c.name, &pipeline_ref.name) {
                (Some(a), Some(b)) => a.eq(b),
                _ => false,
            },
            None => false,
        };
        proof {
            assert(same == same_pipeline(current_view(current), *pipeline_ref));
        }
        if same {
            match pair.0.draw(asset_manager, &pair.1) {
                Ok(call) => {
                    steps.push(DrawStep::Draw { call });
                },
                Err(e) => {
                    proof {
                        assert(walk_spec(*asset_manager, sprites@, full_queue.take(k as int + 1))
                            == Err::<(Seq<DrawStep>, Option<Option<Seq<char>>>), Error>(e));
                        lemma_walk_err_extends(*asset_manager, sprites@, full_queue, k as int + 1);
                    }
                    return Err(e);
                },
            };
        } else {
            let pipeline = match asset_manager.get_pipeline(pipeline_ref) {
                Ok(p) => p,
                Err(e) => {
                    proof {
                        assert(walk_spec(*asset_manager, sprites@, full_queue.take(k as int + 1))
                            == Err::<(Seq<DrawStep>, Option<Option<Seq<char>>>), Error>(e));
                        lemma_walk_err_extends(*asset_manager, sprites@, full_queue, k as int + 1);
                    }
                    return Err(e);
                },
            };
            steps.push(DrawStep::BindPipeline { pipeline: pipeline.id });
            match pair.0.draw(asset_manager, &pair.1) {
                Ok(call) => {
                    steps.push(DrawStep::Draw { call });
                },
                Err(e) => {
                    proof {
                        assert(walk_spec(*asset_manager, sprites@, full_queue.take(k as int + 1))
                            == Err::<(Seq<DrawStep>, Option<Option<Seq<char>>>), Error>(e));
                        lemma_walk_err_extends(*asset_manager, sprites@, full_queue, k as int + 1);
                    }
                    return Err(e);
                },
            };
            current = Some(pipeline_ref);
        }
        k += 1;
    }
    proof {
        assert(full_queue.take(queue@.len() as int) =~= full_queue);
    }
    Ok(steps)
}

/// Plans one frame from the world's entities in iteration order.
///
/// The first (camera, transform) pair is the frame's active camera; any
/// later cameras are ignored.  Every light gets a uniform update, in
/// order.  Each sprite's material is resolved and the sprite is culled
/// against the active camera's position; the survivors' draw calls are
/// walked in order, rebinding the pipeline only when the next entry's
/// pipeline name differs from the current one.  The first failing
/// resolution aborts the plan with that error.
pub fn build_frame_plan(
    asset_manager: &AssetManager,
    cameras: &Vec<Transform>,
    lights: &Vec<(Light, Transform)>,
    sprites: &Vec<(Sprite, Transform)>,
) -> (r: Result<FramePlan, Error>)
    requires
        asset_manager.wf(),
        forall|i: int| 0 <= i < cameras@.len() ==> (#[trigger] cameras@[i]).wf(),
        forall|i: int| 0 <= i < sprites@.len() ==> (#[trigger] sprites@[i]).1.wf(),
    ensures
        (match cull_spec(*asset_manager, camera_position_spec(cameras@), sprites@) {
            Err(e) => r == Err::<FramePlan, Error>(e),
            Ok(queue) => match walk_spec(*asset_manager, sprites@, queue) {
                Err(e) => r == Err::<FramePlan, Error>(e),
                Ok(walk) => match r {
                    Ok(plan) => {
                        &&& plan.active_camera == (if cameras@.len() > 0 {
                            Some(0usize)
                        } else {
                            None::<usize>
                        })
                        &&& plan.light_updates@ == light_updates_spec(lights@)
                        &&& plan.steps@ == walk.0
                    },
                    Err(_) => false,
                },
            },
        }),
{
    let camera_position: Vec3Fx = if cameras.len() > 0 {
        cameras[0].position
    } else {
        Vec3Fx::zero()
    };
    let active_camera: Option<usize> = if cameras.len() > 0 {
        Some(0)
    } else {
        None
    };
    proof {
        assert(camera_position == camera_position_spec(cameras@));
        assert(camera_position.bounded());
    }
    let light_updates = plan_lights(lights);
    let queue = match cull_sprites(asset_manager, &camera_position, sprites) {
        Ok(q) => q,
        Err(e) => {
            return Err(e);
        },
    };
    let steps = match walk_queue(asset_manager, sprites, &queue) {
        Ok(s) => s,
        Err(e) => {
            return Err(e);
        },
    };
    Ok(FramePlan { active_camera, light_updates, steps })
}

} // verus!
