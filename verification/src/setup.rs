//! Bootstrap: the initial level layout — four bounding walls and the
//! centred grid of bricks.

use crate::factory::{BOUNCY, DEFAULT_FRICTION, FRICTIONLESS};
use crate::model::{Body, Collider, EntityData, GameEntity, Mobility, Shape};
use crate::session::{GameView, Session, spawn_view};
use crate::tag::{EntityKind, spec_encode};
use crate::units::{MAX_PX_MILLI, half_phys, phys_of_px};
use vstd::prelude::*;

verus! {

broadcast use vstd::std_specs::hash::group_hash_axioms;

/// What spawning one wall means on the model.
pub open spec fn wall_view(g: GameView, x: i64, y: i64, w: i64, h: i64, scale: u32) -> GameView {
    spawn_view(
        g,
        EntityData::Wall,
        Mobility::Static,
        Shape::Box {
            half_x: half_phys(w as int, scale) as i64,
            half_y: half_phys(h as int, scale) as i64,
        },
        BOUNCY,
        FRICTIONLESS,
        x,
        y,
        w,
        h,
        0,
        0,
        scale,
    )
}

/// The entity record of the brick at grid slot `j`, counting row by row.
pub open spec fn grid_brick(
    g: GameView,
    j: int,
    cols: int,
    x0: int,
    y0: int,
    w: int,
    h: int,
    sp: int,
) -> GameEntity {
    GameEntity {
        data: EntityData::Brick,
        body: Some((g.next_handle + 2 * j) as u64),
        collider: Some((g.next_handle + 2 * j + 1) as u64),
        x_px: (x0 + (j % cols) * (w + sp)) as i64,
        y_px: (y0 + (j / cols) * (h + sp)) as i64,
        w_px: w as i64,
        h_px: h as i64,
    }
}

/// The collider record of the brick at grid slot `j`.
pub open spec fn grid_brick_collider(g: GameView, j: int, w: int, h: int, scale: u32) -> Collider {
    Collider {
        parent: (g.next_handle + 2 * j) as u64,
        shape: Shape::Box {
            half_x: half_phys(w, scale) as i64,
            half_y: half_phys(h, scale) as i64,
        },
        restitution: BOUNCY,
        friction: DEFAULT_FRICTION,
        tag: spec_encode(EntityKind::Brick, Some((g.next_id + j) as u64)),
    }
}

/// The body record of the brick at grid slot `j`.
pub open spec fn grid_brick_body(
    g: GameView,
    j: int,
    cols: int,
    x0: int,
    y0: int,
    w: int,
    h: int,
    sp: int,
    scale: u32,
) -> Body {
    Body {
        mobility: Mobility::Static,
        x: phys_of_px(x0 + (j % cols) * (w + sp), scale) as i64,
        y: phys_of_px(y0 + (j / cols) * (h + sp), scale) as i64,
        vx: 0,
        vy: 0,
    }
}

/// All three records of the brick at grid slot `j`, as they stand in a
/// later model `gf` of a session that was `g0` when the grid was spawned.
pub open spec fn grid_slot_ok(
    g0: GameView,
    gf: GameView,
    j: int,
    cols: int,
    x0: int,
    y0: int,
    w: int,
    h: int,
    sp: int,
    scale: u32,
) -> bool {
    &&& gf.entities.dom().contains((g0.next_id + j) as u64)
    &&& gf.entities[(g0.next_id + j) as u64] == grid_brick(g0, j, cols, x0, y0, w, h, sp)
    &&& gf.colliders.dom().contains((g0.next_handle + 2 * j + 1) as u64)
    &&& gf.colliders[(g0.next_handle + 2 * j + 1) as u64] == grid_brick_collider(
        g0,
        j,
        w,
        h,
        scale,
    )
    &&& gf.bodies.dom().contains((g0.next_handle + 2 * j) as u64)
    &&& gf.bodies[(g0.next_handle + 2 * j) as u64] == grid_brick_body(
        g0,
        j,
        cols,
        x0,
        y0,
        w,
        h,
        sp,
        scale,
    )
}

/// The horizontal centre of the leftmost column that centres a grid of
/// `cols` bricks of width `w_px` with `spacing_px` between them around zero.
pub fn brick_grid_origin(cols: u32, w_px: i64, spacing_px: i64) -> (r: i64)
    requires
        1 <= cols <= 1000,
        0 <= w_px <= 1_000_000,
        0 <= spacing_px <= 1_000_000,
    ensures
        r == -((cols - 1) * (w_px + spacing_px) / 2),
{
    proof {
        assert(0 <= (cols - 1) * (w_px + spacing_px) <= 2_000_000_000) by (nonlinear_arith)
            requires
                0 <= cols - 1 <= 999,
                0 <= w_px + spacing_px <= 2_000_000,
        ;
    }
    let span: i64 = (cols as i64 - 1) * (w_px + spacing_px);
    let half: i64 = ((span as u64) / 2) as i64;
    -half
}

impl Session {
    /// Spawns the four bounding walls of a playfield of the given size, each
    /// `thickness_px` thick, centred on the origin: left, right, bottom,
    /// top.
    pub fn setup_walls(&mut self, level_w_px: i64, level_h_px: i64, thickness_px: i64)
        requires
            old(self).wf(),
            0 <= thickness_px,
            0 <= level_w_px,
            0 <= level_h_px,
            level_w_px + thickness_px <= MAX_PX_MILLI,
            level_h_px + thickness_px <= MAX_PX_MILLI,
            old(self)@.next_id + 4 < u64::MAX,
            old(self)@.next_handle + 8 < u64::MAX,
            old(self)@.score + 10 * old(self)@.entities.dom().len() + 40 <= u32::MAX,
        ensures
            final(self).wf(),
            final(self)@ == wall_view(
                wall_view(
                    wall_view(
                        wall_view(
                            old(self)@,
                            (-(level_w_px as int / 2)) as i64,
                            0,
                            thickness_px,
                            (level_h_px + thickness_px) as i64,
                            old(self).config.scale,
                        ),
                        (level_w_px as int / 2) as i64,
                        0,
                        thickness_px,
                        (level_h_px + thickness_px) as i64,
                        old(self).config.scale,
                    ),
                    0,
                    (-(level_h_px as int / 2)) as i64,
                    (level_w_px + thickness_px) as i64,
                    thickness_px,
                    old(self).config.scale,
                ),
                0,
                (level_h_px as int / 2) as i64,
                (level_w_px + thickness_px) as i64,
                thickness_px,
                old(self).config.scale,
            ),
            final(self).paddle_id == old(self).paddle_id,
            final(self).half_range == old(self).half_range,
            final(self).config == old(self).config,
    {
        let hw: i64 = ((level_w_px as u64) / 2) as i64;
        let hh: i64 = ((level_h_px as u64) / 2) as i64;
        let vert_h = level_h_px + thickness_px;
        let horiz_w = level_w_px + thickness_px;
        let ghost ga = self@;
        self.spawn_wall(-hw, 0, thickness_px, vert_h);
        proof {
            crate::session::lemma_fresh_id(ga);
            assert(self@.entities.dom().len() == ga.entities.dom().len() + 1);
        }
        let ghost gb = self@;
        self.spawn_wall(hw, 0, thickness_px, vert_h);
        proof {
            crate::session::lemma_fresh_id(gb);
            assert(self@.entities.dom().len() == gb.entities.dom().len() + 1);
        }
        let ghost gc = self@;
        self.spawn_wall(0, -hh, horiz_w, thickness_px);
        proof {
            crate::session::lemma_fresh_id(gc);
            assert(self@.entities.dom().len() == gc.entities.dom().len() + 1);
        }
        self.spawn_wall(0, hh, horiz_w, thickness_px);
    }

    /// Spawns a `rows` by `cols` grid of bricks, row by row from the given
    /// origin (the centre of the first brick, in milli-pixels), each brick
    /// `w_px` by `h_px` with `spacing_px` between neighbours.
    pub fn spawn_brick_grid(
        &mut self,
        rows: u32,
        cols: u32,
        x0_px: i64,
        y0_px: i64,
        w_px: i64,
        h_px: i64,
        spacing_px: i64,
    )
        requires
            old(self).wf(),
            1 <= rows <= 1000,
            1 <= cols <= 1000,
            0 <= w_px <= 1_000_000,
            0 <= h_px <= 1_000_000,
            0 <= spacing_px <= 1_000_000,
            -500_000_000 <= x0_px,
            x0_px + (cols - 1) * (w_px + spacing_px) <= 500_000_000,
            -500_000_000 <= y0_px,
            y0_px + (rows - 1) * (h_px + spacing_px) <= 500_000_000,
            old(self)@.next_id + rows * cols < u64::MAX,
            old(self)@.next_handle + 2 * (rows * cols) < u64::MAX,
            old(self)@.score + 10 * old(self)@.entities.dom().len() + 10 * (rows * cols)
                <= u32::MAX,
        ensures
            final(self).wf(),
            final(self)@.next_id == old(self)@.next_id + rows * cols,
            final(self)@.next_handle == old(self)@.next_handle + 2 * (rows * cols),
            final(self)@.score == old(self)@.score,
            final(self).paddle_id == old(self).paddle_id,
            final(self).half_range == old(self).half_range,
            final(self).config == old(self).config,
            forall|id: u64| #[trigger]
                old(self)@.entities.dom().contains(id) ==> final(self)@.entities.dom().contains(id)
                    && final(self)@.entities[id] == old(self)@.entities[id],
            forall|ch: u64| #[trigger]
                old(self)@.colliders.dom().contains(ch) ==> final(self)@.colliders.dom().contains(
                    ch,
                ) && final(self)@.colliders[ch] == old(self)@.colliders[ch],
            forall|bh: u64| #[trigger]
                old(self)@.bodies.dom().contains(bh) ==> final(self)@.bodies.dom().contains(bh)
                    && final(self)@.bodies[bh] == old(self)@.bodies[bh],
            forall|id: u64| #[trigger]
                final(self)@.entities.dom().contains(id) ==> old(self)@.entities.dom().contains(id)
                    || old(self)@.next_id <= id < old(self)@.next_id + rows * cols,
            forall|j: int|
                0 <= j < rows * cols ==> #[trigger] grid_slot_ok(
                    old(self)@,
                    final(self)@,
                    j,
                    cols as int,
                    x0_px as int,
                    y0_px as int,
                    w_px as int,
                    h_px as int,
                    spacing_px as int,
                    old(self).config.scale,
                ),
    {
        proof {
            assert(rows as int * cols as int <= 1_000_000) by (nonlinear_arith)
                requires
                    1 <= rows <= 1000,
                    1 <= cols <= 1000,
            ;
        }
        let n: u32 = rows * cols;
        let ghost g0 = self@;
        let mut j: u32 = 0;
        while j < n
            invariant
                self.wf(),
                j <= n,
                n == rows * cols,
                1 <= rows <= 1000,
                1 <= cols <= 1000,
                0 <= w_px <= 1_000_000,
                0 <= h_px <= 1_000_000,
                0 <= spacing_px <= 1_000_000,
                -500_000_000 <= x0_px,
                x0_px + (cols - 1) * (w_px + spacing_px) <= 500_000_000,
                -500_000_000 <= y0_px,
                y0_px + (rows - 1) * (h_px + spacing_px) <= 500_000_000,
                g0 == old(self)@,
                g0.next_id + rows * cols < u64::MAX,
                g0.next_handle + 2 * (rows * cols) < u64::MAX,
                g0.score + 10 * g0.entities.dom().len() + 10 * (rows * cols) <= u32::MAX,
                self@.next_id == g0.next_id + j,
                self@.next_handle == g0.next_handle + 2 * j,
                self@.score == g0.score,
                self@.entities.dom().len() == g0.entities.dom().len() + j,
                self.paddle_id == old(self).paddle_id,
                self.half_range == old(self).half_range,
                self.config == old(self).config,
                forall|id: u64| #[trigger]
                    g0.entities.dom().contains(id) ==> self@.entities.dom().contains(id)
                        && self@.entities[id] == g0.entities[id],
                forall|ch: u64| #[trigger]
                    g0.colliders.dom().contains(ch) ==> self@.colliders.dom().contains(ch)
                        && self@.colliders[ch] == g0.colliders[ch],
                forall|bh: u64| #[trigger]
                    g0.bodies.dom().contains(bh) ==> self@.bodies.dom().contains(bh)
                        && self@.bodies[bh] == g0.bodies[bh],
                forall|id: u64| #[trigger]
                    self@.entities.dom().contains(id) ==> g0.entities.dom().contains(id)
                        || g0.next_id <= id < g0.next_id + j,
                forall|jj: int|
                    0 <= jj < j ==> #[trigger] grid_slot_ok(
                        g0,
                        self@,
                        jj,
                        cols as int,
                        x0_px as int,
                        y0_px as int,
                        w_px as int,
                        h_px as int,
                        spacing_px as int,
                        old(self).config.scale,
                    ),
            decreases n - j,
        {
            let c: u32 = j % cols;
            let r: u32 = j / cols;
            proof {
                assert((j as int) / (cols as int) < rows as int) by (nonlinear_arith)
                    requires
                        0 < cols,
                        (j as int) < (rows as int) * (cols as int),
                ;
                assert(0 <= (c as int) * (w_px + spacing_px) <= (cols - 1) * (w_px
                    + spacing_px)) by (nonlinear_arith)
                    requires
                        0 <= c as int <= cols as int - 1,
                        0 <= w_px + spacing_px,
                ;
                assert(0 <= (r as int) * (h_px + spacing_px) <= (rows - 1) * (h_px
                    + spacing_px)) by (nonlinear_arith)
                    requires
                        0 <= r as int <= rows as int - 1,
                        0 <= h_px + spacing_px,
                ;
            }
            let x: i64 = x0_px + (c as i64) * (w_px + spacing_px);
            let y: i64 = y0_px + (r as i64) * (h_px + spacing_px);
            let ghost gp = self@;
            self.spawn_brick(x, y, w_px, h_px);
            proof {
                crate::session::lemma_fresh_id(gp);
                assert(self@.entities.dom().len() == gp.entities.dom().len() + 1);
                assert forall|jj: int| 0 <= jj < j + 1 implies #[trigger] grid_slot_ok(
                    g0,
                    self@,
                    jj,
                    cols as int,
                    x0_px as int,
                    y0_px as int,
                    w_px as int,
                    h_px as int,
                    spacing_px as int,
                    old(self).config.scale,
                ) by {
                    if jj < j {
                        assert(grid_slot_ok(
                            g0,
                            gp,
                            jj,
                            cols as int,
                            x0_px as int,
                            y0_px as int,
                            w_px as int,
                            h_px as int,
                            spacing_px as int,
                            old(self).config.scale,
                        ));
                    }
                }
            }
            j = j + 1;
        }
    }
}

} // verus!
