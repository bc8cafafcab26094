//! Draw-command batching: shared vertex and index buffers with a list of
//! coalesced commands.
use crate::geometry::{Position, Rect, Size};
use crate::image::ImageId;
use vstd::prelude::*;

verus! {

/// Types of drawing primitives.
#[derive(Debug, Clone, Copy, PartialEq, Eq, Structural, Hash)]
pub enum Primitive {
    Points,
    Lines,
    LineStrip,
    Triangles,
    TriangleStrip,
    TriangleFan,
}

/// A batch of primitives: a range of the shared index buffer drawn with one
/// render state.
#[derive(Debug, Clone, Copy, PartialEq, Eq, Structural, Hash)]
pub struct DrawCmdPrim {
    pub primitive: Primitive,
    /// Start of the range in the shared index buffer.
    pub idx_offset: usize,
    /// Number of indices in the range.
    pub idx_len: usize,
    pub texture: Option<ImageId>,
    pub viewport: Rect,
}

/// A single draw command; `C` is the color type of the backend.
#[derive(Debug, Clone, Copy, PartialEq)]
pub enum DrawCommand<C> {
    /// Fill the viewport with a color.
    Clear(C, Rect),
    Draw(DrawCmdPrim),
}

/// Errors of the draw queue.
#[derive(Debug, Clone, Copy, PartialEq, Eq, Structural, Hash)]
pub enum DrawError {
    /// An index refers past the vertices supplied with it.
    IndexOutOfBounds { idx: u32, nvert: u32 },
}

/// Buffer with draw commands to be sent to the backend; `V` is the vertex
/// type, `C` the color type.
#[derive(Debug)]
pub struct DrawQueue<V, C> {
    pub vertices: Vec<V>,
    pub indices: Vec<u32>,
    pub commands: Vec<DrawCommand<C>>,
}

/// The last command can take more indices for this render state.
pub open spec fn compatible<C>(cmds: Seq<DrawCommand<C>>, primitive: Primitive, texture: Option<ImageId>, viewport: Rect) -> bool {
    cmds.len() > 0 && match cmds.last() {
        DrawCommand::Draw(c) => c.primitive == primitive && c.texture == texture && c.viewport == viewport,
        _ => false,
    }
}

/// Commands after `n` indices, placed at `start` of the index buffer, were
/// added with the given render state.
pub open spec fn pushed_commands<C>(
    cmds: Seq<DrawCommand<C>>,
    primitive: Primitive,
    texture: Option<ImageId>,
    viewport: Rect,
    start: nat,
    n: nat,
) -> Seq<DrawCommand<C>> {
    if compatible(cmds, primitive, texture, viewport) {
        let c = cmds.last()->Draw_0;
        cmds.drop_last().push(
            DrawCommand::Draw(DrawCmdPrim { idx_len: (c.idx_len + n) as usize, ..c }),
        )
    } else {
        cmds.push(
            DrawCommand::Draw(
                DrawCmdPrim { primitive, idx_offset: start as usize, idx_len: n as usize, texture, viewport },
            ),
        )
    }
}

/// Some index is not below `nvert`.
pub open spec fn has_bad_index(indices: Seq<u32>, nvert: nat) -> bool {
    exists|j: int| 0 <= j < indices.len() && indices[j] >= nvert
}

/// `idx` is the first index of `indices` that is not below `nvert`.
pub open spec fn first_bad_index(indices: Seq<u32>, nvert: nat, idx: u32) -> bool {
    exists|j: int|
        0 <= j < indices.len() && indices[j] == idx && idx >= nvert && forall|k: int|
            0 <= k < j ==> indices[k] < nvert
}

impl<V: Copy, C> DrawQueue<V, C> {
    /// Every draw command lies within the index buffer, and a draw command
    /// that comes last ends where the index buffer ends.
    pub open spec fn wf(&self) -> bool {
        &&& forall|i: int|
            0 <= i < self.commands@.len() ==> (#[trigger] self.commands@[i] matches DrawCommand::Draw(c)
                ==> c.idx_offset + c.idx_len <= self.indices@.len())
        &&& (self.commands@.len() > 0 ==> (self.commands@.last() matches DrawCommand::Draw(c) ==> c.idx_offset
            + c.idx_len == self.indices@.len()))
    }

    /// Creates an empty draw queue.
    pub fn new() -> (r: Self)
        ensures
            r.wf(),
            r.vertices@.len() == 0,
            r.indices@.len() == 0,
            r.commands@.len() == 0,
    {
        DrawQueue { vertices: Vec::new(), indices: Vec::new(), commands: Vec::new() }
    }

    /// Clears all data from the draw queue.
    pub fn clear(&mut self)
        ensures
            final(self).wf(),
            final(self).vertices@.len() == 0,
            final(self).indices@.len() == 0,
            final(self).commands@.len() == 0,
    {
        self.vertices.clear();
        self.indices.clear();
        self.commands.clear();
    }

    /// Adds a clear command to the draw queue.
    pub fn push_clear(&mut self, color: C, viewport: Rect)
        requires
            old(self).wf(),
        ensures
            final(self).wf(),
            final(self).vertices@ == old(self).vertices@,
            final(self).indices@ == old(self).indices@,
            final(self).commands@ == old(self).commands@.push(DrawCommand::Clear(color, viewport)),
    {
        self.commands.push(DrawCommand::Clear(color, viewport));
        proof {
            assert forall|i: int| 0 <= i < self.commands@.len() implies (#[trigger] self.commands@[i] matches DrawCommand::Draw(c)
                ==> c.idx_offset + c.idx_len <= self.indices@.len()) by {
                if i < old(self).commands@.len() {
                    assert(self.commands@[i] == old(self).commands@[i]);
                }
            }
        }
    }

    /// Index of the first index not below `nvert`, if any.
    fn find_bad_index(indices: &[u32], nvert: u32) -> (r: Option<u32>)
        ensures
            r is None <==> !has_bad_index(indices@, nvert as nat),
            r matches Some(idx) ==> first_bad_index(indices@, nvert as nat, idx),
    {
        let mut i: usize = 0;
        while i < indices.len()
            invariant
                0 <= i <= indices@.len(),
                forall|k: int| 0 <= k < i ==> indices@[k] < nvert,
            decreases indices@.len() - i,
        {
            if indices[i] >= nvert {
                return Some(indices[i]);
            }
            i = i + 1;
        }
        None
    }

    /// Adds primitives to the draw queue.
    ///
    /// Each vertex goes to the shared vertex buffer after `translate` moved
    /// it by the viewport's position; the indices go to the shared index
    /// buffer, shifted by the number of vertices already there. The last
    /// command takes the indices when it has the same primitive, texture and
    /// viewport; otherwise a new command is added. No vertices means nothing
    /// to do. An index not below the number of vertices fails the whole call
    /// and leaves the queue as it was.
    pub fn push_prim<F>(
        &mut self,
        primitive: Primitive,
        vertices: &[V],
        indices: &[u32],
        texture: Option<ImageId>,
        viewport: Rect,
        translate: F,
    ) -> (r: Result<(), DrawError>)
        where
            F: Fn(V, Position) -> V,
        requires
            old(self).wf(),
            vertices@.len() > 0 && !has_bad_index(indices@, vertices@.len()) ==> old(self).vertices@.len()
                + vertices@.len() <= u32::MAX,
            forall|v: V| #[trigger] translate.requires((v, viewport.pos)),
        ensures
            final(self).wf(),
            vertices@.len() == 0 ==> r is Ok && *final(self) == *old(self),
            vertices@.len() > 0 && has_bad_index(indices@, vertices@.len()) ==> *final(self) == *old(self)
                && (r matches Err(DrawError::IndexOutOfBounds { idx, nvert }) && nvert == vertices@.len()
                && first_bad_index(indices@, vertices@.len(), idx)),
            vertices@.len() > 0 && !has_bad_index(indices@, vertices@.len()) ==> {
                &&& r is Ok
                &&& final(self).vertices@.len() == old(self).vertices@.len() + vertices@.len()
                &&& final(self).vertices@.subrange(0, old(self).vertices@.len() as int) == old(self).vertices@
                &&& forall|i: int|
                    0 <= i < vertices@.len() ==> translate.ensures(
                        (vertices@[i], viewport.pos),
                        #[trigger] final(self).vertices@[old(self).vertices@.len() + i],
                    )
                &&& final(self).indices@ == old(self).indices@ + indices@.map_values(
                    |k: u32| (k + old(self).vertices@.len()) as u32,
                )
                &&& final(self).commands@ == pushed_commands(
                    old(self).commands@,
                    primitive,
                    texture,
                    viewport,
                    old(self).indices@.len(),
                    indices@.len(),
                )
            },
    {
        self.push_prim_at(primitive, vertices, indices, texture, viewport.pos, viewport, translate)
    }

    /// Adds primitives to the draw queue, with vertices moved by `offset`.
    ///
    /// Each vertex goes to the shared vertex buffer after `translate` moved
    /// it by `offset`; the indices go to the shared index
    /// buffer, shifted by the number of vertices already there. The last
    /// command takes the indices when it has the same primitive, texture and
    /// viewport; otherwise a new command is added. No vertices means nothing
    /// to do. An index not below the number of vertices fails the whole call
    /// and leaves the queue as it was.
    pub fn push_prim_at<F>(
        &mut self,
        primitive: Primitive,
        vertices: &[V],
        indices: &[u32],
        texture: Option<ImageId>,
        offset: Position,
        viewport: Rect,
        translate: F,
    ) -> (r: Result<(), DrawError>)
        where
            F: Fn(V, Position) -> V,
        requires
            old(self).wf(),
            vertices@.len() > 0 && !has_bad_index(indices@, vertices@.len()) ==> old(self).vertices@.len()
                + vertices@.len() <= u32::MAX,
            forall|v: V| #[trigger] translate.requires((v, offset)),
        ensures
            final(self).wf(),
            vertices@.len() == 0 ==> r is Ok && *final(self) == *old(self),
            vertices@.len() > 0 && has_bad_index(indices@, vertices@.len()) ==> *final(self) == *old(self)
                && (r matches Err(DrawError::IndexOutOfBounds { idx, nvert }) && nvert == vertices@.len()
                && first_bad_index(indices@, vertices@.len(), idx)),
            vertices@.len() > 0 && !has_bad_index(indices@, vertices@.len()) ==> {
                &&& r is Ok
                &&& final(self).vertices@.len() == old(self).vertices@.len() + vertices@.len()
                &&& final(self).vertices@.subrange(0, old(self).vertices@.len() as int) == old(self).vertices@
                &&& forall|i: int|
                    0 <= i < vertices@.len() ==> translate.ensures(
                        (vertices@[i], offset),
                        #[trigger] final(self).vertices@[old(self).vertices@.len() + i],
                    )
                &&& final(self).indices@ == old(self).indices@ + indices@.map_values(
                    |k: u32| (k + old(self).vertices@.len()) as u32,
                )
                &&& final(self).commands@ == pushed_commands(
                    old(self).commands@,
                    primitive,
                    texture,
                    viewport,
                    old(self).indices@.len(),
                    indices@.len(),
                )
            },
    {
        if vertices.len() == 0 {
            return Ok(());
        }
        proof {
            if vertices@.len() > u32::MAX {
                assert(!has_bad_index(indices@, vertices@.len()));
            }
        }
        let nvert = vertices.len() as u32;
        match Self::find_bad_index(indices, nvert) {
            Some(idx) => {
                return Err(DrawError::IndexOutOfBounds { idx, nvert });
            },
            None => {},
        }
        let base_vert = self.vertices.len() as u32;
        let ghost old_verts = self.vertices@;
        let mut i: usize = 0;
        while i < vertices.len()
            invariant
                0 <= i <= vertices@.len(),
                self.vertices@.len() == old_verts.len() + i,
                self.vertices@.subrange(0, old_verts.len() as int) == old_verts,
                forall|v: V| #[trigger] translate.requires((v, offset)),
                forall|k: int|
                    0 <= k < i ==> translate.ensures(
                        (vertices@[k], offset),
                        #[trigger] self.vertices@[old_verts.len() + k],
                    ),
                self.indices@ == old(self).indices@,
                self.commands@ == old(self).commands@,
            decreases vertices@.len() - i,
        {
            let v = translate(vertices[i], offset);
            self.vertices.push(v);
            proof {
                assert(self.vertices@.subrange(0, old_verts.len() as int) =~= old_verts);
            }
            i = i + 1;
        }
        let ghost old_indices = self.indices@;
        let idx_start = self.indices.len();
        let mut j: usize = 0;
        while j < indices.len()
            invariant
                0 <= j <= indices@.len(),
                !has_bad_index(indices@, nvert as nat),
                nvert == vertices@.len(),
                base_vert == old_verts.len(),
                base_vert + nvert <= u32::MAX,
                idx_start == old_indices.len(),
                old_indices == old(self).indices@,
                self.commands@ == old(self).commands@,
                self.vertices@.len() == old_verts.len() + vertices@.len(),
                self.vertices@.subrange(0, old_verts.len() as int) == old_verts,
                old_verts == old(self).vertices@,
                forall|k: int|
                    0 <= k < vertices@.len() ==> translate.ensures(
                        (vertices@[k], offset),
                        #[trigger] self.vertices@[old_verts.len() + k],
                    ),
                self.indices@ == old_indices + indices@.subrange(0, j as int).map_values(
                    |k: u32| (k + base_vert) as u32,
                ),
            decreases indices@.len() - j,
        {
            assert(indices@[j as int] < nvert);
            self.indices.push(indices[j] + base_vert);
            proof {
                assert(indices@.subrange(0, j as int + 1) =~= indices@.subrange(0, j as int).push(indices@[j as int]));
                assert(self.indices@ =~= old_indices + indices@.subrange(0, j as int + 1).map_values(
                    |k: u32| (k + base_vert) as u32,
                ));
            }
            j = j + 1;
        }
        proof {
            assert(indices@.subrange(0, indices@.len() as int) =~= indices@);
        }
        let n = indices.len();
        let merge = match self.commands.last() {
            Some(DrawCommand::Draw(cmd)) => cmd.primitive == primitive && cmd.texture == texture && cmd.viewport == viewport,
            _ => false,
        };
        if merge {
            let last = self.commands.len() - 1;
            let cmd = match self.commands.pop() {
                Some(DrawCommand::Draw(cmd)) => cmd,
                _ => {
                    proof {
                        assert(false);
                    }
                    return Ok(());
                },
            };
            let total = self.indices.len();
            assert(cmd.idx_len + n <= total);
            let grown = DrawCmdPrim { idx_len: cmd.idx_len + n, ..cmd };
            self.commands.push(DrawCommand::Draw(grown));
            proof {
                assert(self.commands@ =~= old(self).commands@.drop_last().push(DrawCommand::Draw(grown)));
            }
        } else {
            self.commands.push(
                DrawCommand::Draw(DrawCmdPrim { primitive, idx_offset: idx_start, idx_len: n, texture, viewport }),
            );
            proof {
                assert(self.commands@.drop_last() =~= old(self).commands@);
            }
        }
        proof {
            assert forall|i: int| 0 <= i < self.commands@.len() implies (#[trigger] self.commands@[i] matches DrawCommand::Draw(c)
                ==> c.idx_offset + c.idx_len <= self.indices@.len()) by {
                if i < self.commands@.len() - 1 {
                    assert(self.commands@[i] == self.commands@.drop_last()[i]);
                    assert(self.commands@[i] == old(self).commands@[i]);
                }
            }
        }
        Ok(())
    }
}

/// Two pushes in a row with one render state make a single command whose
/// index count is the sum of both; a push whose primitive, texture or
/// viewport differs from the last command's starts a command of its own.
pub proof fn lemma_coalesce<C>(
    cmds: Seq<DrawCommand<C>>,
    primitive: Primitive,
    texture: Option<ImageId>,
    viewport: Rect,
    start: nat,
    n1: nat,
    n2: nat,
)
    requires
        !compatible(cmds, primitive, texture, viewport),
        start + n1 + n2 <= usize::MAX,
    ensures
        ({
            let c1 = pushed_commands(cmds, primitive, texture, viewport, start, n1);
            let c2 = pushed_commands(c1, primitive, texture, viewport, start + n1, n2);
            &&& c1.len() == cmds.len() + 1
            &&& c2.len() == cmds.len() + 1
            &&& c2.subrange(0, cmds.len() as int) == cmds
            &&& c2.last() == DrawCommand::<C>::Draw(
                DrawCmdPrim {
                    primitive,
                    idx_offset: start as usize,
                    idx_len: (n1 + n2) as usize,
                    texture,
                    viewport,
                },
            )
        }),
{
    let c1 = pushed_commands(cmds, primitive, texture, viewport, start, n1);
    let c2 = pushed_commands(c1, primitive, texture, viewport, start + n1, n2);
    assert(c2.subrange(0, cmds.len() as int) =~= cmds);
}

/// A push whose render state differs from the last command's adds a new
/// command and leaves the existing ones as they were.
pub proof fn lemma_state_change_splits<C>(
    cmds: Seq<DrawCommand<C>>,
    primitive: Primitive,
    texture: Option<ImageId>,
    viewport: Rect,
    start: nat,
    n: nat,
)
    requires
        cmds.len() > 0,
        cmds.last() matches DrawCommand::Draw(c) && (c.primitive != primitive || c.texture != texture
            || c.viewport != viewport),
    ensures
        pushed_commands(cmds, primitive, texture, viewport, start, n) == cmds.push(
            DrawCommand::Draw(
                DrawCmdPrim { primitive, idx_offset: start as usize, idx_len: n as usize, texture, viewport },
            ),
        ),
{
}

/// GPU scissor rectangle, measured from the bottom-left corner of the
/// window.
#[derive(Debug, Clone, Copy, PartialEq, Eq, Structural, Hash)]
pub struct Scissor {
    pub left: u32,
    pub bottom: u32,
    pub width: u32,
    pub height: u32,
}

/// Scissor of a rectangle that lies in a window `win_height` pixels high:
/// the vertical axis is flipped.
pub open spec fn scissor_of(r: Rect, win_height: u32) -> Scissor {
    Scissor {
        left: r.pos.x as u32,
        bottom: (win_height - r.size.h - r.pos.y) as u32,
        width: r.size.w,
        height: r.size.h,
    }
}

/// Converts a rectangle inside the window into a scissor rectangle.
pub fn to_scissor(rect: Rect, win_height: u32) -> (r: Scissor)
    requires
        rect.pos.x >= 0,
        rect.pos.y >= 0,
        crate::geometry::end_y(rect) <= win_height,
    ensures
        r == scissor_of(rect, win_height),
{
    Scissor {
        left: rect.pos.x as u32,
        bottom: win_height - rect.size.h - rect.pos.y as u32,
        width: rect.size.w,
        height: rect.size.h,
    }
}

/// One backend call that executing a queue performs.
#[derive(Debug, Clone, Copy, PartialEq)]
pub enum DrawStep<C> {
    /// Clear the scissor area with a color.
    Clear(C, Scissor),
    /// Draw a range of the shared index buffer inside the scissor area;
    /// without a texture the backend samples a 1x1 opaque white one.
    Draw { primitive: Primitive, idx_offset: usize, idx_len: usize, texture: Option<ImageId>, scissor: Scissor },
}

/// Backend calls for one command: none when its viewport lies outside the
/// window.
pub open spec fn step_of<C>(cmd: DrawCommand<C>, win: Size) -> Seq<DrawStep<C>> {
    match cmd {
        DrawCommand::Clear(color, vp) => match crate::geometry::clip_spec(vp, crate::geometry::window_rect(win)) {
            Some(c) => seq![DrawStep::Clear(color, scissor_of(c, win.h))],
            None => seq![],
        },
        DrawCommand::Draw(d) => match crate::geometry::clip_spec(d.viewport, crate::geometry::window_rect(win)) {
            Some(c) => seq![
                DrawStep::Draw {
                    primitive: d.primitive,
                    idx_offset: d.idx_offset,
                    idx_len: d.idx_len,
                    texture: d.texture,
                    scissor: scissor_of(c, win.h),
                },
            ],
            None => seq![],
        },
    }
}

/// Backend calls for a list of commands, in order.
pub open spec fn plan_of<C>(cmds: Seq<DrawCommand<C>>, win: Size) -> Seq<DrawStep<C>>
    decreases cmds.len(),
{
    if cmds.len() == 0 {
        seq![]
    } else {
        plan_of(cmds.drop_last(), win) + step_of(cmds.last(), win)
    }
}

impl<V: Copy, C: Copy> DrawQueue<V, C> {
    /// The backend calls that execute this queue in a window of size `win`:
    /// each command's viewport is clipped to the window, commands clipped
    /// away are skipped, and scissors use the flipped vertical axis.
    pub fn plan(&self, win: Size) -> (r: Vec<DrawStep<C>>)
        ensures
            r@ == plan_of(self.commands@, win),
    {
        let window = Rect::for_window(win);
        let mut out: Vec<DrawStep<C>> = Vec::new();
        let mut i: usize = 0;
        while i < self.commands.len()
            invariant
                0 <= i <= self.commands@.len(),
                window == crate::geometry::window_rect(win),
                out@ == plan_of(self.commands@.subrange(0, i as int), win),
            decreases self.commands@.len() - i,
        {
            proof {
                let s = self.commands@.subrange(0, i as int + 1);
                assert(s.drop_last() =~= self.commands@.subrange(0, i as int));
                assert(s.last() == self.commands@[i as int]);
            }
            match self.commands[i] {
                DrawCommand::Clear(color, vp) => {
                    if let Some(c) = vp.clip_inside(window) {
                        out.push(DrawStep::Clear(color, to_scissor(c, win.h)));
                    }
                },
                DrawCommand::Draw(d) => {
                    if let Some(c) = d.viewport.clip_inside(window) {
                        out.push(
                            DrawStep::Draw {
                                primitive: d.primitive,
                                idx_offset: d.idx_offset,
                                idx_len: d.idx_len,
                                texture: d.texture,
                                scissor: to_scissor(c, win.h),
                            },
                        );
                    }
                },
            }
            proof {
                let s = self.commands@.subrange(0, i as int + 1);
                assert(out@ =~= plan_of(s, win));
            }
            i = i + 1;
        }
        proof {
            assert(self.commands@.subrange(0, self.commands@.len() as int) =~= self.commands@);
        }
        out
    }
}

} // verus!
