//! The dispatch node: a three-state machine that gates compute dispatch on
//! asynchronous shader compilation.
//!
//! Pipeline compilation may take several frames, so the node must neither
//! dispatch against a pipeline that is not ready nor repeat the one-time
//! initialisation kernel. Each frame the node first decides what to
//! dispatch from its current state and the polled compilation status
//! ([`GameOfLifeNode::run`]), then advances the state by at most one
//! transition ([`GameOfLifeNode::update`]); [`GameOfLifeNode::frame`] does
//! both in that order. The init kernel fires exactly on the frame that
//! leaves `Init` — the frame on which the update pipeline first reports
//! compiled — so it can never fire twice, however long compilation takes.
//! From `Update` on, every frame dispatches the update kernel unless the
//! pause flag suppresses it; the pause flag never suppresses the one-time
//! init dispatch.

use vstd::prelude::*;

use crate::plugin::GameOfLife;

verus! {

/// Threads per workgroup along X and along Y; dispatch counts are expressed
/// in workgroups, not pixels.
pub const WORKGROUP_SIZE: u32 = 8;

/// Where the node stands relative to shader compilation: waiting for the
/// init pipeline, waiting for the update pipeline, or running for good.
#[derive(Clone, Copy, Debug, PartialEq, Eq, Structural)]
pub enum GameOfLifeState {
    Loading,
    Init,
    Update,
}

/// Which of the two compute kernels a frame dispatches.
#[derive(Clone, Copy, Debug, PartialEq, Eq, Structural)]
pub enum ComputeKernel {
    Init,
    Update,
}

/// One dispatch: the kernel to attach and the workgroup counts to launch it
/// with.
#[derive(Clone, Copy, Debug, PartialEq, Eq, Structural)]
pub struct Dispatch {
    pub kernel: ComputeKernel,
    pub workgroups_x: u32,
    pub workgroups_y: u32,
    pub workgroups_z: u32,
}

/// What one frame feeds the node: the two polled compilation statuses and
/// the pause flag as extracted for that frame.
#[derive(Clone, Copy, Debug, PartialEq, Eq, Structural)]
pub struct FrameInput {
    pub init_pipeline_ready: bool,
    pub update_pipeline_ready: bool,
    pub is_paused: bool,
}

/// The dispatch node itself; exactly one instance exists, owned by the
/// frame graph.
#[derive(Clone, Copy, Debug, PartialEq, Eq, Structural)]
pub struct GameOfLifeNode {
    pub state: GameOfLifeState,
}

/// One poll-phase transition: `Loading` leaves for `Init` once the init
/// pipeline reports compiled, `Init` leaves for `Update` once the update
/// pipeline reports compiled, and `Update` is terminal. At most one
/// transition per frame.
pub open spec fn next_state(
    state: GameOfLifeState,
    init_pipeline_ready: bool,
    update_pipeline_ready: bool,
) -> GameOfLifeState {
    match state {
        GameOfLifeState::Loading => if init_pipeline_ready {
            GameOfLifeState::Init
        } else {
            GameOfLifeState::Loading
        },
        GameOfLifeState::Init => if update_pipeline_ready {
            GameOfLifeState::Update
        } else {
            GameOfLifeState::Init
        },
        GameOfLifeState::Update => GameOfLifeState::Update,
    }
}

/// Which kernel a frame dispatches, given the state the frame starts in:
/// nothing while `Loading`; the init kernel exactly on the frame that
/// leaves `Init`; the update kernel on every `Update` frame whose extracted
/// pause flag is clear.
pub open spec fn dispatched_kernel(
    state: GameOfLifeState,
    update_pipeline_ready: bool,
    is_paused: bool,
) -> Option<ComputeKernel> {
    match state {
        GameOfLifeState::Loading => None,
        GameOfLifeState::Init => if update_pipeline_ready {
            Some(ComputeKernel::Init)
        } else {
            None
        },
        GameOfLifeState::Update => if is_paused {
            None
        } else {
            Some(ComputeKernel::Update)
        },
    }
}

/// The full dispatch of a frame: the kernel chosen by `dispatched_kernel`,
/// launched over the whole grid in units of 8 by 8 workgroups.
pub open spec fn spec_dispatch(
    state: GameOfLifeState,
    game: GameOfLife,
    update_pipeline_ready: bool,
) -> Option<Dispatch> {
    match dispatched_kernel(state, update_pipeline_ready, game.is_paused) {
        Some(kernel) => Some(
            Dispatch {
                kernel,
                workgroups_x: game.width / WORKGROUP_SIZE,
                workgroups_y: game.height / WORKGROUP_SIZE,
                workgroups_z: 1,
            },
        ),
        None => None,
    }
}

/// Workgroup counts covering the configured grid: integer division by the
/// workgroup size along X and Y, one layer along Z. Dimensions that are not
/// multiples of the workgroup size truncate, exactly as the dispatch call
/// would.
pub fn workgroup_counts(game: &GameOfLife) -> (counts: (u32, u32, u32))
    ensures
        counts.0 == game.width / WORKGROUP_SIZE,
        counts.1 == game.height / WORKGROUP_SIZE,
        counts.2 == 1,
{
    (game.width / WORKGROUP_SIZE, game.height / WORKGROUP_SIZE, 1)
}

impl Default for GameOfLifeNode {
    /// A fresh node waits for the init pipeline.
    fn default() -> (node: GameOfLifeNode)
        ensures
            node.state == GameOfLifeState::Loading,
    {
        GameOfLifeNode { state: GameOfLifeState::Loading }
    }
}

impl GameOfLifeNode {
    /// Poll phase: advances the state by at most one transition, from the
    /// compilation statuses polled this frame.
    pub fn update(&mut self, init_pipeline_ready: bool, update_pipeline_ready: bool)
        ensures
            final(self).state == next_state(
                old(self).state,
                init_pipeline_ready,
                update_pipeline_ready,
            ),
    {
        match self.state {
            GameOfLifeState::Loading => {
                if init_pipeline_ready {
                    self.state = GameOfLifeState::Init;
                }
            }
            GameOfLifeState::Init => {
                if update_pipeline_ready {
                    self.state = GameOfLifeState::Update;
                }
            }
            GameOfLifeState::Update => {}
        }
    }

    /// Dispatch phase: decides this frame's dispatch from the current state,
    /// the polled status of the update pipeline, and the extracted pause
    /// flag. Called before `update` advances the state, so the init kernel
    /// fires on the very frame that leaves `Init`.
    pub fn run(&self, game: &GameOfLife, update_pipeline_ready: bool) -> (dispatch: Option<
        Dispatch,
    >)
        ensures
            dispatch == spec_dispatch(self.state, *game, update_pipeline_ready),
    {
        match self.state {
            GameOfLifeState::Loading => None,
            GameOfLifeState::Init => {
                if update_pipeline_ready {
                    let counts = workgroup_counts(game);
                    Some(
                        Dispatch {
                            kernel: ComputeKernel::Init,
                            workgroups_x: counts.0,
                            workgroups_y: counts.1,
                            workgroups_z: counts.2,
                        },
                    )
                } else {
                    None
                }
            }
            GameOfLifeState::Update => {
                if game.is_paused {
                    None
                } else {
                    let counts = workgroup_counts(game);
                    Some(
                        Dispatch {
                            kernel: ComputeKernel::Update,
                            workgroups_x: counts.0,
                            workgroups_y: counts.1,
                            workgroups_z: counts.2,
                        },
                    )
                }
            }
        }
    }

    /// One whole frame: decide the dispatch, then advance the state.
    pub fn frame(
        &mut self,
        game: &GameOfLife,
        init_pipeline_ready: bool,
        update_pipeline_ready: bool,
    ) -> (dispatch: Option<Dispatch>)
        ensures
            dispatch == spec_dispatch(old(self).state, *game, update_pipeline_ready),
            final(self).state == next_state(
                old(self).state,
                init_pipeline_ready,
                update_pipeline_ready,
            ),
    {
        let dispatch = self.run(game, update_pipeline_ready);
        self.update(init_pipeline_ready, update_pipeline_ready);
        dispatch
    }
}

/// One frame's transition, over a whole frame input.
pub open spec fn step(state: GameOfLifeState, input: FrameInput) -> GameOfLifeState {
    next_state(state, input.init_pipeline_ready, input.update_pipeline_ready)
}

/// One frame's kernel choice, over a whole frame input.
pub open spec fn frame_kernel(state: GameOfLifeState, input: FrameInput) -> Option<
    ComputeKernel,
> {
    dispatched_kernel(state, input.update_pipeline_ready, input.is_paused)
}

/// The state after a run of frames, each advancing by `step`.
pub open spec fn state_after(state: GameOfLifeState, inputs: Seq<FrameInput>) -> GameOfLifeState
    decreases inputs.len(),
{
    if inputs.len() == 0 {
        state
    } else {
        state_after(step(state, inputs[0]), inputs.drop_first())
    }
}

/// Frame by frame, which kernel a run of frames dispatches.
pub open spec fn kernel_trace(state: GameOfLifeState, inputs: Seq<FrameInput>) -> Seq<
    Option<ComputeKernel>,
> {
    Seq::new(inputs.len(), |j: int| frame_kernel(state_after(state, inputs.take(j)), inputs[j]))
}

/// How many frames of a run dispatch the init kernel.
pub open spec fn init_dispatch_count(state: GameOfLifeState, inputs: Seq<FrameInput>) -> nat
    decreases inputs.len(),
{
    if inputs.len() == 0 {
        0
    } else {
        (if frame_kernel(state, inputs[0]) == Some(ComputeKernel::Init) {
            1nat
        } else {
            0nat
        }) + init_dispatch_count(step(state, inputs[0]), inputs.drop_first())
    }
}

/// Running a concatenation of two runs is running one after the other.
pub proof fn lemma_state_after_concat(
    state: GameOfLifeState,
    prefix: Seq<FrameInput>,
    suffix: Seq<FrameInput>,
)
    ensures
        state_after(state, prefix + suffix) == state_after(state_after(state, prefix), suffix),
    decreases prefix.len(),
{
    if prefix.len() == 0 {
        assert(prefix + suffix =~= suffix);
    } else {
        assert((prefix + suffix).drop_first() =~= prefix.drop_first() + suffix);
        lemma_state_after_concat(step(state, prefix[0]), prefix.drop_first(), suffix);
    }
}

/// The state one frame later, along a prefix of a run.
pub proof fn lemma_state_after_take_succ(
    state: GameOfLifeState,
    inputs: Seq<FrameInput>,
    j: int,
)
    requires
        0 <= j < inputs.len(),
    ensures
        state_after(state, inputs.take(j + 1)) == step(
            state_after(state, inputs.take(j)),
            inputs[j],
        ),
{
    let lone = inputs.subrange(j, j + 1);
    assert(inputs.take(j + 1) =~= inputs.take(j) + lone);
    lemma_state_after_concat(state, inputs.take(j), lone);
    let mid = state_after(state, inputs.take(j));
    assert(lone.drop_first() =~= Seq::<FrameInput>::empty());
    assert(state_after(mid, lone) == state_after(step(mid, lone[0]), lone.drop_first()));
    assert(state_after(step(mid, inputs[j]), Seq::<FrameInput>::empty()) == step(mid, inputs[j]));
}

/// Until the init pipeline reports compiled the node never leaves
/// `Loading`; this holds of every prefix of such a run.
pub proof fn lemma_loading_prefix(inputs: Seq<FrameInput>, j: int)
    requires
        forall|k: int| 0 <= k < inputs.len() ==> !inputs[k].init_pipeline_ready,
        0 <= j <= inputs.len(),
    ensures
        state_after(GameOfLifeState::Loading, inputs.take(j)) == GameOfLifeState::Loading,
    decreases j,
{
    if j == 0 {
        assert(inputs.take(0) =~= Seq::<FrameInput>::empty());
    } else {
        lemma_loading_prefix(inputs, j - 1);
        lemma_state_after_take_succ(GameOfLifeState::Loading, inputs, j - 1);
    }
}

/// For all frames before the init pipeline reports compiled, no dispatch
/// occurs and the state remains `Loading`.
pub proof fn lemma_no_dispatch_while_loading(inputs: Seq<FrameInput>)
    requires
        forall|k: int| 0 <= k < inputs.len() ==> !inputs[k].init_pipeline_ready,
    ensures
        state_after(GameOfLifeState::Loading, inputs) == GameOfLifeState::Loading,
        forall|k: int|
            0 <= k < inputs.len() ==> kernel_trace(GameOfLifeState::Loading, inputs)[k] is None,
{
    lemma_loading_prefix(inputs, inputs.len() as int);
    assert(inputs.take(inputs.len() as int) =~= inputs);
    assert forall|k: int|
        0 <= k < inputs.len() implies kernel_trace(GameOfLifeState::Loading, inputs)[k] is None by {
        lemma_loading_prefix(inputs, k);
    }
}

/// `Update` is terminal: once running, the node runs for the rest of the
/// program.
pub proof fn lemma_running_is_terminal(inputs: Seq<FrameInput>)
    ensures
        state_after(GameOfLifeState::Update, inputs) == GameOfLifeState::Update,
    decreases inputs.len(),
{
    if inputs.len() > 0 {
        lemma_running_is_terminal(inputs.drop_first());
    }
}

/// A node that is already running never dispatches the init kernel again.
pub proof fn lemma_no_init_dispatch_while_running(inputs: Seq<FrameInput>)
    ensures
        init_dispatch_count(GameOfLifeState::Update, inputs) == 0,
    decreases inputs.len(),
{
    if inputs.len() > 0 {
        lemma_no_init_dispatch_while_running(inputs.drop_first());
    }
}

/// The init kernel is dispatched exactly once across the entire run — on
/// the one frame that transitions out of `Init` — and never at all in a run
/// that has not yet reached `Update`.
pub proof fn lemma_init_dispatched_exactly_once(state: GameOfLifeState, inputs: Seq<FrameInput>)
    requires
        state != GameOfLifeState::Update,
    ensures
        init_dispatch_count(state, inputs) == (if state_after(state, inputs)
            == GameOfLifeState::Update {
            1nat
        } else {
            0nat
        }),
    decreases inputs.len(),
{
    if inputs.len() > 0 {
        let next = step(state, inputs[0]);
        if next == GameOfLifeState::Update {
            lemma_no_init_dispatch_while_running(inputs.drop_first());
            lemma_running_is_terminal(inputs.drop_first());
        } else {
            lemma_init_dispatched_exactly_once(next, inputs.drop_first());
        }
    }
}

/// A frame dispatches the init kernel exactly when it starts in `Init` and
/// the update pipeline reports compiled that frame — and that very frame
/// ends in `Update`.
pub proof fn lemma_init_dispatch_frame(state: GameOfLifeState, inputs: Seq<FrameInput>, j: int)
    requires
        0 <= j < inputs.len(),
    ensures
        kernel_trace(state, inputs)[j] == Some(ComputeKernel::Init) <==> (state_after(
            state,
            inputs.take(j),
        ) == GameOfLifeState::Init && inputs[j].update_pipeline_ready),
        kernel_trace(state, inputs)[j] == Some(ComputeKernel::Init) ==> state_after(
            state,
            inputs.take(j + 1),
        ) == GameOfLifeState::Update,
{
    lemma_state_after_take_succ(state, inputs, j);
}

/// After the one frame that dispatches the init kernel, every subsequent
/// frame dispatches exactly the update kernel, unless that frame's pause
/// flag is set, in which case it dispatches nothing.
pub proof fn lemma_running_after_init_dispatch(
    state: GameOfLifeState,
    inputs: Seq<FrameInput>,
    j: int,
)
    requires
        0 <= j < inputs.len(),
        kernel_trace(state, inputs)[j] == Some(ComputeKernel::Init),
    ensures
        forall|k: int|
            j < k < inputs.len() ==> kernel_trace(state, inputs)[k] == (if inputs[k].is_paused {
                Option::<ComputeKernel>::None
            } else {
                Some(ComputeKernel::Update)
            }),
{
    lemma_init_dispatch_frame(state, inputs, j);
    lemma_dispatch_while_running(state, inputs, j + 1);
}

/// From any frame on which the node is running, every later frame
/// dispatches exactly the update kernel, unless that frame's pause flag is
/// set, in which case it dispatches nothing.
pub proof fn lemma_dispatch_while_running(
    state: GameOfLifeState,
    inputs: Seq<FrameInput>,
    j: int,
)
    requires
        0 <= j <= inputs.len(),
        state_after(state, inputs.take(j)) == GameOfLifeState::Update,
    ensures
        forall|k: int|
            j <= k < inputs.len() ==> kernel_trace(state, inputs)[k] == (if inputs[k].is_paused {
                Option::<ComputeKernel>::None
            } else {
                Some(ComputeKernel::Update)
            }),
{
    assert forall|k: int|
        j <= k < inputs.len() implies kernel_trace(state, inputs)[k] == (if inputs[k].is_paused {
        Option::<ComputeKernel>::None
    } else {
        Some(ComputeKernel::Update)
    }) by {
        assert(inputs.take(k) =~= inputs.take(j) + inputs.subrange(j, k));
        lemma_state_after_concat(state, inputs.take(j), inputs.subrange(j, k));
        lemma_running_is_terminal(inputs.subrange(j, k));
    }
}

} // verus!
