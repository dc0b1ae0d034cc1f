//! Game of Life on the GPU: the grid's dimensions, the readback that counts
//! living cells, and the state machine of the render-graph node.
use vstd::prelude::*;
use vstd::string::StringExecFns;
use crate::text::{decimal, push_decimal};

verus! {

/// The simulation texture is `GRID_WIDTH` by `GRID_HEIGHT` texels, `SCALE_FACTOR`
/// times a 128 by 72 base grid.
pub const SCALE_FACTOR: u32 = 10;

pub const GRID_WIDTH: u32 = 128 * SCALE_FACTOR;

pub const GRID_HEIGHT: u32 = 72 * SCALE_FACTOR;

/// Invocations per workgroup of the compute shader, along x and along y.
pub const WORKGROUP_WIDTH: u32 = 8;

pub const WORKGROUP_HEIGHT: u32 = 8;

/// Bytes per texel of the RGBA8 simulation texture.
pub const TEXEL_BYTES: u32 = 4;

/// The red channel of a texel holding a living cell.
pub const ALIVE: u8 = 255;

/// Number of texels in a byte buffer: every started group of four counts.
pub open spec fn texel_count(bytes: Seq<u8>) -> nat {
    ((bytes.len() + 3) / 4) as nat
}

/// Number of the first `n` texels of `bytes` whose first byte is `ALIVE`.
pub open spec fn alive_among(bytes: Seq<u8>, n: nat) -> nat
    decreases n,
{
    if n == 0 {
        0
    } else {
        alive_among(bytes, (n - 1) as nat) + if bytes[4 * (n - 1)] == ALIVE {
            1nat
        } else {
            0nat
        }
    }
}

/// Number of living cells in a texture read back as RGBA8 bytes.
pub open spec fn living_cells(bytes: Seq<u8>) -> nat {
    alive_among(bytes, texel_count(bytes))
}

proof fn lemma_alive_among_bounded(bytes: Seq<u8>, n: nat)
    ensures
        alive_among(bytes, n) <= n,
    decreases n,
{
    if n > 0 {
        lemma_alive_among_bounded(bytes, (n - 1) as nat);
    }
}

/// Counts the living cells in the bytes read back from the simulation texture:
/// each group of four bytes is one texel, alive when its first byte is 255.
pub fn count_living_cells(bytes: &[u8]) -> (r: u64)
    ensures
        r == living_cells(bytes@),
{
    let len: usize = bytes.len();
    let texels: usize = len / 4 + if len % 4 == 0 {
        0
    } else {
        1
    };
    let mut count: u64 = 0;
    let mut texel: usize = 0;
    while texel < texels
        invariant
            len == bytes@.len(),
            texels == texel_count(bytes@),
            texel <= texels,
            count == alive_among(bytes@, texel as nat),
        decreases texels - texel,
    {
        proof {
            lemma_alive_among_bounded(bytes@, texel as nat);
            assert(4 * texel < bytes@.len());
        }
        if bytes[4 * texel] == ALIVE {
            count = count + 1;
        }
        texel = texel + 1;
    }
    count
}

/// The on-screen text that reports `n` living cells.
pub open spec fn living_cells_text(n: nat) -> Seq<char> {
    "Living cells: "@ + decimal(n)
}

/// The on-screen text that reports `n` living cells, as in `Living cells: 42`.
pub fn living_cells_label(n: u64) -> (r: String)
    ensures
        r@ == living_cells_text(n as nat),
{
    let mut s = String::from_str("Living cells: ");
    push_decimal(&mut s, n);
    s
}

/// Where the texture is copied for the living-cell count: the size of the
/// mappable buffer and the layout of the copy into it.
#[derive(Clone, Copy, Debug, PartialEq, Eq, Structural)]
pub struct ReadbackLayout {
    pub buffer_size: u64,
    pub bytes_per_row: u32,
    pub rows_per_image: u32,
}

/// The readback layout of the whole simulation texture, rows packed tightly.
pub fn readback_layout() -> (r: ReadbackLayout)
    ensures
        r.buffer_size == GRID_WIDTH * GRID_HEIGHT * TEXEL_BYTES,
        r.bytes_per_row == TEXEL_BYTES * GRID_WIDTH,
        r.rows_per_image == GRID_HEIGHT,
{
    ReadbackLayout {
        buffer_size: (GRID_WIDTH * GRID_HEIGHT * TEXEL_BYTES) as u64,
        bytes_per_row: TEXEL_BYTES * GRID_WIDTH,
        rows_per_image: GRID_HEIGHT,
    }
}

/// The two compute pipelines of the simulation.
#[derive(Clone, Copy, Debug, PartialEq, Eq, Structural)]
pub enum ComputeStage {
    /// Seeds the texture with its first generation.
    Init,
    /// Advances the texture by one generation.
    Update,
}

pub open spec fn entry_point_of(stage: ComputeStage) -> Seq<char> {
    match stage {
        ComputeStage::Init => "init"@,
        ComputeStage::Update => "update"@,
    }
}

impl ComputeStage {
    /// The shader entry point that the stage's pipeline runs.
    pub fn entry_point(&self) -> (r: &'static str)
        ensures
            r@ == entry_point_of(*self),
    {
        match self {
            ComputeStage::Init => "init",
            ComputeStage::Update => "update",
        }
    }
}

/// Progress of the render-graph node: waiting for the first pipeline to
/// compile, seeding the texture, then stepping it every frame.
#[derive(Clone, Copy, Debug, PartialEq, Eq, Structural)]
pub enum ConwayState {
    Loading,
    Init,
    Update,
}

/// The pipeline whose readiness moves the node on from `state`, if any.
pub open spec fn awaited(state: ConwayState) -> Option<ComputeStage> {
    match state {
        ConwayState::Loading => Some(ComputeStage::Init),
        ConwayState::Init => Some(ComputeStage::Update),
        ConwayState::Update => None,
    }
}

/// The state after one update, given whether the awaited pipeline is ready.
pub open spec fn next_state(state: ConwayState, ready: bool) -> ConwayState {
    match state {
        ConwayState::Loading => if ready {
            ConwayState::Init
        } else {
            ConwayState::Loading
        },
        ConwayState::Init => if ready {
            ConwayState::Update
        } else {
            ConwayState::Init
        },
        ConwayState::Update => ConwayState::Update,
    }
}

/// The compute pipeline that a frame runs in `state`, if any.
pub open spec fn dispatched(state: ConwayState) -> Option<ComputeStage> {
    match state {
        ConwayState::Loading => None,
        ConwayState::Init => Some(ComputeStage::Init),
        ConwayState::Update => Some(ComputeStage::Update),
    }
}

/// One compute dispatch over the whole texture.
#[derive(Clone, Copy, Debug, PartialEq, Eq, Structural)]
pub struct Dispatch {
    pub stage: ComputeStage,
    pub workgroups_x: u32,
    pub workgroups_y: u32,
    pub workgroups_z: u32,
}

/// The GPU work of one frame: how many clicked points to draw into the
/// texture (none when no cell was clicked), and the compute dispatch.
#[derive(Clone, Copy, Debug, PartialEq, Eq, Structural)]
pub struct FramePlan {
    pub set_cells_vertices: Option<u32>,
    pub dispatch: Option<Dispatch>,
}

pub open spec fn full_dispatch(stage: ComputeStage) -> Dispatch {
    Dispatch {
        stage,
        workgroups_x: GRID_WIDTH / WORKGROUP_WIDTH,
        workgroups_y: GRID_HEIGHT / WORKGROUP_HEIGHT,
        workgroups_z: 1,
    }
}

/// The render-graph node that drives the simulation.
#[derive(Clone, Copy, Debug, PartialEq, Eq, Structural)]
pub struct ConwayRenderNode(pub ConwayState);

impl Default for ConwayRenderNode {
    fn default() -> (r: Self)
        ensures
            r.0 == ConwayState::Loading,
    {
        ConwayRenderNode(ConwayState::Loading)
    }
}

impl ConwayRenderNode {
    /// The compute pipeline that the engine's pipeline cache is asked about
    /// before the next update.
    pub fn awaited_pipeline(&self) -> (r: Option<ComputeStage>)
        ensures
            r == awaited(self.0),
    {
        match self.0 {
            ConwayState::Loading => Some(ComputeStage::Init),
            ConwayState::Init => Some(ComputeStage::Update),
            ConwayState::Update => None,
        }
    }

    /// Moves the node on once the awaited pipeline has compiled.
    pub fn update(&mut self, pipeline_ready: bool)
        ensures
            final(self).0 == next_state(old(self).0, pipeline_ready),
    {
        match self.0 {
            ConwayState::Loading => {
                if pipeline_ready {
                    self.0 = ConwayState::Init;
                }
            },
            ConwayState::Init => {
                if pipeline_ready {
                    self.0 = ConwayState::Update;
                }
            },
            ConwayState::Update => {},
        }
    }

    /// The GPU work of a frame with `set_cells` clicked points pending.
    pub fn run(&self, set_cells: usize) -> (r: FramePlan)
        ensures
            r.set_cells_vertices == (if set_cells == 0 {
                None
            } else {
                Some(set_cells as u32)
            }),
            r.dispatch == (match dispatched(self.0) {
                Some(stage) => Some(full_dispatch(stage)),
                None => None,
            }),
    {
        let set_cells_vertices = if set_cells == 0 {
            None
        } else {
            Some(set_cells as u32)
        };
        let dispatch = match self.0 {
            ConwayState::Loading => None,
            ConwayState::Init => Some(whole_texture(ComputeStage::Init)),
            ConwayState::Update => Some(whole_texture(ComputeStage::Update)),
        };
        FramePlan { set_cells_vertices, dispatch }
    }
}

fn whole_texture(stage: ComputeStage) -> (r: Dispatch)
    ensures
        r == full_dispatch(stage),
{
    Dispatch {
        stage,
        workgroups_x: GRID_WIDTH / WORKGROUP_WIDTH,
        workgroups_y: GRID_HEIGHT / WORKGROUP_HEIGHT,
        workgroups_z: 1,
    }
}

} // verus!
