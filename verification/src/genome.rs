//! Genome operators: crossover and mutation, decided scalar by scalar.
//!
//! A genome's parameters are floating-point tensors, which live outside this
//! library. What is decided here is the breeding plan: for every scalar of
//! the child, the parent it is inherited from and the factor it is scaled by.
use vstd::prelude::*;
use crate::random::{
    distribution, index_weights, random_u32, sample_index, total_weight_of_pair, widened, Weighted,
};

verus! {

/// A tenth of the range of a 32-bit draw. A draw below it halves a scalar; a
/// draw closer than it to `u32::MAX` doubles one.
pub const MUTATION_THRESHOLD: u32 = 429_496_729;

/// The parent that a scalar is inherited from.
#[derive(Clone, Copy, Debug, PartialEq, Eq, Structural)]
pub enum Parent {
    A,
    B,
}

/// The factor that an inherited scalar is multiplied by: one half, one, two.
#[derive(Clone, Copy, Debug, PartialEq, Eq, Structural)]
pub enum Scale {
    Half,
    Same,
    Double,
}

/// The decision for one scalar of the child.
#[derive(Clone, Copy, Debug, PartialEq, Eq, Structural)]
pub struct Gene {
    pub parent: Parent,
    pub scale: Scale,
}

/// The shape of one layer: the four dimensions of its weight tensor and the
/// length of its bias vector.
#[derive(Clone, Copy, Debug, PartialEq, Eq, Structural)]
pub struct LayerShape {
    pub d0: usize,
    pub d1: usize,
    pub d2: usize,
    pub d3: usize,
    pub bias: usize,
}

/// The decisions for one layer, laid out as its tensors are.
#[derive(Debug)]
pub struct LayerPlan {
    pub weight: Vec<Vec<Vec<Vec<Gene>>>>,
    pub bias: Vec<Gene>,
}

/// Why no child can be bred.
#[derive(Clone, Copy, Debug, PartialEq, Eq, Structural)]
pub enum CrossoverError {
    /// The parents' layers differ in number or in shape.
    ShapeMismatch,
    /// The fitness pair gives no distribution: both weights are zero.
    InvalidFitness,
}

/// Whether a fitness pair makes a distribution over the two parents.
pub open spec fn valid_fitness(fitness: (u64, u64)) -> bool {
    0 < fitness.0 + fitness.1
}

/// The factor for a raw 32-bit draw: the lowest tenth of the range halves,
/// the highest tenth doubles, the rest leaves the scalar as it is.
pub open spec fn mutation_of(draw: u32) -> Scale {
    if draw < MUTATION_THRESHOLD {
        Scale::Half
    } else if draw > u32::MAX - MUTATION_THRESHOLD {
        Scale::Double
    } else {
        Scale::Same
    }
}

/// The parent for an index drawn over the fitness pair `(a, b)`: index 0,
/// drawn with weight `a`, stands for parent A.
pub open spec fn parent_of(pick: usize) -> Parent {
    if pick == 0 {
        Parent::A
    } else {
        Parent::B
    }
}

/// The scalar that a gene inherits: `a` from parent A, `b` from parent B.
pub open spec fn inherited<T>(g: Gene, a: T, b: T) -> T {
    match g.parent {
        Parent::A => a,
        Parent::B => b,
    }
}

/// The shape of the policy network: a convolution from six channels to two
/// and a transposed convolution from two channels to two, both with 3x3
/// kernels and a bias for each of their two output channels.
pub open spec fn network_shape_spec() -> Seq<LayerShape> {
    seq![
        LayerShape { d0: 2, d1: 6, d2: 3, d3: 3, bias: 2 },
        LayerShape { d0: 2, d1: 2, d2: 3, d3: 3, bias: 2 },
    ]
}

/// Whatever the scalars are and however they are scaled, a scalar of the
/// child is the same scalar of parent A or of parent B, scaled by one half,
/// by one or by two, and never anything else.
pub proof fn child_is_a_scaled_parent<T>(g: Gene, a: T, b: T, scaled: spec_fn(T, Scale) -> T)
    ensures
        ({
            let child = scaled(inherited(g, a, b), g.scale);
            ||| child == scaled(a, Scale::Half)
            ||| child == scaled(a, Scale::Same)
            ||| child == scaled(a, Scale::Double)
            ||| child == scaled(b, Scale::Half)
            ||| child == scaled(b, Scale::Same)
            ||| child == scaled(b, Scale::Double)
        }),
{
}

/// Whether a gene may come out of a draw over `fitness`: its parent has a
/// weight above zero.
pub open spec fn gene_allowed(g: Gene, fitness: (u64, u64)) -> bool {
    match g.parent {
        Parent::A => fitness.0 > 0,
        Parent::B => fitness.1 > 0,
    }
}

/// Whether `row` holds `len` genes, each allowed under `fitness`.
pub open spec fn row_follows(row: Vec<Gene>, len: usize, fitness: (u64, u64)) -> bool {
    &&& row@.len() == len
    &&& forall|l: int| 0 <= l < len ==> gene_allowed(#[trigger] row@[l], fitness)
}

/// Whether `grid` is `d2 x d3`, with allowed genes only.
pub open spec fn grid_follows(grid: Vec<Vec<Gene>>, shape: LayerShape, fitness: (u64, u64)) -> bool {
    &&& grid@.len() == shape.d2
    &&& forall|k: int| 0 <= k < shape.d2 ==> row_follows(#[trigger] grid@[k], shape.d3, fitness)
}

/// Whether `block` is `d1 x d2 x d3`, with allowed genes only.
pub open spec fn block_follows(block: Vec<Vec<Vec<Gene>>>, shape: LayerShape, fitness: (u64, u64)) -> bool {
    &&& block@.len() == shape.d1
    &&& forall|j: int| 0 <= j < shape.d1 ==> grid_follows(#[trigger] block@[j], shape, fitness)
}

/// Whether `plan` decides exactly the scalars of a layer of shape `shape`,
/// one gene for each scalar of the weight tensor and of the bias vector, and
/// every gene allowed under `fitness`.
pub open spec fn plan_follows(plan: LayerPlan, shape: LayerShape, fitness: (u64, u64)) -> bool {
    &&& row_follows(plan.bias, shape.bias, fitness)
    &&& plan.weight@.len() == shape.d0
    &&& forall|i: int| 0 <= i < shape.d0 ==> block_follows(#[trigger] plan.weight@[i], shape, fitness)
}

/// Whether `plans` decides a whole genome of the given layer shapes.
pub open spec fn genome_follows(plans: Seq<LayerPlan>, shapes: Seq<LayerShape>, fitness: (u64, u64)) -> bool {
    &&& plans.len() == shapes.len()
    &&& forall|n: int| 0 <= n < shapes.len() ==> plan_follows(#[trigger] plans[n], shapes[n], fitness)
}

/// Decides the mutation of one scalar from a raw draw.
pub fn mutation(draw: u32) -> (scale: Scale)
    ensures
        scale == mutation_of(draw),
{
    if draw < MUTATION_THRESHOLD {
        Scale::Half
    } else if draw > u32::MAX - MUTATION_THRESHOLD {
        Scale::Double
    } else {
        Scale::Same
    }
}

/// Decides one scalar of the child from the index drawn over the fitness
/// pair and the raw draw for its mutation.
pub fn gene(pick: usize, draw: u32) -> (g: Gene)
    ensures
        g.parent == parent_of(pick),
        g.scale == mutation_of(draw),
{
    let parent = if pick == 0 {
        Parent::A
    } else {
        Parent::B
    };
    Gene { parent, scale: mutation(draw) }
}

impl Gene {
    /// The scalar that this gene inherits: `a` from parent A, `b` from parent
    /// B. The scale is applied by the caller, who holds the arithmetic.
    pub fn inherit<T>(&self, a: T, b: T) -> (value: T)
        ensures
            value == inherited(*self, a, b),
    {
        match self.parent {
            Parent::A => a,
            Parent::B => b,
        }
    }
}

/// Draws one gene: the parent over the fitness pair, then the mutation.
fn draw_gene(dist: &Weighted, Ghost(fitness): Ghost<(u64, u64)>) -> (g: Gene)
    requires
        index_weights(*dist) == widened(seq![fitness.0, fitness.1]),
    ensures
        gene_allowed(g, fitness),
{
    let pick = sample_index(dist);
    let draw = random_u32();
    gene(pick, draw)
}

fn draw_row(dist: &Weighted, len: usize, Ghost(fitness): Ghost<(u64, u64)>) -> (row: Vec<Gene>)
    requires
        index_weights(*dist) == widened(seq![fitness.0, fitness.1]),
    ensures
        row_follows(row, len, fitness),
{
    let mut row: Vec<Gene> = Vec::new();
    let mut l: usize = 0;
    while l < len
        invariant
            l <= len,
            index_weights(*dist) == widened(seq![fitness.0, fitness.1]),
            row_follows(row, l, fitness),
        decreases len - l,
    {
        row.push(draw_gene(dist, Ghost(fitness)));
        l += 1;
    }
    row
}

fn draw_grid(dist: &Weighted, shape: &LayerShape, Ghost(fitness): Ghost<(u64, u64)>) -> (grid: Vec<Vec<Gene>>)
    requires
        index_weights(*dist) == widened(seq![fitness.0, fitness.1]),
    ensures
        grid_follows(grid, *shape, fitness),
{
    let mut grid: Vec<Vec<Gene>> = Vec::new();
    let mut k: usize = 0;
    while k < shape.d2
        invariant
            k <= shape.d2,
            index_weights(*dist) == widened(seq![fitness.0, fitness.1]),
            grid@.len() == k,
            forall|x: int| 0 <= x < k ==> row_follows(#[trigger] grid@[x], shape.d3, fitness),
        decreases shape.d2 - k,
    {
        grid.push(draw_row(dist, shape.d3, Ghost(fitness)));
        k += 1;
    }
    grid
}

fn draw_block(dist: &Weighted, shape: &LayerShape, Ghost(fitness): Ghost<(u64, u64)>) -> (block: Vec<Vec<Vec<Gene>>>)
    requires
        index_weights(*dist) == widened(seq![fitness.0, fitness.1]),
    ensures
        block_follows(block, *shape, fitness),
{
    let mut block: Vec<Vec<Vec<Gene>>> = Vec::new();
    let mut j: usize = 0;
    while j < shape.d1
        invariant
            j <= shape.d1,
            index_weights(*dist) == widened(seq![fitness.0, fitness.1]),
            block@.len() == j,
            forall|x: int| 0 <= x < j ==> grid_follows(#[trigger] block@[x], *shape, fitness),
        decreases shape.d1 - j,
    {
        block.push(draw_grid(dist, shape, Ghost(fitness)));
        j += 1;
    }
    block
}

/// Draws the plan of one layer: every scalar of the weight tensor, then
/// every scalar of the bias vector.
fn draw_layer(dist: &Weighted, shape: &LayerShape, Ghost(fitness): Ghost<(u64, u64)>) -> (plan: LayerPlan)
    requires
        index_weights(*dist) == widened(seq![fitness.0, fitness.1]),
    ensures
        plan_follows(plan, *shape, fitness),
{
    let mut weight: Vec<Vec<Vec<Vec<Gene>>>> = Vec::new();
    let mut i: usize = 0;
    while i < shape.d0
        invariant
            i <= shape.d0,
            index_weights(*dist) == widened(seq![fitness.0, fitness.1]),
            weight@.len() == i,
            forall|x: int| 0 <= x < i ==> block_follows(#[trigger] weight@[x], *shape, fitness),
        decreases shape.d0 - i,
    {
        weight.push(draw_block(dist, shape, Ghost(fitness)));
        i += 1;
    }
    let bias = draw_row(dist, shape.bias, Ghost(fitness));
    LayerPlan { weight, bias }
}

/// The shape of the policy network.
pub fn network_shape() -> (shapes: Vec<LayerShape>)
    ensures
        shapes@ == network_shape_spec(),
{
    let mut shapes: Vec<LayerShape> = Vec::new();
    shapes.push(LayerShape { d0: 2, d1: 6, d2: 3, d3: 3, bias: 2 });
    shapes.push(LayerShape { d0: 2, d1: 2, d2: 3, d3: 3, bias: 2 });
    assert(shapes@ =~= network_shape_spec());
    shapes
}

/// Whether two parents have the same layers, shape by shape.
pub fn same_shapes(a: &Vec<LayerShape>, b: &Vec<LayerShape>) -> (same: bool)
    ensures
        same == (a@ == b@),
{
    if a.len() != b.len() {
        return false;
    }
    let mut n: usize = 0;
    while n < a.len()
        invariant
            n <= a.len(),
            a.len() == b.len(),
            forall|x: int| 0 <= x < n ==> a@[x] == b@[x],
        decreases a.len() - n,
    {
        if a[n] != b[n] {
            return false;
        }
        n += 1;
    }
    assert(a@ =~= b@);
    true
}

/// Breeds a child of two parents: for every layer, and independently for
/// every scalar of its weight tensor and of its bias vector, draws the
/// parent with the weights `fitness` (the first for parent A) and then the
/// mutation from a uniform 32-bit draw.
///
/// Fails, before anything is drawn, where the parents' shapes disagree, and
/// then where the fitness pair is no distribution.
pub fn crossover(a: &Vec<LayerShape>, b: &Vec<LayerShape>, fitness: (u64, u64)) -> (child: Result<Vec<LayerPlan>, CrossoverError>)
    ensures
        child is Ok <==> a@ == b@ && valid_fitness(fitness),
        child matches Ok(plans) ==> genome_follows(plans@, a@, fitness),
        child matches Err(e) ==> (e == CrossoverError::ShapeMismatch <==> a@ != b@),
{
    if !same_shapes(a, b) {
        return Err(CrossoverError::ShapeMismatch);
    }
    let mut weights: Vec<u64> = Vec::new();
    weights.push(fitness.0);
    weights.push(fitness.1);
    proof {
        assert(weights@ =~= seq![fitness.0, fitness.1]);
        total_weight_of_pair(fitness.0, fitness.1);
    }
    let dist = match distribution(&weights) {
        Some(dist) => dist,
        None => {
            return Err(CrossoverError::InvalidFitness);
        },
    };
    let mut plans: Vec<LayerPlan> = Vec::new();
    let mut n: usize = 0;
    while n < a.len()
        invariant
            n <= a.len(),
            index_weights(dist) == widened(seq![fitness.0, fitness.1]),
            plans@.len() == n,
            forall|x: int| 0 <= x < n ==> plan_follows(#[trigger] plans@[x], a@[x], fitness),
        decreases a.len() - n,
    {
        plans.push(draw_layer(&dist, &a[n], Ghost(fitness)));
        n += 1;
    }
    Ok(plans)
}

} // verus!
