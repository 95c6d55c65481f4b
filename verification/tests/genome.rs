use chessers::genome::{
    crossover, gene, mutation, network_shape, same_shapes, CrossoverError, Gene, LayerPlan, LayerShape,
    Parent, Scale, MUTATION_THRESHOLD,
};

fn net_shape() -> Vec<LayerShape> {
    network_shape()
}

#[test]
fn network_has_two_layers() {
    assert_eq!(
        network_shape(),
        vec![
            LayerShape { d0: 2, d1: 6, d2: 3, d3: 3, bias: 2 },
            LayerShape { d0: 2, d1: 2, d2: 3, d3: 3, bias: 2 },
        ]
    );
}

#[test]
fn the_child_is_a_parent_scaled() {
    let factor = |scale: Scale| match scale {
        Scale::Half => 0.5,
        Scale::Same => 1.0,
        Scale::Double => 2.0,
    };
    let (a, b) = (3.0f64, -5.0f64);
    let allowed = [1.5, 3.0, 6.0, -2.5, -5.0, -10.0];
    for _ in 0..10 {
        let child = crossover(&net_shape(), &net_shape(), (2, 1)).unwrap();
        for plan in child.iter() {
            for g in genes(plan) {
                let value = g.inherit(a, b) * factor(g.scale);
                assert!(allowed.contains(&value));
            }
        }
    }
}

fn genes(plan: &LayerPlan) -> Vec<Gene> {
    let mut all: Vec<Gene> = plan.weight.iter().flatten().flatten().flatten().copied().collect();
    all.extend(plan.bias.iter().copied());
    all
}

#[test]
fn threshold_is_a_tenth_of_the_range() {
    assert_eq!(MUTATION_THRESHOLD, u32::MAX / 10);
    assert_eq!(MUTATION_THRESHOLD, 429_496_729);
}

#[test]
fn mutation_by_draw() {
    assert_eq!(mutation(0), Scale::Half);
    assert_eq!(mutation(429_496_728), Scale::Half);
    assert_eq!(mutation(429_496_729), Scale::Same);
    assert_eq!(mutation(2_147_483_648), Scale::Same);
    assert_eq!(mutation(u32::MAX - 429_496_729), Scale::Same);
    assert_eq!(mutation(u32::MAX - 429_496_729 + 1), Scale::Double);
    assert_eq!(mutation(u32::MAX), Scale::Double);
}

#[test]
fn gene_by_pick_and_draw() {
    assert_eq!(gene(0, 0), Gene { parent: Parent::A, scale: Scale::Half });
    assert_eq!(gene(1, u32::MAX), Gene { parent: Parent::B, scale: Scale::Double });
    assert_eq!(gene(0, 1 << 31), Gene { parent: Parent::A, scale: Scale::Same });
}

#[test]
fn gene_inherits_from_its_parent() {
    let from_a = Gene { parent: Parent::A, scale: Scale::Same };
    let from_b = Gene { parent: Parent::B, scale: Scale::Double };
    assert_eq!(from_a.inherit(1.5f64, -2.0f64), 1.5);
    assert_eq!(from_b.inherit(1.5f64, -2.0f64), -2.0);
    assert_eq!(from_b.inherit("a", "b"), "b");
}

#[test]
fn same_shapes_compares_every_layer() {
    assert!(same_shapes(&net_shape(), &net_shape()));
    assert!(same_shapes(&vec![], &vec![]));
    let mut other = net_shape();
    other[1].bias = 3;
    assert!(!same_shapes(&net_shape(), &other));
    other = net_shape();
    other.pop();
    assert!(!same_shapes(&net_shape(), &other));
    assert!(!same_shapes(&other, &net_shape()));
}

#[test]
fn crossover_keeps_the_parents_shape() {
    for fitness in [
        (1, 1),
        (3, 1),
        (1, 3),
        (0, 5),
        (7, 0),
        (u64::MAX, 0),
        (u64::MAX - 1, 1),
        (u64::MAX, 1),
        (u64::MAX, u64::MAX),
    ] {
        let child = crossover(&net_shape(), &net_shape(), fitness).unwrap();
        assert_eq!(child.len(), 2);
        for (plan, shape) in child.iter().zip(net_shape().iter()) {
            assert_eq!(plan.weight.len(), shape.d0);
            for block in plan.weight.iter() {
                assert_eq!(block.len(), shape.d1);
                for grid in block.iter() {
                    assert_eq!(grid.len(), shape.d2);
                    for row in grid.iter() {
                        assert_eq!(row.len(), shape.d3);
                    }
                }
            }
            assert_eq!(plan.bias.len(), shape.bias);
        }
        assert_eq!(genes(&child[0]).len(), 2 * 6 * 3 * 3 + 2);
        assert_eq!(genes(&child[1]).len(), 2 * 2 * 3 * 3 + 2);
    }
}

#[test]
fn crossover_never_inherits_from_a_parent_without_fitness() {
    let child = crossover(&net_shape(), &net_shape(), (0, 4)).unwrap();
    for plan in child.iter() {
        for g in genes(plan) {
            assert_eq!(g.parent, Parent::B);
        }
    }
    let child = crossover(&net_shape(), &net_shape(), (4, 0)).unwrap();
    for plan in child.iter() {
        for g in genes(plan) {
            assert_eq!(g.parent, Parent::A);
        }
    }
}

#[test]
fn crossover_weighs_the_parents_by_their_fitness() {
    // With all but one part in 2^64 of the weight, parent A gives every scalar.
    let child = crossover(&net_shape(), &net_shape(), (u64::MAX, 1)).unwrap();
    for plan in child.iter() {
        for g in genes(plan) {
            assert_eq!(g.parent, Parent::A);
        }
    }
    // With equal weights beyond what a `u64` sums to, both parents give.
    let mut parents = [0usize; 2];
    for _ in 0..20 {
        let child = crossover(&net_shape(), &net_shape(), (u64::MAX, u64::MAX)).unwrap();
        for plan in child.iter() {
            for g in genes(plan) {
                match g.parent {
                    Parent::A => parents[0] += 1,
                    Parent::B => parents[1] += 1,
                }
            }
        }
    }
    assert!(parents[0] > 1000 && parents[1] > 1000);
}

#[test]
fn crossover_mixes_parents_and_scales() {
    let mut parents = [0usize; 2];
    let mut scales = [0usize; 3];
    for _ in 0..20 {
        let child = crossover(&net_shape(), &net_shape(), (1, 1)).unwrap();
        for plan in child.iter() {
            for g in genes(plan) {
                match g.parent {
                    Parent::A => parents[0] += 1,
                    Parent::B => parents[1] += 1,
                }
                match g.scale {
                    Scale::Half => scales[0] += 1,
                    Scale::Same => scales[1] += 1,
                    Scale::Double => scales[2] += 1,
                }
            }
        }
    }
    // 20 children of 148 scalars each.
    assert_eq!(parents[0] + parents[1], 20 * 148);
    assert!(parents[0] > 0 && parents[1] > 0);
    assert!(scales[0] > 0 && scales[2] > 0);
    assert!(scales[1] > scales[0] && scales[1] > scales[2]);
}

#[test]
fn crossover_fails_fast_on_mismatched_shapes() {
    let mut other = net_shape();
    other[0].d1 = 5;
    assert_eq!(crossover(&net_shape(), &other, (1, 1)).err(), Some(CrossoverError::ShapeMismatch));
    assert_eq!(crossover(&net_shape(), &vec![], (1, 1)).err(), Some(CrossoverError::ShapeMismatch));
    // The shapes are looked at first.
    assert_eq!(crossover(&net_shape(), &other, (0, 0)).err(), Some(CrossoverError::ShapeMismatch));
}

#[test]
fn crossover_refuses_a_fitness_pair_that_is_no_distribution() {
    assert_eq!(crossover(&net_shape(), &net_shape(), (0, 0)).err(), Some(CrossoverError::InvalidFitness));
    assert_eq!(crossover(&vec![], &vec![], (0, 0)).err(), Some(CrossoverError::InvalidFitness));
}

#[test]
fn crossover_of_empty_genomes() {
    assert_eq!(crossover(&vec![], &vec![], (1, 1)).unwrap().len(), 0);
    let flat = vec![LayerShape { d0: 0, d1: 3, d2: 3, d3: 3, bias: 0 }];
    let child = crossover(&flat, &flat, (1, 1)).unwrap();
    assert_eq!(child[0].weight.len(), 0);
    assert_eq!(child[0].bias.len(), 0);
}
