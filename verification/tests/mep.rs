use mli::cellwise::CellOp;
use mli::fixed::Fixed;
use mli::mep::{Mep, Mutate, Mutation, Opcode, Stateless};
use rand::rngs::StdRng;
use rand::SeedableRng;

fn opcode(instruction: u32, first: usize, second: usize) -> Opcode<u32> {
    Opcode { instruction, first, second }
}

#[test]
fn mep_new() {
    let program: Vec<Opcode<u32>> = (0..8).map(|i| opcode(i, 0, 0)).collect();
    let a: Mep<u32> = Mep::from_parts(program, 0, 0, 1, 1).expect("the program looks back");

    assert_eq!(a.instructions(), (0..8).collect::<Vec<_>>());
}

#[test]
fn mep_rejects_forward_reference() {
    let program = vec![opcode(0, 1, 0)];
    assert!(Mep::from_parts(program, 0, 0, 1, 1).is_none());
}

#[test]
fn mep_process_adds_and_multiplies() {
    // Places 0..3 are the inputs 2, 3, 4; then 2 + 3, (2 + 3) * 4, and the sum of both.
    let program = vec![
        Opcode { instruction: CellOp::Sum, first: 0, second: 1 },
        Opcode { instruction: CellOp::Product, first: 3, second: 2 },
        Opcode { instruction: CellOp::Sum, first: 3, second: 4 },
    ];
    let mep = Mep::from_parts(program, 10, 10, 3, 2).expect("the program looks back");
    let inputs = vec![Fixed::from_raw(2 << 16), Fixed::from_raw(3 << 16), Fixed::from_raw(4 << 16)];
    let mut run = mep.process(&inputs);
    assert_eq!(run.next(), Some(Fixed::from_raw(25 << 16)));
    assert_eq!(run.next(), Some(Fixed::from_raw(20 << 16)));
    assert_eq!(run.next(), None);
}

#[derive(Clone, Copy)]
struct Op;

impl Mutate for Op {
    fn mutate(&mut self, _: &mut StdRng) {}
}

impl Stateless<(i32, i32), i32> for Op {
    fn process_spec(&self, inputs: (i32, i32)) -> i32 {
        inputs.0.wrapping_add(inputs.1)
    }

    fn process(&self, inputs: (i32, i32)) -> i32 {
        self.process_spec(inputs)
    }
}

#[test]
fn mep() {
    let mut rng = StdRng::seed_from_u64(0x0102_0304);
    let (mut a, b) = {
        let mut clos = || Mep::<Op>::new(3, 1, 10, 10, 10, vec![Op; 11], &mut rng);
        (clos(), clos())
    };
    a.mutate_settings(&mut rng);
    while a.mutate_step(&mut rng).is_some() {}
    let c = a.mate(&b, &mut rng);

    let inputs = vec![2i32, 3, 4];
    let mut run = c.process(&inputs);
    let mut results = Vec::new();
    while let Some(result) = run.next() {
        results.push(result);
    }
    assert_eq!(results.len(), 1);
}

#[test]
fn mep_new_draws_operands_from_before() {
    let mut rng = StdRng::seed_from_u64(7);
    let mep = Mep::<u32>::new(2, 3, 5, 1, 1, (0..8).collect(), &mut rng);
    assert_eq!(mep.instructions(), (0..8).collect::<Vec<_>>());
    for (place, op) in mep.program.iter().enumerate() {
        let bound = if place < 5 { place + 2 } else { 5 + 2 };
        assert!(op.first < bound && op.second < bound);
    }
}

#[test]
fn mep_cross_changes_sides_at_marks() {
    let left = Mep::from_parts((0..6).map(|i| opcode(i, 0, 0)).collect(), 1, 1, 1, 1).unwrap();
    let right = Mep::from_parts((10..16).map(|i| opcode(i, 0, 0)).collect(), 2, 2, 1, 1).unwrap();
    let marks = vec![false, true, false, false, true, false];
    let child = left.cross(&right, &marks, 2, 1);
    assert_eq!(child.instructions(), vec![0, 11, 12, 13, 4, 5]);
    assert_eq!((child.mutate_lambda, child.crossover_points), (2, 1));
}

#[test]
fn mep_mate_takes_every_operation_from_a_parent() {
    let mut rng = StdRng::seed_from_u64(3);
    let left = Mep::from_parts((0..6).map(|i| opcode(i, 0, 0)).collect(), 1, 1, 1, 1).unwrap();
    let right = Mep::from_parts((10..18).map(|i| opcode(i, 0, 0)).collect(), 4, 3, 1, 1).unwrap();
    for _ in 0..20 {
        let child = left.mate(&right, &mut rng);
        assert_eq!(child.program.len(), 6);
        for (place, op) in child.program.iter().enumerate() {
            assert!(op.instruction == place as u32 || op.instruction == place as u32 + 10);
        }
        assert!((1..=4).contains(&child.mutate_lambda));
        assert!((1..=3).contains(&child.crossover_points));
    }
}

#[test]
fn mep_set_operand_may_break_the_program() {
    let mut mep = Mep::from_parts(vec![opcode(0, 0, 0), opcode(1, 1, 0)], 0, 0, 1, 1).unwrap();
    mep.set_operand(1, true, 1);
    assert_eq!((mep.program[1].first, mep.program[1].second), (1, 1));
    mep.set_operand(0, false, 1);
    let parts = Mep::from_parts(mep.program.clone(), 0, 0, 1, 1);
    assert!(parts.is_none());
}

#[test]
fn mep_nudge_saturates() {
    assert_eq!(Mep::<u32>::nudge(0, false), 0);
    assert_eq!(Mep::<u32>::nudge(usize::MAX, true), usize::MAX);
    assert_eq!(Mep::<u32>::nudge(5, true), 6);
    assert_eq!(Mep::<u32>::nudge(5, false), 4);
}

#[test]
fn mep_new_draws_different_operands() {
    let mut rng = StdRng::seed_from_u64(11);
    let mep = Mep::<u32>::new(40, 8, 56, 1, 1, (0..64).collect(), &mut rng);
    let operands: Vec<usize> = mep.program.iter().flat_map(|op| [op.first, op.second]).collect();
    assert!(operands.iter().any(|&operand| operand != 0));
    assert!(operands.iter().any(|&operand| operand != operands[0]));
}

#[test]
fn mep_drift_moves_only_on_a_hit() {
    assert_eq!(Mep::<u32>::drift(5, 0, 0), 6);
    assert_eq!(Mep::<u32>::drift(5, 0, 1), 4);
    assert_eq!(Mep::<u32>::drift(5, 1, 0), 5);
    assert_eq!(Mep::<u32>::drift(5, 3, 1), 5);
    assert_eq!(Mep::<u32>::drift(0, 0, 1), 0);
    assert_eq!(Mep::<u32>::drift(usize::MAX, 0, 0), usize::MAX);
}

#[test]
fn mep_place_of_ends_beyond_the_program() {
    let mep = Mep::from_parts((0..3).map(|i| opcode(i, 0, 0)).collect(), 4, 1, 1, 1).unwrap();
    assert_eq!(mep.place_of(0), Some(0));
    assert_eq!(mep.place_of(2), Some(2));
    assert_eq!(mep.place_of(3), None);
    assert_eq!(mep.place_of(7), None);
}

#[test]
fn mep_operand_limit_depends_on_the_place() {
    // Five operations, the last three of them results, and two inputs.
    let mep = Mep::from_parts((0..5).map(|i| opcode(i, 0, 0)).collect(), 0, 0, 2, 3).unwrap();
    assert_eq!(mep.operand_limit(0), 2);
    assert_eq!(mep.operand_limit(2), 4);
    assert_eq!(mep.operand_limit(3), 5);
    assert_eq!(mep.operand_limit(4), 6);
}

#[test]
fn mep_apply_mutation_changes_one_part_of_one_operation() {
    let mut mep = Mep::from_parts(vec![opcode(7, 0, 0), opcode(8, 1, 0), opcode(9, 2, 1)], 4, 5, 1, 1).unwrap();
    mep.apply_mutation(1, Mutation::Instruction(80));
    mep.apply_mutation(2, Mutation::First(0));
    mep.apply_mutation(2, Mutation::Second(2));
    let ops: Vec<(u32, usize, usize)> =
        mep.program.iter().map(|op| (op.instruction, op.first, op.second)).collect();
    assert_eq!(ops, vec![(7, 0, 0), (80, 1, 0), (9, 0, 2)]);
    assert_eq!((mep.mutate_lambda, mep.crossover_points, mep.inputs, mep.outputs), (4, 5, 1, 1));
}

#[test]
fn mep_mutate_step_changes_at_most_the_place_it_names() {
    let mut rng = StdRng::seed_from_u64(5);
    for _ in 0..50 {
        let mut mep = Mep::from_parts((0..6).map(|_| Opcode { instruction: Op, first: 0, second: 0 }).collect(), 2, 1, 3, 1)
            .unwrap();
        let before: Vec<(usize, usize)> = mep.program.iter().map(|op| (op.first, op.second)).collect();
        let mutated = mep.mutate_step(&mut rng);
        let after: Vec<(usize, usize)> = mep.program.iter().map(|op| (op.first, op.second)).collect();
        match mutated {
            None => assert_eq!(before, after),
            Some(choice) => {
                assert!(choice < 6);
                for place in 0..6 {
                    if place != choice {
                        assert_eq!(before[place], after[place]);
                    }
                }
                let limit = mep.operand_limit(choice);
                assert!(after[choice].0 < limit && after[choice].1 < limit);
                assert!(after[choice].0 == before[choice].0 || after[choice].1 == before[choice].1);
            }
        }
    }
}

#[test]
fn mep_mutate_settings_moves_each_setting_by_at_most_one() {
    let mut rng = StdRng::seed_from_u64(9);
    let mut moved = false;
    for _ in 0..50 {
        let mut mep = Mep::from_parts(vec![opcode(0, 0, 0)], 1, 7, 1, 1).unwrap();
        mep.mutate_settings(&mut rng);
        assert!((0..=2).contains(&mep.mutate_lambda));
        assert!((6..=8).contains(&mep.crossover_points));
        assert_eq!(mep.instructions(), vec![0]);
        moved = moved || mep.mutate_lambda != 1 || mep.crossover_points != 7;
    }
    assert!(moved);
}
