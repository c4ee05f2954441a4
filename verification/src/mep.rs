//! Multi-expression programs: a row of operations, each of which may use
//! the results of earlier ones.

use crate::cellwise::{combine, combined, CellOp};
use crate::scalar::Scalar;
use vstd::prelude::*;

verus! {

/// Something that turns an input into an output and keeps no state.
pub trait Stateless<Input, Output> {
    /// What the input is turned into.
    spec fn process_spec(&self, input: Input) -> Output;

    fn process(&self, input: Input) -> (output: Output)
        ensures
            output == self.process_spec(input),
    ;
}

impl<T: Scalar> Stateless<(T, T), T> for CellOp {
    open spec fn process_spec(&self, input: (T, T)) -> T {
        combined(*self, input.0, input.1)
    }

    fn process(&self, input: (T, T)) -> (output: T) {
        combine(*self, input.0, input.1)
    }
}

/// One operation of a program: an instruction and the places of its two
/// operands. Places count the program's inputs first and then its
/// operations.
#[derive(Clone, Copy, Debug)]
pub struct Opcode<Ins> {
    pub instruction: Ins,
    pub first: usize,
    pub second: usize,
}

/// A program whose last `outputs` operations give its results.
#[derive(Debug)]
pub struct Mep<Ins> {
    pub program: Vec<Opcode<Ins>>,
    pub mutate_lambda: usize,
    pub crossover_points: usize,
    pub inputs: usize,
    pub outputs: usize,
}

/// Whether every operation of the program takes its operands from before
/// its own place.
pub open spec fn looks_back<Ins>(program: Seq<Opcode<Ins>>, inputs: int) -> bool {
    forall|p: int|
        0 <= p < program.len() ==> (#[trigger] program[p]).first < p + inputs && program[p].second < p
            + inputs
}

/// The value at a place: an input, or what the operation there makes of
/// the values at the places of its operands.
pub open spec fn value_at<Ins: Stateless<(Param, Param), Param>, Param>(
    program: Seq<Opcode<Ins>>,
    inputs: Seq<Param>,
    place: int,
) -> Param
    recommends
        looks_back(program, inputs.len() as int),
        0 <= place < inputs.len() + program.len(),
    decreases place,
{
    if place < inputs.len() || place >= inputs.len() + program.len() || !looks_back(
        program,
        inputs.len() as int,
    ) {
        inputs[place]
    } else {
        let op = program[place - inputs.len()];
        op.instruction.process_spec(
            (value_at(program, inputs, op.first as int), value_at(program, inputs, op.second as int)),
        )
    }
}

impl<Ins> Mep<Ins> {
    /// The program fits in memory beside its inputs, has its results
    /// among its operations, and looks back.
    pub open spec fn wf(&self) -> bool {
        &&& self.outputs <= self.program@.len()
        &&& self.program@.len() + self.inputs <= usize::MAX
        &&& looks_back(self.program@, self.inputs as int)
    }

    /// The program made of the given parts, where they make one.
    pub fn from_parts(
        program: Vec<Opcode<Ins>>,
        mutate_lambda: usize,
        crossover_points: usize,
        inputs: usize,
        outputs: usize,
    ) -> (made: Option<Mep<Ins>>)
        ensures
            made is Some <==> (Mep { program, mutate_lambda, crossover_points, inputs, outputs }).wf(),
            made matches Some(mep) ==> mep == (Mep {
                program,
                mutate_lambda,
                crossover_points,
                inputs,
                outputs,
            }),
    {
        let n: usize = program.len();
        if outputs > n || inputs > usize::MAX - n {
            return None;
        }
        let mut p: usize = 0;
        while p < n
            invariant
                p <= n,
                n == program@.len(),
                n + inputs <= usize::MAX,
                forall|k: int|
                    0 <= k < p ==> (#[trigger] program@[k]).first < k + inputs && program@[k].second
                        < k + inputs,
            decreases n - p,
        {
            if program[p].first >= p + inputs || program[p].second >= p + inputs {
                return None;
            }
            p += 1;
        }
        Some(Mep { program, mutate_lambda, crossover_points, inputs, outputs })
    }

    /// Sets out to run the program on the given inputs. Results come one
    /// by one, the last operation's first.
    pub fn process<'a, Param>(&'a self, inputs: &'a Vec<Param>) -> (run: ResultIterator<
        'a,
        Ins,
        Param,
    >) where Ins: Stateless<(Param, Param), Param>, Param: Copy
        requires
            self.wf(),
            inputs@.len() == self.inputs,
        ensures
            run.wf(),
            run.mep == self,
            run.inputs == inputs,
            run.remaining == self.outputs,
    {
        let mut buff: Vec<Option<Param>> = Vec::new();
        let n: usize = self.program.len();
        let mut i: usize = 0;
        while i < n
            invariant
                i <= n,
                buff@.len() == i,
                forall|k: int| 0 <= k < i ==> #[trigger] buff@[k] is None,
            decreases n - i,
        {
            buff.push(None);
            i += 1;
        }
        ResultIterator { mep: self, buff, remaining: self.outputs, inputs }
    }
}

impl<Ins: Copy> Mep<Ins> {
    /// The instructions of the program, in its order.
    pub fn instructions(&self) -> (out: Vec<Ins>)
        ensures
            out@.len() == self.program@.len(),
            forall|p: int| 0 <= p < out@.len() ==> #[trigger] out@[p] == self.program@[p].instruction,
    {
        let mut out: Vec<Ins> = Vec::new();
        let n: usize = self.program.len();
        let mut p: usize = 0;
        while p < n
            invariant
                p <= n,
                n == self.program@.len(),
                out@.len() == p,
                forall|k: int| 0 <= k < p ==> #[trigger] out@[k] == self.program@[k].instruction,
            decreases n - p,
        {
            out.push(self.program[p].instruction);
            p += 1;
        }
        out
    }
}

/// A run of a program on given inputs: the results not yet asked for, and
/// what has been worked out so far.
pub struct ResultIterator<'a, Ins, Param> {
    pub mep: &'a Mep<Ins>,
    pub buff: Vec<Option<Param>>,
    pub remaining: usize,
    pub inputs: &'a Vec<Param>,
}

impl<'a, Ins: Stateless<(Param, Param), Param>, Param: Copy> ResultIterator<'a, Ins, Param> {
    /// The run belongs to a well-formed program, and what it has worked
    /// out is right.
    pub open spec fn wf(&self) -> bool {
        &&& self.mep.wf()
        &&& self.inputs@.len() == self.mep.inputs
        &&& self.buff@.len() == self.mep.program@.len()
        &&& self.remaining <= self.mep.outputs
        &&& forall|k: int|
            0 <= k < self.buff@.len() ==> (#[trigger] self.buff@[k] matches Some(value) ==> value
                == value_at(self.mep.program@, self.inputs@, k + self.mep.inputs))
    }

    /// The value at a place, worked out once and kept.
    pub fn op_solved(&mut self, i: usize) -> (value: Param)
        requires
            old(self).wf(),
            i < old(self).mep.inputs + old(self).mep.program@.len(),
        ensures
            final(self).wf(),
            final(self).mep == old(self).mep,
            final(self).inputs == old(self).inputs,
            final(self).remaining == old(self).remaining,
            value == value_at(old(self).mep.program@, old(self).inputs@, i as int),
        decreases i,
    {
        if i < self.mep.inputs {
            return self.inputs[i];
        }
        let at: usize = i - self.mep.inputs;
        match self.buff[at] {
            Some(value) => value,
            None => {
                let first: usize = self.mep.program[at].first;
                let second: usize = self.mep.program[at].second;
                let left: Param = self.op_solved(first);
                let right: Param = self.op_solved(second);
                let result: Param = self.mep.program[at].instruction.process((left, right));
                self.buff.set(at, Some(result));
                result
            },
        }
    }

    /// The next result, if any is left: that of the last operation first.
    pub fn next(&mut self) -> (result: Option<Param>)
        requires
            old(self).wf(),
        ensures
            final(self).wf(),
            final(self).mep == old(self).mep,
            final(self).inputs == old(self).inputs,
            old(self).remaining == 0 ==> result is None && final(self).remaining == 0,
            old(self).remaining > 0 ==> final(self).remaining == old(self).remaining - 1 && result
                == Some(
                value_at(
                    old(self).mep.program@,
                    old(self).inputs@,
                    old(self).mep.inputs + old(self).mep.program@.len() - old(self).mep.outputs
                        + old(self).remaining - 1,
                ),
            ),
    {
        if self.remaining == 0 {
            return None;
        }
        let place: usize = self.mep.program.len() - self.mep.outputs + (self.remaining - 1)
            + self.mep.inputs;
        self.remaining = self.remaining - 1;
        Some(self.op_solved(place))
    }
}

/// The generator that programs are drawn, mated and mutated with.
#[verifier::external_type_specification]
#[verifier::external_body]
pub struct ExStdRng(rand::rngs::StdRng);

/// Draws from `low..high` with `rand::RngExt::random_range`, which
/// panics on an empty range and otherwise gives a number of the range.
/// Which number comes is not said.
#[verifier::external_body]
fn gen_range(rng: &mut rand::rngs::StdRng, low: usize, high: usize) -> (drawn: usize)
    requires
        low < high,
    ensures
        low <= drawn < high,
{
    rand::RngExt::random_range(rng, low..high)
}

/// Something that can change itself a little, at random.
pub trait Mutate {
    fn mutate(&mut self, rng: &mut rand::rngs::StdRng);
}

/// Whether the operation at place `p` of a child comes from the second
/// parent: the side changes at every marked place up to `p`, starting
/// with the first parent.
pub open spec fn side_at(marks: Seq<bool>, p: int) -> bool
    decreases p + 1,
{
    if p < 0 {
        false
    } else {
        side_at(marks, p - 1) != marks[p]
    }
}

/// A setting moved by one, without leaving the range of `usize`.
pub open spec fn nudged(value: usize, up: bool) -> usize {
    if up {
        if value == usize::MAX {
            value
        } else {
            (value + 1) as usize
        }
    } else {
        if value == 0 {
            value
        } else {
            (value - 1) as usize
        }
    }
}

/// A setting after two draws: it moves only where `hit` is zero, and then
/// up where `side` is zero and down where it is not.
pub open spec fn drifted(value: usize, hit: usize, side: usize) -> usize {
    if hit == 0 {
        nudged(value, side == 0)
    } else {
        value
    }
}

/// What one step of mutation does to an operation.
#[derive(Clone, Copy, Debug)]
pub enum Mutation<Ins> {
    /// The operation gets this instruction.
    Instruction(Ins),
    /// The operation gets this first operand.
    First(usize),
    /// The operation gets this second operand.
    Second(usize),
}

/// The operation after a mutation.
pub open spec fn mutated_op<Ins>(op: Opcode<Ins>, mutation: Mutation<Ins>) -> Opcode<Ins> {
    match mutation {
        Mutation::Instruction(instruction) => Opcode { instruction, ..op },
        Mutation::First(first) => Opcode { first, ..op },
        Mutation::Second(second) => Opcode { second, ..op },
    }
}

impl<Ins: Copy> Mep<Ins> {
    /// Below what a new operand of the operation at `choice` is drawn
    /// when the program is mutated.
    pub open spec fn operand_bound(&self, choice: int) -> int {
        if choice > self.program@.len() - self.outputs {
            choice + self.program@.len() - self.outputs
        } else {
            choice + self.inputs
        }
    }

    /// A program of the given instructions, as many as there are inner
    /// operations and results together, with operands drawn at random
    /// from before each operation; a result draws from the inputs and
    /// the inner operations only.
    pub fn new(
        inputs: usize,
        outputs: usize,
        internal_instruction_count: usize,
        mutate_lambda: usize,
        crossover_points: usize,
        instructions: Vec<Ins>,
        rng: &mut rand::rngs::StdRng,
    ) -> (mep: Mep<Ins>)
        requires
            instructions@.len() == internal_instruction_count + outputs,
            instructions@.len() + inputs <= usize::MAX,
            instructions@.len() > 0 ==> inputs > 0,
        ensures
            mep.wf(),
            mep.inputs == inputs,
            mep.outputs == outputs,
            mep.mutate_lambda == mutate_lambda,
            mep.crossover_points == crossover_points,
            mep.program@.len() == instructions@.len(),
            forall|p: int|
                0 <= p < instructions@.len() ==> (#[trigger] mep.program@[p]).instruction
                    == instructions@[p],
            forall|p: int|
                internal_instruction_count <= p < instructions@.len() ==> (#[trigger] mep.program@[p]).first
                    < internal_instruction_count + inputs && mep.program@[p].second
                    < internal_instruction_count + inputs,
    {
        let total: usize = instructions.len();
        let mut program: Vec<Opcode<Ins>> = Vec::new();
        let mut i: usize = 0;
        while i < total
            invariant
                i <= total,
                total == instructions@.len(),
                total == internal_instruction_count + outputs,
                total + inputs <= usize::MAX,
                total > 0 ==> inputs > 0,
                program@.len() == i,
                looks_back(program@, inputs as int),
                forall|p: int|
                    0 <= p < i ==> (#[trigger] program@[p]).instruction == instructions@[p],
                forall|p: int|
                    internal_instruction_count <= p < i ==> (#[trigger] program@[p]).first
                        < internal_instruction_count + inputs && program@[p].second
                        < internal_instruction_count + inputs,
            decreases total - i,
        {
            let bound: usize = if i < internal_instruction_count {
                i + inputs
            } else {
                internal_instruction_count + inputs
            };
            let first: usize = gen_range(rng, 0, bound);
            let second: usize = gen_range(rng, 0, bound);
            program.push(Opcode { instruction: instructions[i], first, second });
            i += 1;
        }
        Mep { program, mutate_lambda, crossover_points, inputs, outputs }
    }

    /// The child of two programs that takes its operations from the one
    /// or the other parent, changing sides at every marked place, and has
    /// the given settings. It is as long as the shorter parent.
    pub fn cross(
        &self,
        rhs: &Mep<Ins>,
        marks: &Vec<bool>,
        mutate_lambda: usize,
        crossover_points: usize,
    ) -> (child: Mep<Ins>)
        requires
            self.wf(),
            rhs.wf(),
            self.inputs == rhs.inputs,
            self.outputs == rhs.outputs,
            marks@.len() == self.program@.len() || marks@.len() == rhs.program@.len(),
            marks@.len() <= self.program@.len(),
            marks@.len() <= rhs.program@.len(),
        ensures
            child.wf(),
            child.inputs == self.inputs,
            child.outputs == self.outputs,
            child.mutate_lambda == mutate_lambda,
            child.crossover_points == crossover_points,
            child.program@.len() == marks@.len(),
            forall|p: int|
                0 <= p < marks@.len() ==> #[trigger] child.program@[p] == (if side_at(marks@, p) {
                    rhs.program@[p]
                } else {
                    self.program@[p]
                }),
    {
        let total: usize = marks.len();
        let mut program: Vec<Opcode<Ins>> = Vec::new();
        let mut second_side: bool = false;
        let mut p: usize = 0;
        while p < total
            invariant
                p <= total,
                total == marks@.len(),
                total <= self.program@.len(),
                total <= rhs.program@.len(),
                self.wf(),
                rhs.wf(),
                self.inputs == rhs.inputs,
                second_side == side_at(marks@, p - 1),
                program@.len() == p,
                looks_back(program@, self.inputs as int),
                forall|k: int|
                    0 <= k < p ==> #[trigger] program@[k] == (if side_at(marks@, k) {
                        rhs.program@[k]
                    } else {
                        self.program@[k]
                    }),
            decreases total - p,
        {
            if marks[p] {
                second_side = !second_side;
            }
            let op: Opcode<Ins> = if second_side {
                rhs.program[p]
            } else {
                self.program[p]
            };
            program.push(op);
            p += 1;
        }
        Mep { program, mutate_lambda, crossover_points, inputs: self.inputs, outputs: self.outputs }
    }

    /// A child of two programs with the same inputs and results: places
    /// to change sides at are drawn at random, at least one and at most
    /// as many as one of the parents allows, and each setting is drawn
    /// from between the parents' settings.
    pub fn mate(&self, rhs: &Mep<Ins>, rng: &mut rand::rngs::StdRng) -> (child: Mep<Ins>)
        requires
            self.wf(),
            rhs.wf(),
            self.inputs == rhs.inputs,
            self.outputs == rhs.outputs,
            self.program@.len() >= 4,
            rhs.program@.len() >= 4,
            1 <= self.crossover_points < usize::MAX,
            1 <= rhs.crossover_points < usize::MAX,
            self.mutate_lambda < usize::MAX,
            rhs.mutate_lambda < usize::MAX,
        ensures
            child.wf(),
            child.inputs == self.inputs,
            child.outputs == self.outputs,
            child.program@.len() == self.program@.len() || child.program@.len()
                == rhs.program@.len(),
            child.program@.len() <= self.program@.len(),
            child.program@.len() <= rhs.program@.len(),
            forall|p: int|
                0 <= p < child.program@.len() ==> #[trigger] child.program@[p] == self.program@[p]
                    || child.program@[p] == rhs.program@[p],
            self.mutate_lambda <= child.mutate_lambda <= rhs.mutate_lambda || rhs.mutate_lambda
                <= child.mutate_lambda <= self.mutate_lambda,
            self.crossover_points <= child.crossover_points <= rhs.crossover_points
                || rhs.crossover_points <= child.crossover_points <= self.crossover_points,
    {
        let total: usize = if self.program.len() < rhs.program.len() {
            self.program.len()
        } else {
            rhs.program.len()
        };
        let allowed: usize = if gen_range(rng, 0, 2) == 0 {
            self.crossover_points
        } else {
            rhs.crossover_points
        };
        let most: usize = if total / 2 < allowed + 1 {
            total / 2
        } else {
            allowed + 1
        };
        let count: usize = gen_range(rng, 1, most);
        let mut marks: Vec<bool> = Vec::new();
        let mut p: usize = 0;
        while p < total
            invariant
                p <= total,
                marks@.len() == p,
            decreases total - p,
        {
            marks.push(false);
            p += 1;
        }
        let mut drawn: usize = 0;
        while drawn < count
            invariant
                drawn <= count,
                total >= 4,
                marks@.len() == total,
            decreases count - drawn,
        {
            let place: usize = gen_range(rng, 0, total);
            marks.set(place, true);
            drawn += 1;
        }
        let mutate_lambda: usize = if self.mutate_lambda < rhs.mutate_lambda {
            gen_range(rng, self.mutate_lambda, rhs.mutate_lambda + 1)
        } else {
            gen_range(rng, rhs.mutate_lambda, self.mutate_lambda + 1)
        };
        let crossover_points: usize = if self.crossover_points < rhs.crossover_points {
            gen_range(rng, self.crossover_points, rhs.crossover_points + 1)
        } else {
            gen_range(rng, rhs.crossover_points, self.crossover_points + 1)
        };
        self.cross(rhs, &marks, mutate_lambda, crossover_points)
    }

    /// Moves a setting by one, up or down, without leaving the range of
    /// `usize`.
    pub fn nudge(value: usize, up: bool) -> (moved: usize)
        ensures
            moved == nudged(value, up),
    {
        if up {
            if value == usize::MAX {
                value
            } else {
                value + 1
            }
        } else {
            if value == 0 {
                value
            } else {
                value - 1
            }
        }
    }

    /// A setting after two draws: it moves by one only where `hit` is
    /// zero, and then up where `side` is zero and down where it is not.
    pub fn drift(value: usize, hit: usize, side: usize) -> (moved: usize)
        ensures
            moved == drifted(value, hit, side),
    {
        if hit == 0 {
            Self::nudge(value, side == 0)
        } else {
            value
        }
    }

    /// The place in the program that a draw names: a draw beyond the
    /// program names none.
    pub fn place_of(&self, choice: usize) -> (place: Option<usize>)
        ensures
            place == (if choice < self.program@.len() {
                Some(choice)
            } else {
                None::<usize>
            }),
    {
        if choice < self.program.len() {
            Some(choice)
        } else {
            None
        }
    }

    /// Below what a new operand of the operation at `choice` is drawn.
    pub fn operand_limit(&self, choice: usize) -> (limit: usize)
        requires
            self.outputs <= self.program@.len(),
            self.program@.len() + self.inputs <= usize::MAX,
            self.program@.len() <= usize::MAX / 2,
            choice < self.program@.len(),
        ensures
            limit == self.operand_bound(choice as int),
    {
        let places: usize = self.program.len();
        if choice > places - self.outputs {
            choice + (places - self.outputs)
        } else {
            choice + self.inputs
        }
    }

    /// Gives the operation at `choice` the instruction or the operand that
    /// the mutation holds. All else stays.
    pub fn apply_mutation(&mut self, choice: usize, mutation: Mutation<Ins>)
        requires
            choice < old(self).program@.len(),
        ensures
            final(self).inputs == old(self).inputs,
            final(self).outputs == old(self).outputs,
            final(self).mutate_lambda == old(self).mutate_lambda,
            final(self).crossover_points == old(self).crossover_points,
            final(self).program@ == old(self).program@.update(
                choice as int,
                mutated_op(old(self).program@[choice as int], mutation),
            ),
    {
        let op: Opcode<Ins> = self.program[choice];
        let changed: Opcode<Ins> = match mutation {
            Mutation::Instruction(instruction) => Opcode {
                instruction,
                first: op.first,
                second: op.second,
            },
            Mutation::First(first) => Opcode { instruction: op.instruction, first, second: op.second },
            Mutation::Second(second) => Opcode { instruction: op.instruction, first: op.first, second },
        };
        self.program.set(choice, changed);
    }

    /// Mutates the two settings: each, with a chance of one in the
    /// mutation setting plus one, moves up or down by one.
    pub fn mutate_settings(&mut self, rng: &mut rand::rngs::StdRng)
        requires
            old(self).mutate_lambda < usize::MAX,
        ensures
            final(self).program == old(self).program,
            final(self).inputs == old(self).inputs,
            final(self).outputs == old(self).outputs,
            final(self).mutate_lambda == old(self).mutate_lambda || final(self).mutate_lambda
                == nudged(old(self).mutate_lambda, true) || final(self).mutate_lambda == nudged(
                old(self).mutate_lambda,
                false,
            ),
            final(self).crossover_points == old(self).crossover_points || final(self).crossover_points
                == nudged(old(self).crossover_points, true) || final(self).crossover_points == nudged(
                old(self).crossover_points,
                false,
            ),
    {
        let effective_lambda: usize = self.mutate_lambda + 1;
        let hit: usize = gen_range(rng, 0, effective_lambda);
        let side: usize = if hit == 0 {
            gen_range(rng, 0, 2)
        } else {
            0
        };
        self.mutate_lambda = Self::drift(self.mutate_lambda, hit, side);
        let hit: usize = gen_range(rng, 0, effective_lambda);
        let side: usize = if hit == 0 {
            gen_range(rng, 0, 2)
        } else {
            0
        };
        self.crossover_points = Self::drift(self.crossover_points, hit, side);
    }

    /// Gives the operation at `choice` a new first or second operand. The
    /// program still looks back exactly where the new operand lies before
    /// the operation.
    pub fn set_operand(&mut self, choice: usize, second: bool, operand: usize)
        requires
            old(self).wf(),
            choice < old(self).program@.len(),
        ensures
            final(self).inputs == old(self).inputs,
            final(self).outputs == old(self).outputs,
            final(self).mutate_lambda == old(self).mutate_lambda,
            final(self).crossover_points == old(self).crossover_points,
            final(self).program@.len() == old(self).program@.len(),
            forall|p: int|
                0 <= p < old(self).program@.len() && p != choice ==> #[trigger] final(self).program@[p]
                    == old(self).program@[p],
            final(self).program@[choice as int] == (if second {
                Opcode { second: operand, ..old(self).program@[choice as int] }
            } else {
                Opcode { first: operand, ..old(self).program@[choice as int] }
            }),
            final(self).wf() <==> operand < choice + old(self).inputs,
    {
        let op: Opcode<Ins> = self.program[choice];
        let changed: Opcode<Ins> = if second {
            Opcode { instruction: op.instruction, first: op.first, second: operand }
        } else {
            Opcode { instruction: op.instruction, first: operand, second: op.second }
        };
        self.program.set(choice, changed);
        proof {
            if operand < choice + old(self).inputs {
                assert forall|p: int| 0 <= p < self.program@.len() implies (#[trigger] self.program@[p]).first
                    < p + self.inputs && self.program@[p].second < p + self.inputs by {
                    if p != choice {
                        assert(self.program@[p] == old(self).program@[p]);
                    }
                }
            } else {
                assert(self.program@[choice as int].first >= choice + self.inputs
                    || self.program@[choice as int].second >= choice + self.inputs);
            }
        }
    }
}

impl<Ins: Copy + Mutate> Mep<Ins> {
    /// One step of mutating the operations: a place is drawn from the
    /// program and as many places beyond it as the mutation setting plus
    /// one. A place beyond the program ends the mutation (`None`). At a
    /// place in the program, which is returned, either the instruction
    /// mutates, or an operand is drawn anew from below the operation's
    /// bound.
    pub fn mutate_step(&mut self, rng: &mut rand::rngs::StdRng) -> (mutated: Option<usize>)
        requires
            old(self).wf(),
            old(self).program@.len() <= usize::MAX / 2,
            old(self).program@.len() + old(self).mutate_lambda < usize::MAX,
            old(self).inputs > 0,
        ensures
            final(self).inputs == old(self).inputs,
            final(self).outputs == old(self).outputs,
            final(self).mutate_lambda == old(self).mutate_lambda,
            final(self).crossover_points == old(self).crossover_points,
            final(self).program@.len() == old(self).program@.len(),
            mutated is None ==> final(self).program == old(self).program,
            mutated matches Some(choice) ==> {
                let before = old(self).program@[choice as int];
                let after = final(self).program@[choice as int];
                &&& choice < old(self).program@.len()
                &&& forall|p: int|
                    0 <= p < old(self).program@.len() && p != choice ==> #[trigger] final(self).program@[p]
                        == old(self).program@[p]
                &&& {
                    ||| after.first == before.first && after.second == before.second
                    ||| after.instruction == before.instruction && after.second == before.second
                        && after.first < old(self).operand_bound(choice as int)
                    ||| after.instruction == before.instruction && after.first == before.first
                        && after.second < old(self).operand_bound(choice as int)
                }
            },
    {
        let places: usize = self.program.len();
        let drawn: usize = gen_range(rng, 0, places + (self.mutate_lambda + 1));
        match self.place_of(drawn) {
            None => None,
            Some(choice) => {
                let part: usize = gen_range(rng, 0, 3);
                let mutation: Mutation<Ins> = if part == 0 {
                    let mut instruction: Ins = self.program[choice].instruction;
                    instruction.mutate(rng);
                    Mutation::Instruction(instruction)
                } else {
                    let operand: usize = gen_range(rng, 0, self.operand_limit(choice));
                    if part == 1 {
                        Mutation::First(operand)
                    } else {
                        Mutation::Second(operand)
                    }
                };
                self.apply_mutation(choice, mutation);
                Some(choice)
            },
        }
    }
}

} // verus!
