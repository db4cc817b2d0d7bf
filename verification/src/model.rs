//! The numeric model of one call stack, and the one event that changes it.
//!
//! The stack grows downward: it starts at the high end of its address range
//! and the stack pointer decreases as more of it is used. A pointer below the
//! low end of the range means that the stack has overflowed.

use vstd::prelude::*;

verus! {

/// An address of the target machine.
pub type Address = u32;

/// What is wrong with the values a stack was to be built from.
#[derive(Clone, Copy, Debug, PartialEq, Eq)]
pub enum ModelError {
    /// The high end of the address range lies below its low end.
    InvalidRange,
}

/// The events that change a model.
#[derive(Clone, Copy, Debug, PartialEq, Eq)]
pub enum Msg {
    /// The stack pointer moves up by one address.
    Increment,
}

/// The state of one stack.
///
/// Every `Stack` has a range whose low end is not above its high end. The
/// high-water mark and the stack pointer are not constrained: a pointer below
/// the range is an overflow, and a pointer below the high-water mark is an
/// inconsistency that is reported, not corrected.
#[derive(Debug, PartialEq, Eq)]
pub struct Stack {
    range: (Address, Address),
    highmark: Address,
    sp: Address,
    reg: String,
}

/// The mathematical model of a `Stack`.
pub struct StackView {
    /// Lowest address of the stack, inclusive.
    pub low: Address,
    /// Highest address of the stack, inclusive.
    pub high: Address,
    /// The lowest address that the stack pointer is recorded to have reached.
    pub highmark: Address,
    /// The current stack pointer.
    pub sp: Address,
    /// Name of the register that holds the stack pointer.
    pub reg: Seq<char>,
}

/// The address after `a`; the address after the last one is zero.
pub open spec fn next_address(a: Address) -> Address {
    if a == Address::MAX {
        0
    } else {
        (a + 1) as Address
    }
}

impl StackView {
    /// The range is not empty: its low end is not above its high end.
    pub open spec fn wf(self) -> bool {
        self.low <= self.high
    }

    /// The number of addresses in the range.
    pub open spec fn size(self) -> int {
        self.high - self.low + 1
    }

    /// The stack pointer has left the range at its low end.
    pub open spec fn overflows(self) -> bool {
        self.sp < self.low
    }

    /// The same stack with its pointer at the next address.
    pub open spec fn incremented(self) -> StackView {
        StackView { sp: next_address(self.sp), ..self }
    }
}

impl View for Stack {
    type V = StackView;

    closed spec fn view(&self) -> StackView {
        StackView {
            low: self.range.0,
            high: self.range.1,
            highmark: self.highmark,
            sp: self.sp,
            reg: self.reg@,
        }
    }
}

impl Clone for Stack {
    fn clone(&self) -> (r: Stack)
        ensures
            r@ == self@,
    {
        proof {
            use_type_invariant(self);
        }
        Stack { range: self.range, highmark: self.highmark, sp: self.sp, reg: self.reg.clone() }
    }
}

impl Stack {
    /// What holds of every `Stack`.
    #[verifier::type_invariant]
    pub open spec fn inv(self) -> bool {
        self@.wf()
    }

    /// A stack over `range`, given as its low and its high end, both
    /// inclusive. A range whose high end lies below its low end is refused.
    pub fn new(range: (Address, Address), highmark: Address, sp: Address, reg: String) -> (r:
        Result<Stack, ModelError>)
        ensures
            match r {
                Ok(stack) => range.0 <= range.1 && stack@ == (StackView {
                    low: range.0,
                    high: range.1,
                    highmark,
                    sp,
                    reg: reg@,
                }),
                Err(e) => range.0 > range.1 && e == ModelError::InvalidRange,
            },
    {
        if range.0 > range.1 {
            Err(ModelError::InvalidRange)
        } else {
            Ok(Stack { range, highmark, sp, reg })
        }
    }

    /// The address range, as its low and its high end.
    pub fn range(&self) -> (r: (Address, Address))
        ensures
            r == (self@.low, self@.high),
    {
        self.range
    }

    /// The high-water mark.
    pub fn highmark(&self) -> (r: Address)
        ensures
            r == self@.highmark,
    {
        self.highmark
    }

    /// The stack pointer.
    pub fn sp(&self) -> (r: Address)
        ensures
            r == self@.sp,
    {
        self.sp
    }

    /// The name of the register that holds the stack pointer.
    pub fn reg(&self) -> (r: &str)
        ensures
            r@ == self@.reg,
    {
        self.reg.as_str()
    }
}

/// The state of the gauge: a stack and the name shown under it.
#[derive(Debug, PartialEq, Eq)]
pub struct Model {
    name: String,
    stack: Stack,
}

/// The mathematical model of a `Model`.
pub struct ModelView {
    /// The name shown under the gauge.
    pub name: Seq<char>,
    /// The stack.
    pub stack: StackView,
}

impl ModelView {
    /// The same model with its stack pointer at the next address.
    pub open spec fn incremented(self) -> ModelView {
        ModelView { stack: self.stack.incremented(), ..self }
    }

    /// The model after `n` increments.
    pub open spec fn incremented_by(self, n: nat) -> ModelView
        decreases n,
    {
        if n == 0 {
            self
        } else {
            self.incremented_by((n - 1) as nat).incremented()
        }
    }
}

impl View for Model {
    type V = ModelView;

    closed spec fn view(&self) -> ModelView {
        ModelView { name: self.name@, stack: self.stack@ }
    }
}

impl Clone for Model {
    fn clone(&self) -> (r: Model)
        ensures
            r@ == self@,
    {
        Model { name: self.name.clone(), stack: self.stack.clone() }
    }
}

/// The model that `msg` leaves behind when it arrives at `model`.
pub open spec fn transition(msg: Msg, model: ModelView) -> ModelView {
    match msg {
        Msg::Increment => model.incremented(),
    }
}

/// The model that the gauge starts from.
pub open spec fn initial_model() -> ModelView {
    ModelView {
        name: "CPU stack"@,
        stack: StackView {
            low: 0x8000,
            high: 0x8fff,
            highmark: 0x8230,
            sp: 0x8a00,
            reg: "sp"@,
        },
    }
}

impl Model {
    /// A model of `stack`, shown under `name`.
    pub fn new(name: String, stack: Stack) -> (r: Model)
        ensures
            r@ == (ModelView { name: name@, stack: stack@ }),
    {
        Model { name, stack }
    }

    /// The name shown under the gauge.
    pub fn name(&self) -> (r: &str)
        ensures
            r@ == self@.name,
    {
        self.name.as_str()
    }

    /// The stack.
    pub fn stack(&self) -> (r: &Stack)
        ensures
            r@ == self@.stack,
    {
        &self.stack
    }
}

/// The model at start-up.
pub fn init() -> (r: Model)
    ensures
        r@ == initial_model(),
{
    Model {
        name: "CPU stack".to_owned(),
        stack: Stack {
            sp: 0x8a00,
            range: (0x8000, 0x8fff),
            highmark: 0x8230,
            reg: "sp".to_owned(),
        },
    }
}

/// Handles one event.
///
/// The only event moves the stack pointer up by one address and leaves
/// everything else as it was. Nothing is checked here: whether the pointer is
/// inside the range is found out when the gauge is computed. At the last
/// address the pointer wraps around to zero.
pub fn update(msg: Msg, model: &mut Model)
    ensures
        final(model)@ == transition(msg, old(model)@),
{
    match msg {
        Msg::Increment => {
            proof {
                use_type_invariant(&model.stack);
            }
            model.stack.sp = model.stack.sp.wrapping_add(1);
        },
    }
}

/// The model after one increment: `update` with `Msg::Increment`, from value
/// to value.
pub fn apply_increment(model: Model) -> (r: Model)
    ensures
        r@ == model@.incremented(),
{
    let mut next = model;
    update(Msg::Increment, &mut next);
    next
}

/// Incrementing `n` times moves the stack pointer up by `n` addresses,
/// counted around the end of the address space, and changes nothing else.
/// While the pointer does not pass the last address it is exactly `n` higher.
pub proof fn lemma_incremented_by(model: ModelView, n: nat)
    ensures
        model.incremented_by(n).name == model.name,
        model.incremented_by(n).stack.low == model.stack.low,
        model.incremented_by(n).stack.high == model.stack.high,
        model.incremented_by(n).stack.highmark == model.stack.highmark,
        model.incremented_by(n).stack.reg == model.stack.reg,
        model.incremented_by(n).stack.sp == (model.stack.sp + n) % 0x1_0000_0000,
        model.stack.sp + n <= Address::MAX ==> model.incremented_by(n).stack.sp
            == model.stack.sp + n,
    decreases n,
{
    if n > 0 {
        lemma_incremented_by(model, (n - 1) as nat);
    }
}

} // verus!
