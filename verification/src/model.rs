use crate::bits;
use crate::interface::BankAgnosticRegister;
use crate::reg::Register;
use crate::steps;
use crate::steps::{spec_debounce, spec_drive, spec_input, spec_output, spec_pull, BitWrite, Pull};
use vstd::prelude::*;

verus! {

/// How an output drives its pin.
#[derive(Clone, Copy, PartialEq, Eq, Debug, Structural)]
pub enum Drive {
    /// The pin is driven both high and low.
    PushPull,
    /// The pin is only driven low.
    OpenDrain,
}

/// The configuration that a pin handle stands for.
#[derive(Clone, Copy, PartialEq, Eq, Debug, Structural)]
pub enum Shape {
    /// Nothing was configured yet.
    Unconfigured,
    /// An output.
    Output(Drive),
    /// An input with its bias, and whether it is debounced.
    Input(Pull, bool),
}

/// The value of a pin's bit in a per-pin register, where `regs` holds the
/// byte of every register of the chip.
pub open spec fn bit(regs: Map<Register, u8>, register: BankAgnosticRegister, pin: u8) -> bool {
    bits::spec_test(regs[register.resolve(pin)], pin)
}

/// The registers after one step for a pin has gone through undisturbed: the
/// byte is read, the pin's bit is assigned, and the byte is written back.
pub open spec fn write_bit(regs: Map<Register, u8>, step: BitWrite, pin: u8) -> Map<Register, u8> {
    let register = step.register.resolve(pin);
    regs.insert(register, bits::spec_assign(regs[register], pin, step.value))
}

/// The registers after the first `n` steps of a mode change for a pin.
pub open spec fn after(regs: Map<Register, u8>, pin: u8, steps: Seq<BitWrite>, n: nat) -> Map<
    Register,
    u8,
>
    decreases n,
{
    if n == 0 {
        regs
    } else {
        write_bit(after(regs, pin, steps, (n - 1) as nat), steps[n - 1], pin)
    }
}

/// The pull-up and the pull-down of a pin are not both switched on.
pub open spec fn pulls_exclusive(regs: Map<Register, u8>, pin: u8) -> bool {
    !(bit(regs, BankAgnosticRegister::PullUp, pin) && bit(
        regs,
        BankAgnosticRegister::PullDown,
        pin,
    ))
}

/// The registers agree with what a handle of the given shape stands for: the
/// direction bit is set exactly for an output, the open-drain bit says how an
/// output drives, the two pull bits say how an input is biased, and the
/// debounce bit says whether an input is debounced. In every shape the two
/// pulls are not on together.
pub open spec fn consistent(regs: Map<Register, u8>, pin: u8, shape: Shape) -> bool {
    &&& pulls_exclusive(regs, pin)
    &&& match shape {
        Shape::Unconfigured => true,
        Shape::Output(drive) => {
            &&& bit(regs, BankAgnosticRegister::Dir, pin)
            &&& bit(regs, BankAgnosticRegister::OpenDrain, pin) == (drive == Drive::OpenDrain)
        },
        Shape::Input(pull, debounced) => {
            &&& !bit(regs, BankAgnosticRegister::Dir, pin)
            &&& bit(regs, BankAgnosticRegister::PullUp, pin) == (pull == Pull::PullUp)
            &&& bit(regs, BankAgnosticRegister::PullDown, pin) == (pull == Pull::PullDown)
            &&& bit(regs, BankAgnosticRegister::DebounceEnable, pin) == debounced
        },
    }
}

/// The writes of the mode change from one shape to another, where the driver
/// offers that change.
pub open spec fn spec_plan(from: Shape, to: Shape) -> Option<Seq<BitWrite>> {
    match (from, to) {
        (Shape::Unconfigured, Shape::Output(Drive::PushPull)) => Some(spec_output()),
        (Shape::Input(_, _), Shape::Output(Drive::PushPull)) => Some(spec_output()),
        (Shape::Unconfigured, Shape::Input(Pull::Floating, false)) => Some(spec_input()),
        (Shape::Output(_), Shape::Input(Pull::Floating, false)) => Some(spec_input()),
        (Shape::Output(Drive::PushPull), Shape::Output(Drive::OpenDrain)) => Some(
            spec_drive(true),
        ),
        (Shape::Output(Drive::OpenDrain), Shape::Output(Drive::PushPull)) => Some(
            spec_drive(false),
        ),
        (Shape::Input(pull, debounced), Shape::Input(bias, filtered)) => {
            if pull != bias && debounced == filtered {
                Some(spec_pull(pull, bias))
            } else if pull == bias && debounced != filtered {
                Some(spec_debounce(filtered))
            } else {
                None
            }
        },
        _ => None,
    }
}

/// The writes of the mode change from one shape to another; `None` where the
/// driver offers no such change.
pub fn plan(from: Shape, to: Shape) -> (writes: Option<Vec<BitWrite>>)
    ensures
        match writes {
            Some(steps) => spec_plan(from, to) == Some(steps@),
            None => spec_plan(from, to) is None,
        },
{
    match (from, to) {
        (Shape::Unconfigured, Shape::Output(Drive::PushPull)) => Some(steps::output()),
        (Shape::Input(_, _), Shape::Output(Drive::PushPull)) => Some(steps::output()),
        (Shape::Unconfigured, Shape::Input(Pull::Floating, false)) => Some(steps::input()),
        (Shape::Output(_), Shape::Input(Pull::Floating, false)) => Some(steps::input()),
        (Shape::Output(Drive::PushPull), Shape::Output(Drive::OpenDrain)) => Some(
            steps::drive(true),
        ),
        (Shape::Output(Drive::OpenDrain), Shape::Output(Drive::PushPull)) => Some(
            steps::drive(false),
        ),
        (Shape::Input(pull, debounced), Shape::Input(bias, filtered)) => {
            if pull != bias && debounced == filtered {
                Some(steps::pull(pull, bias))
            } else if pull == bias && debounced != filtered {
                Some(steps::debounce(filtered))
            } else {
                None
            }
        },
        _ => None,
    }
}

/// After one step for a pin, the pin's bit in the register of the step has
/// the value of the step, and its bit in every other per-pin register is as
/// it was.
pub proof fn lemma_write_bit(regs: Map<Register, u8>, step: BitWrite, pin: u8)
    ensures
        forall|register: BankAgnosticRegister|
            #[trigger] bit(write_bit(regs, step, pin), register, pin) == if register
                == step.register {
                step.value
            } else {
                bit(regs, register, pin)
            },
{
    assert forall|register: BankAgnosticRegister|
        #[trigger] bit(write_bit(regs, step, pin), register, pin) == if register == step.register {
            step.value
        } else {
            bit(regs, register, pin)
        } by {
        BankAgnosticRegister::lemma_resolve_distinct(register, pin, step.register, pin);
        bits::lemma_assign_then_test(regs[step.register.resolve(pin)], pin, step.value);
    }
}

/// A step for one pin leaves every bit of every other pin as it was, also
/// where the two pins share the register.
pub proof fn lemma_write_bit_keeps_other_pins(
    regs: Map<Register, u8>,
    step: BitWrite,
    pin: u8,
    register: BankAgnosticRegister,
    other: u8,
)
    requires
        pin < 16,
        other < 16,
        pin != other,
    ensures
        bit(write_bit(regs, step, pin), register, other) == bit(regs, register, other),
{
    BankAgnosticRegister::lemma_resolve_distinct(register, other, step.register, pin);
    if register.resolve(other) == step.register.resolve(pin) {
        bits::lemma_assign_keeps_others(regs[step.register.resolve(pin)], pin, other, step.value);
    }
}

/// A step changes no register but the one that it resolves to, and in that
/// one no bit but the pin's.
pub proof fn lemma_write_bit_frame(regs: Map<Register, u8>, step: BitWrite, pin: u8)
    ensures
        forall|register: Register|
            register != step.register.resolve(pin) ==> #[trigger] write_bit(
                regs,
                step,
                pin,
            )[register] == regs[register],
        forall|other: u8|
            bits::bit_position(other) != bits::bit_position(pin) ==> #[trigger] bits::spec_test(
                write_bit(regs, step, pin)[step.register.resolve(pin)],
                other,
            ) == bits::spec_test(regs[step.register.resolve(pin)], other),
{
    assert forall|other: u8|
        bits::bit_position(other) != bits::bit_position(pin) implies #[trigger] bits::spec_test(
        write_bit(regs, step, pin)[step.register.resolve(pin)],
        other,
    ) == bits::spec_test(regs[step.register.resolve(pin)], other) by {
        bits::lemma_assign_keeps_others(regs[step.register.resolve(pin)], pin, other, step.value);
    }
}

/// After the writes that make a pin an output, whatever the registers held
/// before, the pin's direction bit reads as output and its open-drain bit
/// reads false.
pub proof fn lemma_output_configured(regs: Map<Register, u8>, pin: u8)
    ensures
        ({
            let done = after(regs, pin, spec_output(), 2);
            &&& bit(done, BankAgnosticRegister::Dir, pin)
            &&& !bit(done, BankAgnosticRegister::OpenDrain, pin)
        }),
{
    reveal_with_fuel(after, 3);
    let steps = spec_output();
    let first = write_bit(regs, steps[0], pin);
    lemma_write_bit(regs, steps[0], pin);
    lemma_write_bit(first, steps[1], pin);
}

/// After the writes that make a pin an input, whatever the registers held
/// before, the pin's direction bit reads as input, and its pull-up, pull-down
/// and debounce bits all read false.
pub proof fn lemma_input_configured(regs: Map<Register, u8>, pin: u8)
    ensures
        ({
            let done = after(regs, pin, spec_input(), 4);
            &&& !bit(done, BankAgnosticRegister::Dir, pin)
            &&& !bit(done, BankAgnosticRegister::PullUp, pin)
            &&& !bit(done, BankAgnosticRegister::PullDown, pin)
            &&& !bit(done, BankAgnosticRegister::DebounceEnable, pin)
        }),
{
    reveal_with_fuel(after, 5);
    let steps = spec_input();
    let first = write_bit(regs, steps[0], pin);
    let second = write_bit(first, steps[1], pin);
    let third = write_bit(second, steps[2], pin);
    lemma_write_bit(regs, steps[0], pin);
    lemma_write_bit(first, steps[1], pin);
    lemma_write_bit(second, steps[2], pin);
    lemma_write_bit(third, steps[3], pin);
}

/// A pin that was made an output and then driven to a level reads back that
/// level, and is still a push-pull output, as long as nothing else wrote to
/// the register in between.
pub proof fn lemma_data_round_trip(regs: Map<Register, u8>, pin: u8, level: bool)
    ensures
        ({
            let configured = after(regs, pin, spec_output(), 2);
            let driven = write_bit(
                configured,
                BitWrite { register: BankAgnosticRegister::Data, value: level },
                pin,
            );
            &&& bit(driven, BankAgnosticRegister::Data, pin) == level
            &&& bit(driven, BankAgnosticRegister::Dir, pin)
            &&& !bit(driven, BankAgnosticRegister::OpenDrain, pin)
        }),
{
    let configured = after(regs, pin, spec_output(), 2);
    lemma_output_configured(regs, pin);
    lemma_write_bit(
        configured,
        BitWrite { register: BankAgnosticRegister::Data, value: level },
        pin,
    );
}

/// A level written to a pin's data bit reads back, whatever the registers
/// held, as long as nothing else wrote to the register in between.
pub proof fn lemma_level_reads_back(regs: Map<Register, u8>, pin: u8, level: bool)
    ensures
        bit(
            write_bit(regs, BitWrite { register: BankAgnosticRegister::Data, value: level }, pin),
            BankAgnosticRegister::Data,
            pin,
        ) == level,
{
    lemma_write_bit(regs, BitWrite { register: BankAgnosticRegister::Data, value: level }, pin);
}

/// Every mode change that the driver offers, started on registers that agree
/// with the shape it leaves, keeps the pull-up and the pull-down from being
/// on together after each of its writes, and ends on registers that agree
/// with the shape it reaches.
pub proof fn lemma_mode_change(regs: Map<Register, u8>, pin: u8, from: Shape, to: Shape, n: nat)
    requires
        consistent(regs, pin, from),
        spec_plan(from, to) is Some,
        n <= spec_plan(from, to).unwrap().len(),
    ensures
        pulls_exclusive(after(regs, pin, spec_plan(from, to).unwrap(), n), pin),
        consistent(
            after(regs, pin, spec_plan(from, to).unwrap(), spec_plan(from, to).unwrap().len()),
            pin,
            to,
        ),
{
    reveal_with_fuel(after, 5);
    let steps = spec_plan(from, to).unwrap();
    assert(steps.len() <= 4);
    let zeroth = regs;
    if steps.len() >= 1 {
        let first = write_bit(zeroth, steps[0], pin);
        lemma_write_bit(zeroth, steps[0], pin);
        if steps.len() >= 2 {
            let second = write_bit(first, steps[1], pin);
            lemma_write_bit(first, steps[1], pin);
            if steps.len() >= 3 {
                let third = write_bit(second, steps[2], pin);
                lemma_write_bit(second, steps[2], pin);
                if steps.len() >= 4 {
                    lemma_write_bit(third, steps[3], pin);
                }
            }
        }
    }
}

/// A mode change for one pin leaves every bit of every other pin as it was,
/// after each of its writes.
pub proof fn lemma_mode_change_keeps_other_pins(
    regs: Map<Register, u8>,
    pin: u8,
    steps: Seq<BitWrite>,
    n: nat,
    register: BankAgnosticRegister,
    other: u8,
)
    requires
        pin < 16,
        other < 16,
        pin != other,
        n <= steps.len(),
    ensures
        bit(after(regs, pin, steps, n), register, other) == bit(regs, register, other),
    decreases n,
{
    if n > 0 {
        let before = after(regs, pin, steps, (n - 1) as nat);
        lemma_mode_change_keeps_other_pins(regs, pin, steps, (n - 1) as nat, register, other);
        lemma_write_bit_keeps_other_pins(before, steps[n - 1], pin, register, other);
    }
}

} // verus!
