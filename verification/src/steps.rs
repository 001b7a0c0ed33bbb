use crate::interface::BankAgnosticRegister;
use vstd::prelude::*;

verus! {

/// One step of a mode change: the pin's bit in one per-pin register is set
/// to `value`.
#[derive(Clone, Copy, PartialEq, Eq, Debug, Structural)]
pub struct BitWrite {
    /// The register that holds the bit.
    pub register: BankAgnosticRegister,
    /// The value that the bit gets.
    pub value: bool,
}

/// How an input is biased.
#[derive(Clone, Copy, PartialEq, Eq, Debug, Structural)]
pub enum Pull {
    /// No resistor.
    Floating,
    /// A resistor to the supply.
    PullUp,
    /// A resistor to ground.
    PullDown,
}

/// The writes that make a pin a push-pull output, in order: direction, then
/// open-drain off.
pub open spec fn spec_output() -> Seq<BitWrite> {
    seq![
        BitWrite { register: BankAgnosticRegister::Dir, value: true },
        BitWrite { register: BankAgnosticRegister::OpenDrain, value: false },
    ]
}

/// The writes that make a pin a floating input without debounce, in order:
/// direction, pull-up off, pull-down off, debounce off.
pub open spec fn spec_input() -> Seq<BitWrite> {
    seq![
        BitWrite { register: BankAgnosticRegister::Dir, value: false },
        BitWrite { register: BankAgnosticRegister::PullUp, value: false },
        BitWrite { register: BankAgnosticRegister::PullDown, value: false },
        BitWrite { register: BankAgnosticRegister::DebounceEnable, value: false },
    ]
}

/// The one write that switches an output between push-pull and open-drain.
pub open spec fn spec_drive(open_drain: bool) -> Seq<BitWrite> {
    seq![BitWrite { register: BankAgnosticRegister::OpenDrain, value: open_drain }]
}

/// The one write that switches the debounce of an input on or off.
pub open spec fn spec_debounce(on: bool) -> Seq<BitWrite> {
    seq![BitWrite { register: BankAgnosticRegister::DebounceEnable, value: on }]
}

/// The writes that take an input from one bias to another. The resistor in
/// use is switched off before the other one is switched on, so the two are
/// never on together.
pub open spec fn spec_pull(from: Pull, to: Pull) -> Seq<BitWrite> {
    match (from, to) {
        (Pull::Floating, Pull::PullUp) => seq![
            BitWrite { register: BankAgnosticRegister::PullUp, value: true },
        ],
        (Pull::Floating, Pull::PullDown) => seq![
            BitWrite { register: BankAgnosticRegister::PullDown, value: true },
        ],
        (Pull::PullUp, Pull::Floating) => seq![
            BitWrite { register: BankAgnosticRegister::PullUp, value: false },
        ],
        (Pull::PullUp, Pull::PullDown) => seq![
            BitWrite { register: BankAgnosticRegister::PullUp, value: false },
            BitWrite { register: BankAgnosticRegister::PullDown, value: true },
        ],
        (Pull::PullDown, Pull::Floating) => seq![
            BitWrite { register: BankAgnosticRegister::PullDown, value: false },
        ],
        (Pull::PullDown, Pull::PullUp) => seq![
            BitWrite { register: BankAgnosticRegister::PullDown, value: false },
            BitWrite { register: BankAgnosticRegister::PullUp, value: true },
        ],
        _ => Seq::empty(),
    }
}

/// The writes that make a pin a push-pull output.
pub fn output() -> (steps: Vec<BitWrite>)
    ensures
        steps@ == spec_output(),
{
    let steps = vec![
        BitWrite { register: BankAgnosticRegister::Dir, value: true },
        BitWrite { register: BankAgnosticRegister::OpenDrain, value: false },
    ];
    assert(steps@ =~= spec_output());
    steps
}

/// The writes that make a pin a floating input without debounce.
pub fn input() -> (steps: Vec<BitWrite>)
    ensures
        steps@ == spec_input(),
{
    let steps = vec![
        BitWrite { register: BankAgnosticRegister::Dir, value: false },
        BitWrite { register: BankAgnosticRegister::PullUp, value: false },
        BitWrite { register: BankAgnosticRegister::PullDown, value: false },
        BitWrite { register: BankAgnosticRegister::DebounceEnable, value: false },
    ];
    assert(steps@ =~= spec_input());
    steps
}

/// The write that switches an output between push-pull and open-drain.
pub fn drive(open_drain: bool) -> (steps: Vec<BitWrite>)
    ensures
        steps@ == spec_drive(open_drain),
{
    let steps = vec![BitWrite { register: BankAgnosticRegister::OpenDrain, value: open_drain }];
    assert(steps@ =~= spec_drive(open_drain));
    steps
}

/// The write that switches the debounce of an input on or off.
pub fn debounce(on: bool) -> (steps: Vec<BitWrite>)
    ensures
        steps@ == spec_debounce(on),
{
    let steps = vec![BitWrite { register: BankAgnosticRegister::DebounceEnable, value: on }];
    assert(steps@ =~= spec_debounce(on));
    steps
}

/// The writes that take an input from one bias to another; none where the
/// two are the same.
pub fn pull(from: Pull, to: Pull) -> (steps: Vec<BitWrite>)
    ensures
        steps@ == spec_pull(from, to),
{
    let mut steps: Vec<BitWrite> = Vec::new();
    match from {
        Pull::Floating => {},
        Pull::PullUp => {
            if to != Pull::PullUp {
                steps.push(BitWrite { register: BankAgnosticRegister::PullUp, value: false });
            }
        },
        Pull::PullDown => {
            if to != Pull::PullDown {
                steps.push(BitWrite { register: BankAgnosticRegister::PullDown, value: false });
            }
        },
    }
    match to {
        Pull::Floating => {},
        Pull::PullUp => {
            if from != Pull::PullUp {
                steps.push(BitWrite { register: BankAgnosticRegister::PullUp, value: true });
            }
        },
        Pull::PullDown => {
            if from != Pull::PullDown {
                steps.push(BitWrite { register: BankAgnosticRegister::PullDown, value: true });
            }
        },
    }
    assert(steps@ =~= spec_pull(from, to));
    steps
}

} // verus!
