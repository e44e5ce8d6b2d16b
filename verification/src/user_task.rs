//! A user task that talks to the kernel through system calls.
//!
//! What a task does is decided before it talks to the kernel: nothing that the
//! kernel hands back changes its course. So a task is its script, the steps it
//! takes in order, and whoever holds the machine performs them one by one.

use crate::syscall_interface::__NR_WRITE;
use crate::trampoline::{TrampolineCall, TrampolineCallView};
use crate::wrapper::signed_to_word;
use vstd::prelude::*;
use vstd::string::*;

verus! {

/// The file descriptor of the console.
pub const CONSOLE: i32 = 1;

/// How often the task reports before it finishes.
pub const ROUNDS: u8 = 5;

/// One step of a task.
#[derive(PartialEq, Eq, Debug)]
pub enum Step {
    /// Write the text to the console.
    Puts(String),
    /// Give up the processor.
    Yield,
    /// Leave the task with the status.
    Exit(i32),
}

/// What a step is, as a mathematical value.
pub enum StepView {
    Puts(Seq<char>),
    Yield,
    Exit(i32),
}

impl View for Step {
    type V = StepView;

    open spec fn view(&self) -> StepView {
        match self {
            Step::Puts(text) => StepView::Puts(text@),
            Step::Yield => StepView::Yield,
            Step::Exit(status) => StepView::Exit(*status),
        }
    }
}

/// The steps of a script, as mathematical values.
pub open spec fn script_of(steps: Seq<Step>) -> Seq<StepView> {
    Seq::new(steps.len(), |i: int| steps[i]@)
}

/// The character for the digit `d`, where `d < 10`.
pub open spec fn digit_char(d: nat) -> char {
    (0x30 + d) as char
}

/// What the task reports in round `i`: the report line with the digit of `i`
/// in the place before the line's end.
pub open spec fn running_message(i: nat) -> Seq<char> {
    "Rust Task 2: Running... iter \n"@.update(
        "Rust Task 2: Running... iter \n"@.len() - 2,
        digit_char(i),
    )
}

/// The rounds before round `n`: in each the task reports and gives up the
/// processor.
pub open spec fn rounds(n: nat) -> Seq<StepView>
    decreases n,
{
    if n == 0 {
        Seq::empty()
    } else {
        rounds((n - 1) as nat) + seq![
            StepView::Puts(running_message((n - 1) as nat)),
            StepView::Yield,
        ]
    }
}

/// The script of the task: it announces itself, runs its rounds, says that
/// it has finished and leaves with status 0.
pub open spec fn rust_user_task2_script() -> Seq<StepView> {
    seq![StepView::Puts("Rust Task 2: Created!\n"@)] + rounds(ROUNDS as nat) + seq![
        StepView::Puts("Rust Task 2: Finished!\n"@),
        StepView::Exit(0),
    ]
}

/// The call that writes the text `s` to the console: a `write` to file 1 of
/// as many bytes as `s` has, from `address`, which is where the caller holds
/// the first byte of `s`.
pub fn puts(s: &str, address: usize) -> (call: TrampolineCall)
    ensures
        call@ == (TrampolineCallView {
            numeric_id: __NR_WRITE as nat,
            argument_words: seq![
                signed_to_word(CONSOLE as int),
                address,
                s.spec_bytes().len() as usize,
            ],
        }),
{
    crate::syscall_interface::write(CONSOLE, address, s.len())
}

/// The text for the digit `d`.
fn digit_text(d: u8) -> (s: &'static str)
    requires
        d < 10,
    ensures
        s@ == seq![digit_char(d as nat)],
{
    proof {
        reveal_strlit("0");
        reveal_strlit("1");
        reveal_strlit("2");
        reveal_strlit("3");
        reveal_strlit("4");
        reveal_strlit("5");
        reveal_strlit("6");
        reveal_strlit("7");
        reveal_strlit("8");
        reveal_strlit("9");
    }
    let s = match d {
        0 => "0",
        1 => "1",
        2 => "2",
        3 => "3",
        4 => "4",
        5 => "5",
        6 => "6",
        7 => "7",
        8 => "8",
        _ => "9",
    };
    assert(s@ =~= seq![digit_char(d as nat)]);
    s
}

/// The report of round `i`.
fn report(i: u8) -> (text: String)
    requires
        i < 10,
    ensures
        text@ == running_message(i as nat),
{
    let mut text = "Rust Task 2: Running... iter".to_owned();
    text.append(digit_text(i));
    text.append("\n");
    proof {
        reveal_strlit("Rust Task 2: Running... iter");
        reveal_strlit("Rust Task 2: Running... iter \n");
        reveal_strlit("\n");
        assert(text@ =~= running_message(i as nat));
    }
    text
}

/// The script of the task: see [`rust_user_task2_script`].
pub fn rust_user_task2() -> (steps: Vec<Step>)
    ensures
        script_of(steps@) == rust_user_task2_script(),
{
    let mut steps: Vec<Step> = Vec::new();
    steps.push(Step::Puts("Rust Task 2: Created!\n".to_owned()));
    let ghost head = seq![StepView::Puts("Rust Task 2: Created!\n"@)];
    assert(script_of(steps@) =~= head);
    let mut i: u8 = 0;
    while i < ROUNDS
        invariant
            i <= ROUNDS,
            head == seq![StepView::Puts("Rust Task 2: Created!\n"@)],
            script_of(steps@) == head + rounds(i as nat),
        decreases ROUNDS - i,
    {
        let ghost before = script_of(steps@);
        steps.push(Step::Puts(report(i)));
        steps.push(Step::Yield);
        assert(script_of(steps@) =~= before + seq![
            StepView::Puts(running_message(i as nat)),
            StepView::Yield,
        ]);
        i += 1;
        assert(script_of(steps@) =~= head + rounds(i as nat));
    }
    let ghost before = script_of(steps@);
    steps.push(Step::Puts("Rust Task 2: Finished!\n".to_owned()));
    steps.push(Step::Exit(0));
    assert(script_of(steps@) =~= before + seq![
        StepView::Puts("Rust Task 2: Finished!\n"@),
        StepView::Exit(0),
    ]);
    steps
}

} // verus!
