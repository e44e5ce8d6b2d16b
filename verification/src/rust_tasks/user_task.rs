//! Demonstration tasks, and the text they hand to the console driver.
//!
//! A task here is its script: the steps it takes, in order. None of the steps
//! hands anything back that the task would look at, so the script is known
//! before the first step is taken, and whoever holds the machine performs it.
//! Every text ends in its only NUL, for the console driver reads C strings.

use vstd::prelude::*;
use vstd::slice::*;
use vstd::string::*;
use vstd::utf8::*;

verus! {

/// How long `rust_user_task1` waits between two reports, in ticks.
pub const REPORT_DELAY: u32 = 1000;

/// How long `rust_syscall_test_task` waits after each piece of work, in
/// ticks.
pub const WORK_DELAY: u32 = 500;

/// One step of a task.
#[derive(Clone, Copy, PartialEq, Eq, Debug)]
pub enum Step {
    /// Hand the text to the console driver.
    UartPuts(&'static str),
    /// Sleep for the number of ticks.
    Delay(u32),
    /// Leave the task.
    Exit,
}

/// What a step is, as a mathematical value.
pub enum StepView {
    UartPuts(Seq<char>),
    Delay(u32),
    Exit,
}

impl View for Step {
    type V = StepView;

    open spec fn view(&self) -> StepView {
        match self {
            Step::UartPuts(text) => StepView::UartPuts(text@),
            Step::Delay(ticks) => StepView::Delay(*ticks),
            Step::Exit => StepView::Exit,
        }
    }
}

/// The steps of a script, as mathematical values.
pub open spec fn script_of(steps: Seq<Step>) -> Seq<StepView> {
    Seq::new(steps.len(), |i: int| steps[i]@)
}

/// `n` times the same two steps: a text, then a wait.
pub open spec fn repeated(text: Seq<char>, ticks: u32, n: nat) -> Seq<StepView>
    decreases n,
{
    if n == 0 {
        Seq::empty()
    } else {
        repeated(text, ticks, (n - 1) as nat) + seq![
            StepView::UartPuts(text),
            StepView::Delay(ticks),
        ]
    }
}

/// The script of `rust_user_task1`: it announces itself, reports six times
/// with a wait after each of the first five reports, says that it is
/// finishing and that it has finished, and leaves.
pub open spec fn rust_user_task1_script() -> Seq<StepView> {
    seq![StepView::UartPuts("Rust Task 1: Created!\n\0"@)] + repeated(
        "Rust Task 1: Running...\n\0"@,
        REPORT_DELAY,
        5,
    ) + seq![
        StepView::UartPuts("Rust Task 1: Running...\n\0"@),
        StepView::UartPuts("Rust Task 1: Finishing after 5 iterations\n\0"@),
        StepView::UartPuts("Rust Task 1: Finished!\n\0"@),
        StepView::Exit,
    ]
}

/// The script of `rust_user_task2`: three texts, then it leaves.
pub open spec fn rust_user_task2_script() -> Seq<StepView> {
    seq![
        StepView::UartPuts("Rust Task 2: Created!\n\0"@),
        StepView::UartPuts("Rust Task 2: Working...\n\0"@),
        StepView::UartPuts("Rust Task 2: Finished!\n\0"@),
        StepView::Exit,
    ]
}

/// The script of `rust_syscall_test_task`: two texts, three pieces of work
/// with a wait after each, a last text, then it leaves.
pub open spec fn rust_syscall_test_task_script() -> Seq<StepView> {
    seq![
        StepView::UartPuts("Rust Task: System call test starting...\n\0"@),
        StepView::UartPuts("Rust Task: Array sum calculated safely\n\0"@),
    ] + repeated("Rust Task: Processing...\n\0"@, WORK_DELAY, 3) + seq![
        StepView::UartPuts("Rust Task: System call test completed!\n\0"@),
        StepView::Exit,
    ]
}

/// The script of `rust_memory_safe_task`: it finds its value and its
/// operation succeeds.
pub open spec fn rust_memory_safe_task_script() -> Seq<StepView> {
    seq![
        StepView::UartPuts("Rust Memory Safety Demo: Starting\n\0"@),
        StepView::UartPuts("Rust: Found value in Option\n\0"@),
        StepView::UartPuts("Rust: Operation succeeded\n\0"@),
        StepView::UartPuts("Rust Memory Safety Demo: Completed\n\0"@),
        StepView::Exit,
    ]
}

/// Whether `bytes` holds a NUL.
pub open spec fn has_nul(bytes: Seq<u8>) -> bool {
    exists|i: int| 0 <= i < bytes.len() && bytes[i] == 0
}

/// The first NUL of `bytes` stands at `n`: `n` is the length of the C string
/// that starts at the first byte.
pub open spec fn first_nul_at(bytes: Seq<u8>, n: int) -> bool {
    &&& 0 <= n < bytes.len()
    &&& bytes[n] == 0
    &&& forall|i: int| 0 <= i < n ==> bytes[i] != 0
}

/// `text` is a message for the console driver: ASCII characters other than
/// NUL, followed by one NUL.
pub open spec fn is_c_text(text: Seq<char>) -> bool {
    &&& text.len() > 0
    &&& text.last() == '\0'
    &&& forall|i: int| 0 <= i < text.len() - 1 ==> '\u{1}' <= #[trigger] text[i] <= '\u{7f}'
}

/// A step hands the console driver nothing but a message.
pub open spec fn step_is_c_string(step: StepView) -> bool {
    match step {
        StepView::UartPuts(text) => is_c_text(text),
        _ => true,
    }
}

/// Every text of the script is a message for the console driver.
pub open spec fn texts_are_c_strings(script: Seq<StepView>) -> bool {
    forall|i: int| 0 <= i < script.len() ==> step_is_c_string(#[trigger] script[i])
}

/// The bytes of a message hold one NUL, at the end: the driver, which reads
/// up to the first NUL, reads the whole message and nothing behind it.
pub proof fn lemma_message_ends_at_its_nul(text: Seq<char>)
    requires
        is_c_text(text),
    ensures
        encode_utf8(text).len() == text.len(),
        first_nul_at(encode_utf8(text), text.len() - 1),
{
    assert(is_ascii_chars(text)) by {
        assert forall|i: int| 0 <= i < text.len() implies '\0' <= #[trigger] text[i] <= '\u{7f}' by {
            if i == text.len() - 1 {
                assert(text[i] == text.last());
            }
        }
    }
    is_ascii_chars_encode_utf8(text);
    let bytes = encode_utf8(text);
    assert(bytes[text.len() - 1] == text.last() as u8);
    assert forall|i: int| 0 <= i < text.len() - 1 implies bytes[i] != 0 by {
        assert(bytes[i] == text[i] as u8);
    }
}

/// Two scripts of messages, one after the other, are a script of messages.
proof fn lemma_texts_of_both(a: Seq<StepView>, b: Seq<StepView>)
    requires
        texts_are_c_strings(a),
        texts_are_c_strings(b),
    ensures
        texts_are_c_strings(a + b),
{
    assert forall|i: int| 0 <= i < (a + b).len() implies step_is_c_string(#[trigger] (a + b)[i]) by {
        if i < a.len() {
            assert((a + b)[i] == a[i]);
        } else {
            assert((a + b)[i] == b[i - a.len()]);
        }
    }
}

/// A message said any number of times is a script of messages.
proof fn lemma_texts_of_repeated(text: Seq<char>, ticks: u32, n: nat)
    requires
        is_c_text(text),
    ensures
        texts_are_c_strings(repeated(text, ticks, n)),
    decreases n,
{
    if n > 0 {
        lemma_texts_of_repeated(text, ticks, (n - 1) as nat);
        let round = seq![StepView::UartPuts(text), StepView::Delay(ticks)];
        assert(step_is_c_string(round[0]) && step_is_c_string(round[1]));
        lemma_texts_of_both(repeated(text, ticks, (n - 1) as nat), round);
    }
}

/// Every text that a task hands to the console driver is a message that ends
/// in its only NUL.
pub proof fn lemma_every_text_is_a_c_string()
    ensures
        texts_are_c_strings(rust_user_task1_script()),
        texts_are_c_strings(rust_user_task2_script()),
        texts_are_c_strings(rust_syscall_test_task_script()),
        texts_are_c_strings(rust_memory_safe_task_script()),
{
    reveal_strlit("Rust Task 1: Created!\n\0");
    reveal_strlit("Rust Task 1: Running...\n\0");
    reveal_strlit("Rust Task 1: Finishing after 5 iterations\n\0");
    reveal_strlit("Rust Task 1: Finished!\n\0");
    reveal_strlit("Rust Task 2: Created!\n\0");
    reveal_strlit("Rust Task 2: Working...\n\0");
    reveal_strlit("Rust Task 2: Finished!\n\0");
    reveal_strlit("Rust Task: System call test starting...\n\0");
    reveal_strlit("Rust Task: Array sum calculated safely\n\0");
    reveal_strlit("Rust Task: Processing...\n\0");
    reveal_strlit("Rust Task: System call test completed!\n\0");
    reveal_strlit("Rust Memory Safety Demo: Starting\n\0");
    reveal_strlit("Rust: Found value in Option\n\0");
    reveal_strlit("Rust: Operation succeeded\n\0");
    reveal_strlit("Rust Memory Safety Demo: Completed\n\0");
    assert(is_c_text("Rust Task 1: Created!\n\0"@));
    assert(is_c_text("Rust Task 1: Running...\n\0"@));
    assert(is_c_text("Rust Task 1: Finishing after 5 iterations\n\0"@));
    assert(is_c_text("Rust Task 1: Finished!\n\0"@));
    assert(is_c_text("Rust Task 2: Created!\n\0"@));
    assert(is_c_text("Rust Task 2: Working...\n\0"@));
    assert(is_c_text("Rust Task 2: Finished!\n\0"@));
    assert(is_c_text("Rust Task: System call test starting...\n\0"@));
    assert(is_c_text("Rust Task: Array sum calculated safely\n\0"@));
    assert(is_c_text("Rust Task: Processing...\n\0"@));
    assert(is_c_text("Rust Task: System call test completed!\n\0"@));
    assert(is_c_text("Rust Memory Safety Demo: Starting\n\0"@));
    assert(is_c_text("Rust: Found value in Option\n\0"@));
    assert(is_c_text("Rust: Operation succeeded\n\0"@));
    assert(is_c_text("Rust Memory Safety Demo: Completed\n\0"@));

    let head1 = seq![StepView::UartPuts("Rust Task 1: Created!\n\0"@)];
    let tail1 = seq![
        StepView::UartPuts("Rust Task 1: Running...\n\0"@),
        StepView::UartPuts("Rust Task 1: Finishing after 5 iterations\n\0"@),
        StepView::UartPuts("Rust Task 1: Finished!\n\0"@),
        StepView::Exit,
    ];
    assert(texts_are_c_strings(head1));
    assert(texts_are_c_strings(tail1));
    lemma_texts_of_repeated("Rust Task 1: Running...\n\0"@, REPORT_DELAY, 5);
    lemma_texts_of_both(head1, repeated("Rust Task 1: Running...\n\0"@, REPORT_DELAY, 5));
    lemma_texts_of_both(head1 + repeated("Rust Task 1: Running...\n\0"@, REPORT_DELAY, 5), tail1);

    let head3 = seq![
        StepView::UartPuts("Rust Task: System call test starting...\n\0"@),
        StepView::UartPuts("Rust Task: Array sum calculated safely\n\0"@),
    ];
    let tail3 = seq![
        StepView::UartPuts("Rust Task: System call test completed!\n\0"@),
        StepView::Exit,
    ];
    assert(texts_are_c_strings(head3));
    assert(texts_are_c_strings(tail3));
    lemma_texts_of_repeated("Rust Task: Processing...\n\0"@, WORK_DELAY, 3);
    lemma_texts_of_both(head3, repeated("Rust Task: Processing...\n\0"@, WORK_DELAY, 3));
    lemma_texts_of_both(head3 + repeated("Rust Task: Processing...\n\0"@, WORK_DELAY, 3), tail3);
}

/// What a C callee reads when it is handed the text `s`: the bytes of `s` up
/// to its first NUL. `None` means that `s` holds no NUL, so that there is no
/// C string to hand over.
///
/// Of a message for the console driver, this is the whole message without
/// its NUL.
pub fn rust_str_to_c_str(s: &str) -> (r: Option<&[u8]>)
    ensures
        match r {
            Some(c) => first_nul_at(s.spec_bytes(), c@.len() as int) && c@ == s.spec_bytes().take(
                c@.len() as int,
            ),
            None => !has_nul(s.spec_bytes()),
        },
        is_c_text(s@) ==> r is Some && r.unwrap()@.len() == s@.len() - 1,
{
    proof {
        if is_c_text(s@) {
            lemma_message_ends_at_its_nul(s@);
        }
    }
    let bytes = s.as_bytes();
    let mut n: usize = 0;
    while n < bytes.len()
        invariant
            n <= bytes@.len(),
            bytes@ == s.spec_bytes(),
            forall|i: int| 0 <= i < n ==> bytes@[i] != 0,
            is_c_text(s@) ==> first_nul_at(bytes@, s@.len() - 1),
        decreases bytes@.len() - n,
    {
        if bytes[n] == 0 {
            let c = slice_subrange(bytes, 0, n);
            assert(c@ =~= bytes@.take(n as int));
            assert(is_c_text(s@) ==> n == s@.len() - 1) by {
                if is_c_text(s@) {
                    if n < s@.len() - 1 {
                        assert(bytes@[n as int] != 0);
                    }
                }
            }
            return Some(c);
        }
        n += 1;
    }
    assert(is_c_text(s@) ==> false) by {
        if is_c_text(s@) {
            assert(bytes@[s@.len() - 1] == 0);
        }
    }
    None
}

/// A task that reports in a loop: see [`rust_user_task1_script`].
pub fn rust_user_task1() -> (steps: Vec<Step>)
    ensures
        script_of(steps@) == rust_user_task1_script(),
        texts_are_c_strings(script_of(steps@)),
{
    proof {
        lemma_every_text_is_a_c_string();
    }
    let mut steps: Vec<Step> = Vec::new();
    steps.push(Step::UartPuts("Rust Task 1: Created!\n\0"));
    let ghost head = script_of(steps@);
    assert(head =~= seq![StepView::UartPuts("Rust Task 1: Created!\n\0"@)]);
    let mut counter: u32 = 0;
    loop
        invariant_except_break
            counter <= 5,
            script_of(steps@) == head + repeated(
                "Rust Task 1: Running...\n\0"@,
                REPORT_DELAY,
                counter as nat,
            ),
        ensures
            script_of(steps@) == head + repeated("Rust Task 1: Running...\n\0"@, REPORT_DELAY, 5)
                + seq![
                StepView::UartPuts("Rust Task 1: Running...\n\0"@),
                StepView::UartPuts("Rust Task 1: Finishing after 5 iterations\n\0"@),
            ],
        decreases 5 - counter,
    {
        let ghost before = script_of(steps@);
        steps.push(Step::UartPuts("Rust Task 1: Running...\n\0"));
        counter += 1;
        if counter > 5 {
            steps.push(Step::UartPuts("Rust Task 1: Finishing after 5 iterations\n\0"));
            assert(script_of(steps@) =~= before + seq![
                StepView::UartPuts("Rust Task 1: Running...\n\0"@),
                StepView::UartPuts("Rust Task 1: Finishing after 5 iterations\n\0"@),
            ]);
            break ;
        }
        steps.push(Step::Delay(REPORT_DELAY));
        assert(script_of(steps@) =~= before + seq![
            StepView::UartPuts("Rust Task 1: Running...\n\0"@),
            StepView::Delay(REPORT_DELAY),
        ]);
    }
    let ghost before = script_of(steps@);
    steps.push(Step::UartPuts("Rust Task 1: Finished!\n\0"));
    steps.push(Step::Exit);
    assert(script_of(steps@) =~= before + seq![
        StepView::UartPuts("Rust Task 1: Finished!\n\0"@),
        StepView::Exit,
    ]);
    assert(script_of(steps@) =~= rust_user_task1_script());
    steps
}

/// A task that only prints: see [`rust_user_task2_script`].
pub fn rust_user_task2() -> (steps: Vec<Step>)
    ensures
        script_of(steps@) == rust_user_task2_script(),
        texts_are_c_strings(script_of(steps@)),
{
    proof {
        lemma_every_text_is_a_c_string();
    }
    let mut steps: Vec<Step> = Vec::new();
    steps.push(Step::UartPuts("Rust Task 2: Created!\n\0"));
    steps.push(Step::UartPuts("Rust Task 2: Working...\n\0"));
    steps.push(Step::UartPuts("Rust Task 2: Finished!\n\0"));
    steps.push(Step::Exit);
    assert(script_of(steps@) =~= rust_user_task2_script());
    steps
}

/// A task that works in three pieces: see
/// [`rust_syscall_test_task_script`].
pub fn rust_syscall_test_task() -> (steps: Vec<Step>)
    ensures
        script_of(steps@) == rust_syscall_test_task_script(),
        texts_are_c_strings(script_of(steps@)),
{
    proof {
        lemma_every_text_is_a_c_string();
    }
    let mut steps: Vec<Step> = Vec::new();
    steps.push(Step::UartPuts("Rust Task: System call test starting...\n\0"));
    steps.push(Step::UartPuts("Rust Task: Array sum calculated safely\n\0"));
    let ghost head = script_of(steps@);
    assert(head =~= seq![
        StepView::UartPuts("Rust Task: System call test starting...\n\0"@),
        StepView::UartPuts("Rust Task: Array sum calculated safely\n\0"@),
    ]);
    let mut i: u32 = 0;
    while i < 3
        invariant
            i <= 3,
            script_of(steps@) == head + repeated(
                "Rust Task: Processing...\n\0"@,
                WORK_DELAY,
                i as nat,
            ),
        decreases 3 - i,
    {
        let ghost before = script_of(steps@);
        steps.push(Step::UartPuts("Rust Task: Processing...\n\0"));
        steps.push(Step::Delay(WORK_DELAY));
        assert(script_of(steps@) =~= before + seq![
            StepView::UartPuts("Rust Task: Processing...\n\0"@),
            StepView::Delay(WORK_DELAY),
        ]);
        i += 1;
    }
    let ghost before = script_of(steps@);
    steps.push(Step::UartPuts("Rust Task: System call test completed!\n\0"));
    steps.push(Step::Exit);
    assert(script_of(steps@) =~= before + seq![
        StepView::UartPuts("Rust Task: System call test completed!\n\0"@),
        StepView::Exit,
    ]);
    assert(script_of(steps@) =~= rust_syscall_test_task_script());
    steps
}

/// A task that looks into an `Option` and a `Result` and says what it
/// found: see [`rust_memory_safe_task_script`].
pub fn rust_memory_safe_task() -> (steps: Vec<Step>)
    ensures
        script_of(steps@) == rust_memory_safe_task_script(),
        texts_are_c_strings(script_of(steps@)),
{
    proof {
        lemma_every_text_is_a_c_string();
    }
    let mut steps: Vec<Step> = Vec::new();
    steps.push(Step::UartPuts("Rust Memory Safety Demo: Starting\n\0"));
    let maybe_value: Option<u32> = Some(42);
    match maybe_value {
        Some(_value) => {
            steps.push(Step::UartPuts("Rust: Found value in Option\n\0"));
        },
        None => {
            steps.push(Step::UartPuts("Rust: Option is None\n\0"));
        },
    }
    let result: Result<u32, &str> = Ok(100);
    match result {
        Ok(_value) => {
            steps.push(Step::UartPuts("Rust: Operation succeeded\n\0"));
        },
        Err(_error) => {
            steps.push(Step::UartPuts("Rust: Operation failed\n\0"));
        },
    }
    steps.push(Step::UartPuts("Rust Memory Safety Demo: Completed\n\0"));
    steps.push(Step::Exit);
    assert(script_of(steps@) =~= rust_memory_safe_task_script());
    steps
}

} // verus!
