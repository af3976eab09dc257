use vstd::prelude::*;
use vstd::string::StringExecFns;

verus! {

/// The character of a decimal digit.
pub open spec fn digit_char(d: nat) -> char {
    if d == 0 {
        '0'
    } else if d == 1 {
        '1'
    } else if d == 2 {
        '2'
    } else if d == 3 {
        '3'
    } else if d == 4 {
        '4'
    } else if d == 5 {
        '5'
    } else if d == 6 {
        '6'
    } else if d == 7 {
        '7'
    } else if d == 8 {
        '8'
    } else {
        '9'
    }
}

/// The decimal notation of a number, without leading zeros.
pub open spec fn decimal_text(n: nat) -> Seq<char>
    decreases n,
{
    if n < 10 {
        seq![digit_char(n)]
    } else {
        decimal_text(n / 10).push(digit_char(n % 10))
    }
}

pub open spec fn spaces(n: nat) -> Seq<char> {
    Seq::new(n, |i: int| ' ')
}

/// A text right-aligned in a field of `width` characters.
pub open spec fn align_right(s: Seq<char>, width: nat) -> Seq<char> {
    if s.len() >= width {
        s
    } else {
        spaces((width - s.len()) as nat) + s
    }
}

/// A text left-aligned in a field of `width` characters.
pub open spec fn align_left(s: Seq<char>, width: nat) -> Seq<char> {
    if s.len() >= width {
        s
    } else {
        s + spaces((width - s.len()) as nat)
    }
}

fn digit_str(d: u64) -> (s: &'static str)
    requires
        d < 10,
    ensures
        s@ == seq![digit_char(d as nat)],
{
    proof {
        reveal_strlit("0");
        reveal_strlit("1");
        reveal_strlit("2");
        reveal_strlit("3");
        reveal_strlit("4");
        reveal_strlit("5");
        reveal_strlit("6");
        reveal_strlit("7");
        reveal_strlit("8");
        reveal_strlit("9");
    }
    if d == 0 {
        "0"
    } else if d == 1 {
        "1"
    } else if d == 2 {
        "2"
    } else if d == 3 {
        "3"
    } else if d == 4 {
        "4"
    } else if d == 5 {
        "5"
    } else if d == 6 {
        "6"
    } else if d == 7 {
        "7"
    } else if d == 8 {
        "8"
    } else {
        "9"
    }
}

/// The decimal notation of a number.
pub fn decimal_string(n: u64) -> (s: String)
    ensures
        s@ == decimal_text(n as nat),
    decreases n,
{
    if n < 10 {
        String::from_str(digit_str(n))
    } else {
        let mut s = decimal_string(n / 10);
        s.append(digit_str(n % 10));
        s
    }
}

fn spaces_string(n: usize) -> (s: String)
    ensures
        s@ == spaces(n as nat),
{
    proof {
        reveal_strlit(" ");
    }
    let mut s = String::new();
    let mut i: usize = 0;
    while i < n
        invariant
            i <= n,
            s@ == spaces(i as nat),
        decreases n - i,
    {
        proof {
            reveal_strlit(" ");
        }
        s.append(" ");
        i = i + 1;
        assert(s@ =~= spaces(i as nat));
    }
    s
}

/// A text right-aligned in a field of `width` characters.
pub fn right_aligned(text: &str, width: usize) -> (s: String)
    ensures
        s@ == align_right(text@, width as nat),
{
    let len = text.unicode_len();
    if len >= width {
        String::from_str(text)
    } else {
        let s = spaces_string(width - len);
        s.concat(text)
    }
}

/// A text left-aligned in a field of `width` characters.
pub fn left_aligned(text: &str, width: usize) -> (s: String)
    ensures
        s@ == align_left(text@, width as nat),
{
    let len = text.unicode_len();
    if len >= width {
        String::from_str(text)
    } else {
        let pad = spaces_string(width - len);
        String::from_str(text).concat(pad.as_str())
    }
}

} // verus!

verus! {

/// The figures of one measured phase as the table shows them: its time in
/// milliseconds, already written out by the caller, and its memory in KiB.
#[derive(Debug, Clone, PartialEq, Eq)]
pub struct PhaseFigures {
    pub time_ms: String,
    pub memory_kb: u64,
}

/// A number of KiB or steps right-aligned in a field of 13 characters.
pub open spec fn count_cell(n: nat) -> Seq<char> {
    align_right(decimal_text(n), 13)
}

pub open spec fn runner_time_cell(runner: Option<PhaseFigures>) -> Seq<char> {
    match runner {
        Some(f) => f.time_ms@,
        None => "Not Defined"@,
    }
}

pub open spec fn runner_memory_cell(runner: Option<PhaseFigures>) -> Seq<char> {
    match runner {
        Some(f) => count_cell(f.memory_kb as nat),
        None => "Not Defined"@,
    }
}

pub open spec fn steps_cell(n_steps: Option<usize>) -> Seq<char> {
    match n_steps {
        Some(n) => count_cell(n as nat),
        None => "Not Defined"@,
    }
}

/// The lines of the metrics table of a benchmark: a blank line, the title,
/// a blank line, the header, and one row each for time, memory and steps,
/// the run's cells left-aligned in 14 characters and marked `Not Defined`
/// where the framework has no run; then a blank line. (A blank line is the
/// line holding one line break.)
pub open spec fn metrics_table_lines(
    title: Seq<char>,
    runner: Option<PhaseFigures>,
    prover: PhaseFigures,
    verifier: PhaseFigures,
    n_steps: Option<usize>,
) -> Seq<Seq<char>> {
    seq![
        "\n"@,
        title,
        "\n"@,
        "| Metric              | Run           | Prove          | Verify         |"@,
        "| ------------------- | ------------- | -------------- | -------------- |"@,
        "| time (ms)           | "@ + align_left(runner_time_cell(runner), 14) + " | "@
            + prover.time_ms@ + " | "@ + verifier.time_ms@ + " |"@,
        "| memory usage (KB)   | "@ + align_left(runner_memory_cell(runner), 14) + " | "@
            + count_cell(prover.memory_kb as nat) + " | "@ + count_cell(verifier.memory_kb as nat)
            + " |"@,
        "| n_steps             | "@ + align_left(steps_cell(n_steps), 14) + " | "@ + align_left(
            "-"@,
            14,
        ) + " | "@ + align_left("-"@, 14) + " |"@,
        "\n"@,
    ]
}

/// The lines of the comparison table of the framework benchmark: a blank
/// line, the title, a blank line, the header, a row for time and one for
/// memory, the run's cells as they are and marked `Not Defined` where the
/// framework has no run; then a blank line.
pub open spec fn framework_table_lines(
    title: Seq<char>,
    runner: Option<PhaseFigures>,
    prover: PhaseFigures,
    verifier: PhaseFigures,
) -> Seq<Seq<char>> {
    seq![
        "\n"@,
        title,
        "\n"@,
        "| Type                | Run           | Prove          | Verify         |"@,
        "| ------------------- | ------------- | -------------- | -------------- |"@,
        "| time (ms)          | "@ + runner_time_cell(runner) + " | "@ + prover.time_ms@ + " | "@
            + verifier.time_ms@ + " |"@,
        "| memory usage (KB)  | "@ + runner_memory_cell(runner) + " | "@ + count_cell(
            prover.memory_kb as nat,
        ) + " | "@ + count_cell(verifier.memory_kb as nat) + " |"@,
        "\n"@,
    ]
}

pub open spec fn texts_view(v: Seq<String>) -> Seq<Seq<char>> {
    v.map_values(|s: String| s@)
}

fn count_string(n: u64) -> (s: String)
    ensures
        s@ == count_cell(n as nat),
{
    let digits = decimal_string(n);
    right_aligned(digits.as_str(), 13)
}

fn runner_time_string(runner: &Option<PhaseFigures>) -> (s: String)
    ensures
        s@ == runner_time_cell(*runner),
{
    match runner {
        Some(f) => f.time_ms.clone(),
        None => String::from_str("Not Defined"),
    }
}

fn runner_memory_string(runner: &Option<PhaseFigures>) -> (s: String)
    ensures
        s@ == runner_memory_cell(*runner),
{
    match runner {
        Some(f) => count_string(f.memory_kb),
        None => String::from_str("Not Defined"),
    }
}

/// The lines of the metrics table, as `metrics_table_lines` says.
pub fn metrics_table(
    title: &str,
    runner: &Option<PhaseFigures>,
    prover: &PhaseFigures,
    verifier: &PhaseFigures,
    n_steps: Option<usize>,
) -> (lines: Vec<String>)
    ensures
        texts_view(lines@) == metrics_table_lines(title@, *runner, *prover, *verifier, n_steps),
{
    let mut lines: Vec<String> = Vec::new();
    lines.push(String::from_str("\n"));
    lines.push(String::from_str(title));
    lines.push(String::from_str("\n"));
    lines.push(
        String::from_str("| Metric              | Run           | Prove          | Verify         |"),
    );
    lines.push(
        String::from_str("| ------------------- | ------------- | -------------- | -------------- |"),
    );

    let run_time = runner_time_string(runner);
    let mut time_row = String::from_str("| time (ms)           | ");
    time_row.append(left_aligned(run_time.as_str(), 14).as_str());
    time_row.append(" | ");
    time_row.append(prover.time_ms.as_str());
    time_row.append(" | ");
    time_row.append(verifier.time_ms.as_str());
    time_row.append(" |");
    lines.push(time_row);

    let run_memory = runner_memory_string(runner);
    let mut memory_row = String::from_str("| memory usage (KB)   | ");
    memory_row.append(left_aligned(run_memory.as_str(), 14).as_str());
    memory_row.append(" | ");
    memory_row.append(count_string(prover.memory_kb).as_str());
    memory_row.append(" | ");
    memory_row.append(count_string(verifier.memory_kb).as_str());
    memory_row.append(" |");
    lines.push(memory_row);

    let steps = match n_steps {
        Some(n) => count_string(n as u64),
        None => String::from_str("Not Defined"),
    };
    let mut steps_row = String::from_str("| n_steps             | ");
    steps_row.append(left_aligned(steps.as_str(), 14).as_str());
    steps_row.append(" | ");
    steps_row.append(left_aligned("-", 14).as_str());
    steps_row.append(" | ");
    steps_row.append(left_aligned("-", 14).as_str());
    steps_row.append(" |");
    lines.push(steps_row);

    lines.push(String::from_str("\n"));
    assert(texts_view(lines@) =~= metrics_table_lines(
        title@,
        *runner,
        *prover,
        *verifier,
        n_steps,
    ));
    lines
}

/// The lines of the comparison table, as `framework_table_lines` says.
pub fn framework_table(
    title: &str,
    runner: &Option<PhaseFigures>,
    prover: &PhaseFigures,
    verifier: &PhaseFigures,
) -> (lines: Vec<String>)
    ensures
        texts_view(lines@) == framework_table_lines(title@, *runner, *prover, *verifier),
{
    let mut lines: Vec<String> = Vec::new();
    lines.push(String::from_str("\n"));
    lines.push(String::from_str(title));
    lines.push(String::from_str("\n"));
    lines.push(
        String::from_str("| Type                | Run           | Prove          | Verify         |"),
    );
    lines.push(
        String::from_str("| ------------------- | ------------- | -------------- | -------------- |"),
    );

    let mut time_row = String::from_str("| time (ms)          | ");
    time_row.append(runner_time_string(runner).as_str());
    time_row.append(" | ");
    time_row.append(prover.time_ms.as_str());
    time_row.append(" | ");
    time_row.append(verifier.time_ms.as_str());
    time_row.append(" |");
    lines.push(time_row);

    let mut memory_row = String::from_str("| memory usage (KB)  | ");
    memory_row.append(runner_memory_string(runner).as_str());
    memory_row.append(" | ");
    memory_row.append(count_string(prover.memory_kb).as_str());
    memory_row.append(" | ");
    memory_row.append(count_string(verifier.memory_kb).as_str());
    memory_row.append(" |");
    lines.push(memory_row);

    lines.push(String::from_str("\n"));
    assert(texts_view(lines@) =~= framework_table_lines(title@, *runner, *prover, *verifier));
    lines
}

/// In the comparison table, the time row shows the run's time text, then the
/// prover's and the verifier's, each as the caller wrote it; the memory row
/// shows the run's, the prover's and the verifier's KiB right-aligned in 13
/// characters; a framework without a run has `Not Defined` in both Run cells.
pub proof fn framework_table_shows_each_phase(
    title: Seq<char>,
    runner: Option<PhaseFigures>,
    prover: PhaseFigures,
    verifier: PhaseFigures,
)
    ensures
        framework_table_lines(title, runner, prover, verifier).len() == 8,
        framework_table_lines(title, runner, prover, verifier)[1] == title,
        runner matches Some(f) ==> framework_table_lines(title, runner, prover, verifier)[5]
            == "| time (ms)          | "@ + f.time_ms@ + " | "@ + prover.time_ms@ + " | "@
            + verifier.time_ms@ + " |"@,
        runner matches Some(f) ==> framework_table_lines(title, runner, prover, verifier)[6]
            == "| memory usage (KB)  | "@ + align_right(decimal_text(f.memory_kb as nat), 13)
            + " | "@ + align_right(decimal_text(prover.memory_kb as nat), 13) + " | "@
            + align_right(decimal_text(verifier.memory_kb as nat), 13) + " |"@,
        runner is None ==> framework_table_lines(title, runner, prover, verifier)[5]
            == "| time (ms)          | Not Defined | "@ + prover.time_ms@ + " | "@
            + verifier.time_ms@ + " |"@,
        runner is None ==> framework_table_lines(title, runner, prover, verifier)[6]
            == "| memory usage (KB)  | Not Defined | "@ + align_right(
            decimal_text(prover.memory_kb as nat),
            13,
        ) + " | "@ + align_right(decimal_text(verifier.memory_kb as nat), 13) + " |"@,
{
    reveal_strlit("Not Defined");
    reveal_strlit("| time (ms)          | ");
    reveal_strlit("| memory usage (KB)  | ");
    reveal_strlit("| time (ms)          | Not Defined | ");
    reveal_strlit("| memory usage (KB)  | Not Defined | ");
    reveal_strlit(" | ");
    let lines = framework_table_lines(title, runner, prover, verifier);
    if runner is None {
        assert("| time (ms)          | "@ + "Not Defined"@ + " | "@ =~= "| time (ms)          | Not Defined | "@);
        assert("| memory usage (KB)  | "@ + "Not Defined"@ + " | "@ =~= "| memory usage (KB)  | Not Defined | "@);
        assert(lines[5] =~= "| time (ms)          | Not Defined | "@ + prover.time_ms@ + " | "@
            + verifier.time_ms@ + " |"@);
        assert(lines[6] =~= "| memory usage (KB)  | Not Defined | "@ + align_right(
            decimal_text(prover.memory_kb as nat),
            13,
        ) + " | "@ + align_right(decimal_text(verifier.memory_kb as nat), 13) + " |"@);
    }
}

/// In the metrics table, the time row shows the run's time text left-aligned
/// in 14 characters, then the prover's and the verifier's as the caller wrote
/// them; the memory row shows the run's KiB right-aligned in 13 characters
/// and left-aligned in 14, then the prover's and the verifier's right-aligned
/// in 13; the steps row shows the number of steps the same way as the run's
/// memory.
pub proof fn metrics_table_shows_each_phase(
    title: Seq<char>,
    runner: Option<PhaseFigures>,
    prover: PhaseFigures,
    verifier: PhaseFigures,
    n_steps: Option<usize>,
)
    ensures
        metrics_table_lines(title, runner, prover, verifier, n_steps).len() == 9,
        metrics_table_lines(title, runner, prover, verifier, n_steps)[1] == title,
        runner matches Some(f) ==> metrics_table_lines(title, runner, prover, verifier, n_steps)[5]
            == "| time (ms)           | "@ + align_left(f.time_ms@, 14) + " | "@ + prover.time_ms@
            + " | "@ + verifier.time_ms@ + " |"@,
        runner matches Some(f) ==> metrics_table_lines(title, runner, prover, verifier, n_steps)[6]
            == "| memory usage (KB)   | "@ + align_left(
            align_right(decimal_text(f.memory_kb as nat), 13),
            14,
        ) + " | "@ + align_right(decimal_text(prover.memory_kb as nat), 13) + " | "@
            + align_right(decimal_text(verifier.memory_kb as nat), 13) + " |"@,
        n_steps matches Some(n) ==> metrics_table_lines(title, runner, prover, verifier, n_steps)[7]
            == "| n_steps             | "@ + align_left(align_right(decimal_text(n as nat), 13), 14)
            + " | "@ + align_left("-"@, 14) + " | "@ + align_left("-"@, 14) + " |"@,
{
}

} // verus!
