use vstd::prelude::*;

verus! {

/// The texts of a list of strings.
pub open spec fn texts(v: Seq<String>) -> Seq<Seq<char>> {
    v.map_values(|s: String| s@)
}

/// An external program together with its argument list.
pub struct Invocation {
    pub program: String,
    pub args: Vec<String>,
}

/// The mathematical content of an invocation: the program and its arguments.
pub struct InvocationView {
    pub program: Seq<char>,
    pub args: Seq<Seq<char>>,
}

impl View for Invocation {
    type V = InvocationView;

    open spec fn view(&self) -> InvocationView {
        InvocationView { program: self.program@, args: texts(self.args@) }
    }
}

/// Appends a copy of `w` to the argument list `v`.
pub fn push_text(v: &mut Vec<String>, w: &str)
    ensures
        texts(final(v)@) == texts(old(v)@).push(w@),
{
    v.push(String::from_str(w));
    assert(texts(final(v)@) =~= texts(old(v)@).push(w@));
}

/// Appends copies of all of `ws` to `v`.
pub fn push_all(v: &mut Vec<String>, ws: &Vec<String>)
    ensures
        texts(final(v)@) == texts(old(v)@) + texts(ws@),
{
    let mut i: usize = 0;
    while i < ws.len()
        invariant
            i <= ws@.len(),
            texts(v@) == texts(old(v)@) + texts(ws@.subrange(0, i as int)),
        decreases ws.len() - i,
    {
        let ghost before = v@;
        push_text(v, ws[i].as_str());
        assert(ws@.subrange(0, i + 1) =~= ws@.subrange(0, i as int).push(ws@[i as int]));
        assert(texts(ws@.subrange(0, i + 1)) =~= texts(ws@.subrange(0, i as int)).push(ws@[i as int]@));
        i += 1;
    }
    assert(ws@.subrange(0, ws@.len() as int) =~= ws@);
}

impl Invocation {
    /// An invocation of `program` with `args`.
    pub fn new(program: &str, args: Vec<String>) -> (r: Invocation)
        ensures
            r@ == (InvocationView { program: program@, args: texts(args@) }),
    {
        Invocation { program: String::from_str(program), args }
    }

    /// A copy with the same program and arguments.
    pub fn duplicate(&self) -> (r: Invocation)
        ensures
            r@ == self@,
    {
        let mut args: Vec<String> = Vec::new();
        push_all(&mut args, &self.args);
        assert(texts(args@) =~= texts(self.args@));
        Invocation { program: self.program.clone(), args }
    }
}

/// Why a step of the run failed.
pub struct Failure {
    /// What the step was doing, for a human reader.
    pub context: String,
    /// The exit code of the external program; `None` where it ended without one
    /// (killed by a signal, or never started).
    pub code: Option<i32>,
    /// What the program printed on its standard output.
    pub stdout: String,
    /// What the program printed on its standard error, or the reason it could not run.
    pub stderr: String,
}

/// The content of a failure.
pub struct FailureView {
    pub context: Seq<char>,
    pub code: Option<i32>,
    pub stdout: Seq<char>,
    pub stderr: Seq<char>,
}

impl View for Failure {
    type V = FailureView;

    open spec fn view(&self) -> FailureView {
        FailureView {
            context: self.context@,
            code: self.code,
            stdout: self.stdout@,
            stderr: self.stderr@,
        }
    }
}

impl Failure {
    /// A failure with the given parts.
    pub fn new(context: &str, code: Option<i32>, stdout: &str, stderr: &str) -> (r: Failure)
        ensures
            r@ == (FailureView { context: context@, code, stdout: stdout@, stderr: stderr@ }),
    {
        Failure {
            context: String::from_str(context),
            code,
            stdout: String::from_str(stdout),
            stderr: String::from_str(stderr),
        }
    }
}

/// A white-space character as `char::is_whitespace` defines it: the Unicode
/// property White_Space.
pub open spec fn is_white_space(c: char) -> bool {
    let n = c as u32;
    (9 <= n <= 13) || n == 32 || n == 0x85 || n == 0xA0 || n == 0x1680 || (0x2000 <= n <= 0x200A)
        || n == 0x2028 || n == 0x2029 || n == 0x202F || n == 0x205F || n == 0x3000
}

/// `s` without the white space at its start.
pub open spec fn trim_start_ws(s: Seq<char>) -> Seq<char>
    decreases s.len(),
{
    if s.len() > 0 && is_white_space(s[0]) {
        trim_start_ws(s.drop_first())
    } else {
        s
    }
}

/// `s` without the white space at its end.
pub open spec fn trim_end_ws(s: Seq<char>) -> Seq<char>
    decreases s.len(),
{
    if s.len() > 0 && is_white_space(s.last()) {
        trim_end_ws(s.drop_last())
    } else {
        s
    }
}

/// `s` without the white space at either end.
pub open spec fn trimmed(s: Seq<char>) -> Seq<char> {
    trim_end_ws(trim_start_ws(s))
}

/// Relies on `str::trim`: the text without leading and trailing characters
/// that `char::is_whitespace` accepts.
#[verifier::external_body]
fn trim_text(s: &str) -> (r: String)
    ensures
        r@ == trimmed(s@),
{
    s.trim().to_string()
}

/// The result of a command that has run: its trimmed standard output where it
/// exited successfully, else a failure carrying `context`, the exit code and
/// both captured streams.
pub fn complete_command(
    context: &str,
    success: bool,
    code: Option<i32>,
    stdout: &str,
    stderr: &str,
) -> (r: Result<String, Failure>)
    ensures
        success ==> (r matches Ok(out) && out@ == trimmed(stdout@)),
        !success ==> (r matches Err(f) && f@ == (FailureView {
            context: context@,
            code,
            stdout: stdout@,
            stderr: stderr@,
        })),
{
    if success {
        Ok(trim_text(stdout))
    } else {
        Err(Failure::new(context, code, stdout, stderr))
    }
}

} // verus!
