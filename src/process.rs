//! The outcome of a finished script run, and the platform rule that decides
//! whether it succeeded.
use vstd::prelude::*;
use crate::platform::Platform;

verus! {

/// Result of a completed script: exit code and the captured streams.
#[derive(Debug, Clone)]
pub struct ProcessOutput {
    /// Exit code.
    pub code: i32,
    /// Captured standard output.
    pub stdout: String,
    /// Captured standard error.
    pub stderr: String,
}

/// Whether a run with exit code `code` and captured error text `stderr` counts
/// as a success on `platform`. Windows tools may warn on standard error while
/// exiting with 0, so there any error text is a failure; on POSIX hosts error
/// text is ordinary diagnostics and only the exit code counts.
pub open spec fn succeeded(code: i32, stderr: Seq<char>, platform: Platform) -> bool {
    match platform {
        Platform::Posix => code == 0,
        Platform::Windows => code == 0 && stderr.len() == 0,
    }
}

/// Unicode `White_Space`: the characters that `char::is_whitespace` accepts.
pub open spec fn is_white_space(c: char) -> bool {
    let u = c as u32;
    (0x09 <= u && u <= 0x0D) || u == 0x20 || u == 0x85 || u == 0xA0 || u == 0x1680
        || (0x2000 <= u && u <= 0x200A) || u == 0x2028 || u == 0x2029 || u == 0x202F
        || u == 0x205F || u == 0x3000
}

/// `s` without its trailing white space.
pub open spec fn trimmed(s: Seq<char>) -> Seq<char>
    decreases s.len(),
{
    if s.len() > 0 && is_white_space(s.last()) {
        trimmed(s.drop_last())
    } else {
        s
    }
}

/// `s` does not end in white space.
pub open spec fn no_trailing_white_space(s: Seq<char>) -> bool {
    s.len() > 0 ==> !is_white_space(s.last())
}

/// The text of a stream that may be missing; a missing stream reads as empty.
pub open spec fn text_or_empty(s: Option<String>) -> Seq<char> {
    match s {
        Some(t) => t@,
        None => Seq::empty(),
    }
}

/// The decimal digit for `d`, below ten.
pub open spec fn digit_char(d: nat) -> char {
    if d == 0 { '0' } else if d == 1 { '1' } else if d == 2 { '2' } else if d == 3 { '3' }
    else if d == 4 { '4' } else if d == 5 { '5' } else if d == 6 { '6' } else if d == 7 { '7' }
    else if d == 8 { '8' } else { '9' }
}

/// The decimal digits of `n`, without leading zeros.
pub open spec fn decimal(n: nat) -> Seq<char>
    decreases n,
{
    if n < 10 {
        seq![digit_char(n)]
    } else {
        decimal(n / 10) + seq![digit_char(n % 10)]
    }
}

/// The decimal text of `n`, with a leading `-` when it is negative.
pub open spec fn signed_decimal(n: int) -> Seq<char> {
    if n < 0 {
        seq!['-'] + decimal((-n) as nat)
    } else {
        decimal(n as nat)
    }
}

/// Relies on `i32`'s `ToString` through its `Display`: the decimal text of
/// `n`, with a leading `-` when it is negative.
#[verifier::external_body]
fn decimal_string(n: i32) -> (r: String)
    ensures
        r@ == signed_decimal(n as int),
{
    n.to_string()
}

/// Whether `c` has the Unicode `White_Space` property.
pub fn is_white_space_char(c: char) -> (r: bool)
    ensures
        r == is_white_space(c),
{
    let u = c as u32;
    (0x09 <= u && u <= 0x0D) || u == 0x20 || u == 0x85 || u == 0xA0 || u == 0x1680
        || (0x2000 <= u && u <= 0x200A) || u == 0x2028 || u == 0x2029 || u == 0x202F
        || u == 0x205F || u == 0x3000
}

/// `s` without its trailing white space.
pub fn trim_end(s: &str) -> (r: &str)
    ensures
        r@ == trimmed(s@),
{
    let n = s.unicode_len();
    let mut k: usize = n;
    assert(s@.subrange(0, n as int) =~= s@);
    loop
        invariant
            k <= n,
            n == s@.len(),
            trimmed(s@) == trimmed(s@.subrange(0, k as int)),
        ensures
            k <= n,
            trimmed(s@) == s@.subrange(0, k as int),
        decreases k,
    {
        if k == 0 {
            break;
        }
        let c = s.get_char(k - 1);
        if !is_white_space_char(c) {
            break;
        }
        assert(s@.subrange(0, k as int).drop_last() =~= s@.subrange(0, k - 1));
        k = k - 1;
    }
    s.substring_char(0, k)
}

/// Trimming leaves no trailing white space, keeps a prefix of the text, and
/// removes only white space.
pub proof fn lemma_trimmed_has_no_trailing_white_space(s: Seq<char>)
    ensures
        no_trailing_white_space(trimmed(s)),
        trimmed(s).len() <= s.len(),
        trimmed(s) == s.subrange(0, trimmed(s).len() as int),
        forall|i: int| trimmed(s).len() <= i < s.len() ==> is_white_space(#[trigger] s[i]),
    decreases s.len(),
{
    if s.len() > 0 && is_white_space(s.last()) {
        let d = s.drop_last();
        lemma_trimmed_has_no_trailing_white_space(d);
        assert(trimmed(s) == trimmed(d));
        assert(d.subrange(0, trimmed(d).len() as int) == s.subrange(0, trimmed(d).len() as int));
        assert forall|i: int| trimmed(s).len() <= i < s.len() implies is_white_space(#[trigger] s[i]) by {
            if i < d.len() {
                assert(s[i] == d[i]);
            }
        }
    } else {
        assert(s.subrange(0, s.len() as int) == s);
    }
}

/// A run that exits with 0 and writes nothing to standard error succeeds on
/// every platform.
pub proof fn lemma_clean_run_succeeds(code: i32, stderr: Seq<char>, platform: Platform)
    requires
        code == 0,
        stderr.len() == 0,
    ensures
        succeeded(code, stderr, platform),
{
}

/// A run that exits with 0 but writes to standard error fails on Windows and
/// succeeds on POSIX hosts.
pub proof fn lemma_error_text_counts_only_on_windows(code: i32, stderr: Seq<char>)
    requires
        code == 0,
        stderr.len() > 0,
    ensures
        !succeeded(code, stderr, Platform::Windows),
        succeeded(code, stderr, Platform::Posix),
{
}

impl ProcessOutput {
    /// Create a new output from its three parts, as given.
    pub fn new(code: i32, stdout: String, stderr: String) -> (r: Self)
        ensures
            r.code == code,
            r.stdout@ == stdout@,
            r.stderr@ == stderr@,
    {
        ProcessOutput { code, stdout, stderr }
    }

    /// Build the output of a finished run from its exit code and the raw
    /// captured streams, each trimmed of trailing white space.
    pub fn from_captured(code: i32, stdout: &str, stderr: &str) -> (r: Self)
        ensures
            r.code == code,
            r.stdout@ == trimmed(stdout@),
            r.stderr@ == trimmed(stderr@),
            no_trailing_white_space(r.stdout@),
            no_trailing_white_space(r.stderr@),
    {
        proof {
            lemma_trimmed_has_no_trailing_white_space(stdout@);
            lemma_trimmed_has_no_trailing_white_space(stderr@);
        }
        let out = String::from_str(trim_end(stdout));
        let err = String::from_str(trim_end(stderr));
        ProcessOutput::new(code, out, err)
    }

    /// Build the output of a PowerShell run, which reports only whether it
    /// succeeded: the code is 0 on success and 1 on failure, and a missing
    /// stream reads as empty text.
    pub fn from_engine(engine_succeeded: bool, stdout: Option<String>, stderr: Option<String>) -> (r: Self)
        ensures
            r.code == (if engine_succeeded { 0i32 } else { 1i32 }),
            r.stdout@ == trimmed(text_or_empty(stdout)),
            r.stderr@ == trimmed(text_or_empty(stderr)),
            no_trailing_white_space(r.stdout@),
            no_trailing_white_space(r.stderr@),
    {
        let code: i32 = if engine_succeeded { 0 } else { 1 };
        let out = trimmed_or_empty(stdout);
        let err = trimmed_or_empty(stderr);
        ProcessOutput::new(code, out, err)
    }

    /// The output as text: `<code, stdout, stderr>`, the code in decimal.
    pub fn display_text(&self) -> (r: String)
        ensures
            r@ == seq!['<'] + signed_decimal(self.code as int) + seq![',', ' '] + self.stdout@
                + seq![',', ' '] + self.stderr@ + seq!['>'],
    {
        proof {
            reveal_strlit("<");
            reveal_strlit(", ");
            reveal_strlit(">");
        }
        let code = decimal_string(self.code);
        String::from_str("<").concat(code.as_str()).concat(", ").concat(self.stdout.as_str()).concat(
            ", ",
        ).concat(self.stderr.as_str()).concat(">")
    }

    /// Whether the run succeeded on `platform`.
    pub fn success_on(&self, platform: Platform) -> (r: bool)
        ensures
            r == succeeded(self.code, self.stderr@, platform),
    {
        match platform {
            Platform::Posix => self.code == 0,
            Platform::Windows => self.code == 0 && self.stderr.as_str().is_empty(),
        }
    }

    /// Whether the run succeeded on the platform the library was built for.
    pub fn success(&self) -> (r: bool)
        ensures
            r == succeeded(self.code, self.stderr@, Platform::Posix)
                || r == succeeded(self.code, self.stderr@, Platform::Windows),
            self.code != 0 ==> !r,
            self.code == 0 && self.stderr@.len() == 0 ==> r,
    {
        self.success_on(Platform::host())
    }
}

/// The text of a stream that may be missing, trimmed of trailing white space;
/// a missing stream gives the empty text. Callers that need only the output
/// of a run use this on its standard output.
pub fn trimmed_or_empty(stream: Option<String>) -> (r: String)
    ensures
        r@ == trimmed(text_or_empty(stream)),
        no_trailing_white_space(r@),
{
    proof {
        lemma_trimmed_has_no_trailing_white_space(text_or_empty(stream));
    }
    match stream {
        Some(t) => String::from_str(trim_end(t.as_str())),
        None => {
            proof {
                assert(trimmed(Seq::<char>::empty()) == Seq::<char>::empty());
            }
            String::new()
        },
    }
}

} // verus!
