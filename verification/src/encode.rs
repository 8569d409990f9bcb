use vstd::prelude::*;

use crate::decimal::{dec_rep, dec_string, int_rep, int_string};

verus! {

/// One already-completed test execution, assembled by the caller and
/// read-only to the encoder. `name` passes through unescaped: suppliers
/// are expected to hand in text free of line breaks. `error_message`,
/// `exit_code` and `output` are attached only when there is something to
/// report; `output` may contain embedded line breaks.
pub struct TestResult {
    pub number: usize,
    pub name: String,
    pub ok: bool,
    pub error_message: Option<String>,
    pub exit_code: Option<i32>,
    pub output: Option<String>,
}

/// The mathematical content of a [`TestResult`]: the same record with
/// every text field read as a sequence of characters and every integer
/// unbounded.
pub ghost struct TestResultView {
    pub number: nat,
    pub name: Seq<char>,
    pub ok: bool,
    pub error_message: Option<Seq<char>>,
    pub exit_code: Option<int>,
    pub output: Option<Seq<char>>,
}

impl View for TestResult {
    type V = TestResultView;

    open spec fn view(&self) -> TestResultView {
        TestResultView {
            number: self.number as nat,
            name: self.name@,
            ok: self.ok,
            error_message: match self.error_message {
                Some(m) => Some(m@),
                None => None,
            },
            exit_code: match self.exit_code {
                Some(c) => Some(c as int),
                None => None,
            },
            output: match self.output {
                Some(o) => Some(o@),
                None => None,
            },
        }
    }
}

/// The version header line.
pub open spec fn version_line() -> Seq<char> {
    "TAP version 14\n"@
}

/// The plan line for a run of `count` tests; zero is a valid count.
pub open spec fn plan_line(count: nat) -> Seq<char> {
    "1.."@ + dec_rep(count) + "\n"@
}

/// The bail-out line for a run aborted before completing its plan.
pub open spec fn bail_out_line(reason: Seq<char>) -> Seq<char> {
    "Bail out! "@ + reason + "\n"@
}

/// A comment line, ignored by consumers' pass/fail logic.
pub open spec fn comment_line(text: Seq<char>) -> Seq<char> {
    "# "@ + text + "\n"@
}

/// A skip directive: reported `ok` whether or not the test ran, since
/// skip means intentionally not executed.
pub open spec fn skip_line(number: nat, description: Seq<char>, reason: Seq<char>) -> Seq<char> {
    "ok "@ + dec_rep(number) + " - "@ + description + " # SKIP "@ + reason + "\n"@
}

/// A todo directive: reported `not ok`, marking an expected failure.
pub open spec fn todo_line(number: nat, description: Seq<char>, reason: Seq<char>) -> Seq<char> {
    "not ok "@ + dec_rep(number) + " - "@ + description + " # TODO "@ + reason + "\n"@
}

/// The number of characters before the first line break of `v` (the
/// whole length when `v` has none).
pub open spec fn head_line_len(v: Seq<char>) -> nat
    decreases v.len(),
{
    if v.len() == 0 {
        0
    } else if v[0] == '\n' {
        0
    } else {
        1 + head_line_len(v.drop_first())
    }
}

/// One line of a block scalar: four spaces of indent, the line's
/// characters unchanged, a closing line break.
pub open spec fn indented(line: Seq<char>) -> Seq<char> {
    "    "@ + line + "\n"@
}

/// The body of a block scalar: each line of the value indented by four
/// spaces. Lines are split on line breaks; the empty trailing line left
/// by a terminal line break is discarded, and no blank separator line is
/// added.
pub open spec fn block_body(v: Seq<char>) -> Seq<char>
    decreases v.len(),
{
    if v.len() == 0 {
        Seq::empty()
    } else {
        let k = head_line_len(v);
        if k >= v.len() {
            indented(v)
        } else {
            indented(v.subrange(0, k as int)) + block_body(
                v.subrange(k as int + 1, v.len() as int),
            )
        }
    }
}

/// A diagnostic-block field: the value double-quoted on one line when it
/// has no line break (with no escaping inside the quotes), otherwise a
/// `|` block scalar holding each of its lines.
pub open spec fn yaml_field(key: Seq<char>, value: Seq<char>) -> Seq<char> {
    if value.contains('\n') {
        "  "@ + key + ": |\n"@ + block_body(value)
    } else {
        "  "@ + key + ": \""@ + value + "\"\n"@
    }
}

/// The head-line length never exceeds the whole length; no character
/// before it is a line break; the character at it, when there is one, is
/// a line break.
proof fn lemma_head_line_len(v: Seq<char>)
    ensures
        head_line_len(v) <= v.len(),
        forall|j: int| 0 <= j < head_line_len(v) ==> v[j] != '\n',
        head_line_len(v) < v.len() ==> v[head_line_len(v) as int] == '\n',
    decreases v.len(),
{
    if v.len() == 0 {
    } else if v[0] == '\n' {
    } else {
        lemma_head_line_len(v.drop_first());
        let k = head_line_len(v);
        assert forall|j: int| 0 <= j < k implies v[j] != '\n' by {
            if j > 0 {
                assert(v.drop_first()[j - 1] != '\n');
            }
        }
        if k < v.len() {
            assert(v[k as int] == v.drop_first()[k - 1]);
        }
    }
}

/// The index of the first line break in `s`, or its length when it has
/// none.
fn first_newline(s: &str) -> (r: usize)
    ensures
        r as nat == head_line_len(s@),
        r <= s@.len(),
{
    proof {
        lemma_head_line_len(s@);
    }
    let n = s.unicode_len();
    let mut i: usize = 0;
    while i < n
        invariant
            n as nat == s@.len(),
            i <= n,
            forall|j: int| 0 <= j < i ==> s@[j] != '\n',
        decreases n - i,
    {
        if s.get_char(i) == '\n' {
            proof {
                lemma_head_line_len(s@);
                assert(head_line_len(s@) == i as nat);
            }
            return i;
        }
        i += 1;
    }
    proof {
        lemma_head_line_len(s@);
        assert(head_line_len(s@) == n as nat);
    }
    n
}

/// Appends the block-scalar body for `value` to `out`, one indented line
/// at a time.
fn push_block_body(out: &mut String, value: &str)
    ensures
        final(out)@ == old(out)@ + block_body(value@),
    decreases value@.len(),
{
    proof {
        lemma_head_line_len(value@);
    }
    let n = value.unicode_len();
    if n == 0 {
        proof {
            assert(old(out)@ + block_body(value@) =~= old(out)@);
        }
        return;
    }
    let k = first_newline(value);
    if k == n {
        out.append("    ");
        out.append(value);
        out.append("\n");
        proof {
            assert(out@ =~= old(out)@ + block_body(value@));
        }
    } else {
        let line = value.substring_char(0, k);
        out.append("    ");
        out.append(line);
        out.append("\n");
        let rest = value.substring_char(k + 1, n);
        push_block_body(out, rest);
        proof {
            assert(out@ =~= old(out)@ + block_body(value@));
        }
    }
}

/// Encodes one field of a diagnostic block under the scalar-encoding
/// rule: quoted on a single line for a break-free value, a `|` block
/// scalar otherwise.
fn write_yaml_field(key: &str, value: &str) -> (r: String)
    ensures
        r@ == yaml_field(key@, value@),
{
    proof {
        lemma_head_line_len(value@);
    }
    let n = value.unicode_len();
    let k = first_newline(value);
    let mut s = String::from_str("  ");
    s.append(key);
    if k < n {
        s.append(": |\n");
        push_block_body(&mut s, value);
        proof {
            assert(value@[k as int] == '\n');
            assert(value@.contains('\n'));
            assert(s@ =~= yaml_field(key@, value@));
        }
    } else {
        s.append(": \"");
        s.append(value);
        s.append("\"\n");
        proof {
            assert(!value@.contains('\n'));
            assert(s@ =~= yaml_field(key@, value@));
        }
    }
    s
}

/// The status token of a test point.
pub open spec fn status_token(ok: bool) -> Seq<char> {
    if ok {
        "ok"@
    } else {
        "not ok"@
    }
}

/// The first line of a test point: status token, number, ` - `, name.
pub open spec fn test_point_line(r: TestResultView) -> Seq<char> {
    status_token(r.ok) + " "@ + dec_rep(r.number) + " - "@ + r.name + "\n"@
}

/// Whether a test point carries a diagnostic block: always on failure,
/// and on success exactly when captured output is attached.
pub open spec fn has_diagnostic(r: TestResultView) -> bool {
    !r.ok || r.output is Some
}

/// The diagnostic block of a test point: the `---` and `...` delimiter
/// lines around the fields in fixed order -- message, severity, exitcode,
/// output -- each present exactly when its datum is (severity whenever
/// the test failed).
pub open spec fn diagnostic_block(r: TestResultView) -> Seq<char> {
    "  ---\n"@ + (match r.error_message {
        Some(m) => yaml_field("message"@, m),
        None => Seq::empty(),
    }) + (if !r.ok {
        "  severity: fail\n"@
    } else {
        Seq::empty()
    }) + (match r.exit_code {
        Some(c) => "  exitcode: "@ + int_rep(c) + "\n"@,
        None => Seq::empty(),
    }) + (match r.output {
        Some(o) => yaml_field("output"@, o),
        None => Seq::empty(),
    }) + "  ...\n"@
}

/// The full rendering of a test point: the status line, followed by the
/// diagnostic block exactly when one is required.
pub open spec fn test_point(r: TestResultView) -> Seq<char> {
    test_point_line(r) + if has_diagnostic(r) {
        diagnostic_block(r)
    } else {
        Seq::empty()
    }
}

/// Whether the encoded test point will carry a diagnostic block.
fn has_yaml_block(result: &TestResult) -> (r: bool)
    ensures
        r == has_diagnostic(result@),
{
    !result.ok || result.output.is_some()
}

/// Encodes one test point: the `ok`/`not ok` status line, and, when the
/// test failed or captured output is attached, the diagnostic block with
/// its fields in fixed order.
pub fn write_test_point(result: &TestResult) -> (r: String)
    ensures
        r@ == test_point(result@),
{
    let mut s = if result.ok {
        String::from_str("ok")
    } else {
        String::from_str("not ok")
    };
    s.append(" ");
    let digits = dec_string(result.number as u64);
    s.append(digits.as_str());
    s.append(" - ");
    s.append(result.name.as_str());
    s.append("\n");
    proof {
        assert(s@ =~= test_point_line(result@));
    }
    if has_yaml_block(result) {
        let ghost line = s@;
        s.append("  ---\n");
        match &result.error_message {
            Some(m) => {
                let field = write_yaml_field("message", m.as_str());
                s.append(field.as_str());
            },
            None => {},
        }
        if !result.ok {
            s.append("  severity: fail\n");
        }
        match result.exit_code {
            Some(code) => {
                s.append("  exitcode: ");
                let code_digits = int_string(code);
                s.append(code_digits.as_str());
                s.append("\n");
            },
            None => {},
        }
        match &result.output {
            Some(o) => {
                let field = write_yaml_field("output", o.as_str());
                s.append(field.as_str());
            },
            None => {},
        }
        s.append("  ...\n");
        proof {
            assert(s@ =~= line + diagnostic_block(result@));
            assert(s@ =~= test_point(result@));
        }
    } else {
        proof {
            assert(s@ =~= test_point(result@));
        }
    }
    s
}

/// Encodes the version header, the first line of any TAP14 document
/// (this function does not enforce its position in the stream).
pub fn write_version() -> (r: String)
    ensures
        r@ == version_line(),
{
    String::from_str("TAP version 14\n")
}

/// Encodes the plan line `1..N` for a run of `count` tests. A count of
/// zero is valid -- `1..0` signals that no tests are planned.
pub fn write_plan(count: usize) -> (r: String)
    ensures
        r@ == plan_line(count as nat),
{
    let mut s = String::from_str("1..");
    let digits = dec_string(count as u64);
    s.append(digits.as_str());
    s.append("\n");
    s
}

/// Encodes a bail-out line, signalling that the remaining planned tests
/// could not run.
pub fn write_bail_out(reason: &str) -> (r: String)
    ensures
        r@ == bail_out_line(reason@),
{
    let mut s = String::from_str("Bail out! ");
    s.append(reason);
    s.append("\n");
    s
}

/// Encodes a comment line.
pub fn write_comment(text: &str) -> (r: String)
    ensures
        r@ == comment_line(text@),
{
    let mut s = String::from_str("# ");
    s.append(text);
    s.append("\n");
    s
}

/// Encodes a skip directive for a test that was intentionally not run.
pub fn write_skip(num: usize, desc: &str, reason: &str) -> (r: String)
    ensures
        r@ == skip_line(num as nat, desc@, reason@),
{
    let mut s = String::from_str("ok ");
    let digits = dec_string(num as u64);
    s.append(digits.as_str());
    s.append(" - ");
    s.append(desc);
    s.append(" # SKIP ");
    s.append(reason);
    s.append("\n");
    s
}

/// Encodes a todo directive for a test expected to fail.
pub fn write_todo(num: usize, desc: &str, reason: &str) -> (r: String)
    ensures
        r@ == todo_line(num as nat, desc@, reason@),
{
    let mut s = String::from_str("not ok ");
    let digits = dec_string(num as u64);
    s.append(digits.as_str());
    s.append(" - ");
    s.append(desc);
    s.append(" # TODO ");
    s.append(reason);
    s.append("\n");
    s
}

/// A passing result with no attached output renders as exactly one line,
/// `ok <number> - <name>`, with no diagnostic block after it.
pub proof fn lemma_passing_plain_is_single_line(r: TestResultView)
    requires
        r.ok,
        r.output is None,
    ensures
        test_point(r) == "ok "@ + dec_rep(r.number) + " - "@ + r.name + "\n"@,
{
    reveal_strlit("ok");
    reveal_strlit(" ");
    reveal_strlit("ok ");
    assert(test_point(r) =~= "ok "@ + dec_rep(r.number) + " - "@ + r.name + "\n"@);
}

/// The encoder is pure: a test point's rendering is a function of the
/// result's content alone, so encoding results of equal content twice --
/// against any two sinks -- yields identical text both times.
pub proof fn lemma_test_point_pure(a: &TestResult, b: &TestResult)
    requires
        a@ == b@,
    ensures
        test_point(a@) == test_point(b@),
{
}

} // verus!
