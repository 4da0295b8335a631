//! The network self-test: what the outcome of each request says.

use vstd::prelude::*;
use vstd::utf8::encode_utf8;
use crate::text::{replace_all, replaced};

verus! {

/// Characters in the random part of a name that must not exist.
pub const RANDOM_LENGTH: usize = 16;

/// What stands for the random part in the address of the first test.
pub const RANDOM_PLACEHOLDER: &'static str = "{random}";

/// The outcome of one test.
#[derive(Debug, Clone, PartialEq, Eq)]
pub enum TestResult {
    Incomplete,
    Pass,
    Fail(String),
    Error(String),
}

/// The outcome of one test as a mathematical value.
pub enum TestResultView {
    Incomplete,
    Pass,
    Fail(Seq<char>),
    Error(Seq<char>),
}

impl View for TestResult {
    type V = TestResultView;

    open spec fn view(&self) -> TestResultView {
        match self {
            TestResult::Incomplete => TestResultView::Incomplete,
            TestResult::Pass => TestResultView::Pass,
            TestResult::Fail(message) => TestResultView::Fail(message@),
            TestResult::Error(error) => TestResultView::Error(error@),
        }
    }
}

impl TestResultView {
    /// The outcome in words.
    pub open spec fn text(self) -> Seq<char> {
        match self {
            TestResultView::Incomplete => "incomplete"@,
            TestResultView::Pass => "pass"@,
            TestResultView::Fail(message) => "fail: "@ + message,
            TestResultView::Error(error) => "error: "@ + error,
        }
    }
}

impl TestResult {
    /// Whether the test has passed.
    pub fn is_pass(&self) -> (pass: bool)
        ensures
            pass == (self@ is Pass),
    {
        match self {
            TestResult::Pass => true,
            _ => false,
        }
    }

    /// The outcome in words.
    pub fn to_text(&self) -> (text: String)
        ensures
            text@ == self@.text(),
    {
        match self {
            TestResult::Incomplete => "incomplete".to_owned(),
            TestResult::Pass => "pass".to_owned(),
            TestResult::Fail(message) => {
                let mut text = "fail: ".to_owned();
                text.append(message.as_str());
                text
            },
            TestResult::Error(error) => {
                let mut text = "error: ".to_owned();
                text.append(error.as_str());
                text
            },
        }
    }
}

impl Default for TestResult {
    fn default() -> (result: TestResult)
        ensures
            result@ is Incomplete,
    {
        TestResult::Incomplete
    }
}

/// The outcomes of the three tests.
#[derive(Debug, Clone, PartialEq, Eq)]
pub struct Report {
    pub nonexistent: TestResult,
    pub cleartext: TestResult,
    pub target: TestResult,
}

impl Report {
    /// Whether all three tests have passed.
    pub fn is_pass(&self) -> (pass: bool)
        ensures
            pass == (self.nonexistent@ is Pass && self.cleartext@ is Pass && self.target@ is Pass),
    {
        self.nonexistent.is_pass() && self.cleartext.is_pass() && self.target.is_pass()
    }
}

impl Default for Report {
    fn default() -> (report: Report)
        ensures
            report.nonexistent@ is Incomplete,
            report.cleartext@ is Incomplete,
            report.target@ is Incomplete,
    {
        Report {
            nonexistent: TestResult::Incomplete,
            cleartext: TestResult::Incomplete,
            target: TestResult::Incomplete,
        }
    }
}

/// Whether `c` is a letter of the English alphabet or a digit.
pub open spec fn is_alphanumeric(c: char) -> bool {
    let u = c as u32;
    0x30 <= u <= 0x39 || 0x41 <= u <= 0x5a || 0x61 <= u <= 0x7a
}

/// Whether `text` holds letters of the English alphabet and digits only.
pub open spec fn all_alphanumeric(text: Seq<char>) -> bool {
    forall|i: int| 0 <= i < text.len() ==> is_alphanumeric(#[trigger] text[i])
}

/// Whether `text` can be the random part of a name: sixteen characters,
/// each a letter of the English alphabet or a digit.
pub open spec fn is_random_part(text: Seq<char>) -> bool {
    text.len() == RANDOM_LENGTH && all_alphanumeric(text)
}

/// Calls `SampleString::sample_string` of the crate `rand` on its
/// distribution `Alphanumeric`, with the generator that `rand::rng` gives.
/// The characters are random; each is one of a-z, A-Z and 0-9, and there
/// are as many as asked for.
#[verifier::external_body]
fn random_chars(len: usize) -> (chars: String)
    ensures
        chars@.len() == len,
        all_alphanumeric(chars@),
{
    rand::distr::SampleString::sample_string(&rand::distr::Alphanumeric, &mut rand::rng(), len)
}

/// `template` with `chars` in the place of each placeholder for the random part.
pub fn fill_random_domain(template: &str, chars: &str) -> (address: String)
    ensures
        address@ == replaced(template@, RANDOM_PLACEHOLDER@, chars@),
{
    replace_all(template, RANDOM_PLACEHOLDER, chars)
}

/// `template` with sixteen random letters and digits in the place of each
/// placeholder for the random part.
pub fn format_random_domain(template: &str) -> (address: String)
    ensures
        exists|chars: Seq<char>| #[trigger]
            is_random_part(chars) && address@ == replaced(template@, RANDOM_PLACEHOLDER@, chars),
{
    let chars = random_chars(RANDOM_LENGTH);
    let address = fill_random_domain(template, chars.as_str());
    assert(is_random_part(chars@) && address@ == replaced(
        template@,
        RANDOM_PLACEHOLDER@,
        chars@,
    ));
    address
}

/// Longest piece of an unexpected answer that a failure shows.
pub const SNIPPET_LENGTH: usize = 64;

/// The digit for a value below sixteen.
pub open spec fn hex_digit(n: u8) -> char {
    if n < 10 {
        (0x30 + n) as u8 as char
    } else {
        (0x57 + n) as u8 as char
    }
}

/// How a byte is shown: a printable character of ASCII as itself, but for
/// quotation marks and the backslash, which get a backslash before them;
/// tab, carriage return and line feed as `\t`, `\r` and `\n`; any other
/// byte as `\x` and its two digits.
pub open spec fn escaped_byte(b: u8) -> Seq<char> {
    if b == 0x09 {
        seq!['\\', 't']
    } else if b == 0x0d {
        seq!['\\', 'r']
    } else if b == 0x0a {
        seq!['\\', 'n']
    } else if b == 0x27 {
        seq!['\\', '\'']
    } else if b == 0x22 {
        seq!['\\', '"']
    } else if b == 0x5c {
        seq!['\\', '\\']
    } else if 0x20 <= b <= 0x7e {
        seq![b as char]
    } else {
        seq!['\\', 'x', hex_digit(b / 16), hex_digit(b % 16)]
    }
}

/// How a run of bytes is shown.
pub open spec fn escaped(bytes: Seq<u8>) -> Seq<char>
    decreases bytes.len(),
{
    if bytes.len() == 0 {
        Seq::empty()
    } else {
        escaped(bytes.drop_last()) + escaped_byte(bytes.last())
    }
}

/// The first 64 characters of `text`, or all of it where it has no more.
pub open spec fn limited(text: Seq<char>) -> Seq<char> {
    if text.len() > SNIPPET_LENGTH {
        text.take(SNIPPET_LENGTH as int)
    } else {
        text
    }
}

fn push_limited(out: &mut String, count: &mut usize, c: char)
    requires
        *old(count) == old(out)@.len(),
        *old(count) <= SNIPPET_LENGTH,
    ensures
        *final(count) == final(out)@.len(),
        *final(count) <= SNIPPET_LENGTH,
        final(out)@ == limited(old(out)@.push(c)),
{
    if *count < SNIPPET_LENGTH {
        out.push(c);
        *count = *count + 1;
    } else {
        assert(old(out)@.push(c).take(SNIPPET_LENGTH as int) =~= old(out)@);
    }
}

fn hex_char(n: u8) -> (c: char)
    requires
        n < 16,
    ensures
        c == hex_digit(n),
{
    if n < 10 {
        (0x30 + n) as char
    } else {
        (0x57 + n) as char
    }
}

/// What is cut off at the end does not depend on what was cut off before.
proof fn lemma_limited_push(text: Seq<char>, c: char)
    ensures
        limited(limited(text).push(c)) == limited(text.push(c)),
{
    if text.len() > SNIPPET_LENGTH {
        assert(limited(text).push(c).take(SNIPPET_LENGTH as int) =~= text.take(
            SNIPPET_LENGTH as int,
        ));
        assert(text.push(c).take(SNIPPET_LENGTH as int) =~= text.take(SNIPPET_LENGTH as int));
    }
}

/// Shows the beginning of `content`: its bytes as `escaped` has them, and
/// of that the first 64 characters.
pub fn snippet(content: &Vec<u8>) -> (text: String)
    ensures
        text@ == limited(escaped(content@)),
{
    let mut text = String::new();
    let mut count: usize = 0;
    let mut i: usize = 0;
    assert(content@.take(0) =~= Seq::<u8>::empty());
    while i < content.len()
        invariant
            i <= content.len(),
            count == text@.len(),
            count <= SNIPPET_LENGTH,
            text@ == limited(escaped(content@.take(i as int))),
        decreases content.len() - i,
    {
        let b: u8 = content[i];
        let ghost before = escaped(content@.take(i as int));
        assert(content@.take(i + 1).drop_last() =~= content@.take(i as int));
        assert(content@.take(i + 1).last() == b);
        assert(escaped(content@.take(i + 1)) == before + escaped_byte(b));
        if b == 0x09 || b == 0x0d || b == 0x0a || b == 0x27 || b == 0x22 || b == 0x5c {
            let second: char = if b == 0x09 {
                't'
            } else if b == 0x0d {
                'r'
            } else if b == 0x0a {
                'n'
            } else if b == 0x27 {
                '\''
            } else if b == 0x22 {
                '"'
            } else {
                '\\'
            };
            push_limited(&mut text, &mut count, '\\');
            push_limited(&mut text, &mut count, second);
            proof {
                lemma_limited_push(before, '\\');
                lemma_limited_push(before.push('\\'), second);
                assert(before.push('\\').push(second) =~= before + escaped_byte(b));
            }
        } else if 0x20 <= b && b <= 0x7e {
            push_limited(&mut text, &mut count, b as char);
            proof {
                lemma_limited_push(before, b as char);
                assert(before.push(b as char) =~= before + escaped_byte(b));
            }
        } else {
            let high = hex_char(b / 16);
            let low = hex_char(b % 16);
            push_limited(&mut text, &mut count, '\\');
            push_limited(&mut text, &mut count, 'x');
            push_limited(&mut text, &mut count, high);
            push_limited(&mut text, &mut count, low);
            proof {
                lemma_limited_push(before, '\\');
                lemma_limited_push(before.push('\\'), 'x');
                lemma_limited_push(before.push('\\').push('x'), high);
                lemma_limited_push(before.push('\\').push('x').push(high), low);
                assert(before.push('\\').push('x').push(high).push(low) =~= before + escaped_byte(
                    b,
                ));
            }
        }
        i = i + 1;
    }
    assert(content@.take(content@.len() as int) =~= content@);
    text
}

/// What came of a request.
#[derive(Debug, Clone, PartialEq, Eq)]
pub enum Fetch {
    /// The server answered. `status_text` is the status in words.
    Response { status: u16, status_text: String, body: Vec<u8> },
    /// No address was found for the name of the host.
    HostNotFound { message: String },
    /// The request failed otherwise.
    Failed { message: String },
}

/// What came of a request, as a mathematical value.
pub enum FetchView {
    Response { status: u16, status_text: Seq<char>, body: Seq<u8> },
    HostNotFound { message: Seq<char> },
    Failed { message: Seq<char> },
}

impl View for Fetch {
    type V = FetchView;

    open spec fn view(&self) -> FetchView {
        match self {
            Fetch::Response { status, status_text, body } => FetchView::Response {
                status: *status,
                status_text: status_text@,
                body: body@,
            },
            Fetch::HostNotFound { message } => FetchView::HostNotFound { message: message@ },
            Fetch::Failed { message } => FetchView::Failed { message: message@ },
        }
    }
}

/// The outcome of the test that asks for a name that must not exist: it
/// passes where no address is found for the name, and fails where anything
/// answers.
pub open spec fn nonexistent_result(outcome: FetchView) -> TestResultView {
    match outcome {
        FetchView::Response { .. } => TestResultView::Fail("unexpected response"@),
        FetchView::HostNotFound { .. } => TestResultView::Pass,
        FetchView::Failed { message } => TestResultView::Error(message),
    }
}

/// The outcome of a test that asks for a known resource: it passes where
/// the answer has the status 200 and its body is the expected content,
/// byte for byte.
pub open spec fn content_result(outcome: FetchView, expected: Seq<char>) -> TestResultView {
    match outcome {
        FetchView::Response { status, status_text, body } => if status != 200 {
            TestResultView::Fail("unexpected status code "@ + status_text)
        } else if body != encode_utf8(expected) {
            TestResultView::Fail("unexpected content '"@ + limited(escaped(body)) + "'"@)
        } else {
            TestResultView::Pass
        },
        FetchView::HostNotFound { message } => TestResultView::Error(message),
        FetchView::Failed { message } => TestResultView::Error(message),
    }
}

/// The outcome of the test that asks for a name that must not exist.
pub fn check_nonexistent(outcome: &Fetch) -> (result: TestResult)
    ensures
        result@ == nonexistent_result(outcome@),
{
    match outcome {
        Fetch::Response { .. } => TestResult::Fail("unexpected response".to_owned()),
        Fetch::HostNotFound { .. } => TestResult::Pass,
        Fetch::Failed { message } => TestResult::Error(message.clone()),
    }
}

fn same_bytes(left: &Vec<u8>, right: &[u8]) -> (same: bool)
    ensures
        same == (left@ == right@),
{
    if left.len() != right.len() {
        return false;
    }
    let mut i: usize = 0;
    while i < left.len()
        invariant
            i <= left.len(),
            left.len() == right.len(),
            forall|j: int| 0 <= j < i ==> left@[j] == right@[j],
        decreases left.len() - i,
    {
        if left[i] != right[i] {
            return false;
        }
        i = i + 1;
    }
    assert(left@ =~= right@);
    true
}

/// The outcome of a test that asks for a known resource.
pub fn check_content(outcome: &Fetch, expected_content: &str) -> (result: TestResult)
    ensures
        result@ == content_result(outcome@, expected_content@),
{
    match outcome {
        Fetch::Response { status, status_text, body } => {
            if *status != 200 {
                let mut text = "unexpected status code ".to_owned();
                text.append(status_text.as_str());
                TestResult::Fail(text)
            } else if !same_bytes(body, expected_content.as_bytes()) {
                let mut text = "unexpected content '".to_owned();
                text.append(snippet(body).as_str());
                text.append("'");
                TestResult::Fail(text)
            } else {
                TestResult::Pass
            }
        },
        Fetch::HostNotFound { message } => TestResult::Error(message.clone()),
        Fetch::Failed { message } => TestResult::Error(message.clone()),
    }
}

} // verus!
