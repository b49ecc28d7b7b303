//! The command to run and the result of one run.
//!
//! Spawning the child process is the caller's business; the library models
//! the command as a non-empty token list and turns the raw capture — an
//! optional exit code and the raw standard-output bytes — into the result
//! that one cycle displays.

use crate::digits::decimal_int;
use crate::digits::i32_to_decimal;
use vstd::prelude::*;

verus! {

/// The command to run periodically: the executable name followed by its
/// arguments, an ordered, non-empty sequence of tokens, immutable after
/// startup. Arguments are passed verbatim; there is no shell interpretation.
pub struct CommandSpec {
    tokens: Vec<String>,
}

impl View for CommandSpec {
    type V = Seq<Seq<char>>;

    /// The tokens as character sequences, the executable name first.
    closed spec fn view(&self) -> Seq<Seq<char>> {
        self.tokens.deep_view()
    }
}

impl CommandSpec {
    /// Wrap a token list; an empty list is no command and is rejected.
    pub fn new(tokens: Vec<String>) -> (r: Option<CommandSpec>)
        ensures
            r is Some <==> tokens@.len() > 0,
            r matches Some(c) ==> c@ == tokens.deep_view(),
    {
        if tokens.len() > 0 {
            Some(CommandSpec { tokens })
        } else {
            None
        }
    }

    /// How many tokens the command has, the executable name included.
    pub fn len(&self) -> (r: usize)
        ensures
            r == self@.len(),
    {
        self.tokens.len()
    }

    /// The executable name.
    pub fn program(&self) -> (r: &String)
        requires
            self@.len() > 0,
        ensures
            r@ == self@[0],
    {
        &self.tokens[0]
    }

    /// Token `i`: the executable name at index zero, the arguments after it.
    pub fn token(&self, i: usize) -> (r: &String)
        requires
            i < self@.len(),
        ensures
            r@ == self@[i as int],
    {
        &self.tokens[i]
    }
}

/// What `String::from_utf8_lossy` returns for the given bytes: a function
/// of the bytes alone.
pub uninterp spec fn lossy_decode_of(bytes: Seq<u8>) -> Seq<char>;

/// Relies on `String::from_utf8_lossy`: it decodes the bytes as UTF-8 and
/// replaces invalid sequences with the replacement character, so a valid
/// encoding decodes exactly.
#[verifier::external_body]
fn lossy_utf8(bytes: &Vec<u8>) -> (r: String)
    ensures
        r@ == lossy_decode_of(bytes@),
        vstd::utf8::valid_utf8(bytes@) ==> r@ == vstd::utf8::decode_utf8(bytes@),
{
    String::from_utf8_lossy(bytes.as_slice()).into_owned()
}

/// The status line shown above the output: the exit code when the child
/// exited with one, a fixed note when it was terminated without one.
pub open spec fn status_text(code: Option<i32>) -> Seq<char> {
    match code {
        Some(c) => "exit status: "@ + decimal_int(c as int),
        None => "terminated by signal"@,
    }
}

/// The result of one run of the command, owned by the cycle that produced
/// it and discarded when the next cycle's result arrives.
#[derive(Debug)]
pub struct ExecResult {
    /// Exit code reported by the child; `None` when it was terminated
    /// without one (for example by a signal).
    pub code: Option<i32>,
    /// Captured standard output, decoded as text with lossy substitution
    /// for invalid sequences.
    pub text: String,
}

impl ExecResult {
    /// Whether the exit status indicates success.
    pub open spec fn success_spec(&self) -> bool {
        self.code == Some(0i32)
    }

    /// Build the result of one run from the raw capture. The child's own
    /// failure is not an error here: any exit status makes a result.
    pub fn from_capture(code: Option<i32>, stdout: Vec<u8>) -> (r: ExecResult)
        ensures
            r.code == code,
            r.text@ == lossy_decode_of(stdout@),
            vstd::utf8::valid_utf8(stdout@) ==> r.text@ == vstd::utf8::decode_utf8(stdout@),
    {
        let text = lossy_utf8(&stdout);
        ExecResult { code, text }
    }

    /// Whether the exit status indicates success.
    pub fn success(&self) -> (r: bool)
        ensures
            r == self.success_spec(),
    {
        match self.code {
            Some(c) => c == 0,
            None => false,
        }
    }

    /// One line of text describing the exit status.
    pub fn status_line(&self) -> (r: String)
        ensures
            r@ == status_text(self.code),
    {
        match self.code {
            Some(c) => {
                let mut s = String::from_str("exit status: ");
                let digits = i32_to_decimal(c);
                s.append(digits.as_str());
                s
            },
            None => String::from_str("terminated by signal"),
        }
    }
}

/// Re-running the same command in an unchanged environment is idempotent on
/// the library's side: two results captured from the same exit code and the
/// same output bytes agree in success, in decoded text and in status line —
/// no state of an earlier cycle can reach a later result.
pub proof fn lemma_results_identical(code: Option<i32>, bytes: Seq<u8>, a: ExecResult, b: ExecResult)
    requires
        a.code == code,
        b.code == code,
        a.text@ == lossy_decode_of(bytes),
        b.text@ == lossy_decode_of(bytes),
    ensures
        a.success_spec() == b.success_spec(),
        a.text@ == b.text@,
        status_text(a.code) == status_text(b.code),
{
}

} // verus!
