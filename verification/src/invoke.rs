//! Spawning the external template compiler and classifying what it left
//! behind: rendered markup on its standard output, or a diagnostic on its
//! standard error stream.

use crate::options::PugOptions;
use vstd::prelude::*;

verus! {

/// `std::io::Error` carried opaquely: the platform error behind
/// `CompileError::Io`.
#[verifier::external_type_specification]
#[verifier::external_body]
pub struct ExIoError(std::io::Error);

/// What one run of the compiler leaves behind: the captured standard
/// output and standard error bytes, or the platform error if the process
/// could not be created, fed or awaited.
pub type CompilerOutcome = Result<(Vec<u8>, Vec<u8>), std::io::Error>;

/// The text that lossy UTF-8 decoding gives to a byte sequence.
pub uninterp spec fn lossy_of(bytes: Seq<u8>) -> Seq<char>;

/// Relies on `String::from_utf8_lossy`: the decoded text depends on the
/// bytes alone.
#[verifier::external_body]
fn lossy_string(bytes: &Vec<u8>) -> (r: String)
    ensures
        r@ == lossy_of(bytes@),
{
    String::from_utf8_lossy(bytes).into_owned()
}

/// Why an invocation of the external compiler failed.
#[derive(Debug)]
pub enum CompileError {
    /// The process could not be created or communicated with.
    Io(std::io::Error),
    /// The compiler ran but wrote to its error stream; the field carries
    /// that stream's text.
    PugError(String),
}

/// Relies on `std::io::Error`'s `Display`: the platform's description of
/// the error. The text is the platform's; nothing is promised of it.
#[verifier::external_body]
fn io_error_text(e: &std::io::Error) -> String {
    e.to_string()
}

impl CompileError {
    /// The error's text: the compiler's diagnostic as given for
    /// `PugError`, the platform error's standard description for `Io`.
    pub fn describe(&self) -> (r: String)
        ensures
            self matches CompileError::PugError(m) ==> r@ == m@,
    {
        match self {
            CompileError::PugError(m) => m.clone(),
            CompileError::Io(e) => io_error_text(e),
        }
    }
}

/// Classify the captured streams of one compiler run. A non-empty error
/// stream is the definitive failure signal, whatever the exit status was;
/// only an empty error stream makes the run a success, whose value is the
/// lossily decoded standard output.
pub fn process_output(outcome: CompilerOutcome) -> (r: Result<String, CompileError>)
    ensures
        match outcome {
            Ok(streams) => {
                if streams.1@.len() > 0 {
                    r matches Err(CompileError::PugError(m)) && m@ == lossy_of(streams.1@)
                } else {
                    r matches Ok(html) && html@ == lossy_of(streams.0@)
                }
            },
            Err(e) => r == Err::<String, CompileError>(CompileError::Io(e)),
        },
{
    match outcome {
        Ok((out, err)) => {
            if err.len() > 0 {
                Err(CompileError::PugError(lossy_string(&err)))
            } else {
                Ok(lossy_string(&out))
            }
        },
        Err(e) => Err(CompileError::Io(e)),
    }
}

/// What every result of an invocation satisfies, whatever the compiler
/// did: a success is the lossily decoded standard output of some run, and
/// a compiler-reported failure carries the lossily decoded text of some
/// non-empty error stream.
pub open spec fn classified_result(r: Result<String, CompileError>) -> bool {
    &&& (r matches Ok(html) ==> exists|out: Seq<u8>| html@ == lossy_of(out))
    &&& (r matches Err(CompileError::PugError(m)) ==> exists|err: Seq<u8>|
        err.len() > 0 && m@ == lossy_of(err))
}

/// Relies on `duct`: runs `program` (located through the search path) with
/// `args`, pipes `input` to its standard input in full, captures both
/// output streams in full, and ignores the exit status. Returns the
/// captured streams, or the platform error if the process could not be
/// run. The outcome depends on the environment: nothing is promised of it.
#[verifier::external_body]
fn run_piped(program: &str, args: &Vec<String>, input: &str) -> CompilerOutcome {
    let expr = duct::cmd(program, args.iter())
        .stdin_bytes(input.as_bytes().to_vec())
        .stdout_capture()
        .stderr_capture()
        .unchecked();
    match expr.run() {
        Ok(o) => Ok((o.stdout, o.stderr)),
        Err(e) => Err(e),
    }
}

/// Relies on `duct`: runs `program` with `args`, its standard input bound
/// to the file at `path` (the run fails with the platform error if that
/// file cannot be opened), captures both output streams in full, and
/// ignores the exit status. The outcome depends on the environment:
/// nothing is promised of it.
#[verifier::external_body]
fn run_with_file_stdin(program: &str, args: &Vec<String>, path: &str) -> CompilerOutcome {
    let expr = duct::cmd(program, args.iter())
        .stdin_path(path)
        .stdout_capture()
        .stderr_capture()
        .unchecked();
    match expr.run() {
        Ok(o) => Ok((o.stdout, o.stderr)),
        Err(e) => Err(e),
    }
}

/// Run a compiler found as `program` on template text piped over standard
/// input, with the option set's tokens as arguments. The public entry
/// points fix the program name; taking it here keeps the invocation
/// capability substitutable.
pub fn invoke_compiler_on_string(program: &str, text: &str, options: PugOptions) -> (r: Result<
    String,
    CompileError,
>)
    ensures
        classified_result(r),
{
    let options = options.stdin();
    let tokens = options.into_tokens();
    let outcome = run_piped(program, &tokens, text);
    let ghost gout = outcome;
    let r = process_output(outcome);
    proof {
        match gout {
            Ok(streams) => {
                assert(lossy_of(streams.0@) == lossy_of(streams.0@));
                assert(lossy_of(streams.1@) == lossy_of(streams.1@));
            },
            Err(_) => {},
        }
    }
    r
}

/// Run a compiler found as `program` on the template file at `path`: the
/// file is bound to the process's standard input and its location is also
/// passed through `--path`, as the token order requires.
pub fn invoke_compiler_on_path(program: &str, path: String, options: PugOptions) -> (r: Result<
    String,
    CompileError,
>)
    ensures
        classified_result(r),
{
    let source = path.clone();
    let options = options.stdin().with_path(path);
    let tokens = options.into_tokens();
    let outcome = run_with_file_stdin(program, &tokens, source.as_str());
    let ghost gout = outcome;
    let r = process_output(outcome);
    proof {
        match gout {
            Ok(streams) => {
                assert(lossy_of(streams.0@) == lossy_of(streams.0@));
                assert(lossy_of(streams.1@) == lossy_of(streams.1@));
            },
            Err(_) => {},
        }
    }
    r
}

/// Render the template file at `path` with the given options through the
/// `pug` compiler.
pub fn evaluate_with_options(file: String, options: PugOptions) -> (r: Result<String, CompileError>)
    ensures
        classified_result(r),
{
    invoke_compiler_on_path("pug", file, options)
}

/// Render the template text with the given options through the `pug`
/// compiler, delivered over its standard input.
pub fn evaluate_string_with_options(s: String, options: PugOptions) -> (r: Result<
    String,
    CompileError,
>)
    ensures
        classified_result(r),
{
    invoke_compiler_on_string("pug", s.as_str(), options)
}

/// Render the template text through the `pug` compiler with default
/// options.
pub fn evaluate_string(s: String) -> (r: Result<String, CompileError>)
    ensures
        classified_result(r),
{
    let options = PugOptions::new();
    evaluate_string_with_options(s, options)
}

/// Render the template file at `path` through the `pug` compiler with
/// default options.
pub fn evaluate(file: String) -> (r: Result<String, CompileError>)
    ensures
        classified_result(r),
{
    let options = PugOptions::new();
    evaluate_with_options(file, options)
}

} // verus!
