use vstd::prelude::*;

verus! {

/// Where the text of one side comes from.
#[derive(Debug)]
pub enum Source {
    /// The lines of the file at this path, joined with line feeds.
    File(String),
    /// This text, as given.
    Inline(String),
    /// All of standard input, trimmed.
    Stdin,
    /// No text.
    Empty,
}

/// The text options of one invocation, as parsed from the command line.
#[derive(Debug)]
pub struct Options {
    pub request_file: Option<String>,
    pub request_data: Option<String>,
    pub answer_file: Option<String>,
    pub answer_data: Option<String>,
    /// Read the answer from standard input.
    pub answer: bool,
    /// Read the request from standard input.
    pub request: bool,
}

/// The sources that one invocation reads its two texts from.
#[derive(Debug)]
pub struct Plan {
    pub request: Source,
    pub answer: Source,
}

/// Why an invocation was refused before any text was read.
#[derive(Clone, Copy, Debug, PartialEq, Eq, Structural)]
pub enum InvocationError {
    /// Both texts were asked to come from standard input.
    BothFromStdin,
}

/// The source one side resolves to: a file before inline text, inline text
/// before standard input, and no text when none of them is asked for.
pub open spec fn resolved(file: Option<String>, data: Option<String>, stdin: bool, src: Source) -> bool {
    match file {
        Some(path) => src matches Source::File(p) && p@ == path@,
        None => match data {
            Some(text) => src matches Source::Inline(t) && t@ == text@,
            None => if stdin {
                src is Stdin
            } else {
                src is Empty
            },
        },
    }
}

fn resolve(file: &Option<String>, data: &Option<String>, stdin: bool) -> (r: Source)
    ensures
        resolved(*file, *data, stdin, r),
{
    match file {
        Some(path) => Source::File(path.clone()),
        None => match data {
            Some(text) => Source::Inline(text.clone()),
            None => if stdin {
                Source::Stdin
            } else {
                Source::Empty
            },
        },
    }
}

/// Decides where the request and the answer are read from. Asking for both
/// from standard input is refused, before anything is read.
pub fn plan_sources(opts: &Options) -> (r: Result<Plan, InvocationError>)
    ensures
        opts.answer && opts.request <==> r == Err::<Plan, InvocationError>(
            InvocationError::BothFromStdin,
        ),
        r matches Ok(plan) ==> resolved(
            opts.request_file,
            opts.request_data,
            opts.request,
            plan.request,
        ) && resolved(opts.answer_file, opts.answer_data, opts.answer, plan.answer),
{
    if opts.answer && opts.request {
        return Err(InvocationError::BothFromStdin);
    }
    let request = resolve(&opts.request_file, &opts.request_data, opts.request);
    let answer = resolve(&opts.answer_file, &opts.answer_data, opts.answer);
    Ok(Plan { request, answer })
}

/// At most one side of an accepted plan reads standard input.
pub proof fn lemma_stdin_read_at_most_once(opts: Options, plan: Plan)
    requires
        !(opts.answer && opts.request),
        resolved(opts.request_file, opts.request_data, opts.request, plan.request),
        resolved(opts.answer_file, opts.answer_data, opts.answer, plan.answer),
    ensures
        !(plan.request is Stdin && plan.answer is Stdin),
{
}

} // verus!
