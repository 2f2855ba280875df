//! The execution client's side of the remote code-execution service: the
//! request it sends, the reply it gets, and the outcome it reports.

use crate::text::trimmed;
use vstd::prelude::*;

verus! {

/// Where the execution provider takes requests.
pub const EXECUTE_URL: &'static str = "https://emkc.org/api/v2/piston/execute";

/// One virtual file handed to the execution provider.
#[derive(Clone, Debug, PartialEq, Eq)]
pub struct SourceFile {
    pub name: String,
    pub content: String,
}

/// The body of one request to the execution provider.
#[derive(Clone, Debug, PartialEq, Eq)]
pub struct ExecutionRequest {
    pub language: String,
    pub version: String,
    pub files: Vec<SourceFile>,
    pub stdin: String,
    pub args: Vec<String>,
    pub compile_timeout: u32,
    pub run_timeout: u32,
}

/// What the provider captured of one stage (compile or run).
#[derive(Clone, Debug, PartialEq, Eq)]
pub struct StageResult {
    pub stdout: String,
    pub stderr: String,
    pub output: String,
    pub code: i32,
    pub signal: Option<String>,
}

/// A well-formed response body of the execution provider.
#[derive(Clone, Debug, PartialEq, Eq)]
pub struct ExecutionResponse {
    pub language: String,
    pub version: String,
    pub run: StageResult,
    pub compile: Option<StageResult>,
}

/// How one call to the execution provider ended on the wire.
#[derive(Clone, Debug, PartialEq, Eq)]
pub enum Reply {
    /// The request could not be sent or no response arrived.
    TransportError,
    /// A response arrived. `body` is `None` when it could not be read as an
    /// [`ExecutionResponse`].
    Response { status: u16, body: Option<ExecutionResponse> },
}

/// What the execution client reports to its caller.
#[derive(Clone, Debug, PartialEq, Eq)]
pub enum ExecutionOutcome {
    /// The provider ran the program: its combined output, trimmed, and the
    /// round-trip time of the call in microseconds.
    Completed { output: String, elapsed_us: u64 },
    /// The call failed. No partial output is kept.
    Failed,
}

/// Whether `request` asks the provider to run the one file `file_name`
/// holding `source`, in the given language and version and under the given
/// timeouts, with empty standard input and no arguments.
pub open spec fn is_request_of(
    request: ExecutionRequest,
    language: Seq<char>,
    version: Seq<char>,
    file_name: Seq<char>,
    source: Seq<char>,
    compile_timeout: u32,
    run_timeout: u32,
) -> bool {
    &&& request.language@ == language
    &&& request.version@ == version
    &&& request.files@.len() == 1
    &&& request.files@[0].name@ == file_name
    &&& request.files@[0].content@ == source
    &&& request.stdin@.len() == 0
    &&& request.args@.len() == 0
    &&& request.compile_timeout == compile_timeout
    &&& request.run_timeout == run_timeout
}

/// Builds the request that has the provider run one source text.
pub fn request(
    language: &str,
    version: &str,
    file_name: &str,
    source: String,
    compile_timeout: u32,
    run_timeout: u32,
) -> (request: ExecutionRequest)
    ensures
        is_request_of(
            request,
            language@,
            version@,
            file_name@,
            source@,
            compile_timeout,
            run_timeout,
        ),
{
    let mut files: Vec<SourceFile> = Vec::new();
    files.push(SourceFile { name: file_name.to_owned(), content: source });
    ExecutionRequest {
        language: language.to_owned(),
        version: version.to_owned(),
        files,
        stdin: String::new(),
        args: Vec::new(),
        compile_timeout,
        run_timeout,
    }
}

/// Whether an HTTP status code is in the 2xx class.
pub open spec fn is_success_status(status: u16) -> bool {
    200 <= status < 300
}

/// Whether a reply carries a usable response: a 2xx status and a body that
/// could be read.
pub open spec fn is_usable(reply: Reply) -> bool {
    reply matches Reply::Response { status, body: Some(_) } && is_success_status(status)
}

/// The combined output of the run stage of a usable reply.
pub open spec fn run_output(reply: Reply) -> Seq<char>
    recommends
        is_usable(reply),
{
    reply->body->0.run.output@
}

/// Whether `outcome` is what the client reports for `reply` after a round
/// trip of `elapsed_us` microseconds.
pub open spec fn reports(outcome: ExecutionOutcome, reply: Reply, elapsed_us: u64) -> bool {
    if is_usable(reply) {
        outcome matches ExecutionOutcome::Completed { output, elapsed_us: e } && output@ == trimmed(
            run_output(reply),
        ) && e == elapsed_us
    } else {
        outcome is Failed
    }
}

/// Turns the reply to one call into the outcome reported to the grader.
///
/// A usable reply gives the run stage's combined output without its
/// surrounding whitespace, together with the measured round-trip time. A
/// transport error, a status outside 2xx and an unreadable body all give
/// [`ExecutionOutcome::Failed`].
pub fn outcome(reply: &Reply, elapsed_us: u64) -> (o: ExecutionOutcome)
    ensures
        reports(o, *reply, elapsed_us),
{
    match reply {
        Reply::Response { status, body: Some(response) } => {
            if 200 <= *status && *status < 300 {
                let output = response.run.output.as_str().trim().to_owned();
                ExecutionOutcome::Completed { output, elapsed_us }
            } else {
                ExecutionOutcome::Failed
            }
        },
        _ => ExecutionOutcome::Failed,
    }
}

} // verus!
