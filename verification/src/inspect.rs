//! Inspect: ask the engine what a container holds.

use vstd::prelude::*;
use crate::resolve::Verdict;
use crate::stream::{StreamState, StreamStateView};
use crate::text::{lines_of, split_lines};
use crate::tokens::{flag, log_writer_group, push_flag, push_log_writer, push_word};

verus! {

/// A request to inspect a container.
#[derive(Debug, Clone)]
pub struct ContainerInfoArgs {
    /// The container to inspect.
    pub path: String,
}

/// The mathematical form of [`ContainerInfoArgs`].
pub struct ContainerInfoArgsView {
    pub path: Seq<char>,
}

impl View for ContainerInfoArgs {
    type V = ContainerInfoArgsView;

    open spec fn view(&self) -> ContainerInfoArgsView {
        ContainerInfoArgsView { path: self.path@ }
    }
}

impl ContainerInfoArgsView {
    /// The tokens of the invocation: the container, a structured sink for
    /// the description, and the log writer.
    pub open spec fn tokens(self) -> Seq<Seq<char>> {
        seq![
            "container"@,
            "info"@,
            flag("-path="@, self.path),
            "info-writer"@,
            "-type=stdout"@,
            "-format=json"@,
        ] + log_writer_group()
    }
}

/// Encodes an inspect request as the engine's command-line tokens.
pub fn build_container_info_cmd(a: ContainerInfoArgs) -> (tokens: Vec<String>)
    ensures
        tokens.deep_view() == a@.tokens(),
{
    let mut tokens: Vec<String> = Vec::new();
    assert(tokens.deep_view() =~= Seq::<Seq<char>>::empty());
    push_word(&mut tokens, "container");
    push_word(&mut tokens, "info");
    push_flag(&mut tokens, "-path=", a.path.as_str());
    push_word(&mut tokens, "info-writer");
    push_word(&mut tokens, "-type=stdout");
    push_word(&mut tokens, "-format=json");
    push_log_writer(&mut tokens);
    assert(tokens.deep_view() =~= a@.tokens());
    tokens
}

/// The reply of the request/response form: the container asked about and
/// what the engine said of it, judged as a result or as an error.
#[derive(Debug, PartialEq)]
pub struct InfoReply {
    pub path: String,
    pub body: Verdict,
}

/// The mathematical form of an [`InfoReply`].
pub struct InfoReplyView {
    pub path: Seq<char>,
    pub body: Verdict,
}

impl View for InfoReply {
    type V = InfoReplyView;

    open spec fn view(&self) -> InfoReplyView {
        InfoReplyView { path: self.path@, body: self.body }
    }
}

/// What the classifier holds once it has taken in, line by line, all that
/// the engine wrote on its primary stream, without watching for progress.
pub open spec fn buffered(output: Seq<char>) -> StreamStateView {
    StreamStateView::empty().buffer_all(lines_of(output))
}

/// The reply to an inspect request, given all that the engine wrote on its
/// primary stream: the judgement that the buffered output supports,
/// together with the path, or a complaint where it supports none. The
/// judgement is derived as for every other run: the structured payload
/// seen last decides, and the opaque text is searched where there was
/// none.
pub open spec fn info_reply(a: ContainerInfoArgsView, output: Seq<char>) -> Result<
    InfoReplyView,
    Seq<char>,
> {
    match buffered(output).verdict() {
        Some(body) => Ok(InfoReplyView { path: a.path, body }),
        None => Err("invalid info output"@),
    }
}

/// The mathematical form of what [`container_info_once`] returns.
pub open spec fn reply_view(reply: Result<InfoReply, String>) -> Result<InfoReplyView, Seq<char>> {
    match reply {
        Ok(r) => Ok(r@),
        Err(message) => Err(message@),
    }
}

/// The request/response form of Inspect: resolves the whole primary output
/// of one engine run into a single reply. The output is taken in line by
/// line; no progress is watched for, nothing is reported on the way, and
/// the secondary stream and the exit status play no part.
pub fn container_info_once(args: ContainerInfoArgs, output: &str) -> (reply: Result<
    InfoReply,
    String,
>)
    ensures
        reply_view(reply) == info_reply(args@, output@),
{
    let lines = split_lines(output);
    let mut state = StreamState::new();
    state.buffer_all(&lines);
    match state.verdict() {
        Some(body) => Ok(InfoReply { path: args.path, body }),
        None => Err("invalid info output".to_owned()),
    }
}

/// Two replies to the same path and the same output are the same reply.
pub proof fn lemma_reply_is_determined(
    first_args: ContainerInfoArgsView,
    first_output: Seq<char>,
    first_reply: Result<InfoReply, String>,
    second_args: ContainerInfoArgsView,
    second_output: Seq<char>,
    second_reply: Result<InfoReply, String>,
)
    requires
        first_args.path == second_args.path,
        first_output == second_output,
        reply_view(first_reply) == info_reply(first_args, first_output),
        reply_view(second_reply) == info_reply(second_args, second_output),
    ensures
        reply_view(first_reply) == reply_view(second_reply),
{
}

} // verus!
