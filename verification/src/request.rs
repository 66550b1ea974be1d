//! Operation requests and their encoding.

use vstd::prelude::*;
use crate::inspect::{build_container_info_cmd, ContainerInfoArgs, ContainerInfoArgsView};
use crate::reseal::{build_reseal_cmd, ResealArgs, ResealArgsView};
use crate::seal::{build_seal_cmd, validate_encrypt, EncryptArgs, EncryptArgsView};
use crate::tokens::log_writer_group;
use crate::unseal::{build_unseal_cmd, DecryptArgs, DecryptArgsView};

verus! {

/// What the front-end can ask of the engine.
#[derive(Debug, Clone)]
pub enum OperationRequest {
    /// Seal a folder into a new container.
    Seal(EncryptArgs),
    /// Open a container into a folder.
    Unseal(DecryptArgs),
    /// Describe a container.
    Inspect(ContainerInfoArgs),
    /// Change a container's secrets or metadata.
    Reseal(ResealArgs),
}

/// The mathematical form of an [`OperationRequest`].
pub enum OperationRequestView {
    Seal(EncryptArgsView),
    Unseal(DecryptArgsView),
    Inspect(ContainerInfoArgsView),
    Reseal(ResealArgsView),
}

impl View for OperationRequest {
    type V = OperationRequestView;

    open spec fn view(&self) -> OperationRequestView {
        match self {
            OperationRequest::Seal(a) => OperationRequestView::Seal(a@),
            OperationRequest::Unseal(a) => OperationRequestView::Unseal(a@),
            OperationRequest::Inspect(a) => OperationRequestView::Inspect(a@),
            OperationRequest::Reseal(a) => OperationRequestView::Reseal(a@),
        }
    }
}

impl OperationRequestView {
    /// The tokens that encode the request, whether or not it is valid.
    pub open spec fn tokens(self) -> Seq<Seq<char>> {
        match self {
            OperationRequestView::Seal(a) => a.tokens(),
            OperationRequestView::Unseal(a) => a.tokens(),
            OperationRequestView::Inspect(a) => a.tokens(),
            OperationRequestView::Reseal(a) => a.tokens(),
        }
    }

    /// What is wrong with the request, if anything. Only a seal request can
    /// be refused.
    pub open spec fn violation(self) -> Option<Seq<char>> {
        match self {
            OperationRequestView::Seal(a) => a.violation(),
            _ => None,
        }
    }

    /// The encoding of the request: its tokens where it is valid, what is
    /// wrong with it where it is not.
    pub open spec fn encoding(self) -> Result<Seq<Seq<char>>, Seq<char>> {
        match self.violation() {
            Some(message) => Err(message),
            None => Ok(self.tokens()),
        }
    }

    /// The word that begins the names of the operation's event channels.
    pub open spec fn prefix(self) -> Seq<char> {
        match self {
            OperationRequestView::Seal(_) => "encrypt"@,
            OperationRequestView::Unseal(_) => "decrypt"@,
            OperationRequestView::Inspect(_) => "info"@,
            OperationRequestView::Reseal(_) => "reseal"@,
        }
    }
}

impl OperationRequest {
    /// The word that begins the names of the operation's event channels.
    pub fn prefix(&self) -> (word: &'static str)
        ensures
            word@ == self@.prefix(),
    {
        match self {
            OperationRequest::Seal(_) => "encrypt",
            OperationRequest::Unseal(_) => "decrypt",
            OperationRequest::Inspect(_) => "info",
            OperationRequest::Reseal(_) => "reseal",
        }
    }
}

/// Validates a request and encodes it as the engine's command-line tokens.
/// A request that is refused yields no tokens.
pub fn encode(request: OperationRequest) -> (encoded: Result<Vec<String>, String>)
    ensures
        match encoded {
            Ok(tokens) => request@.encoding() == Ok::<Seq<Seq<char>>, Seq<char>>(
                tokens.deep_view(),
            ),
            Err(message) => request@.encoding() == Err::<Seq<Seq<char>>, Seq<char>>(message@),
        },
{
    match request {
        OperationRequest::Seal(a) => {
            match validate_encrypt(&a) {
                Ok(_) => Ok(build_seal_cmd(a)),
                Err(message) => Err(message),
            }
        },
        OperationRequest::Unseal(a) => Ok(build_unseal_cmd(a)),
        OperationRequest::Inspect(a) => Ok(build_container_info_cmd(a)),
        OperationRequest::Reseal(a) => Ok(build_reseal_cmd(a)),
    }
}

/// Every invocation ends with the log-writer group, so that the engine's
/// primary stream can be read line by line as structured text.
pub proof fn lemma_log_writer_comes_last(request: OperationRequestView)
    ensures
        log_writer_group().is_suffix_of(request.tokens()),
{
    let tokens = request.tokens();
    let group = log_writer_group();
    let head = tokens.subrange(0, tokens.len() - group.len());
    match request {
        OperationRequestView::Seal(a) => {
            assert(tokens =~= head + group);
        },
        OperationRequestView::Unseal(a) => {
            assert(tokens =~= head + group);
        },
        OperationRequestView::Inspect(a) => {
            assert(tokens =~= head + group);
        },
        OperationRequestView::Reseal(a) => {
            assert(tokens =~= head + group);
        },
    }
    assert(tokens.subrange(tokens.len() - group.len(), tokens.len() as int) =~= group);
}

} // verus!
