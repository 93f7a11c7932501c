use vstd::prelude::*;

use crate::text::{args_view, join, joined};
use crate::trusted::{debug_quoted, debug_text};

verus! {

/// Why a request ended without its result. Every one of these is final for
/// the request it belongs to: nothing is tried again.
#[derive(Clone, Debug, PartialEq, Eq)]
pub enum EffectorError {
    /// A rooted path that does not lead into the caller's own vault.
    OutsideVault,
    /// A path that names something below the vault's top level.
    NotAFilename,
    /// The host has not said where the vaults really are.
    VaultNotMapped,
    /// The file that was to be stored is not there.
    SourceNotFound { path: String },
    /// The storage tool was run with `command` and did not deliver.
    ToolInvocationFailed { command: Vec<String>, message: String },
}

/// An [`EffectorError`] with its texts as sequences of characters.
pub enum EffectorErrorView {
    OutsideVault,
    NotAFilename,
    VaultNotMapped,
    SourceNotFound { path: Seq<char> },
    ToolInvocationFailed { command: Seq<Seq<char>>, message: Seq<char> },
}

impl View for EffectorError {
    type V = EffectorErrorView;

    open spec fn view(&self) -> EffectorErrorView {
        match *self {
            EffectorError::OutsideVault => EffectorErrorView::OutsideVault,
            EffectorError::NotAFilename => EffectorErrorView::NotAFilename,
            EffectorError::VaultNotMapped => EffectorErrorView::VaultNotMapped,
            EffectorError::SourceNotFound { path } => EffectorErrorView::SourceNotFound {
                path: path@,
            },
            EffectorError::ToolInvocationFailed { command, message } => {
                EffectorErrorView::ToolInvocationFailed {
                    command: args_view(command@),
                    message: message@,
                }
            },
        }
    }
}

/// What an error reads as to the one who made the request. A failure of the
/// storage tool is told with the command line that was tried, its arguments
/// two spaces apart and the whole written as a quoted text.
pub open spec fn message_text(e: EffectorErrorView) -> Seq<char> {
    match e {
        EffectorErrorView::OutsideVault => {
            "invalid path provided, expected the full path to the particle vault for the current particle"@
        },
        EffectorErrorView::NotAFilename => {
            "invalid path provided, expected the full path to the particle vault for the current particle or a filename"@
        },
        EffectorErrorView::VaultNotMapped => "vault must be mapped to /tmp/vault"@,
        EffectorErrorView::SourceNotFound { path } => "path "@ + path + " doesn't exist"@,
        EffectorErrorView::ToolInvocationFailed { command, message } => {
            "ipfs cli call failed \n"@ + debug_text(joined(command, "  "@)) + ": "@ + message
        },
    }
}

impl EffectorError {
    /// The error in words, for the one who made the request.
    pub fn message(&self) -> (text: String)
        ensures
            text@ == message_text(self@),
    {
        match self {
            EffectorError::OutsideVault => String::from_str(
                "invalid path provided, expected the full path to the particle vault for the current particle",
            ),
            EffectorError::NotAFilename => String::from_str(
                "invalid path provided, expected the full path to the particle vault for the current particle or a filename",
            ),
            EffectorError::VaultNotMapped => String::from_str("vault must be mapped to /tmp/vault"),
            EffectorError::SourceNotFound { path } => {
                let mut text = String::from_str("path ");
                text.append(path.as_str());
                text.append(" doesn't exist");
                text
            },
            EffectorError::ToolInvocationFailed { command, message } => {
                let mut text = String::from_str("ipfs cli call failed \n");
                text.append(debug_quoted(join(command, "  ").as_str()).as_str());
                text.append(": ");
                text.append(message.as_str());
                text
            },
        }
    }
}

/// What a call that yields a text came to, with the text or the error taken
/// by its view.
pub open spec fn text_outcome(res: Result<String, EffectorError>) -> Result<
    Seq<char>,
    EffectorErrorView,
> {
    match res {
        Ok(text) => Ok(text@),
        Err(e) => Err(e@),
    }
}

} // verus!
