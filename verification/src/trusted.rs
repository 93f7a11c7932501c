//! The calls that leave this library. Each function here hands its arguments
//! to code that is not verified, and its contract is taken on trust.

use vstd::prelude::*;
use vstd::utf8::{decode_utf8, valid_utf8};

use crate::reply::{IpfsAddReply, IpfsReply};
use crate::tool::MountedBinaryOutput;

verus! {

/// Whether a character counts as whitespace, as `char::is_whitespace` tells
/// it: whether it has the Unicode property `White_Space`.
pub uninterp spec fn is_whitespace(c: char) -> bool;

/// A text written the way `{:?}` writes a `str`: between double quotes, with
/// the characters that need it escaped.
pub uninterp spec fn debug_text(text: Seq<char>) -> Seq<char>;

/// A text without the whitespace at its front.
pub open spec fn trimmed_start(text: Seq<char>) -> Seq<char>
    decreases text.len(),
{
    if text.len() > 0 && is_whitespace(text.first()) {
        trimmed_start(text.drop_first())
    } else {
        text
    }
}

/// A text without the whitespace at its end.
pub open spec fn trimmed_end(text: Seq<char>) -> Seq<char>
    decreases text.len(),
{
    if text.len() > 0 && is_whitespace(text.last()) {
        trimmed_end(text.drop_last())
    } else {
        text
    }
}

/// A text without the whitespace at either end.
pub open spec fn trimmed(text: Seq<char>) -> Seq<char> {
    trimmed_end(trimmed_start(text))
}

/// What the output of the storage tool reads as: after a return code of 0
/// the standard output as a text, after any other the tool's error and its
/// standard error in one message, and nothing at all where the stream in
/// question is not UTF-8.
pub open spec fn std_outcome(
    ret_code: i32,
    error: Seq<char>,
    stdout: Seq<u8>,
    stderr: Seq<u8>,
) -> Option<Result<Seq<char>, Seq<char>>> {
    if ret_code == 0 {
        if valid_utf8(stdout) {
            Some(Ok(decode_utf8(stdout)))
        } else {
            None
        }
    } else if valid_utf8(stderr) {
        Some(Err("error: "@ + error + ", stderr: "@ + decode_utf8(stderr)))
    } else {
        None
    }
}

/// `str::trim` of std. The contract says what its documentation says: the
/// result is the text without its leading and trailing whitespace, where
/// whitespace is what [`is_whitespace`] stands for. So what comes back
/// neither begins nor ends with whitespace.
#[verifier::external_body]
pub(crate) fn trim(text: &str) -> (res: String)
    ensures
        res@ == trimmed(text@),
        res@.len() > 0 ==> !is_whitespace(res@.first()) && !is_whitespace(res@.last()),
{
    text.trim().to_string()
}

/// The `Debug` form of a `str`, through `format!` with `{:?}`. The contract
/// only gives the result its name, [`debug_text`]: the escaping rules of std
/// are not written out here.
#[verifier::external_body]
pub(crate) fn debug_quoted(text: &str) -> (res: String)
    ensures
        res@ == debug_text(text@),
{
    format!("{:?}", text)
}

/// `MountedBinaryResult::into_std` of `marine_rs_sdk`. The contract is
/// [`std_outcome`], read off that method: it tests the return code against 0,
/// decodes one of the two streams with `String::from_utf8`, gives `None`
/// where that fails, and otherwise the standard output, or the message
/// `error: {error}, stderr: {stderr}`.
#[verifier::external_body]
pub(crate) fn into_std(output: MountedBinaryOutput) -> (res: Option<Result<String, String>>)
    ensures
        match std_outcome(output.ret_code, output.error@, output.stdout@, output.stderr@) {
            None => res is None,
            Some(Ok(text)) => res matches Some(Ok(s)) && s@ == text,
            Some(Err(text)) => res matches Some(Err(s)) && s@ == text,
        },
{
    let result = marine_rs_sdk::MountedBinaryResult {
        ret_code: output.ret_code,
        error: output.error,
        stdout: output.stdout,
        stderr: output.stderr,
    };
    result.into_std()
}

/// `IpfsAddResult::from` of `ipfs_effector_types`, on a result whose error is
/// a text. As that impl has it: success with the hash and an empty error, or
/// failure with the error's text and an empty hash.
#[verifier::external_body]
pub(crate) fn ipfs_add_result_from(result: Result<String, String>) -> (reply: IpfsAddReply)
    ensures
        match result {
            Ok(hash) => reply.success && reply.error@ == Seq::<char>::empty() && reply.hash@
                == hash@,
            Err(error) => !reply.success && reply.error@ == error@ && reply.hash@ == Seq::<
                char,
            >::empty(),
        },
{
    let made = ipfs_effector_types::IpfsAddResult::from(result);
    IpfsAddReply { success: made.success, error: made.error, hash: made.hash }
}

/// `IpfsResult::from` of `ipfs_effector_types`, on a result without a value
/// whose error is a text. As that impl has it: success with an empty error,
/// or failure with the error's text.
#[verifier::external_body]
pub(crate) fn ipfs_result_from(result: Result<(), String>) -> (reply: IpfsReply)
    ensures
        match result {
            Ok(_) => reply.success && reply.error@ == Seq::<char>::empty(),
            Err(error) => !reply.success && reply.error@ == error@,
        },
{
    let made = ipfs_effector_types::IpfsResult::from(result);
    IpfsReply { success: made.success, error: made.error }
}

} // verus!
