use vstd::prelude::*;

use crate::error::{message_text, EffectorError};
use crate::trusted::{ipfs_add_result_from, ipfs_result_from};

verus! {

/// The answer to a request to store a file.
#[derive(Clone, Debug, PartialEq, Eq)]
pub struct IpfsAddReply {
    pub success: bool,
    /// Why the request failed; empty after a success.
    pub error: String,
    /// The content identifier of what was stored; empty after a failure.
    pub hash: String,
}

/// The answer to a request that yields no value.
#[derive(Clone, Debug, PartialEq, Eq)]
pub struct IpfsReply {
    pub success: bool,
    /// Why the request failed; empty after a success.
    pub error: String,
}

/// The answer to a request to store a file, from what the request came to:
/// the content identifier after a success, the error in words after a
/// failure.
pub fn add_reply(outcome: Result<String, EffectorError>) -> (reply: IpfsAddReply)
    ensures
        match outcome {
            Ok(hash) => reply.success && reply.error@ == Seq::<char>::empty() && reply.hash@
                == hash@,
            Err(e) => !reply.success && reply.error@ == message_text(e@) && reply.hash@ == Seq::<
                char,
            >::empty(),
        },
{
    match outcome {
        Ok(hash) => ipfs_add_result_from(Ok(hash)),
        Err(e) => ipfs_add_result_from(Err(e.message())),
    }
}

/// The answer to a request to fetch content, from what the request came to:
/// after a failure, the error in words.
pub fn get_reply(outcome: Result<(), EffectorError>) -> (reply: IpfsReply)
    ensures
        match outcome {
            Ok(_) => reply.success && reply.error@ == Seq::<char>::empty(),
            Err(e) => !reply.success && reply.error@ == message_text(e@),
        },
{
    match outcome {
        Ok(_) => ipfs_result_from(Ok(())),
        Err(e) => ipfs_result_from(Err(e.message())),
    }
}

} // verus!
