//! Setting the fingerprint sensor's user context: an asynchronous command.
//!
//! The command is started once, then its result is polled after a fixed
//! pause, a bounded number of times. The caller performs each exchange and
//! each pause that `FpSetContext` hands out.

use vstd::prelude::*;
use crate::commands::{CommandRequest, CrosEcCmd};
use crate::frame::append_range;
use crate::status::EcError;

verus! {

/// The user id that the sensor's templates are bound to.
pub type UserId = [u8; 32];

/// Starts the context change.
pub const FP_CONTEXT_ACTION_ASYNC: u8 = 0;

/// Asks for the context change's result.
pub const FP_CONTEXT_ACTION_GET_RESULT: u8 = 1;

/// Result polls before giving up.
pub const FP_CONTEXT_POLL_ATTEMPTS: usize = 20;

/// The pause before each result poll.
pub const FP_CONTEXT_POLL_DELAY_MICROS: u64 = 100_000;

/// The version of the context command that this sequence speaks.
pub const FP_CONTEXT_COMMAND_VERSION: u8 = 1;

/// The parameters of the context command: the action, three reserved bytes,
/// the user id.
pub open spec fn context_params(action: u8, user_id: Seq<u8>) -> Seq<u8> {
    seq![action, 0u8, 0u8, 0u8] + user_id
}

/// Encodes the parameters of the context command.
pub fn fp_context_params(action: u8, user_id: &UserId) -> (r: Vec<u8>)
    ensures
        r@ == context_params(action, user_id@),
{
    let mut v: Vec<u8> = Vec::new();
    v.push(action);
    v.push(0u8);
    v.push(0u8);
    v.push(0u8);
    append_range(&mut v, user_id.as_slice(), 0, 32);
    assert(user_id@.subrange(0, 32) =~= user_id@);
    assert(v@ =~= context_params(action, user_id@));
    v
}

/// Whether `q` sends the context command with parameters `params`.
pub open spec fn is_context_request(q: CommandRequest, params: Seq<u8>) -> bool {
    &&& q.command == CrosEcCmd::FpContext
    &&& q.version == FP_CONTEXT_COMMAND_VERSION
    &&& q.params@ == params
    &&& q.response_len == 0
}

fn context_request(params: Vec<u8>) -> (r: CommandRequest)
    ensures
        is_context_request(r, params@),
{
    CommandRequest { command: CrosEcCmd::FpContext, version: FP_CONTEXT_COMMAND_VERSION, params, response_len: 0 }
}

/// What the caller does next.
#[derive(Debug, PartialEq, Eq)]
pub enum AsyncAction {
    /// Pause, then send this result poll.
    Poll { delay_micros: u64, request: CommandRequest },
    /// The command has ended with this outcome.
    Finished(Result<(), EcError>),
}

/// A context change in progress.
pub struct FpSetContext {
    user_id: UserId,
    polls: usize,
}

impl FpSetContext {
    /// The user id being set.
    pub closed spec fn user(&self) -> Seq<u8> {
        self.user_id@
    }

    /// Result polls recorded so far.
    pub closed spec fn polls(&self) -> int {
        self.polls as int
    }

    /// The poll action.
    pub open spec fn is_poll(&self, a: AsyncAction) -> bool {
        a matches AsyncAction::Poll { delay_micros, request } && delay_micros == FP_CONTEXT_POLL_DELAY_MICROS
            && is_context_request(request, context_params(FP_CONTEXT_ACTION_GET_RESULT, self.user()))
    }

    pub fn new(user_id: UserId) -> (r: Self)
        ensures
            r.user() == user_id@,
            r.polls() == 0,
    {
        FpSetContext { user_id, polls: 0 }
    }

    /// The request that starts the command.
    pub fn start_request(&self) -> (r: CommandRequest)
        ensures
            is_context_request(r, context_params(FP_CONTEXT_ACTION_ASYNC, self.user())),
    {
        context_request(fp_context_params(FP_CONTEXT_ACTION_ASYNC, &self.user_id))
    }

    /// Records the outcome of the start exchange: a failure ends the command,
    /// a success leads to the first poll.
    pub fn record_start(&self, result: Result<Vec<u8>, EcError>) -> (a: AsyncAction)
        ensures
            result matches Err(e) ==> a == AsyncAction::Finished(Err(e)),
            result is Ok ==> self.is_poll(a),
    {
        match result {
            Err(e) => AsyncAction::Finished(Err(e)),
            Ok(_) => AsyncAction::Poll {
                delay_micros: FP_CONTEXT_POLL_DELAY_MICROS,
                request: context_request(fp_context_params(FP_CONTEXT_ACTION_GET_RESULT, &self.user_id)),
            },
        }
    }

    /// Records the outcome of a result poll: a success ends the command
    /// with success; a failure leads to another poll, or, on the last one,
    /// ends the command with that failure.
    pub fn record_poll(&mut self, result: Result<Vec<u8>, EcError>) -> (a: AsyncAction)
        requires
            old(self).polls() < FP_CONTEXT_POLL_ATTEMPTS,
        ensures
            final(self).user() == old(self).user(),
            final(self).polls() == old(self).polls() + 1,
            result is Ok ==> a == AsyncAction::Finished(Ok(())),
            result is Err && final(self).polls() == FP_CONTEXT_POLL_ATTEMPTS ==> a == AsyncAction::Finished(
                Err(result->Err_0),
            ),
            result is Err && final(self).polls() < FP_CONTEXT_POLL_ATTEMPTS ==> final(self).is_poll(a),
    {
        self.polls = self.polls + 1;
        match result {
            Ok(_) => AsyncAction::Finished(Ok(())),
            Err(e) => {
                if self.polls == FP_CONTEXT_POLL_ATTEMPTS {
                    AsyncAction::Finished(Err(e))
                } else {
                    AsyncAction::Poll {
                        delay_micros: FP_CONTEXT_POLL_DELAY_MICROS,
                        request: context_request(fp_context_params(FP_CONTEXT_ACTION_GET_RESULT, &self.user_id)),
                    }
                }
            },
        }
    }
}

} // verus!
