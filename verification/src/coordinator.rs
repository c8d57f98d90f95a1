//! The execution-lifecycle coordinator: for each inbound payload it
//! either drops a malformed message without a trace, or drives exactly
//! one fresh record through `Pending`, `Running` and a terminal state,
//! and builds exactly one reply when one was asked for.
use vstd::prelude::*;
use crate::agent::ExecutionV;
use crate::codec::{encode_response, parse_request, spec_enc_response, spec_parse_request};
use crate::registry::ExecutionRegistry;
use crate::sandbox::{execute_agent, now_millis};

verus! {

/// What handling one inbound message came to: the id of the record it
/// created, if any, and the reply payload to publish, if one is owed.
pub struct HandleOutcome {
    pub execution_id: Option<u64>,
    pub reply: Option<Vec<u8>>,
}

/// Handle one inbound message.
///
/// A payload that does not parse as a valid request leaves the
/// registry untouched and produces no record and no reply, and so
/// cannot disturb later messages.  An accepted request gains exactly
/// one fresh record, whose id no other record shares; when the
/// function returns, that record is terminal: `Completed` holding the
/// successful result, or `Failed` holding the classified error.  A
/// reply is built exactly when the message carried a reply
/// destination, and is the canonical encoding of the terminal record's
/// projection.
pub fn handle_message(
    registry: &mut ExecutionRegistry,
    engine: &wasmtime::Engine,
    payload: &Vec<u8>,
    has_reply: bool,
) -> (out: HandleOutcome)
    requires
        old(registry).wf(),
    ensures
        final(registry).wf(),
        spec_parse_request(payload@) is None ==> final(registry)@ == old(registry)@
            && out.execution_id is None && out.reply is None,
        spec_parse_request(payload@) matches Some(req) ==> {
            &&& final(registry)@.len() == old(registry)@.len() + 1
            &&& final(registry)@.subrange(0, old(registry)@.len() as int) == old(registry)@
            &&& out.execution_id == Some(old(registry)@.len() as u64)
            &&& final(registry)@.last().id == old(registry)@.len()
            &&& final(registry)@.last().request == req
            &&& final(registry)@.last().status.spec_is_terminal()
            &&& (final(registry)@.last().status is Completed || final(registry)@.last().status
                is Failed)
            &&& (out.reply is Some <==> has_reply)
            &&& (out.reply matches Some(bytes) ==> bytes@ == spec_enc_response(
                final(registry)@.last().response(),
            ))
        },
{
    let request = match parse_request(payload) {
        Option::Some(r) => r,
        Option::None => {
            return HandleOutcome { execution_id: None, reply: None };
        },
    };
    let ghost len0 = registry@.len();
    let id = registry.insert_pending(request.duplicate(), now_millis() / 1000);
    match registry.mark_running(id, now_millis() / 1000) {
        Ok(()) => {},
        Err(_) => {
            proof {
                assert(false);
            }
        },
    }
    let result = execute_agent(engine, &request);
    if result.success {
        match registry.complete(id, result, now_millis() / 1000) {
            Ok(()) => {},
            Err(_) => {
                proof {
                    assert(false);
                }
            },
        }
    } else {
        let error = match &result.error {
            Option::Some(e) => e.clone(),
            Option::None => {
                proof {
                    assert(false);
                }
                String::new()
            },
        };
        match registry.fail(id, error, now_millis() / 1000) {
            Ok(()) => {},
            Err(_) => {
                proof {
                    assert(false);
                }
            },
        }
    }
    proof {
        assert(registry@.subrange(0, len0 as int) =~= old(registry)@);
    }
    let reply: Option<Vec<u8>> = if has_reply {
        match registry.get(id) {
            Option::Some(record) => {
                let response = record.to_response();
                Some(encode_response(&response))
            },
            Option::None => {
                proof {
                    assert(false);
                }
                None
            },
        }
    } else {
        None
    };
    HandleOutcome { execution_id: Some(id), reply }
}

/// One record per accepted message, each terminal: handling two
/// messages in turn grows the registry by one terminal record each,
/// under distinct ids; a malformed payload between them changes
/// nothing and stops nothing.
pub proof fn lemma_accepted_messages_get_distinct_records(
    before: Seq<ExecutionV>,
    mid: Seq<ExecutionV>,
    after: Seq<ExecutionV>,
)
    requires
        mid.len() == before.len() + 1,
        after.len() == mid.len() + 1,
        mid.subrange(0, before.len() as int) == before,
        after.subrange(0, mid.len() as int) == mid,
        mid.last().id == before.len(),
        after.last().id == mid.len(),
    ensures
        after.last().id != after[before.len() as int].id,
        after[before.len() as int] == mid.last(),
{
    assert(after[before.len() as int] == after.subrange(0, mid.len() as int)[before.len() as int]);
}

} // verus!
