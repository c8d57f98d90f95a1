//! Canonical wire codec for requests and responses.
//!
//! Values cross the message bus in a canonical length-prefixed byte
//! form: integers little-endian, strings as a 64-bit byte length
//! followed by UTF-8 bytes, options as a one-byte tag, lists as a
//! 64-bit count followed by the elements.  The decoder accepts exactly
//! what the encoder emits; decoding an encoded value gives the value
//! back (the round-trip law at the end of this module).
use vstd::prelude::*;
use vstd::bytes::{
    spec_u32_to_le_bytes, spec_u32_from_le_bytes, spec_u64_to_le_bytes, spec_u64_from_le_bytes,
    lemma_auto_spec_u32_to_from_le_bytes, lemma_auto_spec_u64_to_from_le_bytes,
    u32_to_le_bytes, u32_from_le_bytes, u64_to_le_bytes, u64_from_le_bytes,
};
use vstd::utf8::{valid_utf8, decode_utf8, encode_utf8, encode_utf8_valid_utf8, encode_utf8_decode_utf8};
use vstd::slice::{slice_subrange, slice_to_vec};
use vstd::seq_lib::lemma_concat_associative;
use vstd::string::StrSliceExecFns;
use crate::agent::{
    AgentConfig, AgentOutput, AgentRequest, AgentResponse, AgentResult, ConfigV, ExecutionMetrics,
    ExecutionStatus, OutputV, RequestV, ResponseV, ResultV,
};

verus! {

// ---------------------------------------------------------------------
// Specification: encoders
// ---------------------------------------------------------------------

pub open spec fn spec_enc_u8(t: u8) -> Seq<u8> {
    seq![t]
}

pub open spec fn spec_enc_u32(n: u32) -> Seq<u8> {
    spec_u32_to_le_bytes(n)
}

pub open spec fn spec_enc_u64(n: u64) -> Seq<u8> {
    spec_u64_to_le_bytes(n)
}

pub open spec fn spec_enc_str(s: Seq<char>) -> Seq<u8> {
    spec_enc_u64(encode_utf8(s).len() as u64) + encode_utf8(s)
}

pub open spec fn spec_enc_opt_u32(o: Option<u32>) -> Seq<u8> {
    match o {
        Option::None => spec_enc_u8(0),
        Option::Some(n) => spec_enc_u8(1) + spec_enc_u32(n),
    }
}

pub open spec fn spec_enc_opt_u64(o: Option<u64>) -> Seq<u8> {
    match o {
        Option::None => spec_enc_u8(0),
        Option::Some(n) => spec_enc_u8(1) + spec_enc_u64(n),
    }
}

pub open spec fn spec_enc_opt_str(o: Option<Seq<char>>) -> Seq<u8> {
    match o {
        Option::None => spec_enc_u8(0),
        Option::Some(s) => spec_enc_u8(1) + spec_enc_str(s),
    }
}

pub open spec fn spec_enc_str_seq(l: Seq<Seq<char>>) -> Seq<u8>
    decreases l.len(),
{
    if l.len() == 0 {
        Seq::<u8>::empty()
    } else {
        spec_enc_str(l[0]) + spec_enc_str_seq(l.drop_first())
    }
}

pub open spec fn spec_enc_pair_seq(l: Seq<(Seq<char>, Seq<char>)>) -> Seq<u8>
    decreases l.len(),
{
    if l.len() == 0 {
        Seq::<u8>::empty()
    } else {
        spec_enc_str(l[0].0) + spec_enc_str(l[0].1) + spec_enc_pair_seq(l.drop_first())
    }
}

pub open spec fn spec_enc_status(s: ExecutionStatus) -> Seq<u8> {
    match s {
        ExecutionStatus::Pending => spec_enc_u8(0),
        ExecutionStatus::Running => spec_enc_u8(1),
        ExecutionStatus::Completed => spec_enc_u8(2),
        ExecutionStatus::Failed => spec_enc_u8(3),
        ExecutionStatus::Cancelled => spec_enc_u8(4),
    }
}

pub open spec fn spec_enc_metrics(m: ExecutionMetrics) -> Seq<u8> {
    spec_enc_u64(m.memory_usage) + spec_enc_u64(m.cpu_time) + spec_enc_u32(m.llm_calls)
        + spec_enc_u64(m.execution_time_ms)
}

pub open spec fn spec_enc_output(o: OutputV) -> Seq<u8> {
    spec_enc_str(o.result) + spec_enc_opt_u32(o.llm_calls) + match o.artifacts {
        Option::None => spec_enc_u8(0),
        Option::Some(l) => spec_enc_u8(1) + spec_enc_u64(l.len() as u64) + spec_enc_str_seq(l),
    }
}

pub open spec fn spec_enc_result(r: ResultV) -> Seq<u8> {
    spec_enc_u8(if r.success { 1 } else { 0 }) + (match r.output {
        Option::None => spec_enc_u8(0),
        Option::Some(o) => spec_enc_u8(1) + spec_enc_output(o),
    }) + spec_enc_opt_str(r.error) + spec_enc_metrics(r.metrics)
}

pub open spec fn spec_enc_config(c: ConfigV) -> Seq<u8> {
    spec_enc_str(c.llm_provider) + spec_enc_str(c.llm_model) + spec_enc_opt_u64(c.timeout_seconds)
        + spec_enc_opt_u32(c.max_retries) + match c.environment {
        Option::None => spec_enc_u8(0),
        Option::Some(l) => spec_enc_u8(1) + spec_enc_u64(l.len() as u64) + spec_enc_pair_seq(l),
    }
}

pub open spec fn spec_enc_request(r: RequestV) -> Seq<u8> {
    spec_enc_str(r.agent_id) + spec_enc_str(r.workflow_id) + spec_enc_str(r.image)
        + spec_enc_str(r.input) + spec_enc_config(r.config)
}

pub open spec fn spec_enc_response(r: ResponseV) -> Seq<u8> {
    spec_enc_u64(r.execution_id) + spec_enc_str(r.agent_id) + spec_enc_status(r.status) + (match r
        .result {
        Option::None => spec_enc_u8(0),
        Option::Some(res) => spec_enc_u8(1) + spec_enc_result(res),
    }) + spec_enc_opt_str(r.error) + spec_enc_u64(r.started_at) + spec_enc_opt_u64(r.completed_at)
}

// ---------------------------------------------------------------------
// Specification: decoders.  Each consumes a prefix and yields the value
// and the remaining bytes, or nothing when the prefix is malformed.
// ---------------------------------------------------------------------

pub open spec fn spec_dec_u8(b: Seq<u8>) -> Option<(u8, Seq<u8>)> {
    if b.len() >= 1 {
        Option::Some((b[0], b.skip(1)))
    } else {
        Option::None
    }
}

pub open spec fn spec_dec_u32(b: Seq<u8>) -> Option<(u32, Seq<u8>)> {
    if b.len() >= 4 {
        Option::Some((spec_u32_from_le_bytes(b.take(4)), b.skip(4)))
    } else {
        Option::None
    }
}

pub open spec fn spec_dec_u64(b: Seq<u8>) -> Option<(u64, Seq<u8>)> {
    if b.len() >= 8 {
        Option::Some((spec_u64_from_le_bytes(b.take(8)), b.skip(8)))
    } else {
        Option::None
    }
}

pub open spec fn spec_dec_str(b: Seq<u8>) -> Option<(Seq<char>, Seq<u8>)> {
    match spec_dec_u64(b) {
        Option::None => Option::None,
        Option::Some((n, r)) => if r.len() >= n && valid_utf8(r.take(n as int)) {
            Option::Some((decode_utf8(r.take(n as int)), r.skip(n as int)))
        } else {
            Option::None
        },
    }
}

pub open spec fn spec_dec_opt_u32(b: Seq<u8>) -> Option<(Option<u32>, Seq<u8>)> {
    match spec_dec_u8(b) {
        Option::None => Option::None,
        Option::Some((t, r)) => if t == 0 {
            Option::Some((Option::None, r))
        } else if t == 1 {
            match spec_dec_u32(r) {
                Option::None => Option::None,
                Option::Some((n, r2)) => Option::Some((Option::Some(n), r2)),
            }
        } else {
            Option::None
        },
    }
}

pub open spec fn spec_dec_opt_u64(b: Seq<u8>) -> Option<(Option<u64>, Seq<u8>)> {
    match spec_dec_u8(b) {
        Option::None => Option::None,
        Option::Some((t, r)) => if t == 0 {
            Option::Some((Option::None, r))
        } else if t == 1 {
            match spec_dec_u64(r) {
                Option::None => Option::None,
                Option::Some((n, r2)) => Option::Some((Option::Some(n), r2)),
            }
        } else {
            Option::None
        },
    }
}

pub open spec fn spec_dec_opt_str(b: Seq<u8>) -> Option<(Option<Seq<char>>, Seq<u8>)> {
    match spec_dec_u8(b) {
        Option::None => Option::None,
        Option::Some((t, r)) => if t == 0 {
            Option::Some((Option::None, r))
        } else if t == 1 {
            match spec_dec_str(r) {
                Option::None => Option::None,
                Option::Some((s, r2)) => Option::Some((Option::Some(s), r2)),
            }
        } else {
            Option::None
        },
    }
}

pub open spec fn spec_dec_str_seq(b: Seq<u8>, count: nat) -> Option<(Seq<Seq<char>>, Seq<u8>)>
    decreases count,
{
    if count == 0 {
        Option::Some((Seq::<Seq<char>>::empty(), b))
    } else {
        match spec_dec_str(b) {
            Option::None => Option::None,
            Option::Some((s, r)) => match spec_dec_str_seq(r, (count - 1) as nat) {
                Option::None => Option::None,
                Option::Some((l, r2)) => Option::Some((seq![s] + l, r2)),
            },
        }
    }
}

pub open spec fn spec_dec_pair_seq(b: Seq<u8>, count: nat) -> Option<
    (Seq<(Seq<char>, Seq<char>)>, Seq<u8>),
>
    decreases count,
{
    if count == 0 {
        Option::Some((Seq::<(Seq<char>, Seq<char>)>::empty(), b))
    } else {
        match spec_dec_str(b) {
            Option::None => Option::None,
            Option::Some((k, r)) => match spec_dec_str(r) {
                Option::None => Option::None,
                Option::Some((v, r2)) => match spec_dec_pair_seq(r2, (count - 1) as nat) {
                    Option::None => Option::None,
                    Option::Some((l, r3)) => Option::Some((seq![(k, v)] + l, r3)),
                },
            },
        }
    }
}

pub open spec fn spec_dec_status(b: Seq<u8>) -> Option<(ExecutionStatus, Seq<u8>)> {
    match spec_dec_u8(b) {
        Option::None => Option::None,
        Option::Some((t, r)) => if t == 0 {
            Option::Some((ExecutionStatus::Pending, r))
        } else if t == 1 {
            Option::Some((ExecutionStatus::Running, r))
        } else if t == 2 {
            Option::Some((ExecutionStatus::Completed, r))
        } else if t == 3 {
            Option::Some((ExecutionStatus::Failed, r))
        } else if t == 4 {
            Option::Some((ExecutionStatus::Cancelled, r))
        } else {
            Option::None
        },
    }
}

pub open spec fn spec_dec_metrics(b: Seq<u8>) -> Option<(ExecutionMetrics, Seq<u8>)> {
    match spec_dec_u64(b) {
        Option::None => Option::None,
        Option::Some((mem, r)) => match spec_dec_u64(r) {
            Option::None => Option::None,
            Option::Some((cpu, r2)) => match spec_dec_u32(r2) {
                Option::None => Option::None,
                Option::Some((llm, r3)) => match spec_dec_u64(r3) {
                    Option::None => Option::None,
                    Option::Some((t, r4)) => Option::Some(
                        (
                            ExecutionMetrics {
                                memory_usage: mem,
                                cpu_time: cpu,
                                llm_calls: llm,
                                execution_time_ms: t,
                            },
                            r4,
                        ),
                    ),
                },
            },
        },
    }
}

pub open spec fn spec_dec_output(b: Seq<u8>) -> Option<(OutputV, Seq<u8>)> {
    match spec_dec_str(b) {
        Option::None => Option::None,
        Option::Some((res, r)) => match spec_dec_opt_u32(r) {
            Option::None => Option::None,
            Option::Some((llm, r2)) => match spec_dec_u8(r2) {
                Option::None => Option::None,
                Option::Some((t, r3)) => if t == 0 {
                    Option::Some((OutputV { result: res, llm_calls: llm, artifacts: Option::None }, r3))
                } else if t == 1 {
                    match spec_dec_u64(r3) {
                        Option::None => Option::None,
                        Option::Some((n, r4)) => match spec_dec_str_seq(r4, n as nat) {
                            Option::None => Option::None,
                            Option::Some((l, r5)) => Option::Some(
                                (
                                    OutputV {
                                        result: res,
                                        llm_calls: llm,
                                        artifacts: Option::Some(l),
                                    },
                                    r5,
                                ),
                            ),
                        },
                    }
                } else {
                    Option::None
                },
            },
        },
    }
}

pub open spec fn spec_dec_result(b: Seq<u8>) -> Option<(ResultV, Seq<u8>)> {
    match spec_dec_u8(b) {
        Option::None => Option::None,
        Option::Some((su, r)) => if su != 0 && su != 1 {
            Option::None
        } else {
            match spec_dec_u8(r) {
                Option::None => Option::None,
                Option::Some((t, r2)) => {
                    let out: Option<(Option<OutputV>, Seq<u8>)> = if t == 0 {
                        Option::Some((Option::None, r2))
                    } else if t == 1 {
                        match spec_dec_output(r2) {
                            Option::None => Option::None,
                            Option::Some((o, r3)) => Option::Some((Option::Some(o), r3)),
                        }
                    } else {
                        Option::None
                    };
                    match out {
                        Option::None => Option::None,
                        Option::Some((o, r3)) => match spec_dec_opt_str(r3) {
                            Option::None => Option::None,
                            Option::Some((e, r4)) => match spec_dec_metrics(r4) {
                                Option::None => Option::None,
                                Option::Some((m, r5)) => Option::Some(
                                    (
                                        ResultV {
                                            success: su == 1,
                                            output: o,
                                            error: e,
                                            metrics: m,
                                        },
                                        r5,
                                    ),
                                ),
                            },
                        },
                    }
                },
            }
        },
    }
}

pub open spec fn spec_dec_config(b: Seq<u8>) -> Option<(ConfigV, Seq<u8>)> {
    match spec_dec_str(b) {
        Option::None => Option::None,
        Option::Some((prov, r)) => match spec_dec_str(r) {
            Option::None => Option::None,
            Option::Some((model, r2)) => match spec_dec_opt_u64(r2) {
                Option::None => Option::None,
                Option::Some((tmo, r3)) => match spec_dec_opt_u32(r3) {
                    Option::None => Option::None,
                    Option::Some((mr, r4)) => match spec_dec_u8(r4) {
                        Option::None => Option::None,
                        Option::Some((t, r5)) => if t == 0 {
                            Option::Some(
                                (
                                    ConfigV {
                                        llm_provider: prov,
                                        llm_model: model,
                                        timeout_seconds: tmo,
                                        max_retries: mr,
                                        environment: Option::None,
                                    },
                                    r5,
                                ),
                            )
                        } else if t == 1 {
                            match spec_dec_u64(r5) {
                                Option::None => Option::None,
                                Option::Some((n, r6)) => match spec_dec_pair_seq(r6, n as nat) {
                                    Option::None => Option::None,
                                    Option::Some((l, r7)) => Option::Some(
                                        (
                                            ConfigV {
                                                llm_provider: prov,
                                                llm_model: model,
                                                timeout_seconds: tmo,
                                                max_retries: mr,
                                                environment: Option::Some(l),
                                            },
                                            r7,
                                        ),
                                    ),
                                },
                            }
                        } else {
                            Option::None
                        },
                    },
                },
            },
        },
    }
}

pub open spec fn spec_dec_request(b: Seq<u8>) -> Option<(RequestV, Seq<u8>)> {
    match spec_dec_str(b) {
        Option::None => Option::None,
        Option::Some((agent, r)) => match spec_dec_str(r) {
            Option::None => Option::None,
            Option::Some((wf, r2)) => match spec_dec_str(r2) {
                Option::None => Option::None,
                Option::Some((image, r3)) => match spec_dec_str(r3) {
                    Option::None => Option::None,
                    Option::Some((input, r4)) => match spec_dec_config(r4) {
                        Option::None => Option::None,
                        Option::Some((c, r5)) => Option::Some(
                            (
                                RequestV {
                                    agent_id: agent,
                                    workflow_id: wf,
                                    image,
                                    input,
                                    config: c,
                                },
                                r5,
                            ),
                        ),
                    },
                },
            },
        },
    }
}

pub open spec fn spec_dec_response(b: Seq<u8>) -> Option<(ResponseV, Seq<u8>)> {
    match spec_dec_u64(b) {
        Option::None => Option::None,
        Option::Some((id, r)) => match spec_dec_str(r) {
            Option::None => Option::None,
            Option::Some((agent, r2)) => match spec_dec_status(r2) {
                Option::None => Option::None,
                Option::Some((st, r3)) => match spec_dec_u8(r3) {
                    Option::None => Option::None,
                    Option::Some((t, r4)) => {
                        let res: Option<(Option<ResultV>, Seq<u8>)> = if t == 0 {
                            Option::Some((Option::None, r4))
                        } else if t == 1 {
                            match spec_dec_result(r4) {
                                Option::None => Option::None,
                                Option::Some((v, r5)) => Option::Some((Option::Some(v), r5)),
                            }
                        } else {
                            Option::None
                        };
                        match res {
                            Option::None => Option::None,
                            Option::Some((result, r5)) => match spec_dec_opt_str(r5) {
                                Option::None => Option::None,
                                Option::Some((err, r6)) => match spec_dec_u64(r6) {
                                    Option::None => Option::None,
                                    Option::Some((started, r7)) => match spec_dec_opt_u64(r7) {
                                        Option::None => Option::None,
                                        Option::Some((completed, r8)) => Option::Some(
                                            (
                                                ResponseV {
                                                    execution_id: id,
                                                    agent_id: agent,
                                                    status: st,
                                                    result,
                                                    error: err,
                                                    started_at: started,
                                                    completed_at: completed,
                                                },
                                                r8,
                                            ),
                                        ),
                                    },
                                },
                            },
                        }
                    },
                },
            },
        },
    }
}

/// A whole message parses as a request when the canonical form is
/// consumed exactly, and the request meets the acceptance constraints.
pub open spec fn spec_parse_request(b: Seq<u8>) -> Option<RequestV> {
    match spec_dec_request(b) {
        Option::None => Option::None,
        Option::Some((v, rest)) => if rest.len() == 0 && v.valid() {
            Option::Some(v)
        } else {
            Option::None
        },
    }
}

/// A whole payload parses as a response when the canonical form is
/// consumed exactly.
pub open spec fn spec_parse_response(b: Seq<u8>) -> Option<ResponseV> {
    match spec_dec_response(b) {
        Option::None => Option::None,
        Option::Some((v, rest)) => if rest.len() == 0 {
            Option::Some(v)
        } else {
            Option::None
        },
    }
}

} // verus!

verus! {

// ---------------------------------------------------------------------
// Size side conditions: a value is encodable when every string fits a
// 64-bit byte length and every list a 64-bit count.
// ---------------------------------------------------------------------

pub open spec fn str_ok(s: Seq<char>) -> bool {
    encode_utf8(s).len() <= u64::MAX
}

pub open spec fn str_seq_ok(l: Seq<Seq<char>>) -> bool {
    &&& l.len() <= u64::MAX
    &&& forall|i: int| 0 <= i < l.len() ==> str_ok(#[trigger] l[i])
}

pub open spec fn pair_seq_ok(l: Seq<(Seq<char>, Seq<char>)>) -> bool {
    &&& l.len() <= u64::MAX
    &&& forall|i: int| 0 <= i < l.len() ==> str_ok(#[trigger] l[i].0) && str_ok(l[i].1)
}

pub open spec fn opt_str_ok(o: Option<Seq<char>>) -> bool {
    o matches Some(s) ==> str_ok(s)
}

pub open spec fn output_ok(o: OutputV) -> bool {
    &&& str_ok(o.result)
    &&& o.artifacts matches Some(l) ==> str_seq_ok(l)
}

pub open spec fn result_ok(r: ResultV) -> bool {
    &&& r.output matches Some(o) ==> output_ok(o)
    &&& opt_str_ok(r.error)
}

pub open spec fn config_ok(c: ConfigV) -> bool {
    &&& str_ok(c.llm_provider)
    &&& str_ok(c.llm_model)
    &&& c.environment matches Some(l) ==> pair_seq_ok(l)
}

pub open spec fn request_ok(r: RequestV) -> bool {
    &&& str_ok(r.agent_id)
    &&& str_ok(r.workflow_id)
    &&& str_ok(r.image)
    &&& str_ok(r.input)
    &&& config_ok(r.config)
}

pub open spec fn response_ok(r: ResponseV) -> bool {
    &&& str_ok(r.agent_id)
    &&& r.result matches Some(res) ==> result_ok(res)
    &&& opt_str_ok(r.error)
}

// ---------------------------------------------------------------------
// Round-trip lemmas: decoding what the encoder emitted yields the value
// and leaves exactly the trailing bytes.
// ---------------------------------------------------------------------

proof fn lemma_take_skip(a: Seq<u8>, b: Seq<u8>)
    ensures
        (a + b).take(a.len() as int) == a,
        (a + b).skip(a.len() as int) == b,
{
    assert((a + b).take(a.len() as int) =~= a);
    assert((a + b).skip(a.len() as int) =~= b);
}

proof fn lemma_rt_u8(t: u8, rest: Seq<u8>)
    ensures
        spec_dec_u8(spec_enc_u8(t) + rest) == Some((t, rest)),
{
    lemma_take_skip(spec_enc_u8(t), rest);
    assert((spec_enc_u8(t) + rest)[0] == t);
    assert((spec_enc_u8(t) + rest).skip(1) == rest);
}

proof fn lemma_rt_u32(n: u32, rest: Seq<u8>)
    ensures
        spec_dec_u32(spec_enc_u32(n) + rest) == Some((n, rest)),
{
    lemma_auto_spec_u32_to_from_le_bytes();
    lemma_take_skip(spec_enc_u32(n), rest);
}

proof fn lemma_rt_u64(n: u64, rest: Seq<u8>)
    ensures
        spec_dec_u64(spec_enc_u64(n) + rest) == Some((n, rest)),
{
    lemma_auto_spec_u64_to_from_le_bytes();
    lemma_take_skip(spec_enc_u64(n), rest);
}

proof fn lemma_rt_str(s: Seq<char>, rest: Seq<u8>)
    requires
        str_ok(s),
    ensures
        spec_dec_str(spec_enc_str(s) + rest) == Some((s, rest)),
{
    let eu = encode_utf8(s);
    let n = eu.len() as u64;
    assert(spec_enc_str(s) + rest =~= spec_enc_u64(n) + (eu + rest));
    lemma_rt_u64(n, eu + rest);
    lemma_take_skip(eu, rest);
    encode_utf8_valid_utf8(s);
    encode_utf8_decode_utf8(s);
}

proof fn lemma_rt_opt_u32(o: Option<u32>, rest: Seq<u8>)
    ensures
        spec_dec_opt_u32(spec_enc_opt_u32(o) + rest) == Some((o, rest)),
{
    match o {
        Option::None => {
            lemma_rt_u8(0, rest);
        },
        Option::Some(n) => {
            assert(spec_enc_opt_u32(o) + rest =~= spec_enc_u8(1) + (spec_enc_u32(n) + rest));
            lemma_rt_u8(1, spec_enc_u32(n) + rest);
            lemma_rt_u32(n, rest);
        },
    }
}

proof fn lemma_rt_opt_u64(o: Option<u64>, rest: Seq<u8>)
    ensures
        spec_dec_opt_u64(spec_enc_opt_u64(o) + rest) == Some((o, rest)),
{
    match o {
        Option::None => {
            lemma_rt_u8(0, rest);
        },
        Option::Some(n) => {
            assert(spec_enc_opt_u64(o) + rest =~= spec_enc_u8(1) + (spec_enc_u64(n) + rest));
            lemma_rt_u8(1, spec_enc_u64(n) + rest);
            lemma_rt_u64(n, rest);
        },
    }
}

proof fn lemma_rt_opt_str(o: Option<Seq<char>>, rest: Seq<u8>)
    requires
        opt_str_ok(o),
    ensures
        spec_dec_opt_str(spec_enc_opt_str(o) + rest) == Some((o, rest)),
{
    match o {
        Option::None => {
            lemma_rt_u8(0, rest);
        },
        Option::Some(s) => {
            assert(spec_enc_opt_str(o) + rest =~= spec_enc_u8(1) + (spec_enc_str(s) + rest));
            lemma_rt_u8(1, spec_enc_str(s) + rest);
            lemma_rt_str(s, rest);
        },
    }
}

proof fn lemma_rt_str_seq(l: Seq<Seq<char>>, rest: Seq<u8>)
    requires
        str_seq_ok(l),
    ensures
        spec_dec_str_seq(spec_enc_str_seq(l) + rest, l.len() as nat) == Some((l, rest)),
    decreases l.len(),
{
    if l.len() == 0 {
        assert(spec_enc_str_seq(l) + rest =~= rest);
        assert(l =~= Seq::<Seq<char>>::empty());
    } else {
        let tail = l.drop_first();
        assert(spec_enc_str_seq(l) + rest =~= spec_enc_str(l[0]) + (spec_enc_str_seq(tail) + rest));
        lemma_rt_str(l[0], spec_enc_str_seq(tail) + rest);
        assert(str_seq_ok(tail)) by {
            assert(forall|i: int| 0 <= i < tail.len() ==> #[trigger] tail[i] == l[i + 1]);
        }
        lemma_rt_str_seq(tail, rest);
        assert(seq![l[0]] + tail =~= l);
    }
}

proof fn lemma_rt_pair_seq(l: Seq<(Seq<char>, Seq<char>)>, rest: Seq<u8>)
    requires
        pair_seq_ok(l),
    ensures
        spec_dec_pair_seq(spec_enc_pair_seq(l) + rest, l.len() as nat) == Some((l, rest)),
    decreases l.len(),
{
    if l.len() == 0 {
        assert(spec_enc_pair_seq(l) + rest =~= rest);
        assert(l =~= Seq::<(Seq<char>, Seq<char>)>::empty());
    } else {
        let tail = l.drop_first();
        assert(spec_enc_pair_seq(l) + rest =~= spec_enc_str(l[0].0) + (spec_enc_str(l[0].1) + (
        spec_enc_pair_seq(tail) + rest)));
        lemma_rt_str(l[0].0, spec_enc_str(l[0].1) + (spec_enc_pair_seq(tail) + rest));
        lemma_rt_str(l[0].1, spec_enc_pair_seq(tail) + rest);
        assert(pair_seq_ok(tail)) by {
            assert(forall|i: int| 0 <= i < tail.len() ==> #[trigger] tail[i] == l[i + 1]);
        }
        lemma_rt_pair_seq(tail, rest);
        assert(seq![(l[0].0, l[0].1)] + tail =~= l);
        assert((l[0].0, l[0].1) == l[0]);
    }
}

proof fn lemma_rt_status(s: ExecutionStatus, rest: Seq<u8>)
    ensures
        spec_dec_status(spec_enc_status(s) + rest) == Some((s, rest)),
{
    match s {
        ExecutionStatus::Pending => lemma_rt_u8(0, rest),
        ExecutionStatus::Running => lemma_rt_u8(1, rest),
        ExecutionStatus::Completed => lemma_rt_u8(2, rest),
        ExecutionStatus::Failed => lemma_rt_u8(3, rest),
        ExecutionStatus::Cancelled => lemma_rt_u8(4, rest),
    }
}

proof fn lemma_rt_metrics(m: ExecutionMetrics, rest: Seq<u8>)
    ensures
        spec_dec_metrics(spec_enc_metrics(m) + rest) == Some((m, rest)),
{
    let a = spec_enc_u64(m.memory_usage);
    let b = spec_enc_u64(m.cpu_time);
    let c = spec_enc_u32(m.llm_calls);
    let d = spec_enc_u64(m.execution_time_ms);
    assert(spec_enc_metrics(m) + rest =~= a + (b + (c + (d + rest))));
    lemma_rt_u64(m.memory_usage, b + (c + (d + rest)));
    lemma_rt_u64(m.cpu_time, c + (d + rest));
    lemma_rt_u32(m.llm_calls, d + rest);
    lemma_rt_u64(m.execution_time_ms, rest);
}

#[verifier::rlimit(100)]
#[verifier::spinoff_prover]
proof fn lemma_rt_output(o: OutputV, rest: Seq<u8>)
    requires
        output_ok(o),
    ensures
        spec_dec_output(spec_enc_output(o) + rest) == Some((o, rest)),
{
    let a = spec_enc_str(o.result);
    let b = spec_enc_opt_u32(o.llm_calls);
    match o.artifacts {
        Option::None => {
            let c = spec_enc_u8(0);
            assert(spec_enc_output(o) + rest =~= a + (b + (c + rest)));
            lemma_rt_str(o.result, b + (c + rest));
            lemma_rt_opt_u32(o.llm_calls, c + rest);
            lemma_rt_u8(0, rest);
        },
        Option::Some(l) => {
            let c = spec_enc_u8(1);
            let d = spec_enc_u64(l.len() as u64);
            let e = spec_enc_str_seq(l);
            assert(spec_enc_output(o) + rest =~= a + (b + (c + (d + (e + rest)))));
            lemma_rt_str(o.result, b + (c + (d + (e + rest))));
            lemma_rt_opt_u32(o.llm_calls, c + (d + (e + rest)));
            lemma_rt_u8(1, d + (e + rest));
            lemma_rt_u64(l.len() as u64, e + rest);
            lemma_rt_str_seq(l, rest);
        },
    }
}

#[verifier::rlimit(100)]
#[verifier::spinoff_prover]
proof fn lemma_rt_result(r: ResultV, rest: Seq<u8>)
    requires
        result_ok(r),
    ensures
        spec_dec_result(spec_enc_result(r) + rest) == Some((r, rest)),
{
    let su = spec_enc_u8(if r.success { 1 } else { 0 });
    let e = spec_enc_opt_str(r.error);
    let m = spec_enc_metrics(r.metrics);
    match r.output {
        Option::None => {
            let t = spec_enc_u8(0);
            assert(spec_enc_result(r) + rest =~= su + (t + (e + (m + rest))));
            lemma_rt_u8(if r.success { 1 } else { 0 }, t + (e + (m + rest)));
            lemma_rt_u8(0, e + (m + rest));
            lemma_rt_opt_str(r.error, m + rest);
            lemma_rt_metrics(r.metrics, rest);
        },
        Option::Some(o) => {
            let t = spec_enc_u8(1);
            let ob = spec_enc_output(o);
            assert(spec_enc_result(r) + rest =~= su + (t + (ob + (e + (m + rest)))));
            lemma_rt_u8(if r.success { 1 } else { 0 }, t + (ob + (e + (m + rest))));
            lemma_rt_u8(1, ob + (e + (m + rest)));
            lemma_rt_output(o, e + (m + rest));
            lemma_rt_opt_str(r.error, m + rest);
            lemma_rt_metrics(r.metrics, rest);
        },
    }
}

proof fn lemma_rt_config(c: ConfigV, rest: Seq<u8>)
    requires
        config_ok(c),
    ensures
        spec_dec_config(spec_enc_config(c) + rest) == Some((c, rest)),
{
    let a = spec_enc_str(c.llm_provider);
    let b = spec_enc_str(c.llm_model);
    let t = spec_enc_opt_u64(c.timeout_seconds);
    let mr = spec_enc_opt_u32(c.max_retries);
    match c.environment {
        Option::None => {
            let z = spec_enc_u8(0);
            lemma_concat_associative(a + b + t + mr, z, rest);
            lemma_concat_associative(a + b + t, mr, z + rest);
            lemma_concat_associative(a + b, t, mr + (z + rest));
            lemma_concat_associative(a, b, t + (mr + (z + rest)));
            assert(spec_enc_config(c) + rest == a + (b + (t + (mr + (z + rest)))));
            lemma_rt_str(c.llm_provider, b + (t + (mr + (z + rest))));
            lemma_rt_str(c.llm_model, t + (mr + (z + rest)));
            lemma_rt_opt_u64(c.timeout_seconds, mr + (z + rest));
            lemma_rt_opt_u32(c.max_retries, z + rest);
            lemma_rt_u8(0, rest);
        },
        Option::Some(l) => {
            let z = spec_enc_u8(1);
            let n = spec_enc_u64(l.len() as u64);
            let p = spec_enc_pair_seq(l);
            lemma_concat_associative(a + b + t + mr, z + n + p, rest);
            lemma_concat_associative(z + n, p, rest);
            lemma_concat_associative(z, n, p + rest);
            lemma_concat_associative(a + b + t, mr, z + (n + (p + rest)));
            lemma_concat_associative(a + b, t, mr + (z + (n + (p + rest))));
            lemma_concat_associative(a, b, t + (mr + (z + (n + (p + rest)))));
            assert(spec_enc_config(c) + rest == a + (b + (t + (mr + (z + (n + (p + rest)))))));
            lemma_rt_str(c.llm_provider, b + (t + (mr + (z + (n + (p + rest))))));
            lemma_rt_str(c.llm_model, t + (mr + (z + (n + (p + rest)))));
            lemma_rt_opt_u64(c.timeout_seconds, mr + (z + (n + (p + rest))));
            lemma_rt_opt_u32(c.max_retries, z + (n + (p + rest)));
            lemma_rt_u8(1, n + (p + rest));
            lemma_rt_u64(l.len() as u64, p + rest);
            lemma_rt_pair_seq(l, rest);
        },
    }
}

proof fn lemma_rt_request(r: RequestV, rest: Seq<u8>)
    requires
        request_ok(r),
    ensures
        spec_dec_request(spec_enc_request(r) + rest) == Some((r, rest)),
{
    let a = spec_enc_str(r.agent_id);
    let w = spec_enc_str(r.workflow_id);
    let im = spec_enc_str(r.image);
    let inp = spec_enc_str(r.input);
    let c = spec_enc_config(r.config);
    assert(spec_enc_request(r) + rest =~= a + (w + (im + (inp + (c + rest)))));
    lemma_rt_str(r.agent_id, w + (im + (inp + (c + rest))));
    lemma_rt_str(r.workflow_id, im + (inp + (c + rest)));
    lemma_rt_str(r.image, inp + (c + rest));
    lemma_rt_str(r.input, c + rest);
    lemma_rt_config(r.config, rest);
}

#[verifier::rlimit(100)]
#[verifier::spinoff_prover]
proof fn lemma_rt_response(r: ResponseV, rest: Seq<u8>)
    requires
        response_ok(r),
    ensures
        spec_dec_response(spec_enc_response(r) + rest) == Some((r, rest)),
{
    let id = spec_enc_u64(r.execution_id);
    let ag = spec_enc_str(r.agent_id);
    let st = spec_enc_status(r.status);
    let er = spec_enc_opt_str(r.error);
    let sa = spec_enc_u64(r.started_at);
    let ca = spec_enc_opt_u64(r.completed_at);
    match r.result {
        Option::None => {
            let t = spec_enc_u8(0);
            lemma_concat_associative(id + ag + st + t + er + sa, ca, rest);
            lemma_concat_associative(id + ag + st + t + er, sa, ca + rest);
            lemma_concat_associative(id + ag + st + t, er, sa + (ca + rest));
            lemma_concat_associative(id + ag + st, t, er + (sa + (ca + rest)));
            lemma_concat_associative(id + ag, st, t + (er + (sa + (ca + rest))));
            lemma_concat_associative(id, ag, st + (t + (er + (sa + (ca + rest)))));
            assert(spec_enc_response(r) + rest == id + (ag + (st + (t + (er + (sa + (ca
                + rest)))))));
            lemma_rt_u64(r.execution_id, ag + (st + (t + (er + (sa + (ca + rest))))));
            lemma_rt_str(r.agent_id, st + (t + (er + (sa + (ca + rest)))));
            lemma_rt_status(r.status, t + (er + (sa + (ca + rest))));
            lemma_rt_u8(0, er + (sa + (ca + rest)));
            lemma_rt_opt_str(r.error, sa + (ca + rest));
            lemma_rt_u64(r.started_at, ca + rest);
            lemma_rt_opt_u64(r.completed_at, rest);
        },
        Option::Some(res) => {
            let t = spec_enc_u8(1);
            let rb = spec_enc_result(res);
            lemma_concat_associative(id + ag + st + (t + rb) + er + sa, ca, rest);
            lemma_concat_associative(id + ag + st + (t + rb) + er, sa, ca + rest);
            lemma_concat_associative(id + ag + st + (t + rb), er, sa + (ca + rest));
            lemma_concat_associative(id + ag + st, t + rb, er + (sa + (ca + rest)));
            lemma_concat_associative(t, rb, er + (sa + (ca + rest)));
            lemma_concat_associative(id + ag, st, t + (rb + (er + (sa + (ca + rest)))));
            lemma_concat_associative(id, ag, st + (t + (rb + (er + (sa + (ca + rest))))));
            assert(spec_enc_response(r) + rest == id + (ag + (st + (t + (rb + (er + (sa + (ca
                + rest))))))));
            lemma_rt_u64(r.execution_id, ag + (st + (t + (rb + (er + (sa + (ca + rest)))))));
            lemma_rt_str(r.agent_id, st + (t + (rb + (er + (sa + (ca + rest))))));
            lemma_rt_status(r.status, t + (rb + (er + (sa + (ca + rest)))));
            lemma_rt_u8(1, rb + (er + (sa + (ca + rest))));
            lemma_rt_result(res, er + (sa + (ca + rest)));
            lemma_rt_opt_str(r.error, sa + (ca + rest));
            lemma_rt_u64(r.started_at, ca + rest);
            lemma_rt_opt_u64(r.completed_at, rest);
        },
    }
}

/// Round-trip law for requests: an accepted request, encoded to its
/// canonical byte form and parsed back, is reproduced exactly.
pub proof fn lemma_request_round_trip(r: RequestV)
    requires
        request_ok(r),
        r.valid(),
    ensures
        spec_parse_request(spec_enc_request(r)) == Some(r),
{
    lemma_rt_request(r, Seq::<u8>::empty());
    assert(spec_enc_request(r) + Seq::<u8>::empty() =~= spec_enc_request(r));
}

/// Round-trip law for responses: a response, encoded to its canonical
/// byte form and parsed back, is reproduced exactly.
pub proof fn lemma_response_round_trip(r: ResponseV)
    requires
        response_ok(r),
    ensures
        spec_parse_response(spec_enc_response(r)) == Some(r),
{
    lemma_rt_response(r, Seq::<u8>::empty());
    assert(spec_enc_response(r) + Seq::<u8>::empty() =~= spec_enc_response(r));
}

} // verus!

verus! {

// ---------------------------------------------------------------------
// Trusted item
// ---------------------------------------------------------------------

/// Relies on String::from_utf8: it succeeds exactly on valid UTF-8 and
/// decodes those bytes, as its documentation states.
#[verifier::external_body]
fn string_from_utf8(bytes: Vec<u8>) -> (r: Option<String>)
    ensures
        r is Some <==> valid_utf8(bytes@),
        r matches Some(s) ==> s@ == decode_utf8(bytes@),
{
    match String::from_utf8(bytes) {
        Ok(s) => Some(s),
        Err(_) => None,
    }
}

// ---------------------------------------------------------------------
// Executable encoders, each appending one canonical form.
// ---------------------------------------------------------------------

fn push_u8(out: &mut Vec<u8>, t: u8)
    ensures
        final(out)@ == old(out)@ + spec_enc_u8(t),
{
    out.push(t);
    proof {
        assert(out@ =~= old(out)@ + spec_enc_u8(t));
    }
}

fn push_u32(out: &mut Vec<u8>, n: u32)
    ensures
        final(out)@ == old(out)@ + spec_enc_u32(n),
{
    let mut b = u32_to_le_bytes(n);
    out.append(&mut b);
}

fn push_u64(out: &mut Vec<u8>, n: u64)
    ensures
        final(out)@ == old(out)@ + spec_enc_u64(n),
{
    let mut b = u64_to_le_bytes(n);
    out.append(&mut b);
}

fn push_str(out: &mut Vec<u8>, s: &String)
    ensures
        final(out)@ == old(out)@ + spec_enc_str(s@),
{
    let mut b = s.as_str().as_bytes_vec();
    let n: u64 = b.len() as u64;
    push_u64(out, n);
    out.append(&mut b);
    proof {
        assert(out@ =~= old(out)@ + spec_enc_str(s@));
    }
}

fn push_opt_u32(out: &mut Vec<u8>, o: &Option<u32>)
    ensures
        final(out)@ == old(out)@ + spec_enc_opt_u32(*o),
{
    match o {
        Option::None => {
            push_u8(out, 0);
        },
        Option::Some(n) => {
            push_u8(out, 1);
            push_u32(out, *n);
            proof {
                assert(out@ =~= old(out)@ + spec_enc_opt_u32(*o));
            }
        },
    }
}

fn push_opt_u64(out: &mut Vec<u8>, o: &Option<u64>)
    ensures
        final(out)@ == old(out)@ + spec_enc_opt_u64(*o),
{
    match o {
        Option::None => {
            push_u8(out, 0);
        },
        Option::Some(n) => {
            push_u8(out, 1);
            push_u64(out, *n);
            proof {
                assert(out@ =~= old(out)@ + spec_enc_opt_u64(*o));
            }
        },
    }
}

fn push_opt_str(out: &mut Vec<u8>, o: &Option<String>)
    ensures
        final(out)@ == old(out)@ + spec_enc_opt_str(match *o {
            Option::Some(s) => Option::Some(s@),
            Option::None => Option::None,
        }),
{
    match o {
        Option::None => {
            push_u8(out, 0);
        },
        Option::Some(s) => {
            push_u8(out, 1);
            push_str(out, s);
            proof {
                assert(out@ =~= old(out)@ + (spec_enc_u8(1) + spec_enc_str(s@)));
            }
        },
    }
}

fn push_status(out: &mut Vec<u8>, s: ExecutionStatus)
    ensures
        final(out)@ == old(out)@ + spec_enc_status(s),
{
    match s {
        ExecutionStatus::Pending => push_u8(out, 0),
        ExecutionStatus::Running => push_u8(out, 1),
        ExecutionStatus::Completed => push_u8(out, 2),
        ExecutionStatus::Failed => push_u8(out, 3),
        ExecutionStatus::Cancelled => push_u8(out, 4),
    }
}

fn push_metrics(out: &mut Vec<u8>, m: &ExecutionMetrics)
    ensures
        final(out)@ == old(out)@ + spec_enc_metrics(*m),
{
    push_u64(out, m.memory_usage);
    push_u64(out, m.cpu_time);
    push_u32(out, m.llm_calls);
    push_u64(out, m.execution_time_ms);
    proof {
        assert(out@ =~= old(out)@ + spec_enc_metrics(*m));
    }
}

fn push_strs(out: &mut Vec<u8>, v: &Vec<String>, i: usize)
    requires
        i <= v@.len(),
    ensures
        final(out)@ == old(out)@ + spec_enc_str_seq(v.deep_view().skip(i as int)),
    decreases v@.len() - i@,
{
    if i < v.len() {
        push_str(out, &v[i]);
        push_strs(out, v, i + 1);
        proof {
            let l = v.deep_view().skip(i as int);
            assert(l[0] == v.deep_view()[i as int]);
            assert(l.drop_first() =~= v.deep_view().skip(i as int + 1));
            assert(out@ =~= old(out)@ + spec_enc_str_seq(l));
        }
    } else {
        proof {
            assert(v.deep_view().skip(i as int) =~= Seq::<Seq<char>>::empty());
            assert(out@ =~= old(out)@ + spec_enc_str_seq(v.deep_view().skip(i as int)));
        }
    }
}

fn push_pairs(out: &mut Vec<u8>, v: &Vec<(String, String)>, i: usize)
    requires
        i <= v@.len(),
    ensures
        final(out)@ == old(out)@ + spec_enc_pair_seq(v.deep_view().skip(i as int)),
    decreases v@.len() - i@,
{
    if i < v.len() {
        push_str(out, &v[i].0);
        push_str(out, &v[i].1);
        push_pairs(out, v, i + 1);
        proof {
            let l = v.deep_view().skip(i as int);
            assert(l[0] == v.deep_view()[i as int]);
            assert(l.drop_first() =~= v.deep_view().skip(i as int + 1));
            assert(out@ =~= old(out)@ + spec_enc_pair_seq(l));
        }
    } else {
        proof {
            assert(v.deep_view().skip(i as int) =~= Seq::<(Seq<char>, Seq<char>)>::empty());
            assert(out@ =~= old(out)@ + spec_enc_pair_seq(v.deep_view().skip(i as int)));
        }
    }
}

fn push_output(out: &mut Vec<u8>, o: &AgentOutput)
    ensures
        final(out)@ == old(out)@ + spec_enc_output(o@),
{
    push_str(out, &o.result);
    push_opt_u32(out, &o.llm_calls);
    match &o.artifacts {
        Option::None => {
            push_u8(out, 0);
        },
        Option::Some(v) => {
            push_u8(out, 1);
            push_u64(out, v.len() as u64);
            push_strs(out, v, 0);
            proof {
                assert(v.deep_view().skip(0) =~= v.deep_view());
            }
        },
    }
    proof {
        assert(out@ =~= old(out)@ + spec_enc_output(o@));
    }
}

fn push_result(out: &mut Vec<u8>, r: &AgentResult)
    ensures
        final(out)@ == old(out)@ + spec_enc_result(r@),
{
    push_u8(out, if r.success { 1 } else { 0 });
    match &r.output {
        Option::None => {
            push_u8(out, 0);
        },
        Option::Some(o) => {
            push_u8(out, 1);
            push_output(out, o);
        },
    }
    push_opt_str(out, &r.error);
    push_metrics(out, &r.metrics);
    proof {
        assert(out@ =~= old(out)@ + spec_enc_result(r@));
    }
}

fn push_config(out: &mut Vec<u8>, c: &AgentConfig)
    ensures
        final(out)@ == old(out)@ + spec_enc_config(c@),
{
    push_str(out, &c.llm_provider);
    push_str(out, &c.llm_model);
    push_opt_u64(out, &c.timeout_seconds);
    push_opt_u32(out, &c.max_retries);
    match &c.environment {
        Option::None => {
            push_u8(out, 0);
        },
        Option::Some(v) => {
            push_u8(out, 1);
            push_u64(out, v.len() as u64);
            push_pairs(out, v, 0);
            proof {
                assert(v.deep_view().skip(0) =~= v.deep_view());
            }
        },
    }
    proof {
        assert(out@ =~= old(out)@ + spec_enc_config(c@));
    }
}

/// Encode a request to its canonical byte form.
pub fn encode_request(r: &AgentRequest) -> (out: Vec<u8>)
    ensures
        out@ == spec_enc_request(r@),
{
    let mut out: Vec<u8> = Vec::new();
    push_str(&mut out, &r.agent_id);
    push_str(&mut out, &r.workflow_id);
    push_str(&mut out, &r.image);
    push_str(&mut out, &r.input);
    push_config(&mut out, &r.config);
    proof {
        assert(out@ =~= spec_enc_request(r@));
    }
    out
}

/// Encode a response to its canonical byte form.
pub fn encode_response(r: &AgentResponse) -> (out: Vec<u8>)
    ensures
        out@ == spec_enc_response(r@),
{
    let mut out: Vec<u8> = Vec::new();
    push_u64(&mut out, r.execution_id);
    push_str(&mut out, &r.agent_id);
    push_status(&mut out, r.status);
    match &r.result {
        Option::None => {
            push_u8(&mut out, 0);
        },
        Option::Some(res) => {
            push_u8(&mut out, 1);
            push_result(&mut out, res);
        },
    }
    push_opt_str(&mut out, &r.error);
    push_u64(&mut out, r.started_at);
    push_opt_u64(&mut out, &r.completed_at);
    proof {
        assert(out@ =~= spec_enc_response(r@));
    }
    out
}

} // verus!

verus! {

// ---------------------------------------------------------------------
// Executable decoders: a cursor into the byte buffer, each tied to the
// corresponding specification decoder on the bytes from the cursor on.
// ---------------------------------------------------------------------

fn read_u8(b: &Vec<u8>, pos: usize) -> (r: Option<(u8, usize)>)
    requires
        pos <= b@.len(),
    ensures
        ({
            let sd = spec_dec_u8(b@.skip(pos as int));
            match r {
                Option::Some(p) => {
                    &&& pos < p.1 <= b@.len()
                    &&& sd matches Option::Some(q)
                    &&& q.0 == p.0
                    &&& q.1 == b@.skip(p.1 as int)
                },
                Option::None => sd is None,
            }
        }),
{
    if pos < b.len() {
        let v: u8 = b[pos];
        proof {
            assert(b@.skip(pos as int)[0] == b@[pos as int]);
            assert(b@.skip(pos as int).skip(1) =~= b@.skip(pos as int + 1));
        }
        Option::Some((v, pos + 1))
    } else {
        Option::None
    }
}

fn read_u32(b: &Vec<u8>, pos: usize) -> (r: Option<(u32, usize)>)
    requires
        pos <= b@.len(),
    ensures
        ({
            let sd = spec_dec_u32(b@.skip(pos as int));
            match r {
                Option::Some(p) => {
                    &&& pos < p.1 <= b@.len()
                    &&& sd matches Option::Some(q)
                    &&& q.0 == p.0
                    &&& q.1 == b@.skip(p.1 as int)
                },
                Option::None => sd is None,
            }
        }),
{
    if b.len() - pos >= 4 {
        let sl = slice_subrange(b.as_slice(), pos, pos + 4);
        let v = u32_from_le_bytes(sl);
        proof {
            assert(b@.skip(pos as int).take(4) =~= b@.subrange(pos as int, pos as int + 4));
            assert(b@.skip(pos as int).skip(4) =~= b@.skip(pos as int + 4));
        }
        Option::Some((v, pos + 4))
    } else {
        Option::None
    }
}

fn read_u64(b: &Vec<u8>, pos: usize) -> (r: Option<(u64, usize)>)
    requires
        pos <= b@.len(),
    ensures
        ({
            let sd = spec_dec_u64(b@.skip(pos as int));
            match r {
                Option::Some(p) => {
                    &&& pos < p.1 <= b@.len()
                    &&& sd matches Option::Some(q)
                    &&& q.0 == p.0
                    &&& q.1 == b@.skip(p.1 as int)
                },
                Option::None => sd is None,
            }
        }),
{
    if b.len() - pos >= 8 {
        let sl = slice_subrange(b.as_slice(), pos, pos + 8);
        let v = u64_from_le_bytes(sl);
        proof {
            assert(b@.skip(pos as int).take(8) =~= b@.subrange(pos as int, pos as int + 8));
            assert(b@.skip(pos as int).skip(8) =~= b@.skip(pos as int + 8));
        }
        Option::Some((v, pos + 8))
    } else {
        Option::None
    }
}

fn read_str(b: &Vec<u8>, pos: usize) -> (r: Option<(String, usize)>)
    requires
        pos <= b@.len(),
    ensures
        ({
            let sd = spec_dec_str(b@.skip(pos as int));
            match r {
                Option::Some(p) => {
                    &&& pos <= p.1 <= b@.len()
                    &&& sd matches Option::Some(q)
                    &&& q.0 == p.0@
                    &&& q.1 == b@.skip(p.1 as int)
                },
                Option::None => sd is None,
            }
        }),
{
    match read_u64(b, pos) {
        Option::None => Option::None,
        Option::Some((n, p1)) => {
            let avail: usize = b.len() - p1;
            if n > avail as u64 {
                Option::None
            } else {
                let n_us: usize = n as usize;
                let sub: Vec<u8> = slice_to_vec(slice_subrange(b.as_slice(), p1, p1 + n_us));
                proof {
                    assert(sub@ =~= b@.skip(p1 as int).take(n as int));
                }
                let ghost subv = sub@;
                match string_from_utf8(sub) {
                    Option::None => {
                        Option::None
                    },
                    Option::Some(s) => {
                        proof {
                            assert(b@.skip(p1 as int).skip(n as int) =~= b@.skip(
                                p1 as int + n as int));
                        }
                        Option::Some((s, p1 + n_us))
                    },
                }
            }
        },
    }
}

fn read_opt_u32(b: &Vec<u8>, pos: usize) -> (r: Option<(Option<u32>, usize)>)
    requires
        pos <= b@.len(),
    ensures
        ({
            let sd = spec_dec_opt_u32(b@.skip(pos as int));
            match r {
                Option::Some(p) => {
                    &&& pos <= p.1 <= b@.len()
                    &&& sd matches Option::Some(q)
                    &&& q.0 == p.0
                    &&& q.1 == b@.skip(p.1 as int)
                },
                Option::None => sd is None,
            }
        }),
{
    match read_u8(b, pos) {
        Option::None => Option::None,
        Option::Some((t, p1)) => {
            if t == 0 {
                Option::Some((Option::None, p1))
            } else if t == 1 {
                match read_u32(b, p1) {
                    Option::None => Option::None,
                    Option::Some((n, p2)) => Option::Some((Option::Some(n), p2)),
                }
            } else {
                Option::None
            }
        },
    }
}

fn read_opt_u64(b: &Vec<u8>, pos: usize) -> (r: Option<(Option<u64>, usize)>)
    requires
        pos <= b@.len(),
    ensures
        ({
            let sd = spec_dec_opt_u64(b@.skip(pos as int));
            match r {
                Option::Some(p) => {
                    &&& pos <= p.1 <= b@.len()
                    &&& sd matches Option::Some(q)
                    &&& q.0 == p.0
                    &&& q.1 == b@.skip(p.1 as int)
                },
                Option::None => sd is None,
            }
        }),
{
    match read_u8(b, pos) {
        Option::None => Option::None,
        Option::Some((t, p1)) => {
            if t == 0 {
                Option::Some((Option::None, p1))
            } else if t == 1 {
                match read_u64(b, p1) {
                    Option::None => Option::None,
                    Option::Some((n, p2)) => Option::Some((Option::Some(n), p2)),
                }
            } else {
                Option::None
            }
        },
    }
}

fn read_opt_str(b: &Vec<u8>, pos: usize) -> (r: Option<(Option<String>, usize)>)
    requires
        pos <= b@.len(),
    ensures
        ({
            let sd = spec_dec_opt_str(b@.skip(pos as int));
            match r {
                Option::Some(p) => {
                    &&& pos <= p.1 <= b@.len()
                    &&& sd matches Option::Some(q)
                    &&& q.0 == (match p.0 {
                        Option::Some(s) => Option::Some(s@),
                        Option::None => Option::None,
                    })
                    &&& q.1 == b@.skip(p.1 as int)
                },
                Option::None => sd is None,
            }
        }),
{
    match read_u8(b, pos) {
        Option::None => Option::None,
        Option::Some((t, p1)) => {
            if t == 0 {
                Option::Some((Option::None, p1))
            } else if t == 1 {
                match read_str(b, p1) {
                    Option::None => Option::None,
                    Option::Some((s, p2)) => Option::Some((Option::Some(s), p2)),
                }
            } else {
                Option::None
            }
        },
    }
}

fn read_status(b: &Vec<u8>, pos: usize) -> (r: Option<(ExecutionStatus, usize)>)
    requires
        pos <= b@.len(),
    ensures
        ({
            let sd = spec_dec_status(b@.skip(pos as int));
            match r {
                Option::Some(p) => {
                    &&& pos <= p.1 <= b@.len()
                    &&& sd matches Option::Some(q)
                    &&& q.0 == p.0
                    &&& q.1 == b@.skip(p.1 as int)
                },
                Option::None => sd is None,
            }
        }),
{
    match read_u8(b, pos) {
        Option::None => Option::None,
        Option::Some((t, p1)) => {
            if t == 0 {
                Option::Some((ExecutionStatus::Pending, p1))
            } else if t == 1 {
                Option::Some((ExecutionStatus::Running, p1))
            } else if t == 2 {
                Option::Some((ExecutionStatus::Completed, p1))
            } else if t == 3 {
                Option::Some((ExecutionStatus::Failed, p1))
            } else if t == 4 {
                Option::Some((ExecutionStatus::Cancelled, p1))
            } else {
                Option::None
            }
        },
    }
}

fn read_metrics(b: &Vec<u8>, pos: usize) -> (r: Option<(ExecutionMetrics, usize)>)
    requires
        pos <= b@.len(),
    ensures
        ({
            let sd = spec_dec_metrics(b@.skip(pos as int));
            match r {
                Option::Some(p) => {
                    &&& pos <= p.1 <= b@.len()
                    &&& sd matches Option::Some(q)
                    &&& q.0 == p.0
                    &&& q.1 == b@.skip(p.1 as int)
                },
                Option::None => sd is None,
            }
        }),
{
    match read_u64(b, pos) {
        Option::None => Option::None,
        Option::Some((mem, p1)) => match read_u64(b, p1) {
            Option::None => Option::None,
            Option::Some((cpu, p2)) => match read_u32(b, p2) {
                Option::None => Option::None,
                Option::Some((llm, p3)) => match read_u64(b, p3) {
                    Option::None => Option::None,
                    Option::Some((t, p4)) => Option::Some(
                        (
                            ExecutionMetrics {
                                memory_usage: mem,
                                cpu_time: cpu,
                                llm_calls: llm,
                                execution_time_ms: t,
                            },
                            p4,
                        ),
                    ),
                },
            },
        },
    }
}

fn read_strs(b: &Vec<u8>, pos: usize, count: u64) -> (r: Option<(Vec<String>, usize)>)
    requires
        pos <= b@.len(),
    ensures
        ({
            let sd = spec_dec_str_seq(b@.skip(pos as int), count as nat);
            match r {
                Option::Some(p) => {
                    &&& pos <= p.1 <= b@.len()
                    &&& sd matches Option::Some(q)
                    &&& q.0 == p.0.deep_view()
                    &&& q.1 == b@.skip(p.1 as int)
                },
                Option::None => sd is None,
            }
        }),
    decreases count,
{
    if count == 0 {
        let v: Vec<String> = Vec::new();
        proof {
            assert(v.deep_view() =~= Seq::<Seq<char>>::empty());
        }
        Option::Some((v, pos))
    } else {
        match read_str(b, pos) {
            Option::None => Option::None,
            Option::Some((s, p1)) => {
                let ghost sv = s@;
                match read_strs(b, p1, count - 1) {
                    Option::None => Option::None,
                    Option::Some((tail, p2)) => {
                        let ghost tailv = tail.deep_view();
                        let mut v = tail;
                        v.insert(0, s);
                        proof {
                            assert(v.deep_view() =~= seq![sv] + tailv);
                        }
                        Option::Some((v, p2))
                    },
                }
            },
        }
    }
}

fn read_pairs(b: &Vec<u8>, pos: usize, count: u64) -> (r: Option<(Vec<(String, String)>, usize)>)
    requires
        pos <= b@.len(),
    ensures
        ({
            let sd = spec_dec_pair_seq(b@.skip(pos as int), count as nat);
            match r {
                Option::Some(p) => {
                    &&& pos <= p.1 <= b@.len()
                    &&& sd matches Option::Some(q)
                    &&& q.0 == p.0.deep_view()
                    &&& q.1 == b@.skip(p.1 as int)
                },
                Option::None => sd is None,
            }
        }),
    decreases count,
{
    if count == 0 {
        let v: Vec<(String, String)> = Vec::new();
        proof {
            assert(v.deep_view() =~= Seq::<(Seq<char>, Seq<char>)>::empty());
        }
        Option::Some((v, pos))
    } else {
        match read_str(b, pos) {
            Option::None => Option::None,
            Option::Some((k, p1)) => {
                let ghost kv = k@;
                match read_str(b, p1) {
                    Option::None => Option::None,
                    Option::Some((val, p2)) => {
                        let ghost vv = val@;
                        match read_pairs(b, p2, count - 1) {
                            Option::None => Option::None,
                            Option::Some((tail, p3)) => {
                                let ghost tailv = tail.deep_view();
                                let mut v = tail;
                                v.insert(0, (k, val));
                                proof {
                                    assert(v.deep_view() =~= seq![(kv, vv)] + tailv);
                                }
                                Option::Some((v, p3))
                            },
                        }
                    },
                }
            },
        }
    }
}

} // verus!

verus! {

fn read_output(b: &Vec<u8>, pos: usize) -> (r: Option<(AgentOutput, usize)>)
    requires
        pos <= b@.len(),
    ensures
        ({
            let sd = spec_dec_output(b@.skip(pos as int));
            match r {
                Option::Some(p) => {
                    &&& pos <= p.1 <= b@.len()
                    &&& sd matches Option::Some(q)
                    &&& q.0 == p.0@
                    &&& q.1 == b@.skip(p.1 as int)
                },
                Option::None => sd is None,
            }
        }),
{
    match read_str(b, pos) {
        Option::None => Option::None,
        Option::Some((res, p1)) => match read_opt_u32(b, p1) {
            Option::None => Option::None,
            Option::Some((llm, p2)) => match read_u8(b, p2) {
                Option::None => Option::None,
                Option::Some((t, p3)) => {
                    if t == 0 {
                        let out = AgentOutput { result: res, llm_calls: llm, artifacts: Option::None };
                        proof {
                            assert(out@ =~= (spec_dec_output(b@.skip(pos as int))->0).0);
                        }
                        Option::Some((out, p3))
                    } else if t == 1 {
                        match read_u64(b, p3) {
                            Option::None => Option::None,
                            Option::Some((n, p4)) => match read_strs(b, p4, n) {
                                Option::None => Option::None,
                                Option::Some((l, p5)) => {
                                    let out = AgentOutput {
                                        result: res,
                                        llm_calls: llm,
                                        artifacts: Option::Some(l),
                                    };
                                    proof {
                                        assert(out@ =~= (spec_dec_output(b@.skip(pos as int))->0).0);
                                    }
                                    Option::Some((out, p5))
                                },
                            },
                        }
                    } else {
                        Option::None
                    }
                },
            },
        },
    }
}

fn read_result(b: &Vec<u8>, pos: usize) -> (r: Option<(AgentResult, usize)>)
    requires
        pos <= b@.len(),
    ensures
        ({
            let sd = spec_dec_result(b@.skip(pos as int));
            match r {
                Option::Some(p) => {
                    &&& pos <= p.1 <= b@.len()
                    &&& sd matches Option::Some(q)
                    &&& q.0 == p.0@
                    &&& q.1 == b@.skip(p.1 as int)
                },
                Option::None => sd is None,
            }
        }),
{
    match read_u8(b, pos) {
        Option::None => Option::None,
        Option::Some((su, p1)) => {
            if su != 0 && su != 1 {
                Option::None
            } else {
                match read_u8(b, p1) {
                    Option::None => Option::None,
                    Option::Some((t, p2)) => {
                        let out: Option<(Option<AgentOutput>, usize)> = if t == 0 {
                            Option::Some((Option::None, p2))
                        } else if t == 1 {
                            match read_output(b, p2) {
                                Option::None => Option::None,
                                Option::Some((o, p3)) => Option::Some((Option::Some(o), p3)),
                            }
                        } else {
                            Option::None
                        };
                        match out {
                            Option::None => Option::None,
                            Option::Some((o, p3)) => match read_opt_str(b, p3) {
                                Option::None => Option::None,
                                Option::Some((e, p4)) => match read_metrics(b, p4) {
                                    Option::None => Option::None,
                                    Option::Some((m, p5)) => {
                                        let res = AgentResult {
                                            success: su == 1,
                                            output: o,
                                            error: e,
                                            metrics: m,
                                        };
                                        proof {
                                            assert(res@ =~= (spec_dec_result(
                                                b@.skip(pos as int))->0).0);
                                        }
                                        Option::Some((res, p5))
                                    },
                                },
                            },
                        }
                    },
                }
            }
        },
    }
}

fn read_config(b: &Vec<u8>, pos: usize) -> (r: Option<(AgentConfig, usize)>)
    requires
        pos <= b@.len(),
    ensures
        ({
            let sd = spec_dec_config(b@.skip(pos as int));
            match r {
                Option::Some(p) => {
                    &&& pos <= p.1 <= b@.len()
                    &&& sd matches Option::Some(q)
                    &&& q.0 == p.0@
                    &&& q.1 == b@.skip(p.1 as int)
                },
                Option::None => sd is None,
            }
        }),
{
    match read_str(b, pos) {
        Option::None => Option::None,
        Option::Some((prov, p1)) => match read_str(b, p1) {
            Option::None => Option::None,
            Option::Some((model, p2)) => match read_opt_u64(b, p2) {
                Option::None => Option::None,
                Option::Some((tmo, p3)) => match read_opt_u32(b, p3) {
                    Option::None => Option::None,
                    Option::Some((mr, p4)) => match read_u8(b, p4) {
                        Option::None => Option::None,
                        Option::Some((t, p5)) => {
                            if t == 0 {
                                let c = AgentConfig {
                                    llm_provider: prov,
                                    llm_model: model,
                                    timeout_seconds: tmo,
                                    max_retries: mr,
                                    environment: Option::None,
                                };
                                proof {
                                    assert(c@ =~= (spec_dec_config(b@.skip(pos as int))->0).0);
                                }
                                Option::Some((c, p5))
                            } else if t == 1 {
                                match read_u64(b, p5) {
                                    Option::None => Option::None,
                                    Option::Some((n, p6)) => match read_pairs(b, p6, n) {
                                        Option::None => Option::None,
                                        Option::Some((l, p7)) => {
                                            let c = AgentConfig {
                                                llm_provider: prov,
                                                llm_model: model,
                                                timeout_seconds: tmo,
                                                max_retries: mr,
                                                environment: Option::Some(l),
                                            };
                                            proof {
                                                assert(c@ =~= (spec_dec_config(
                                                    b@.skip(pos as int))->0).0);
                                            }
                                            Option::Some((c, p7))
                                        },
                                    },
                                }
                            } else {
                                Option::None
                            }
                        },
                    },
                },
            },
        },
    }
}

/// Parse a whole inbound payload as a request.  Succeeds exactly when
/// the bytes are a canonical request consumed in full and the request
/// meets the acceptance constraints; a malformed payload yields nothing.
pub fn parse_request(b: &Vec<u8>) -> (r: Option<AgentRequest>)
    ensures
        ({
            let sp = spec_parse_request(b@);
            match r {
                Option::Some(req) => sp matches Option::Some(v) && v == req@ && req@.valid(),
                Option::None => sp is None,
            }
        }),
{
    proof {
        assert(b@.skip(0) =~= b@);
    }
    match read_str(b, 0) {
        Option::None => Option::None,
        Option::Some((agent, p1)) => match read_str(b, p1) {
            Option::None => Option::None,
            Option::Some((wf, p2)) => match read_str(b, p2) {
                Option::None => Option::None,
                Option::Some((image, p3)) => match read_str(b, p3) {
                    Option::None => Option::None,
                    Option::Some((input, p4)) => match read_config(b, p4) {
                        Option::None => Option::None,
                        Option::Some((c, p5)) => {
                            if p5 != b.len() {
                                Option::None
                            } else {
                                let agent_len: usize = agent.as_str().unicode_len();
                                let image_len: usize = image.as_str().unicode_len();
                                let timeout_pos: bool = match &c.timeout_seconds {
                                    Option::Some(t) => *t > 0,
                                    Option::None => true,
                                };
                                let env_ok: bool = match &c.environment {
                                    Option::Some(list) => crate::agent::env_keys_distinct(list),
                                    Option::None => true,
                                };
                                if agent_len > 0 && image_len > 0 && timeout_pos && env_ok {
                                    let req = AgentRequest {
                                        agent_id: agent,
                                        workflow_id: wf,
                                        image,
                                        input,
                                        config: c,
                                    };
                                    proof {
                                        assert(req@ =~= (spec_dec_request(b@)->0).0);
                                        assert(b@.skip(p5 as int).len() == 0);
                                    }
                                    Option::Some(req)
                                } else {
                                    proof {
                                        assert(b@.skip(p5 as int).len() == 0);
                                    }
                                    Option::None
                                }
                            }
                        },
                    },
                },
            },
        },
    }
}

/// Parse a whole payload as a response.  Succeeds exactly when the
/// bytes are a canonical response consumed in full.
pub fn parse_response(b: &Vec<u8>) -> (r: Option<AgentResponse>)
    ensures
        ({
            let sp = spec_parse_response(b@);
            match r {
                Option::Some(resp) => sp matches Option::Some(v) && v == resp@,
                Option::None => sp is None,
            }
        }),
{
    proof {
        assert(b@.skip(0) =~= b@);
    }
    match read_u64(b, 0) {
        Option::None => Option::None,
        Option::Some((id, p1)) => match read_str(b, p1) {
            Option::None => Option::None,
            Option::Some((agent, p2)) => match read_status(b, p2) {
                Option::None => Option::None,
                Option::Some((st, p3)) => match read_u8(b, p3) {
                    Option::None => Option::None,
                    Option::Some((t, p4)) => {
                        let res: Option<(Option<AgentResult>, usize)> = if t == 0 {
                            Option::Some((Option::None, p4))
                        } else if t == 1 {
                            match read_result(b, p4) {
                                Option::None => Option::None,
                                Option::Some((v, p5)) => Option::Some((Option::Some(v), p5)),
                            }
                        } else {
                            Option::None
                        };
                        match res {
                            Option::None => Option::None,
                            Option::Some((result, p5)) => match read_opt_str(b, p5) {
                                Option::None => Option::None,
                                Option::Some((err, p6)) => match read_u64(b, p6) {
                                    Option::None => Option::None,
                                    Option::Some((started, p7)) => match read_opt_u64(b, p7) {
                                        Option::None => Option::None,
                                        Option::Some((completed, p8)) => {
                                            if p8 != b.len() {
                                                Option::None
                                            } else {
                                                let resp = AgentResponse {
                                                    execution_id: id,
                                                    agent_id: agent,
                                                    status: st,
                                                    result,
                                                    error: err,
                                                    started_at: started,
                                                    completed_at: completed,
                                                };
                                                proof {
                                                    assert(resp@ =~= (spec_dec_response(b@)->0).0);
                                                    assert(b@.skip(p8 as int).len() == 0);
                                                }
                                                Option::Some(resp)
                                            }
                                        },
                                    },
                                },
                            },
                        }
                    },
                },
            },
        },
    }
}

} // verus!

verus! {

/// Parse a whole guest output buffer.  Succeeds exactly when the bytes
/// are a canonical output consumed in full.
pub fn parse_output(b: &Vec<u8>) -> (r: Option<AgentOutput>)
    ensures
        ({
            let sd = spec_dec_output(b@);
            match r {
                Option::Some(o) => sd matches Option::Some(q) && q.0 == o@ && q.1.len() == 0,
                Option::None => !(sd matches Option::Some(q) && q.1.len() == 0),
            }
        }),
{
    proof {
        assert(b@.skip(0) =~= b@);
    }
    match read_output(b, 0) {
        Option::None => Option::None,
        Option::Some((o, p)) => {
            if p == b.len() {
                proof {
                    assert(b@.skip(p as int).len() == 0);
                }
                Option::Some(o)
            } else {
                proof {
                    assert(b@.skip(p as int).len() > 0);
                }
                Option::None
            }
        },
    }
}

} // verus!

verus! {

/// Frame a payload for the guest: its UTF-8 bytes behind a 64-bit
/// length prefix, the same canonical string form the wire codec uses.
pub fn encode_str_frame(s: &String) -> (out: Vec<u8>)
    ensures
        out@ == spec_enc_str(s@),
{
    let mut out: Vec<u8> = Vec::new();
    push_str(&mut out, s);
    proof {
        assert(out@ =~= spec_enc_str(s@));
    }
    out
}

} // verus!
