//! What holds of the boundary calls whatever engine stands behind them.
//!
//! Each law speaks of `verify_wav_returns` or `hash_wav_returns`, the
//! relations that `verify_wav` and `hash_wav` ensure between their
//! parameters, the guarded engine and their result.

use vstd::prelude::*;
use crate::boundary::{decoded_request, hash_wav_returns, verify_wav_returns};
use crate::error::{Failure, Param};
use crate::isolation::{HashReport, Request, VerifyReport, VerifyRequest};
use crate::marshal::{all_text, texts_of};
use crate::value::Dynamic;

verus! {

/// The four parameters of a verification call are all text.
pub open spec fn all_parameters_text(
    vk: Dynamic,
    proof: Dynamic,
    public_vals: Seq<Dynamic>,
    config: Dynamic,
) -> bool {
    vk is Text && proof is Text && all_text(public_vals) && config is Text
}

/// A verification call with a parameter that is not text fails with
/// `InvalidInputKind`, and the engine has no part in it: the call returns
/// the same with any other engine in its place.
pub proof fn lemma_invalid_input_never_reaches_engine<E, F>(
    engine: E,
    other: F,
    vk: Dynamic,
    proof: Dynamic,
    public_vals: Seq<Dynamic>,
    config: Dynamic,
    result: Result<(), Failure>,
) where E: FnOnce(VerifyRequest) -> VerifyReport, F: FnOnce(VerifyRequest) -> VerifyReport
    requires
        !all_parameters_text(vk, proof, public_vals, config),
        verify_wav_returns(engine, vk, proof, public_vals, config, result),
    ensures
        result matches Err(failure) && failure is InvalidInputKind,
        verify_wav_returns(other, vk, proof, public_vals, config, result),
{
}

/// A hash call on a value that is not text fails with `InvalidInputKind`,
/// and the primitive has no part in it.
pub proof fn lemma_invalid_hash_input_never_reaches_primitive<H, G>(
    primitive: H,
    other: G,
    wav: Dynamic,
    result: Result<Dynamic, Failure>,
) where H: FnOnce(String) -> HashReport, G: FnOnce(String) -> HashReport
    requires
        !(wav is Text),
        hash_wav_returns(primitive, wav, result),
    ensures
        result == Err::<Dynamic, Failure>(Failure::InvalidInputKind(Param::HashInput)),
        hash_wav_returns(other, wav, result),
{
}

/// Where all parameters are text and the engine accepts the request that
/// they decode to, the verification call succeeds: on the first call and on
/// every repetition, since `result` is the result of any such call.
pub proof fn lemma_accepted_proof_always_verifies<E>(
    engine: E,
    vk: Dynamic,
    proof: Dynamic,
    public_vals: Seq<Dynamic>,
    config: Dynamic,
    result: Result<(), Failure>,
) where E: FnOnce(VerifyRequest) -> VerifyReport
    requires
        all_parameters_text(vk, proof, public_vals, config),
        forall|request: VerifyRequest, report: VerifyReport|
            decoded_request(vk, proof, public_vals, config) == Ok::<Request, Failure>(request@)
                && #[trigger] call_ensures(engine, (request,), report) ==> report@ is Accepted,
        verify_wav_returns(engine, vk, proof, public_vals, config, result),
    ensures
        result == Ok::<(), Failure>(()),
{
}

/// Two verification calls with the same parameters return the same, as long
/// as the engine reports the same for the same texts.
pub proof fn lemma_verify_wav_deterministic<E>(
    engine: E,
    vk: Dynamic,
    proof: Dynamic,
    public_vals: Seq<Dynamic>,
    config: Dynamic,
    first: Result<(), Failure>,
    second: Result<(), Failure>,
) where E: FnOnce(VerifyRequest) -> VerifyReport
    requires
        forall|r1: VerifyRequest, r2: VerifyRequest, p1: VerifyReport, p2: VerifyReport|
            r1@ == r2@ && #[trigger] call_ensures(engine, (r1,), p1) && #[trigger] call_ensures(
                engine,
                (r2,),
                p2,
            ) ==> p1@ == p2@,
        verify_wav_returns(engine, vk, proof, public_vals, config, first),
        verify_wav_returns(engine, vk, proof, public_vals, config, second),
    ensures
        first == second,
{
}

/// Two hash calls on the same value return the same digest, as long as the
/// primitive reports the same for the same text.
pub proof fn lemma_hash_wav_deterministic<H>(
    primitive: H,
    wav: Dynamic,
    first: Result<Dynamic, Failure>,
    second: Result<Dynamic, Failure>,
) where H: FnOnce(String) -> HashReport
    requires
        forall|i1: String, i2: String, p1: HashReport, p2: HashReport|
            i1@ == i2@ && #[trigger] call_ensures(primitive, (i1,), p1) && #[trigger] call_ensures(
                primitive,
                (i2,),
                p2,
            ) ==> p1@ == p2@,
        hash_wav_returns(primitive, wav, first),
        hash_wav_returns(primitive, wav, second),
    ensures
        first == second,
{
}

/// Where all parameters are text and the engine aborts on the request that
/// they decode to, the verification call fails with `EngineFault`.
pub proof fn lemma_engine_abort_is_engine_fault<E>(
    engine: E,
    vk: Dynamic,
    proof: Dynamic,
    public_vals: Seq<Dynamic>,
    config: Dynamic,
    result: Result<(), Failure>,
) where E: FnOnce(VerifyRequest) -> VerifyReport
    requires
        all_parameters_text(vk, proof, public_vals, config),
        forall|request: VerifyRequest, report: VerifyReport|
            decoded_request(vk, proof, public_vals, config) == Ok::<Request, Failure>(request@)
                && #[trigger] call_ensures(engine, (request,), report) ==> report@ is Aborted,
        verify_wav_returns(engine, vk, proof, public_vals, config, result),
    ensures
        result matches Err(failure) && failure is EngineFault,
{
}

/// Where the input is text and the primitive aborts on it, the hash call
/// fails with `EngineFault`.
pub proof fn lemma_primitive_abort_is_engine_fault<H>(
    primitive: H,
    wav: Dynamic,
    result: Result<Dynamic, Failure>,
) where H: FnOnce(String) -> HashReport
    requires
        wav is Text,
        forall|input: String, report: HashReport|
            wav == Dynamic::Text(input@) && #[trigger] call_ensures(primitive, (input,), report)
                ==> report@ is Aborted,
        hash_wav_returns(primitive, wav, result),
    ensures
        result matches Err(failure) && failure is EngineFault,
{
}

/// The engine sees the public values exactly as given, in their order.
///
/// Take an engine that accepts a request exactly when its public values are
/// those of `matching`. The call with `matching` succeeds. The call with any
/// other textual public values, such as the same texts in another order,
/// fails.
pub proof fn lemma_public_values_keep_their_order<E>(
    engine: E,
    vk: Dynamic,
    proof: Dynamic,
    matching: Seq<Dynamic>,
    other: Seq<Dynamic>,
    config: Dynamic,
    matched: Result<(), Failure>,
    mismatched: Result<(), Failure>,
) where E: FnOnce(VerifyRequest) -> VerifyReport
    requires
        all_parameters_text(vk, proof, matching, config),
        all_text(other),
        other != matching,
        forall|request: VerifyRequest, report: VerifyReport| #[trigger]
            call_ensures(engine, (request,), report) ==> (report@ is Accepted
                <==> request@.public_vals == texts_of(matching)),
        verify_wav_returns(engine, vk, proof, matching, config, matched),
        verify_wav_returns(engine, vk, proof, other, config, mismatched),
    ensures
        matched == Ok::<(), Failure>(()),
        mismatched is Err,
{
    if texts_of(other) == texts_of(matching) {
        assert(texts_of(other).len() == other.len());
        assert(texts_of(matching).len() == matching.len());
        assert forall|i: int| 0 <= i < other.len() implies other[i] == matching[i] by {
            assert(other[i] is Text);
            assert(matching[i] is Text);
            assert(texts_of(other)[i] == texts_of(matching)[i]);
        }
        assert(other =~= matching);
    }
}

} // verus!
