//! The two calls that the host makes.
//!
//! Each call decodes its parameters, hands the decoded texts to the guarded
//! engine, and turns the report into the call's result. The engine comes in
//! as a closure from the decoded texts to a report: the host supplies the
//! guard around the real engine.

use vstd::prelude::*;
use crate::error::{outcome, BridgeError, Failure, Param};
use crate::isolation::{
    conclude_hash, conclude_verify, digest_outcome, verification_outcome, AbortHook, HashReport,
    Request, VerifyReport, VerifyRequest,
};
use crate::marshal::{
    all_text, contents, decode_text, decode_text_sequence, first_non_text, texts_of,
};
use crate::value::{Dynamic, HostValue};

verus! {

/// The request that the four parameters of a verification call decode to, or
/// the failure naming the first parameter that is not text.
///
/// The parameters are taken in the order verification key, proof, public
/// values from the first to the last, configuration.
pub open spec fn decoded_request(
    vk: Dynamic,
    proof: Dynamic,
    public_vals: Seq<Dynamic>,
    config: Dynamic,
) -> Result<Request, Failure> {
    if !(vk is Text) {
        Err(Failure::InvalidInputKind(Param::VerificationKey))
    } else if !(proof is Text) {
        Err(Failure::InvalidInputKind(Param::Proof))
    } else if !all_text(public_vals) {
        Err(Failure::InvalidInputKind(Param::PublicValue(first_non_text(public_vals) as usize)))
    } else if !(config is Text) {
        Err(Failure::InvalidInputKind(Param::Config))
    } else {
        Ok(
            Request {
                vk: vk->Text_0,
                proof: proof->Text_0,
                public_vals: texts_of(public_vals),
                config: config->Text_0,
            },
        )
    }
}

/// Decodes the four parameters of a verification call into the request for
/// the engine.
///
/// Fails with `InvalidInputKind` naming the first parameter that is not
/// text; then there is no request, and nothing to hand to the engine.
pub fn decode_request(
    vk: &HostValue,
    proof: &HostValue,
    public_vals: &Vec<HostValue>,
    config: &HostValue,
) -> (result: Result<VerifyRequest, BridgeError>)
    ensures
        outcome(result) == decoded_request(vk@, proof@, contents(public_vals@), config@),
{
    let vk_text = match decode_text(vk, Param::VerificationKey) {
        Ok(text) => text,
        Err(error) => {
            return Err(error);
        },
    };
    let proof_text = match decode_text(proof, Param::Proof) {
        Ok(text) => text,
        Err(error) => {
            return Err(error);
        },
    };
    let texts = match decode_text_sequence(public_vals) {
        Ok(texts) => texts,
        Err(error) => {
            return Err(error);
        },
    };
    let config_text = match decode_text(config, Param::Config) {
        Ok(text) => text,
        Err(error) => {
            return Err(error);
        },
    };
    Ok(VerifyRequest { vk: vk_text, proof: proof_text, public_vals: texts, config: config_text })
}

/// `result` is what a verification call with these parameters may return
/// when `engine` is the guarded engine.
///
/// Where a parameter is not text, the result is the failure naming the first
/// such parameter, whatever `engine` is. Otherwise `engine` was invoked with
/// a request that holds exactly the decoded texts, and the result is what
/// its report stands for.
pub open spec fn verify_wav_returns<E: FnOnce(VerifyRequest) -> VerifyReport>(
    engine: E,
    vk: Dynamic,
    proof: Dynamic,
    public_vals: Seq<Dynamic>,
    config: Dynamic,
    result: Result<(), Failure>,
) -> bool {
    match decoded_request(vk, proof, public_vals, config) {
        Err(failure) => result == Err::<(), Failure>(failure),
        Ok(expected) => exists|request: VerifyRequest, report: VerifyReport|
            request@ == expected && #[trigger] call_ensures(engine, (request,), report) && result
                == verification_outcome(report@),
    }
}

/// `result` is what a hash call on `wav` may return when `primitive` is the
/// guarded hashing primitive.
///
/// Where `wav` is not text, the result is `InvalidInputKind`, whatever
/// `primitive` is. Otherwise `primitive` was invoked with exactly the text of
/// `wav`, and the result is what its report stands for.
pub open spec fn hash_wav_returns<H: FnOnce(String) -> HashReport>(
    primitive: H,
    wav: Dynamic,
    result: Result<Dynamic, Failure>,
) -> bool {
    match wav {
        Dynamic::Text(text) => exists|input: String, report: HashReport|
            input@ == text && #[trigger] call_ensures(primitive, (input,), report) && result
                == digest_outcome(report@),
        _ => result == Err::<Dynamic, Failure>(Failure::InvalidInputKind(Param::HashInput)),
    }
}

/// Verifies a proof against a verification key, public values and a
/// configuration, all given as host values.
///
/// `engine` is the guarded verification engine. It is invoked at most once,
/// and only with the request that the parameters decode to: where a
/// parameter is not text the call fails with `InvalidInputKind` and `engine`
/// need not even be callable. Otherwise the result is what `engine`'s report
/// stands for: success without a value, `VerificationFailed`, or
/// `EngineFault`.
///
/// The abort hook must have been armed before.
pub fn verify_wav<E>(
    hook: &AbortHook,
    vk: HostValue,
    proof: HostValue,
    public_vals: Vec<HostValue>,
    config: HostValue,
    engine: E,
) -> (result: Result<(), BridgeError>) where E: FnOnce(VerifyRequest) -> VerifyReport
    requires
        hook.installed(),
        forall|request: VerifyRequest|
            decoded_request(vk@, proof@, contents(public_vals@), config@) == Ok::<Request, Failure>(
                request@,
            ) ==> call_requires(engine, (request,)),
    ensures
        verify_wav_returns(engine, vk@, proof@, contents(public_vals@), config@, outcome(result)),
{
    match decode_request(&vk, &proof, &public_vals, &config) {
        Err(error) => Err(error),
        Ok(request) => {
            let report = engine(request);
            conclude_verify(report)
        },
    }
}

/// Hashes a text given as a host value and returns the digest as a host
/// value.
///
/// `primitive` is the guarded hashing primitive. It is invoked at most once,
/// and only with the text that `wav` holds: where `wav` is not text the call
/// fails with `InvalidInputKind` and `primitive` need not even be callable.
/// Otherwise the result is the reported digest as text, unchanged, or
/// `EngineFault`.
///
/// The abort hook must have been armed before.
pub fn hash_wav<H>(hook: &AbortHook, wav: HostValue, primitive: H) -> (result: Result<
    HostValue,
    BridgeError,
>) where H: FnOnce(String) -> HashReport
    requires
        hook.installed(),
        forall|input: String| wav@ == Dynamic::Text(input@) ==> call_requires(primitive, (input,)),
    ensures
        hash_wav_returns(primitive, wav@, outcome(result)),
{
    match decode_text(&wav, Param::HashInput) {
        Err(error) => Err(error),
        Ok(input) => {
            let report = primitive(input);
            conclude_hash(report)
        },
    }
}

} // verus!
