use std::cell::{Cell, RefCell};

use wav_bridge::error::{BridgeError, Param};
use wav_bridge::isolation::{AbortHook, HashReport, VerifyReport, VerifyRequest};
use wav_bridge::value::HostValue;
use wav_bridge::{hash_wav, verify_wav};

fn text(s: &str) -> HostValue {
    HostValue::Text(String::from(s))
}

fn texts(items: &[&str]) -> Vec<HostValue> {
    items.iter().map(|s| text(s)).collect()
}

fn armed_hook() -> AbortHook {
    let mut hook = AbortHook::new();
    hook.arm();
    hook
}

fn non_text_values() -> Vec<HostValue> {
    vec![
        HostValue::Undefined,
        HostValue::Null,
        HostValue::Boolean(true),
        HostValue::Number,
        HostValue::Object,
    ]
}

/// A stand-in for the verification engine: it accepts exactly the public
/// values "a", "b" in that order, under the key "vk", the proof "proof" and
/// the configuration "kzg", and aborts on a configuration it does not know.
fn ordered_engine(request: VerifyRequest) -> VerifyReport {
    if request.config != "kzg" {
        return VerifyReport::Aborted(format!("unsupported configuration: {}", request.config));
    }
    let expected = vec![String::from("a"), String::from("b")];
    if request.vk == "vk" && request.proof == "proof" && request.public_vals == expected {
        VerifyReport::Accepted
    } else {
        VerifyReport::Rejected
    }
}

/// A stand-in for the hashing primitive: a 64-bit FNV-1a digest in hex.
fn stand_in_digest(input: String) -> HashReport {
    let mut state: u64 = 0xcbf2_9ce4_8422_2325;
    for byte in input.bytes() {
        state ^= u64::from(byte);
        state = state.wrapping_mul(0x0000_0100_0000_01b3);
    }
    HashReport::Digest(format!("{:016x}", state))
}

#[test]
fn verify_wav_succeeds_on_what_the_engine_accepts() {
    let hook = armed_hook();
    let result =
        verify_wav(&hook, text("vk"), text("proof"), texts(&["a", "b"]), text("kzg"), ordered_engine);
    assert_eq!(result, Ok(()));
}

#[test]
fn verify_wav_hands_the_engine_the_decoded_texts() {
    let hook = armed_hook();
    let seen: RefCell<Option<VerifyRequest>> = RefCell::new(None);
    let result = verify_wav(
        &hook,
        text("key"),
        text("π"),
        texts(&["3", "1", "2"]),
        text(""),
        |request: VerifyRequest| {
            *seen.borrow_mut() = Some(request);
            VerifyReport::Accepted
        },
    );
    assert_eq!(result, Ok(()));
    assert_eq!(
        seen.into_inner(),
        Some(VerifyRequest {
            vk: String::from("key"),
            proof: String::from("π"),
            public_vals: vec![String::from("3"), String::from("1"), String::from("2")],
            config: String::new(),
        })
    );
}

#[test]
fn verify_wav_invokes_the_engine_once() {
    let hook = armed_hook();
    let calls = Cell::new(0u32);
    let result = verify_wav(&hook, text("vk"), text("proof"), texts(&[]), text("kzg"), |_request| {
        calls.set(calls.get() + 1);
        VerifyReport::Accepted
    });
    assert_eq!(result, Ok(()));
    assert_eq!(calls.get(), 1);
}

#[test]
fn verify_wav_rejects_a_non_text_key_without_the_engine() {
    let hook = armed_hook();
    for value in non_text_values() {
        let calls = Cell::new(0u32);
        let result = verify_wav(&hook, value, text("proof"), texts(&["a"]), text("kzg"), |_request| {
            calls.set(calls.get() + 1);
            VerifyReport::Accepted
        });
        assert_eq!(result, Err(BridgeError::InvalidInputKind(Param::VerificationKey)));
        assert_eq!(calls.get(), 0);
    }
}

#[test]
fn verify_wav_rejects_a_non_text_proof_without_the_engine() {
    let hook = armed_hook();
    for value in non_text_values() {
        let calls = Cell::new(0u32);
        let result = verify_wav(&hook, text("vk"), value, texts(&["a"]), text("kzg"), |_request| {
            calls.set(calls.get() + 1);
            VerifyReport::Accepted
        });
        assert_eq!(result, Err(BridgeError::InvalidInputKind(Param::Proof)));
        assert_eq!(calls.get(), 0);
    }
}

#[test]
fn verify_wav_rejects_a_non_text_public_value_without_the_engine() {
    let hook = armed_hook();
    for value in non_text_values() {
        let calls = Cell::new(0u32);
        let public_vals = vec![text("a"), text("b"), value, text("d")];
        let result = verify_wav(&hook, text("vk"), text("proof"), public_vals, text("kzg"), |_request| {
            calls.set(calls.get() + 1);
            VerifyReport::Accepted
        });
        assert_eq!(result, Err(BridgeError::InvalidInputKind(Param::PublicValue(2))));
        assert_eq!(calls.get(), 0);
    }
}

#[test]
fn verify_wav_rejects_a_non_text_config_without_the_engine() {
    let hook = armed_hook();
    for value in non_text_values() {
        let calls = Cell::new(0u32);
        let result = verify_wav(&hook, text("vk"), text("proof"), texts(&["a"]), value, |_request| {
            calls.set(calls.get() + 1);
            VerifyReport::Accepted
        });
        assert_eq!(result, Err(BridgeError::InvalidInputKind(Param::Config)));
        assert_eq!(calls.get(), 0);
    }
}

#[test]
fn verify_wav_reports_the_first_invalid_parameter() {
    let hook = armed_hook();
    let result = verify_wav(
        &hook,
        text("vk"),
        HostValue::Number,
        vec![HostValue::Null],
        HostValue::Object,
        ordered_engine,
    );
    assert_eq!(result, Err(BridgeError::InvalidInputKind(Param::Proof)));
    let result = verify_wav(
        &hook,
        text("vk"),
        text("proof"),
        vec![text("a"), HostValue::Null, HostValue::Number],
        HostValue::Object,
        ordered_engine,
    );
    assert_eq!(result, Err(BridgeError::InvalidInputKind(Param::PublicValue(1))));
}

#[test]
fn verify_wav_fails_when_the_engine_rejects() {
    let hook = armed_hook();
    let result = verify_wav(
        &hook,
        text("vk"),
        text("another proof"),
        texts(&["a", "b"]),
        text("kzg"),
        ordered_engine,
    );
    assert_eq!(result, Err(BridgeError::VerificationFailed));
}

#[test]
fn verify_wav_reports_an_engine_abort_as_engine_fault() {
    let hook = armed_hook();
    let result =
        verify_wav(&hook, text("vk"), text("proof"), texts(&["a", "b"]), text("ipa"), ordered_engine);
    assert_eq!(
        result,
        Err(BridgeError::EngineFault(String::from("unsupported configuration: ipa")))
    );
}

#[test]
fn verify_wav_keeps_working_after_repeated_faults() {
    let mut hook = AbortHook::new();
    assert!(hook.arm());
    for _ in 0..3 {
        assert!(!hook.arm());
        let result = verify_wav(&hook, text("vk"), text("proof"), texts(&["a", "b"]), text("ipa"), |_r| {
            VerifyReport::Aborted(String::from("internal invariant violated"))
        });
        assert_eq!(
            result,
            Err(BridgeError::EngineFault(String::from("internal invariant violated")))
        );
        assert!(hook.is_installed());
    }
    let result =
        verify_wav(&hook, text("vk"), text("proof"), texts(&["a", "b"]), text("kzg"), ordered_engine);
    assert_eq!(result, Ok(()));
}

#[test]
fn verify_wav_succeeds_on_every_repetition() {
    let hook = armed_hook();
    for _ in 0..4 {
        let result = verify_wav(
            &hook,
            text("vk"),
            text("proof"),
            texts(&["a", "b"]),
            text("kzg"),
            ordered_engine,
        );
        assert_eq!(result, Ok(()));
    }
}

#[test]
fn verify_wav_is_sensitive_to_the_order_of_public_values() {
    let hook = armed_hook();
    let matching =
        verify_wav(&hook, text("vk"), text("proof"), texts(&["a", "b"]), text("kzg"), ordered_engine);
    assert_eq!(matching, Ok(()));
    let swapped =
        verify_wav(&hook, text("vk"), text("proof"), texts(&["b", "a"]), text("kzg"), ordered_engine);
    assert_eq!(swapped, Err(BridgeError::VerificationFailed));
}

#[test]
fn verify_wav_accepts_no_public_values() {
    let hook = armed_hook();
    let seen: RefCell<Option<VerifyRequest>> = RefCell::new(None);
    let result = verify_wav(&hook, text("vk"), text("proof"), Vec::new(), text("kzg"), |request| {
        *seen.borrow_mut() = Some(request);
        VerifyReport::Rejected
    });
    assert_eq!(result, Err(BridgeError::VerificationFailed));
    let request = seen.into_inner().unwrap();
    assert!(request.public_vals.is_empty());
}

#[test]
fn hash_wav_returns_the_digest_as_text() {
    let hook = armed_hook();
    let result = hash_wav(&hook, text("abc"), |input: String| {
        HashReport::Digest(format!("digest of {}", input))
    });
    assert_eq!(result, Ok(text("digest of abc")));
}

#[test]
fn hash_wav_hands_the_primitive_exactly_the_text() {
    let hook = armed_hook();
    let seen: RefCell<Option<String>> = RefCell::new(None);
    let result = hash_wav(&hook, text(" a b\n"), |input: String| {
        *seen.borrow_mut() = Some(input);
        HashReport::Digest(String::from("d"))
    });
    assert_eq!(result, Ok(text("d")));
    assert_eq!(seen.into_inner(), Some(String::from(" a b\n")));
}

#[test]
fn hash_wav_rejects_non_text_without_the_primitive() {
    let hook = armed_hook();
    for value in non_text_values() {
        let calls = Cell::new(0u32);
        let result = hash_wav(&hook, value, |input: String| {
            calls.set(calls.get() + 1);
            HashReport::Digest(input)
        });
        assert_eq!(result, Err(BridgeError::InvalidInputKind(Param::HashInput)));
        assert_eq!(calls.get(), 0);
    }
}

#[test]
fn hash_wav_reports_a_primitive_abort_as_engine_fault() {
    let hook = armed_hook();
    let result = hash_wav(&hook, text("abc"), |_input: String| {
        HashReport::Aborted(String::from("field element out of range"))
    });
    assert_eq!(
        result,
        Err(BridgeError::EngineFault(String::from("field element out of range")))
    );
}

#[test]
fn hash_wav_is_deterministic() {
    let hook = armed_hook();
    let first = hash_wav(&hook, text("abc"), stand_in_digest);
    let second = hash_wav(&hook, text("abc"), stand_in_digest);
    assert_eq!(first, second);
    assert_eq!(first, Ok(text("e71fa2190541574b")));
}

#[test]
fn hash_wav_digests_differ_for_differing_inputs() {
    let hook = armed_hook();
    let abc_first = hash_wav(&hook, text("abc"), stand_in_digest);
    let abc_second = hash_wav(&hook, text("abc"), stand_in_digest);
    let abd = hash_wav(&hook, text("abd"), stand_in_digest);
    assert!(abc_first.is_ok());
    assert!(abd.is_ok());
    assert_eq!(abc_first, abc_second);
    assert_ne!(abc_first, abd);
}

#[test]
fn hash_wav_accepts_empty_text() {
    let hook = armed_hook();
    let result = hash_wav(&hook, text(""), stand_in_digest);
    assert_eq!(result, Ok(text("cbf29ce484222325")));
}
