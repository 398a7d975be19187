//! What crosses to the engine, what a guarded invocation reports back, and
//! the one-time abort hook.
//!
//! The engine is never trusted to return: the host invokes it under a guard
//! and reports how the invocation ended. This module says what that report
//! means for the caller.

use vstd::prelude::*;
use crate::error::{outcome, BridgeError, Failure};
use crate::marshal::{encode_text, encoded};
use crate::value::{Dynamic, HostValue};

verus! {

/// The four texts of a verification call, as the engine receives them.
#[derive(Debug, Clone, PartialEq, Eq)]
pub struct VerifyRequest {
    pub vk: String,
    pub proof: String,
    pub public_vals: Vec<String>,
    pub config: String,
}

/// The mathematical content of a [`VerifyRequest`].
pub struct Request {
    pub vk: Seq<char>,
    pub proof: Seq<char>,
    pub public_vals: Seq<Seq<char>>,
    pub config: Seq<char>,
}

impl View for VerifyRequest {
    type V = Request;

    open spec fn view(&self) -> Request {
        Request {
            vk: self.vk@,
            proof: self.proof@,
            public_vals: self.public_vals.deep_view(),
            config: self.config@,
        }
    }
}

/// How a guarded invocation of the verification engine ended.
#[derive(Debug, Clone, PartialEq, Eq)]
pub enum VerifyReport {
    /// The engine returned and accepted the proof.
    Accepted,
    /// The engine returned and found the proof invalid.
    Rejected,
    /// The engine aborted; the string is the diagnostic message of the abort.
    Aborted(String),
}

/// The mathematical content of a [`VerifyReport`].
pub enum Verdict {
    Accepted,
    Rejected,
    Aborted(Seq<char>),
}

impl View for VerifyReport {
    type V = Verdict;

    open spec fn view(&self) -> Verdict {
        match self {
            VerifyReport::Accepted => Verdict::Accepted,
            VerifyReport::Rejected => Verdict::Rejected,
            VerifyReport::Aborted(message) => Verdict::Aborted(message@),
        }
    }
}

/// How a guarded invocation of the hashing primitive ended.
#[derive(Debug, Clone, PartialEq, Eq)]
pub enum HashReport {
    /// The primitive returned this digest.
    Digest(String),
    /// The primitive aborted; the string is the diagnostic message of the abort.
    Aborted(String),
}

/// The mathematical content of a [`HashReport`].
pub enum Hashing {
    Digest(Seq<char>),
    Aborted(Seq<char>),
}

impl View for HashReport {
    type V = Hashing;

    open spec fn view(&self) -> Hashing {
        match self {
            HashReport::Digest(digest) => Hashing::Digest(digest@),
            HashReport::Aborted(message) => Hashing::Aborted(message@),
        }
    }
}

/// What a verification call returns once the engine has reported `verdict`.
pub open spec fn verification_outcome(verdict: Verdict) -> Result<(), Failure> {
    match verdict {
        Verdict::Accepted => Ok(()),
        Verdict::Rejected => Err(Failure::VerificationFailed),
        Verdict::Aborted(message) => Err(Failure::EngineFault(message)),
    }
}

/// What a hash call returns once the primitive has reported `hashing`.
pub open spec fn digest_outcome(hashing: Hashing) -> Result<Dynamic, Failure> {
    match hashing {
        Hashing::Digest(digest) => Ok(encoded(digest)),
        Hashing::Aborted(message) => Err(Failure::EngineFault(message)),
    }
}

/// Turns the report of a guarded verification into the result of the call.
///
/// Acceptance is success without a value. A rejection is
/// `VerificationFailed`, an abort is `EngineFault` with the abort's message:
/// the two are never mixed up.
pub fn conclude_verify(report: VerifyReport) -> (result: Result<(), BridgeError>)
    ensures
        outcome(result) == verification_outcome(report@),
{
    match report {
        VerifyReport::Accepted => Ok(()),
        VerifyReport::Rejected => Err(BridgeError::VerificationFailed),
        VerifyReport::Aborted(message) => Err(BridgeError::EngineFault(message)),
    }
}

/// Turns the report of a guarded hashing into the result of the call.
///
/// A digest is encoded for the host unchanged. An abort is `EngineFault` with
/// the abort's message.
pub fn conclude_hash(report: HashReport) -> (result: Result<HostValue, BridgeError>)
    ensures
        outcome(result) == digest_outcome(report@),
{
    match report {
        HashReport::Digest(digest) => Ok(encode_text(digest)),
        HashReport::Aborted(message) => Err(BridgeError::EngineFault(message)),
    }
}

/// The flag of the process-wide abort hook.
///
/// The hook sends the diagnostic message of an engine abort to the host's
/// log. It is installed once, on first use, and stays. This type holds the
/// flag and decides when to install; the host holds one `AbortHook` for the
/// process and performs the installation when `arm` says so.
#[derive(Debug)]
pub struct AbortHook {
    installed: bool,
}

impl AbortHook {
    /// The hook has been installed.
    pub closed spec fn installed(&self) -> bool {
        self.installed
    }

    /// The flag before first use: nothing is installed.
    pub fn new() -> (hook: AbortHook)
        ensures
            !hook.installed(),
    {
        AbortHook { installed: false }
    }

    /// Tells whether the hook has been installed.
    pub fn is_installed(&self) -> (installed: bool)
        ensures
            installed == self.installed(),
    {
        self.installed
    }

    /// Tests and sets the flag. Returns `true` exactly when the hook was not
    /// installed before: the caller then installs it. Afterwards the flag is
    /// set, whatever it was.
    pub fn arm(&mut self) -> (install_now: bool)
        ensures
            final(self).installed(),
            install_now == !old(self).installed(),
    {
        let install_now = !self.installed;
        self.installed = true;
        install_now
    }
}

} // verus!
