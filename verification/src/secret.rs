//! The secret value model: UTF-8 text or raw binary bytes.
//!
//! On pull a secret's value is written to the file as bytes: text encodes as
//! UTF-8, binary is written as-is. On push the file's bytes are interpreted
//! as text when they are valid UTF-8 and as binary otherwise; this affects
//! only how the value is transmitted to the backend, never the bytes
//! themselves.

use vstd::prelude::*;
use vstd::slice::slice_to_vec;
use vstd::string::StrSliceExecFns;
use vstd::utf8::decode_utf8;
use vstd::utf8::decode_utf8_encode_utf8;
use vstd::utf8::encode_utf8;
use vstd::utf8::valid_utf8;

verus! {

/// A secret's value: UTF-8 text or raw binary.
#[derive(Debug, PartialEq, Eq)]
pub enum Secret {
    /// A value transmitted to the backend as a string.
    Text(String),
    /// A value transmitted to the backend as raw bytes.
    Binary(Vec<u8>),
}

/// The mathematical value of a [`Secret`].
pub enum SecretValue {
    /// Text as a sequence of characters.
    Text(Seq<char>),
    /// Binary as a sequence of bytes.
    Binary(Seq<u8>),
}

impl View for Secret {
    type V = SecretValue;

    open spec fn view(&self) -> SecretValue {
        match self {
            Secret::Text(s) => SecretValue::Text(s@),
            Secret::Binary(b) => SecretValue::Binary(b@),
        }
    }
}

/// The bytes a secret value stands for: text encodes as UTF-8, binary as-is.
pub open spec fn secret_bytes(v: SecretValue) -> Seq<u8> {
    match v {
        SecretValue::Text(s) => encode_utf8(s),
        SecretValue::Binary(b) => b,
    }
}

/// How pushed file bytes are represented: text when they are valid UTF-8,
/// binary otherwise.
pub open spec fn classify_bytes(b: Seq<u8>) -> SecretValue {
    if valid_utf8(b) {
        SecretValue::Text(decode_utf8(b))
    } else {
        SecretValue::Binary(b)
    }
}

/// Classifying bytes never changes them: the value a push stores writes back
/// the original file bytes exactly, whichever representation was chosen.
pub proof fn lemma_classify_preserves_bytes(b: Seq<u8>)
    ensures
        secret_bytes(classify_bytes(b)) == b,
{
    if valid_utf8(b) {
        decode_utf8_encode_utf8(b);
    }
}

/// Relies on String::from_utf8: it returns Ok exactly on valid UTF-8 input,
/// and either outcome carries the input bytes unchanged.
#[verifier::external_body]
fn string_from_utf8(bytes: Vec<u8>) -> (r: Result<String, Vec<u8>>)
    ensures
        r matches Ok(s) ==> valid_utf8(bytes@) && s@ == decode_utf8(bytes@),
        r matches Err(v) ==> !valid_utf8(bytes@) && v@ == bytes@,
{
    match String::from_utf8(bytes) {
        Ok(s) => Ok(s),
        Err(e) => Err(e.into_bytes()),
    }
}

impl Secret {
    /// Interprets file bytes for a push: text when valid UTF-8, else binary.
    pub fn from_bytes(bytes: Vec<u8>) -> (s: Secret)
        ensures
            s@ == classify_bytes(bytes@),
    {
        match string_from_utf8(bytes) {
            Ok(text) => Secret::Text(text),
            Err(raw) => Secret::Binary(raw),
        }
    }

    /// Chooses a secret's representation from a store response that may
    /// carry a string part and a binary part: text takes precedence when
    /// both are present, and neither part is no secret at all.
    pub fn from_parts(secret_string: Option<String>, secret_binary: Option<Vec<u8>>) -> (r: Option<
        Secret,
    >)
        ensures
            secret_string is Some ==> (r matches Some(v) && v@ == SecretValue::Text(
                secret_string->0@,
            )),
            secret_string is None && secret_binary is Some ==> (r matches Some(v) && v@
                == SecretValue::Binary(secret_binary->0@)),
            secret_string is None && secret_binary is None ==> r is None,
    {
        match secret_string {
            Some(s) => Some(Secret::Text(s)),
            None => match secret_binary {
                Some(b) => Some(Secret::Binary(b)),
                None => None,
            },
        }
    }

    /// The bytes this secret writes to a file on pull.
    pub fn into_bytes(self) -> (r: Vec<u8>)
        ensures
            r@ == secret_bytes(self@),
    {
        match self {
            Secret::Text(s) => s.as_str().as_bytes_vec(),
            Secret::Binary(b) => b,
        }
    }
}

impl Clone for Secret {
    fn clone(&self) -> (r: Self)
        ensures
            r@ == self@,
    {
        match self {
            Secret::Text(s) => Secret::Text(s.clone()),
            Secret::Binary(b) => Secret::Binary(slice_to_vec(b.as_slice())),
        }
    }
}

} // verus!
