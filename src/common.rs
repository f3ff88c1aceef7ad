use vstd::prelude::*;

verus! {

#[verifier::external_type_specification]
#[verifier::external_body]
pub struct ExJsonError(serde_json::Error);

/// The compact JSON text of a string value, as bytes.
pub uninterp spec fn json_string_of(s: Seq<char>) -> Seq<u8>;

/// The string value that a JSON text denotes, if it is one.
pub uninterp spec fn json_string_from(b: Seq<u8>) -> Option<Seq<char>>;

/// The string value of the member `addr` of the JSON object that `b` denotes, if
/// `b` is a JSON document, that document is an object, and that member is a string.
pub uninterp spec fn json_addr_member(b: Seq<u8>) -> Option<Seq<char>>;

/// Relies on `serde_json::to_vec` for a `&str`: the compact JSON string literal
/// of `s`. Serializing a string only writes into a `Vec` and never fails.
#[verifier::external_body]
fn encode_json_string(s: &str) -> (r: Result<Vec<u8>, serde_json::Error>)
    ensures
        r is Ok,
        r matches Ok(v) ==> v@ == json_string_of(s@),
{
    serde_json::to_vec(s)
}

/// Relies on `serde_json::from_slice::<String>`: the string that the bytes denote
/// as a JSON document, or an error when they denote no string.
#[verifier::external_body]
fn decode_json_string(b: &[u8]) -> (r: Result<String, serde_json::Error>)
    ensures
        match r {
            Ok(s) => json_string_from(b@) == Some(s@),
            Err(_) => json_string_from(b@) is None,
        },
{
    serde_json::from_slice::<String>(b)
}

/// Relies on `serde_json::from_slice::<serde_json::Value>`, `Value::get` with a
/// `&str` key (a member of an object, `None` for any other value) and
/// `Value::as_str`: the `addr` member of the document as a string; other members
/// are ignored.
#[verifier::external_body]
fn decode_addr_member(b: &[u8]) -> (r: Option<String>)
    ensures
        match r {
            Some(s) => json_addr_member(b@) == Some(s@),
            None => json_addr_member(b@) is None,
        },
{
    match serde_json::from_slice::<serde_json::Value>(b) {
        Ok(v) => v.get("addr").and_then(serde_json::Value::as_str).map(String::from),
        Err(_) => None,
    }
}

/// Errors of the handshake codec.
#[derive(PartialEq, Eq, Structural, Debug, Clone, Copy)]
pub enum CodecError {
    EncodeError,
    DecodeError,
}

/// The bytes before the address in an encoded `Hello`: `{"addr":`.
pub open spec fn hello_prefix() -> Seq<u8> {
    seq![0x7bu8, 0x22u8, 0x61u8, 0x64u8, 0x64u8, 0x72u8, 0x22u8, 0x3au8]
}

/// The byte after the address in an encoded `Hello`: `}`.
pub open spec fn hello_suffix() -> Seq<u8> {
    seq![0x7du8]
}

/// A `Hello` object around an encoded address.
pub open spec fn hello_frame(addr_json: Seq<u8>) -> Seq<u8> {
    hello_prefix() + addr_json + hello_suffix()
}

/// The name of the one response variant.
pub open spec fn accepted_name() -> Seq<char> {
    seq!['A', 'c', 'c', 'e', 'p', 't', 'e', 'd']
}

/// The first message of a tunnel: the destination, rendered as `host:port`.
pub struct Hello {
    pub addr: String,
}

/// The relay server's answer to a `Hello`.
#[derive(PartialEq, Eq, Structural, Debug, Clone, Copy)]
pub enum HelloResponse {
    Accepted,
}

fn append_bytes(v: &mut Vec<u8>, w: &[u8])
    ensures
        final(v)@ == old(v)@ + w@,
{
    let ghost v0 = v@;
    let mut i: usize = 0;
    while i < w.len()
        invariant
            0 <= i <= w@.len(),
            v@ == v0 + w@.subrange(0, i as int),
        decreases w@.len() - i,
    {
        v.push(w[i]);
        i = i + 1;
        assert(v@ =~= v0 + w@.subrange(0, i as int));
    }
    assert(w@.subrange(0, w@.len() as int) =~= w@);
}

/// Wraps an encoded address into a `Hello` object.
pub fn frame_hello(addr_json: &[u8]) -> (r: Vec<u8>)
    ensures
        r@ == hello_frame(addr_json@),
{
    let mut v: Vec<u8> = vec![0x7bu8, 0x22u8, 0x61u8, 0x64u8, 0x64u8, 0x72u8, 0x22u8, 0x3au8];
    assert(v@ =~= hello_prefix());
    append_bytes(&mut v, addr_json);
    v.push(0x7du8);
    assert(v@ =~= hello_frame(addr_json@));
    v
}

impl Hello {
    pub fn new(addr: String) -> (r: Hello)
        ensures
            r.addr@ == addr@,
    {
        Hello { addr }
    }

    /// Decodes a `Hello` payload: a JSON object whose `addr` member is a string.
    /// Other members are ignored, so that peers may add fields.
    pub fn parse(msg: &[u8]) -> (r: Result<Hello, CodecError>)
        ensures
            match json_addr_member(msg@) {
                Some(a) => r matches Ok(h) && h.addr@ == a,
                None => r == Err::<Hello, CodecError>(CodecError::DecodeError),
            },
    {
        match decode_addr_member(msg) {
            Some(addr) => Ok(Hello { addr }),
            None => Err(CodecError::DecodeError),
        }
    }

    /// Encodes this message: the JSON-encoded address inside a `Hello` object.
    pub fn to_vec(&self) -> (r: Result<Vec<u8>, CodecError>)
        ensures
            r matches Ok(v) && v@ == hello_frame(json_string_of(self.addr@)),
    {
        match encode_json_string(self.addr.as_str()) {
            Ok(inner) => Ok(frame_hello(inner.as_slice())),
            Err(_) => Err(CodecError::EncodeError),
        }
    }
}

impl HelloResponse {
    /// Whether `b` is the encoding of this response.
    pub open spec fn to_vec_spec(&self, b: Seq<u8>) -> bool {
        b == json_string_of(accepted_name())
    }

    /// Decodes a response payload: the JSON string `"Accepted"`.
    pub fn parse(msg: &[u8]) -> (r: Result<HelloResponse, CodecError>)
        ensures
            r is Ok <==> json_string_from(msg@) == Some(accepted_name()),
            r matches Err(e) ==> e == CodecError::DecodeError,
    {
        proof { reveal_strlit("Accepted"); }
        let name = String::from_str("Accepted");
        assert(name@ =~= accepted_name());
        match decode_json_string(msg) {
            Ok(s) => if s == name {
                Ok(HelloResponse::Accepted)
            } else {
                Err(CodecError::DecodeError)
            },
            Err(_) => Err(CodecError::DecodeError),
        }
    }

    /// Encodes this response as the JSON string of its variant's name.
    pub fn to_vec(&self) -> (r: Result<Vec<u8>, CodecError>)
        ensures
            r matches Ok(v) && self.to_vec_spec(v@),
    {
        proof { reveal_strlit("Accepted"); }
        let name = "Accepted";
        assert(name@ =~= accepted_name());
        match encode_json_string(name) {
            Ok(v) => Ok(v),
            Err(_) => Err(CodecError::EncodeError),
        }
    }
}

} // verus!
