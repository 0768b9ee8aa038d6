//! Track fingerprints: a canonical JSON text of the descriptive fields,
//! digested with SHA-256 and written in lowercase hexadecimal.

use vstd::prelude::*;
use vstd::utf8::encode_utf8;
use crate::text::{decimal, push_char, push_decimal};
use sha2::Digest;

verus! {

/// What identifies a track for the negative cache.
#[derive(Debug)]
pub struct TrackSignature {
    pub artist: String,
    pub title: String,
    pub album: Option<String>,
    pub duration_sec: u32,
}

/// The fields of a [`TrackSignature`] as mathematical values.
pub struct SignatureView {
    pub artist: Seq<char>,
    pub title: Seq<char>,
    pub album: Option<Seq<char>>,
    pub duration_sec: nat,
}

impl View for TrackSignature {
    type V = SignatureView;

    open spec fn view(&self) -> SignatureView {
        SignatureView {
            artist: self.artist@,
            title: self.title@,
            album: match self.album {
                Some(album) => Some(album@),
                None => None,
            },
            duration_sec: self.duration_sec as nat,
        }
    }
}

/// What `serde_json::to_string` returns for a text: the JSON string literal
/// that denotes it, or nothing where serialisation fails.
pub uninterp spec fn json_string_literal(text: Seq<char>) -> Option<Seq<char>>;

/// The SHA-256 digest of a byte sequence, as `sha2` computes it.
pub uninterp spec fn sha256(data: Seq<u8>) -> Seq<u8>;

/// `serde_json::to_string` on a string slice. The outcome is a function of
/// the text alone; nothing else is claimed of it.
#[verifier::external_body]
fn json_string(text: &str) -> (r: Option<String>)
    ensures
        match r {
            Some(literal) => json_string_literal(text@) == Some(literal@),
            None => json_string_literal(text@) is None,
        },
{
    serde_json::to_string(text).ok()
}

/// `Sha256::digest` of the `sha2` crate. The digest is a function of the
/// bytes alone; nothing else is claimed of it.
#[verifier::external_body]
fn sha256_digest(data: &[u8]) -> (r: Vec<u8>)
    ensures
        r@ == sha256(data@),
{
    sha2::Sha256::digest(data).to_vec()
}

/// The JSON text of the album field: a string literal, or `null`.
pub open spec fn album_json(album: Option<Seq<char>>) -> Option<Seq<char>> {
    match album {
        Some(text) => json_string_literal(text),
        None => Some("null"@),
    }
}

/// The canonical JSON text of a signature: one object, the fields in their
/// declared order, no white space. Nothing where a field cannot be written.
pub open spec fn canonical_json(sig: SignatureView) -> Option<Seq<char>> {
    match (json_string_literal(sig.artist), json_string_literal(sig.title), album_json(sig.album)) {
        (Some(artist), Some(title), Some(album)) => Some(
            "{\"artist\":"@ + artist + ",\"title\":"@ + title + ",\"album\":"@ + album
                + ",\"duration_sec\":"@ + decimal(sig.duration_sec).push('}'),
        ),
        _ => None,
    }
}

/// The lowercase hexadecimal digit for a value below sixteen.
pub open spec fn hex_digit(value: nat) -> char
    recommends
        value < 16,
{
    if value < 10 {
        ('0' as nat + value) as char
    } else {
        ('a' as nat + value - 10) as char
    }
}

/// Two lowercase hexadecimal digits per byte, high digit first.
pub open spec fn hex_lower(bytes: Seq<u8>) -> Seq<char>
    decreases bytes.len(),
{
    if bytes.len() == 0 {
        Seq::empty()
    } else {
        hex_lower(bytes.drop_last()).push(hex_digit(bytes.last() as nat / 16)).push(
            hex_digit(bytes.last() as nat % 16),
        )
    }
}

/// The fingerprint of a signature: the digest of its canonical JSON text in
/// UTF-8, or of no bytes at all where that text cannot be written.
pub open spec fn fingerprint(sig: SignatureView) -> Seq<char> {
    hex_lower(
        sha256(
            match canonical_json(sig) {
                Some(text) => encode_utf8(text),
                None => Seq::empty(),
            },
        ),
    )
}

fn hex_char(value: u8) -> (c: char)
    requires
        value < 16,
    ensures
        c == hex_digit(value as nat),
{
    if value < 10 {
        (48u8 + value) as char
    } else {
        (87u8 + value) as char
    }
}

/// Writes bytes in lowercase hexadecimal.
pub fn to_hex_lower(bytes: &Vec<u8>) -> (hex: String)
    ensures
        hex@ == hex_lower(bytes@),
{
    let mut hex = String::new();
    let mut i: usize = 0;
    while i < bytes.len()
        invariant
            i <= bytes.len(),
            hex@ == hex_lower(bytes@.take(i as int)),
        decreases bytes.len() - i,
    {
        assert(bytes@.take(i + 1).drop_last() == bytes@.take(i as int));
        let byte = bytes[i];
        push_char(&mut hex, hex_char(byte / 16));
        push_char(&mut hex, hex_char(byte % 16));
        i = i + 1;
    }
    assert(bytes@.take(bytes.len() as int) == bytes@);
    hex
}

impl TrackSignature {
    /// The canonical JSON text of the signature.
    pub fn to_canonical_json(&self) -> (json: Option<String>)
        ensures
            match json {
                Some(text) => canonical_json(self@) == Some(text@),
                None => canonical_json(self@) is None,
            },
    {
        let artist = match json_string(self.artist.as_str()) {
            Some(literal) => literal,
            None => { return None; },
        };
        let title = match json_string(self.title.as_str()) {
            Some(literal) => literal,
            None => { return None; },
        };
        let album = match &self.album {
            Some(text) => match json_string(text.as_str()) {
                Some(literal) => literal,
                None => { return None; },
            },
            None => "null".to_owned(),
        };
        let mut json = "{\"artist\":".to_owned();
        json.append(artist.as_str());
        json.append(",\"title\":");
        json.append(title.as_str());
        json.append(",\"album\":");
        json.append(album.as_str());
        json.append(",\"duration_sec\":");
        push_decimal(&mut json, self.duration_sec as u64);
        push_char(&mut json, '}');
        Some(json)
    }

    /// The fingerprint of the track: 64 lowercase hexadecimal digits that
    /// depend on the four fields and on nothing else.
    pub fn generate_hash(&self) -> (hash: String)
        ensures
            hash@ == fingerprint(self@),
    {
        let digest = match self.to_canonical_json() {
            Some(json) => sha256_digest(json.as_str().as_bytes()),
            None => {
                let nothing: Vec<u8> = Vec::new();
                sha256_digest(nothing.as_slice())
            },
        };
        to_hex_lower(&digest)
    }
}

/// Equal fields give equal fingerprints, whenever and wherever they are
/// computed.
pub proof fn fingerprint_is_deterministic(a: TrackSignature, b: TrackSignature)
    requires
        a@ == b@,
    ensures
        fingerprint(a@) == fingerprint(b@),
{
}

} // verus!
