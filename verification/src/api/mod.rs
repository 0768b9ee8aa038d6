//! The catalog: what is asked of it, what it answers, how an answer is
//! judged, and in which order the two levels of normalisation are tried.
//!
//! A similarity is carried as the bit pattern of an IEEE 754 double, and
//! compared as the doubles compare.

pub mod types;

use vstd::prelude::*;
use vstd::utf8::encode_utf8;
use crate::api::types::LyricsResponse;
use crate::scanner::clean::{
    at_least,
    clean_text,
    clean_title_text,
    get_stripped_title,
    jaro_winkler_bits,
    normalize_metadata,
    number_at_least,
    similarity_score,
    NormalizedMetadata,
};
use crate::scanner::metadata::Track;
use crate::text::{decimal, lowercased, push_decimal, same_text, to_lowercase};

verus! {

/// Where the catalog lives.
pub const LRCLIB_BASE_URL: &'static str = "https://lrclib.net/api";

/// The bit pattern of 0.85: from here on a candidate is accepted.
pub const SIMILARITY_THRESHOLD_AUTO: u64 = 0x3FEB_3333_3333_3333;

/// The bit pattern of 0.6: from here on a candidate is a potential match.
pub const SIMILARITY_THRESHOLD_POTENTIAL: u64 = 0x3FE3_3333_3333_3333;

/// The outcome of a search.
#[derive(Debug)]
pub enum SearchResult {
    /// The candidate is similar enough to be taken as it is.
    Found(LyricsResponse),
    /// The candidate is in the ambiguous band.
    PotentialMatch { lyrics: LyricsResponse, similarity: u64 },
    /// The catalog has nothing, or nothing similar enough.
    NotFound,
}

/// The band a similarity falls into.
#[derive(Debug, Clone, Copy, PartialEq, Eq, Structural)]
pub enum MatchClass {
    Found,
    Potential,
    NotFound,
}

/// One lookup in the catalog.
#[derive(Debug)]
pub struct CatalogQuery {
    pub artist: String,
    pub title: String,
    pub album: String,
    pub duration_secs: u64,
}

/// What came back from one lookup.
#[derive(Debug)]
pub enum CatalogReply {
    /// The catalog has a record; `similarity` is the mean of the artist
    /// and the title similarity between the query and the record.
    Record { lyrics: LyricsResponse, similarity: u64 },
    /// The catalog has no record: an expected answer, not a failure.
    NoRecord,
    /// The lookup failed: transport, protocol, or an unexpected status.
    Failed { error: String },
}

/// Which level of normalisation the pending query was made with.
#[derive(Debug, Clone, Copy, PartialEq, Eq, Structural)]
pub enum Attempt {
    Relaxed,
    Stripped,
}

/// A search in progress.
#[derive(Debug)]
pub struct SearchFlow {
    pub normalized: NormalizedMetadata,
    pub duration_secs: u64,
    pub attempt: Attempt,
}

/// What to do next in a search.
#[derive(Debug)]
pub enum SearchStep {
    /// Send `query` and come back with the reply.
    Ask { flow: SearchFlow, query: CatalogQuery },
    /// The search is over.
    Done(Result<SearchResult, String>),
}

/// The band of a similarity: accepted from 0.85 on, potential from 0.6 on,
/// not found below that and for what is not a number.
pub open spec fn match_class(similarity: u64) -> MatchClass {
    if at_least(similarity, SIMILARITY_THRESHOLD_AUTO) {
        MatchClass::Found
    } else if at_least(similarity, SIMILARITY_THRESHOLD_POTENTIAL) {
        MatchClass::Potential
    } else {
        MatchClass::NotFound
    }
}

/// What one reply amounts to.
pub open spec fn judged(reply: CatalogReply) -> Result<SearchResult, String> {
    match reply {
        CatalogReply::Record { lyrics, similarity } => match match_class(similarity) {
            MatchClass::Found => Ok(SearchResult::Found(lyrics)),
            MatchClass::Potential => Ok(SearchResult::PotentialMatch { lyrics, similarity }),
            MatchClass::NotFound => Ok(SearchResult::NotFound),
        },
        CatalogReply::NoRecord => Ok(SearchResult::NotFound),
        CatalogReply::Failed { error } => Err(error),
    }
}

/// Whether a byte stands for itself in a URL: a letter or digit of ASCII,
/// or one of `- _ . ~`.
pub open spec fn is_unreserved(byte: u8) -> bool {
    (0x30 <= byte && byte <= 0x39) || (0x41 <= byte && byte <= 0x5A) || (0x61 <= byte && byte
        <= 0x7A) || byte == 0x2D || byte == 0x2E || byte == 0x5F || byte == 0x7E
}

/// The capital hexadecimal digit for a value below sixteen.
pub open spec fn hex_digit_upper(value: nat) -> char
    recommends
        value < 16,
{
    if value < 10 {
        ('0' as nat + value) as char
    } else {
        ('A' as nat + value - 10) as char
    }
}

/// Bytes percent-encoded: an unreserved byte as it is, any other as `%`
/// and two capital hexadecimal digits.
pub open spec fn percent_encoded_bytes(bytes: Seq<u8>) -> Seq<char>
    decreases bytes.len(),
{
    if bytes.len() == 0 {
        Seq::empty()
    } else if is_unreserved(bytes.last()) {
        percent_encoded_bytes(bytes.drop_last()).push(bytes.last() as char)
    } else {
        percent_encoded_bytes(bytes.drop_last()).push('%').push(
            hex_digit_upper(bytes.last() as nat / 16),
        ).push(hex_digit_upper(bytes.last() as nat % 16))
    }
}

/// A text percent-encoded, byte by byte in UTF-8.
pub open spec fn percent_encoded(text: Seq<char>) -> Seq<char> {
    percent_encoded_bytes(encode_utf8(text))
}

/// `urlencoding::encode`: percent-encodes every byte of the text's UTF-8
/// form except ASCII letters and digits and `- _ . ~`, with capital
/// hexadecimal digits.
#[verifier::external_body]
fn percent_encode(text: &str) -> (r: String)
    ensures
        r@ == percent_encoded(text@),
{
    urlencoding::encode(text).into_owned()
}

/// The address of a lookup.
pub open spec fn query_url(artist: Seq<char>, title: Seq<char>, album: Seq<char>, duration: nat)
    -> Seq<char> {
    LRCLIB_BASE_URL@ + "/get?artist_name="@ + percent_encoded(artist) + "&track_name="@
        + percent_encoded(title) + "&album_name="@ + percent_encoded(album) + "&duration="@
        + decimal(duration)
}

/// The band a similarity falls into.
pub fn classify(similarity: u64) -> (class: MatchClass)
    ensures
        class == match_class(similarity),
{
    if number_at_least(similarity, SIMILARITY_THRESHOLD_AUTO) {
        MatchClass::Found
    } else if number_at_least(similarity, SIMILARITY_THRESHOLD_POTENTIAL) {
        MatchClass::Potential
    } else {
        MatchClass::NotFound
    }
}

/// Judges one reply: a record by its similarity, no record as not found, a
/// failure as the error it is.
pub fn judge(reply: CatalogReply) -> (result: Result<SearchResult, String>)
    ensures
        result == judged(reply),
{
    match reply {
        CatalogReply::Record { lyrics, similarity } => match classify(similarity) {
            MatchClass::Found => Ok(SearchResult::Found(lyrics)),
            MatchClass::Potential => Ok(SearchResult::PotentialMatch { lyrics, similarity }),
            MatchClass::NotFound => Ok(SearchResult::NotFound),
        },
        CatalogReply::NoRecord => Ok(SearchResult::NotFound),
        CatalogReply::Failed { error } => Err(error),
    }
}

impl SearchResult {
    /// The lyrics of an accepted or potential match.
    pub open spec fn lyrics(self) -> Option<LyricsResponse> {
        match self {
            SearchResult::Found(found) => Some(found),
            SearchResult::PotentialMatch { lyrics, similarity } => Some(lyrics),
            SearchResult::NotFound => None,
        }
    }

    /// The lyrics of an accepted or potential match; a potential match is
    /// taken like an accepted one.
    pub fn into_lyrics(self) -> (lyrics: Option<LyricsResponse>)
        ensures
            lyrics == self.lyrics(),
    {
        match self {
            SearchResult::Found(found) => Some(found),
            SearchResult::PotentialMatch { lyrics, similarity: _ } => Some(lyrics),
            SearchResult::NotFound => None,
        }
    }
}

impl CatalogQuery {
    /// The address to fetch for this query.
    pub fn url(&self) -> (url: String)
        ensures
            url@ == query_url(self.artist@, self.title@, self.album@, self.duration_secs as nat),
    {
        let mut url = LRCLIB_BASE_URL.to_owned();
        url.append("/get?artist_name=");
        url.append(percent_encode(self.artist.as_str()).as_str());
        url.append("&track_name=");
        url.append(percent_encode(self.title.as_str()).as_str());
        url.append("&album_name=");
        url.append(percent_encode(self.album.as_str()).as_str());
        url.append("&duration=");
        push_decimal(&mut url, self.duration_secs);
        url
    }

    /// How similar a record of the catalog is to this query, in artist and
    /// in title: each field of the query against the record's field in
    /// small letters. The similarity of the record is the mean of the two.
    pub fn similarities(&self, lyrics: &LyricsResponse) -> (scores: (u64, u64))
        ensures
            scores.0 == jaro_winkler_bits(self.artist@, lowercased(lyrics.artist_name@)),
            scores.1 == jaro_winkler_bits(self.title@, lowercased(lyrics.track_name@)),
    {
        let artist = to_lowercase(lyrics.artist_name.as_str());
        let title = to_lowercase(lyrics.track_name.as_str());
        (
            similarity_score(self.artist.as_str(), artist.as_str()),
            similarity_score(self.title.as_str(), title.as_str()),
        )
    }
}

impl SearchFlow {
    /// The title of the second attempt.
    pub open spec fn stripped_title(&self) -> Seq<char> {
        clean_title_text(self.normalized.original_title@)
    }

    /// Begins a search: normalises the track's fields at the relaxed level
    /// and asks the catalog with them.
    pub fn start(track: &Track) -> (begun: (SearchFlow, CatalogQuery))
        ensures
            begun.0.attempt == Attempt::Relaxed,
            begun.0.duration_secs == track.duration_secs,
            begun.0.normalized.artist@ == clean_text(track.artist@),
            begun.0.normalized.title@ == clean_title_text(track.title@),
            begun.0.normalized.album@ == clean_text(track.album@),
            begun.0.normalized.original_artist@ == track.artist@,
            begun.0.normalized.original_title@ == track.title@,
            begun.1.artist@ == clean_text(track.artist@),
            begun.1.title@ == clean_title_text(track.title@),
            begun.1.album@ == clean_text(track.album@),
            begun.1.duration_secs == track.duration_secs,
    {
        let normalized = normalize_metadata(
            track.artist.as_str(),
            track.title.as_str(),
            track.album.as_str(),
        );
        let query = CatalogQuery {
            artist: normalized.artist.clone(),
            title: normalized.title.clone(),
            album: normalized.album.clone(),
            duration_secs: track.duration_secs,
        };
        (SearchFlow { normalized, duration_secs: track.duration_secs, attempt: Attempt::Relaxed }, query)
    }

    /// Whether the reply to the pending query calls for the second attempt:
    /// only after a relaxed attempt that found nothing, and only where the
    /// stripped title is another text than the relaxed one.
    pub open spec fn asks_again(&self, reply: CatalogReply) -> bool {
        &&& self.attempt == Attempt::Relaxed
        &&& judged(reply) == Ok::<SearchResult, String>(SearchResult::NotFound)
        &&& self.stripped_title() != self.normalized.title@
    }

    /// Takes the reply to the pending query. A match of either kind and a
    /// failure end the search at once. Where the relaxed attempt found
    /// nothing, the stripped title is tried, unless it is the relaxed title
    /// over again; the second attempt's outcome is final.
    pub fn on_reply(self, reply: CatalogReply) -> (step: SearchStep)
        ensures
            self.asks_again(reply) ==> (step matches SearchStep::Ask { flow, query } && {
                &&& flow.attempt == Attempt::Stripped
                &&& flow.normalized == self.normalized
                &&& flow.duration_secs == self.duration_secs
                &&& query.artist@ == self.normalized.artist@
                &&& query.title@ == self.stripped_title()
                &&& query.album@ == self.normalized.album@
                &&& query.duration_secs == self.duration_secs
            }),
            !self.asks_again(reply) ==> step == SearchStep::Done(judged(reply)),
    {
        let result = judge(reply);
        match (&self.attempt, &result) {
            (Attempt::Relaxed, Ok(SearchResult::NotFound)) => {
                let stripped = get_stripped_title(&self.normalized);
                if same_text(stripped.as_str(), self.normalized.title.as_str()) {
                    SearchStep::Done(result)
                } else {
                    let query = CatalogQuery {
                        artist: self.normalized.artist.clone(),
                        title: stripped,
                        album: self.normalized.album.clone(),
                        duration_secs: self.duration_secs,
                    };
                    SearchStep::Ask {
                        flow: SearchFlow {
                            normalized: self.normalized,
                            duration_secs: self.duration_secs,
                            attempt: Attempt::Stripped,
                        },
                        query,
                    }
                }
            },
            _ => SearchStep::Done(result),
        }
    }
}

/// The stripped title of a search begun with `start` is its relaxed title
/// over again, so such a search asks the catalog once and never twice.
pub proof fn started_search_asks_once(track: Track, flow: SearchFlow, reply: CatalogReply)
    requires
        flow.normalized.title@ == clean_title_text(track.title@),
        flow.normalized.original_title@ == track.title@,
    ensures
        !flow.asks_again(reply),
{
}

} // verus!
