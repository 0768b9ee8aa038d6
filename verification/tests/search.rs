use getlrc::api::types::LyricsResponse;
use getlrc::api::{
    classify, judge, Attempt, CatalogQuery, CatalogReply, MatchClass, SearchFlow, SearchResult,
    SearchStep, SIMILARITY_THRESHOLD_AUTO, SIMILARITY_THRESHOLD_POTENTIAL,
};
use getlrc::scanner::clean::NormalizedMetadata;
use getlrc::scanner::metadata::Track;

fn lyrics(synced: Option<&str>) -> LyricsResponse {
    LyricsResponse {
        artist_name: "The Artist".to_string(),
        track_name: "Song Name".to_string(),
        synced_lyrics: synced.map(|text| text.to_string()),
        plain_lyrics: Some("plain".to_string()),
    }
}

fn track(title: &str) -> Track {
    Track {
        path: "/music/a.flac".to_string(),
        artist: "The_Artist".to_string(),
        title: title.to_string(),
        album: "An Album".to_string(),
        duration_secs: 215,
    }
}

fn flow_with_titles(relaxed: &str, original: &str, attempt: Attempt) -> SearchFlow {
    SearchFlow {
        normalized: NormalizedMetadata {
            artist: "the artist".to_string(),
            title: relaxed.to_string(),
            album: "an album".to_string(),
            original_artist: "The Artist".to_string(),
            original_title: original.to_string(),
        },
        duration_secs: 215,
        attempt,
    }
}

#[test]
fn thresholds_are_the_doubles_they_stand_for() {
    assert_eq!(SIMILARITY_THRESHOLD_AUTO, (0.85f64).to_bits());
    assert_eq!(SIMILARITY_THRESHOLD_POTENTIAL, (0.6f64).to_bits());
}

#[test]
fn similarity_at_the_auto_threshold_is_found() {
    assert_eq!(classify((0.85f64).to_bits()), MatchClass::Found);
    assert_eq!(classify((0.8500000000000001f64).to_bits()), MatchClass::Found);
    assert_eq!(classify((1.0f64).to_bits()), MatchClass::Found);
    assert_eq!(classify(f64::INFINITY.to_bits()), MatchClass::Found);
}

#[test]
fn similarity_at_the_potential_threshold_is_a_potential_match() {
    assert_eq!(classify((0.6f64).to_bits()), MatchClass::Potential);
    assert_eq!(classify((0.7f64).to_bits()), MatchClass::Potential);
    assert_eq!(classify((0.8499999999999999f64).to_bits()), MatchClass::Potential);
}

#[test]
fn similarity_just_below_the_potential_threshold_is_not_found() {
    assert_eq!(classify((0.5999999999999999f64).to_bits()), MatchClass::NotFound);
    assert_eq!(classify((0.6f64).to_bits() - 1), MatchClass::NotFound);
    assert_eq!(classify((0.0f64).to_bits()), MatchClass::NotFound);
    assert_eq!(classify((-1.0f64).to_bits()), MatchClass::NotFound);
    assert_eq!(classify(f64::NAN.to_bits()), MatchClass::NotFound);
    assert_eq!(classify(u64::MAX), MatchClass::NotFound);
}

#[test]
fn classification_follows_the_comparison_of_doubles() {
    let mut x = 0.0f64;
    while x <= 1.0 {
        let expected = if x >= 0.85 {
            MatchClass::Found
        } else if x >= 0.6 {
            MatchClass::Potential
        } else {
            MatchClass::NotFound
        };
        assert_eq!(classify(x.to_bits()), expected, "{x}");
        x += 0.001;
    }
}

#[test]
fn a_reply_is_judged_by_its_similarity() {
    assert!(matches!(
        judge(CatalogReply::Record { lyrics: lyrics(Some("a")), similarity: (0.9f64).to_bits() }),
        Ok(SearchResult::Found(found)) if found.track_name == "Song Name"
    ));
    assert!(matches!(
        judge(CatalogReply::Record { lyrics: lyrics(Some("a")), similarity: (0.7f64).to_bits() }),
        Ok(SearchResult::PotentialMatch { lyrics, similarity })
            if lyrics.track_name == "Song Name" && similarity == (0.7f64).to_bits()
    ));
    assert!(matches!(
        judge(CatalogReply::Record { lyrics: lyrics(Some("a")), similarity: (0.3f64).to_bits() }),
        Ok(SearchResult::NotFound)
    ));
    assert!(matches!(judge(CatalogReply::NoRecord), Ok(SearchResult::NotFound)));
    assert!(matches!(
        judge(CatalogReply::Failed { error: "Unexpected status code from LRCLIB: 500".to_string() }),
        Err(error) if error == "Unexpected status code from LRCLIB: 500"
    ));
}

#[test]
fn lyrics_come_with_a_match_of_either_kind() {
    assert!(SearchResult::Found(lyrics(None)).into_lyrics().is_some());
    assert!(SearchResult::PotentialMatch { lyrics: lyrics(None), similarity: 0 }
        .into_lyrics()
        .is_some());
    assert!(SearchResult::NotFound.into_lyrics().is_none());
}

#[test]
fn query_url_encodes_each_field() {
    let query = CatalogQuery {
        artist: "the artist".to_string(),
        title: "a b&c/d~e_f-g.h".to_string(),
        album: "é☃".to_string(),
        duration_secs: 215,
    };
    assert_eq!(
        query.url(),
        "https://lrclib.net/api/get?artist_name=the%20artist&track_name=a%20b%26c%2Fd~e_f-g.h&album_name=%C3%A9%E2%98%83&duration=215"
    );
}

#[test]
fn query_url_of_empty_fields() {
    let query = CatalogQuery {
        artist: String::new(),
        title: String::new(),
        album: String::new(),
        duration_secs: 0,
    };
    assert_eq!(
        query.url(),
        "https://lrclib.net/api/get?artist_name=&track_name=&album_name=&duration=0"
    );
    let long = CatalogQuery { duration_secs: u64::MAX, ..query };
    assert!(long.url().ends_with("&duration=18446744073709551615"));
}

#[test]
fn a_record_is_compared_in_small_letters() {
    let query = CatalogQuery {
        artist: "the artist".to_string(),
        title: "song name".to_string(),
        album: String::new(),
        duration_secs: 1,
    };
    let (artist, title) = query.similarities(&lyrics(None));
    assert_eq!(artist, (1.0f64).to_bits());
    assert_eq!(title, (1.0f64).to_bits());
    let other = CatalogQuery { artist: "zzz".to_string(), ..query };
    assert_eq!(other.similarities(&lyrics(None)).0, (0.0f64).to_bits());
}

#[test]
fn a_search_starts_with_the_relaxed_query() {
    let (flow, query) = SearchFlow::start(&track("20. Song Name (feat. X) [Remix]"));
    assert_eq!(flow.attempt, Attempt::Relaxed);
    assert_eq!(flow.duration_secs, 215);
    assert_eq!(flow.normalized.original_title, "20. Song Name (feat. X) [Remix]");
    assert_eq!(query.artist, "the artist");
    assert_eq!(query.title, "song name remix");
    assert_eq!(query.album, "an album");
    assert_eq!(query.duration_secs, 215);
}

#[test]
fn a_match_ends_the_search_at_once() {
    let (flow, _) = SearchFlow::start(&track("Song Name"));
    let step = flow.on_reply(CatalogReply::Record {
        lyrics: lyrics(Some("[00:01.00] la")),
        similarity: (0.85f64).to_bits(),
    });
    assert!(matches!(step, SearchStep::Done(Ok(SearchResult::Found(_)))));

    let (flow, _) = SearchFlow::start(&track("Song Name"));
    let step = flow.on_reply(CatalogReply::Record {
        lyrics: lyrics(Some("[00:01.00] la")),
        similarity: (0.6f64).to_bits(),
    });
    assert!(matches!(step, SearchStep::Done(Ok(SearchResult::PotentialMatch { .. }))));
}

#[test]
fn a_failure_ends_the_search_at_once() {
    let (flow, _) = SearchFlow::start(&track("Song Name (Remix)"));
    let step = flow.on_reply(CatalogReply::Failed { error: "timeout".to_string() });
    assert!(matches!(step, SearchStep::Done(Err(error)) if error == "timeout"));
}

#[test]
fn the_stripped_title_is_not_tried_where_it_equals_the_relaxed_title() {
    for title in ["Song Name", "20. Song Name (feat. X) [Remix]", "Song (Live)", ""] {
        let (flow, _) = SearchFlow::start(&track(title));
        let step = flow.on_reply(CatalogReply::NoRecord);
        assert!(matches!(step, SearchStep::Done(Ok(SearchResult::NotFound))), "{title:?}");
    }
    let flow = flow_with_titles("song live", "Song (Live)", Attempt::Relaxed);
    let step = flow.on_reply(CatalogReply::Record { lyrics: lyrics(None), similarity: 0 });
    assert!(matches!(step, SearchStep::Done(Ok(SearchResult::NotFound))));
}

#[test]
fn the_stripped_title_is_tried_where_it_differs() {
    let flow = flow_with_titles("song name (remix)", "Song Name (Remix)", Attempt::Relaxed);
    match flow.on_reply(CatalogReply::NoRecord) {
        SearchStep::Ask { flow, query } => {
            assert_eq!(flow.attempt, Attempt::Stripped);
            assert_eq!(flow.normalized.title, "song name (remix)");
            assert_eq!(query.artist, "the artist");
            assert_eq!(query.title, "song name remix");
            assert_eq!(query.album, "an album");
            assert_eq!(query.duration_secs, 215);
            let step = flow.on_reply(CatalogReply::NoRecord);
            assert!(matches!(step, SearchStep::Done(Ok(SearchResult::NotFound))));
        }
        SearchStep::Done(_) => panic!("the stripped title was not tried"),
    }
}

#[test]
fn the_second_attempt_is_final() {
    let flow = flow_with_titles("song name (remix)", "Song Name (Remix)", Attempt::Stripped);
    let step = flow.on_reply(CatalogReply::Record {
        lyrics: lyrics(None),
        similarity: (0.2f64).to_bits(),
    });
    assert!(matches!(step, SearchStep::Done(Ok(SearchResult::NotFound))));
    let flow = flow_with_titles("song name (remix)", "Song Name (Remix)", Attempt::Stripped);
    let step = flow.on_reply(CatalogReply::Record {
        lyrics: lyrics(None),
        similarity: (0.99f64).to_bits(),
    });
    assert!(matches!(step, SearchStep::Done(Ok(SearchResult::Found(_)))));
}
