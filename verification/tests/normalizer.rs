use getlrc::scanner::clean::{
    clean_string, clean_title, clean_title_keep_parens, get_stripped_title, is_similar,
    normalize_metadata, number_at_least, similarity_score,
};

#[test]
fn test_clean_string() {
    assert_eq!(clean_string("20. Song Name"), "song name");
    assert_eq!(clean_string("Artist_Name-Here"), "artist name here");
    assert_eq!(clean_string("  Extra   Spaces  "), "extra spaces");
}

#[test]
fn test_clean_title() {
    assert_eq!(clean_title("P.I.M.P. (feat. Snoop Dogg)"), "p i m p");
    assert_eq!(clean_title("Song Name (Remix)"), "song name remix");
    assert_eq!(clean_title("Track ft. Artist"), "track");
    assert_eq!(clean_title("Song (Live)"), "song live");
}

#[test]
fn test_clean_title_keep_parens() {
    assert_eq!(clean_title_keep_parens("P.I.M.P. (Remix)"), "p i m p remix");
    assert_eq!(clean_title_keep_parens("Song (feat. Artist)"), "song");
    assert_eq!(clean_title_keep_parens("Track (Acoustic)"), "track acoustic");
}

#[test]
fn test_similarity_score() {
    assert!(f64::from_bits(similarity_score("hello", "hello")) > 0.99);
    assert!(f64::from_bits(similarity_score("hello", "helo")) > 0.8);
    assert!(f64::from_bits(similarity_score("hello", "world")) < 0.5);
}

#[test]
fn test_is_similar() {
    assert!(is_similar("P.I.M.P.", "PIMP", (0.7f64).to_bits()));
    assert!(is_similar("50 Cent", "50cent", (0.8f64).to_bits()));
    assert!(!is_similar("completely", "different", (0.8f64).to_bits()));
}

#[test]
fn similarity_score_is_the_jaro_winkler_similarity() {
    assert_eq!(similarity_score("", ""), (1.0f64).to_bits());
    assert_eq!(similarity_score("abc", ""), (0.0f64).to_bits());
    assert_eq!(similarity_score("abc", "xyz"), (0.0f64).to_bits());
    let score = f64::from_bits(similarity_score("cheeseburger", "cheese fries"));
    assert!((0.866 - score).abs() < 0.001);
    assert_ne!(similarity_score("martha", "marhta"), similarity_score("martha", "martha"));
}

#[test]
fn numbers_compare_by_their_bit_patterns_as_doubles_do() {
    let samples = [
        0.0f64,
        -0.0,
        0.6,
        0.85,
        1.0,
        -1.0,
        0.5999999999999999,
        f64::MIN_POSITIVE,
        -f64::MIN_POSITIVE,
        f64::MAX,
        f64::MIN,
        f64::INFINITY,
        f64::NEG_INFINITY,
        f64::NAN,
        -f64::NAN,
        5e-324,
        -5e-324,
    ];
    for x in samples {
        for y in samples {
            assert_eq!(number_at_least(x.to_bits(), y.to_bits()), x >= y, "{x} >= {y}");
        }
    }
}

#[test]
fn track_number_is_stripped_once_and_only_at_the_start() {
    assert_eq!(clean_string("01 - Intro"), "intro");
    assert_eq!(clean_string("7.Seven"), "seven");
    assert_eq!(clean_string("12"), "12");
    assert_eq!(clean_string("12abc"), "12abc");
    assert_eq!(clean_string("Track 12. Name"), "track 12 name");
    assert_eq!(clean_string("1. 2. x"), "2 x");
    assert_eq!(clean_string("٣. Title"), "title");
    assert_eq!(clean_string("99 \t.-"), "");
}

#[test]
fn separators_and_white_space_become_single_spaces() {
    assert_eq!(clean_string("a_b-c&d.e"), "a b c d e");
    assert_eq!(clean_string("a\t\n b"), "a b");
    assert_eq!(clean_string("a\u{a0}\u{2003}b"), "a b");
    assert_eq!(clean_string("...a..."), "a");
    assert_eq!(clean_string(""), "");
    assert_eq!(clean_string(" \t "), "");
    assert_eq!(clean_string("ÀB"), "àb");
}

#[test]
fn featuring_clauses_are_dropped_up_to_the_closing_bracket() {
    assert_eq!(clean_title("Song (feat. A) (Live)"), "song live");
    assert_eq!(clean_title("Song [FT X] rest"), "song rest");
    assert_eq!(clean_title("Song featuring Somebody"), "song");
    assert_eq!(clean_title("Song With You"), "song");
    assert_eq!(clean_title("Song w/ Friends"), "song");
    assert_eq!(clean_title("Song feat.X"), "song feat x");
    assert_eq!(clean_title("Song (feat)"), "song feat");
    assert_eq!(clean_title("Left Behind"), "le");
    assert_eq!(clean_title("((feat x"), "");
    assert_eq!(clean_title("a f(with b)t c"), "a ft c");
    assert_eq!(clean_title("a ft c"), "a");
}

#[test]
fn relaxed_normalization_of_a_noisy_title() {
    let normalized = normalize_metadata("The Artist", "20. Song Name (feat. X) [Remix]", "An_Album");
    assert_eq!(normalized.title, "song name remix");
    assert_eq!(normalized.artist, "the artist");
    assert_eq!(normalized.album, "an album");
    assert_eq!(normalized.original_artist, "The Artist");
    assert_eq!(normalized.original_title, "20. Song Name (feat. X) [Remix]");
    assert_eq!(get_stripped_title(&normalized), "song name remix");
}

#[test]
fn missing_fields_become_empty_strings() {
    let normalized = normalize_metadata("", "", "");
    assert_eq!(normalized.artist, "");
    assert_eq!(normalized.title, "");
    assert_eq!(normalized.album, "");
    assert_eq!(get_stripped_title(&normalized), "");
}

#[test]
fn cleaning_a_cleaned_text_changes_nothing() {
    for input in [
        "20. Song Name",
        "Artist_Name-Here",
        "  Extra   Spaces  ",
        "P.I.M.P. (feat. Snoop Dogg)",
        "Song Name (Remix)",
        "",
        "x",
        "A  B\tC",
    ] {
        let once = clean_string(input);
        assert_eq!(clean_string(&once), once);
        let title = clean_title(input);
        assert_eq!(clean_title(&title), title);
        assert_eq!(clean_title_keep_parens(&title), title);
    }
}

#[test]
fn a_second_cleaning_strips_a_track_number_that_the_first_laid_bare() {
    let once = clean_string("1. 2. x");
    assert_eq!(once, "2 x");
    assert_eq!(clean_string(&once), "x");
}

#[test]
fn both_title_levels_agree() {
    for title in ["20. Song Name (feat. X) [Remix]", "A (Live) ft. B", "w/ you", "[x] (y)"] {
        assert_eq!(clean_title(title), clean_title_keep_parens(title));
    }
}
