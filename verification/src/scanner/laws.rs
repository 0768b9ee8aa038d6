//! What holds of the normalisation rules: cleaning a cleaned text again
//! changes nothing, unless the first pass laid bare a new track number or a
//! new featuring clause.

use vstd::prelude::*;
use crate::scanner::clean::{
    clean_text,
    clean_title_text,
    collapse_spaces,
    is_closer,
    is_opener,
    is_separator,
    is_space,
    replace_brackets,
    replace_separators,
    spaces_end,
    spaces_start,
    strip_track_number,
    tidy,
    trim,
    without_featuring,
};
use crate::text::lowercased;

verus! {

/// A text whose white space is single spaces, none of them beside another.
pub open spec fn is_spaced(s: Seq<char>) -> bool {
    &&& forall|i: int| 0 <= i < s.len() && is_space(#[trigger] s[i]) ==> s[i] == ' '
    &&& forall|i: int| 0 < i < s.len() && is_space(#[trigger] s[i]) ==> !is_space(s[i - 1])
}

/// A text on which the rules after the track number have nothing to do: no
/// separators, single spaces only, none at either end.
pub open spec fn is_settled(s: Seq<char>) -> bool {
    &&& forall|i: int| 0 <= i < s.len() ==> !is_separator(#[trigger] s[i])
    &&& is_spaced(s)
    &&& s.len() > 0 ==> !is_space(s[0]) && !is_space(s[s.len() - 1])
}

/// A text without bracket characters.
pub open spec fn is_unbracketed(s: Seq<char>) -> bool {
    forall|i: int| 0 <= i < s.len() ==> !is_opener(#[trigger] s[i]) && !is_closer(s[i])
}

/// The structural rules for titles: featuring clauses and bracket
/// characters go, then the text is tidied.
pub open spec fn tidy_title(title: Seq<char>) -> Seq<char> {
    tidy(replace_brackets(without_featuring(title)))
}

proof fn lemma_spaces_end(s: Seq<char>, from: int)
    requires
        0 <= from <= s.len(),
    ensures
        from <= spaces_end(s, from) <= s.len(),
        spaces_end(s, from) < s.len() ==> !is_space(s[spaces_end(s, from)]),
    decreases s.len() - from,
{
    if from < s.len() && is_space(s[from]) {
        lemma_spaces_end(s, from + 1);
    }
}

proof fn lemma_spaces_start(s: Seq<char>, to: int)
    requires
        0 <= to <= s.len(),
    ensures
        0 <= spaces_start(s, to) <= to,
        spaces_start(s, to) > 0 ==> !is_space(s[spaces_start(s, to) - 1]),
    decreases to,
{
    if 0 < to && is_space(s[to - 1]) {
        lemma_spaces_start(s, to - 1);
    }
}

proof fn lemma_collapse(s: Seq<char>)
    ensures
        is_spaced(collapse_spaces(s)),
        (collapse_spaces(s).len() == 0) == (s.len() == 0),
        s.len() > 0 ==> is_space(collapse_spaces(s).last()) == is_space(s.last()),
        forall|i: int|
            0 <= i < collapse_spaces(s).len() ==> #[trigger] collapse_spaces(s)[i] == ' '
                || s.contains(collapse_spaces(s)[i]),
    decreases s.len(),
{
    if s.len() > 0 {
        let front = s.drop_last();
        let before = collapse_spaces(front);
        let after = collapse_spaces(s);
        lemma_collapse(front);
        assert forall|i: int| 0 <= i < after.len() implies #[trigger] after[i] == ' ' || s.contains(
            after[i],
        ) by {
            if i < before.len() {
                assert(after[i] == before[i]);
                if before[i] != ' ' {
                    assert(front.contains(before[i]));
                    let at = choose|at: int| 0 <= at < front.len() && front[at] == before[i];
                    assert(s[at] == before[i]);
                }
            } else {
                assert(after[i] == ' ' || after[i] == s[s.len() - 1]);
            }
        }
        assert(is_spaced(after)) by {
            assert forall|i: int| 0 < i < after.len() && is_space(#[trigger] after[i]) implies !is_space(
                after[i - 1],
            ) by {
                if i < before.len() {
                    assert(after[i] == before[i]);
                    assert(after[i - 1] == before[i - 1]);
                } else {
                    assert(after[i - 1] == before.last());
                    assert(front.last() == s[s.len() - 2]);
                }
            }
            assert forall|i: int| 0 <= i < after.len() && is_space(#[trigger] after[i]) implies after[i]
                == ' ' by {
                if i < before.len() {
                    assert(after[i] == before[i]);
                }
            }
        }
    }
}

proof fn lemma_collapse_of_spaced(s: Seq<char>)
    requires
        is_spaced(s),
    ensures
        collapse_spaces(s) == s,
    decreases s.len(),
{
    if s.len() > 0 {
        let front = s.drop_last();
        assert(is_spaced(front)) by {
            assert forall|i: int| 0 <= i < front.len() && is_space(#[trigger] front[i]) implies front[i]
                == ' ' by {
                assert(front[i] == s[i]);
            }
            assert forall|i: int| 0 < i < front.len() && is_space(#[trigger] front[i]) implies !is_space(
                front[i - 1],
            ) by {
                assert(front[i] == s[i]);
                assert(front[i - 1] == s[i - 1]);
            }
        }
        lemma_collapse_of_spaced(front);
        let last = s.len() - 1;
        assert(s.last() == s[last]);
        if is_space(s[last]) {
            assert(s[last] == ' ');
            if s.len() >= 2 {
                assert(!is_space(s[last - 1]));
            }
        }
        assert(front.push(s.last()) =~= s);
    }
}

proof fn lemma_trim_of_settled(s: Seq<char>)
    requires
        is_settled(s),
    ensures
        trim(s) == s,
{
    if s.len() > 0 {
        assert(spaces_end(s, 0) == 0);
        assert(spaces_start(s, s.len() as int) == s.len());
        assert(s.subrange(0, s.len() as int) =~= s);
    }
}

/// Whatever the rules after the track number are given, what they give
/// back is settled, and holds no character that was not there before, a
/// space apart.
proof fn lemma_settles(s: Seq<char>)
    ensures
        is_settled(trim(collapse_spaces(replace_separators(s)))),
        forall|i: int|
            0 <= i < trim(collapse_spaces(replace_separators(s))).len() ==> #[trigger] trim(
                collapse_spaces(replace_separators(s)),
            )[i] == ' ' || s.contains(trim(collapse_spaces(replace_separators(s)))[i]),
{
    let replaced = replace_separators(s);
    let collapsed = collapse_spaces(replaced);
    let trimmed = trim(collapsed);
    lemma_collapse(replaced);
    lemma_spaces_end(collapsed, 0);
    lemma_spaces_start(collapsed, collapsed.len() as int);
    let start = spaces_end(collapsed, 0);
    let end = spaces_start(collapsed, collapsed.len() as int);
    assert forall|i: int| 0 <= i < trimmed.len() implies (#[trigger] trimmed[i] == ' ' || s.contains(
        trimmed[i],
    )) && !is_separator(trimmed[i]) by {
        assert(trimmed[i] == collapsed[start + i]);
        if collapsed[start + i] != ' ' {
            assert(replaced.contains(collapsed[start + i]));
            let at = choose|at: int| 0 <= at < replaced.len() && replaced[at] == collapsed[start + i];
            assert(replaced[at] == s[at]);
            assert(s.contains(s[at]));
        }
    }
    assert(is_spaced(trimmed)) by {
        assert forall|i: int| 0 <= i < trimmed.len() && is_space(#[trigger] trimmed[i]) implies trimmed[i]
            == ' ' by {
            assert(trimmed[i] == collapsed[start + i]);
        }
        assert forall|i: int| 0 < i < trimmed.len() && is_space(#[trigger] trimmed[i]) implies !is_space(
            trimmed[i - 1],
        ) by {
            assert(trimmed[i] == collapsed[start + i]);
            assert(trimmed[i - 1] == collapsed[start + i - 1]);
        }
    }
    if trimmed.len() > 0 {
        assert(trimmed[0] == collapsed[start]);
        assert(trimmed[trimmed.len() - 1] == collapsed[end - 1]);
    }
}

proof fn lemma_settled_is_fixed(s: Seq<char>)
    requires
        is_settled(s),
    ensures
        trim(collapse_spaces(replace_separators(s))) == s,
{
    assert(replace_separators(s) =~= s);
    lemma_collapse_of_spaced(s);
    lemma_trim_of_settled(s);
}

proof fn lemma_tidy_keeps_unbracketed(s: Seq<char>)
    requires
        is_unbracketed(s),
    ensures
        is_unbracketed(tidy(s)),
{
    let stripped = strip_track_number(s);
    assert(is_unbracketed(stripped)) by {
        assert forall|i: int| 0 <= i < stripped.len() implies !is_opener(#[trigger] stripped[i])
            && !is_closer(stripped[i]) by {
            if stripped != s {
                assert(stripped[i] == s[i + (s.len() - stripped.len())]);
            }
        }
    }
    lemma_settles(stripped);
    assert forall|i: int| 0 <= i < tidy(s).len() implies !is_opener(#[trigger] tidy(s)[i])
        && !is_closer(tidy(s)[i]) by {
        if tidy(s)[i] != ' ' {
            assert(stripped.contains(tidy(s)[i]));
            let at = choose|at: int| 0 <= at < stripped.len() && stripped[at] == tidy(s)[i];
            assert(!is_opener(stripped[at]));
        }
    }
}

/// Tidying is idempotent: a tidied text tidied again is itself, unless the
/// first pass laid bare a new track number, as it does for `1. 2. x`.
pub proof fn tidy_is_idempotent(s: Seq<char>)
    requires
        strip_track_number(tidy(s)) == tidy(s),
    ensures
        tidy(tidy(s)) == tidy(s),
{
    lemma_settles(strip_track_number(s));
    lemma_settled_is_fixed(tidy(s));
}

proof fn lemma_collapse_is_no_longer(s: Seq<char>)
    ensures
        collapse_spaces(s).len() <= s.len(),
    decreases s.len(),
{
    if s.len() > 0 {
        lemma_collapse_is_no_longer(s.drop_last());
    }
}

proof fn lemma_tidy_is_no_longer(s: Seq<char>)
    ensures
        tidy(s).len() <= strip_track_number(s).len(),
        strip_track_number(s).len() <= s.len(),
        strip_track_number(s) != s ==> strip_track_number(s).len() < s.len(),
{
    let replaced = replace_separators(strip_track_number(s));
    lemma_collapse_is_no_longer(replaced);
}

/// The exception is the only one: where the first pass laid bare a new
/// track number, a second pass does change the text.
pub proof fn tidy_strips_a_track_number_laid_bare(s: Seq<char>)
    requires
        strip_track_number(tidy(s)) != tidy(s),
    ensures
        tidy(tidy(s)) != tidy(s),
{
    lemma_tidy_is_no_longer(tidy(s));
}

/// Tidying a title is idempotent: a tidied title tidied again is itself,
/// unless the first pass laid bare a new track number or joined the pieces
/// of a new featuring clause, as it does for `a f(with b)t c`.
pub proof fn tidy_title_is_idempotent(title: Seq<char>)
    requires
        strip_track_number(tidy_title(title)) == tidy_title(title),
        without_featuring(tidy_title(title)) == tidy_title(title),
    ensures
        tidy_title(tidy_title(title)) == tidy_title(title),
{
    let opened = replace_brackets(without_featuring(title));
    assert(is_unbracketed(opened));
    lemma_tidy_keeps_unbracketed(opened);
    assert(replace_brackets(tidy_title(title)) =~= tidy_title(title));
    tidy_is_idempotent(opened);
}

/// Cleaning is idempotent: a cleaned text cleaned again is itself,
/// wherever the lowercasing keeps a settled text settled and leaves a
/// lowercased text as it is, unless the first pass laid bare a new track
/// number.
pub proof fn clean_text_is_idempotent(s: Seq<char>)
    requires
        is_settled(clean_text(s)),
        lowercased(clean_text(s)) == clean_text(s),
        strip_track_number(clean_text(s)) == clean_text(s),
    ensures
        clean_text(clean_text(s)) == clean_text(s),
{
    lemma_settled_is_fixed(clean_text(s));
}

/// Cleaning a title is idempotent: a cleaned title cleaned again is itself,
/// wherever the lowercasing keeps a settled text settled and free of
/// brackets and leaves a lowercased text as it is, unless the first pass
/// laid bare a new track number or a new featuring clause.
pub proof fn clean_title_is_idempotent(title: Seq<char>)
    requires
        is_settled(clean_title_text(title)),
        is_unbracketed(clean_title_text(title)),
        lowercased(clean_title_text(title)) == clean_title_text(title),
        strip_track_number(clean_title_text(title)) == clean_title_text(title),
        without_featuring(clean_title_text(title)) == clean_title_text(title),
    ensures
        clean_title_text(clean_title_text(title)) == clean_title_text(title),
{
    let cleaned = clean_title_text(title);
    assert(replace_brackets(cleaned) =~= cleaned);
    lemma_settled_is_fixed(cleaned);
}

/// What cleaning lowercases is settled, and free of brackets where it is a
/// title: whatever keeps cleaning from being idempotent, beyond a track
/// number or a featuring clause laid bare, is the lowercasing's doing.
pub proof fn cleaning_lowercases_a_settled_text(s: Seq<char>)
    ensures
        is_settled(tidy(s)),
        clean_text(s) == lowercased(tidy(s)),
        is_settled(tidy_title(s)),
        is_unbracketed(tidy_title(s)),
        clean_title_text(s) == lowercased(tidy_title(s)),
{
    lemma_settles(strip_track_number(s));
    let opened = replace_brackets(without_featuring(s));
    lemma_settles(strip_track_number(opened));
    assert(is_unbracketed(opened));
    lemma_tidy_keeps_unbracketed(opened);
}

} // verus!
