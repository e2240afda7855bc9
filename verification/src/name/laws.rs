//! What holds of the normaliser and of the builders for every input.

use vstd::prelude::*;

use crate::name::builder::{built, built_with_normalize, DefaultNameBuilder, NameBulder};
use crate::name::error::NameError;
use crate::name::normalize::{
    all_name_safe, name_from, name_safe, normalized_name, transliteration, with_char,
    with_chars, with_separator, with_source_char,
};
use crate::text::{
    ascii_lower, ascii_lowered, is_ascii_char, is_ascii_lowercase_char,
    is_ascii_uppercase_char, is_trimmed, is_whitespace, lemma_ascii_lower,
    lemma_trim_is_trimmed, lemma_trimmed_iff_fixed, lemma_utf8_len_ascii, trimmed, utf8_len,
};

verus! {

/// A character that asks for a separator when it is processed: one whose
/// lower-case form is not name-safe.
pub open spec fn is_unsafe_char(c: char) -> bool {
    !name_safe(ascii_lower(c))
}

/// Every character of `cs` is unsafe.
pub open spec fn all_unsafe(cs: Seq<char>) -> bool {
    forall|i: int| 0 <= i < cs.len() ==> is_unsafe_char(#[trigger] cs[i])
}

/// A character of the source text that yields nothing but a request for a
/// separator: an unsafe ASCII character, a character without a
/// transliteration, or one whose transliteration is not empty and holds
/// unsafe characters only.
pub open spec fn is_unsafe_source_char(c: char) -> bool {
    if is_ascii_char(c) {
        is_unsafe_char(c)
    } else {
        match transliteration(c) {
            None => true,
            Some(cs) => cs.len() > 0 && all_unsafe(cs),
        }
    }
}

/// Every character of `run` is an unsafe character of the source text.
pub open spec fn is_unsafe_run(run: Seq<char>) -> bool {
    forall|i: int| 0 <= i < run.len() ==> is_unsafe_source_char(#[trigger] run[i])
}

/// A name-safe character is ASCII, is no whitespace and no upper-case
/// letter, and is its own lower-case form.
pub proof fn lemma_name_safe_char(c: char)
    ensures
        name_safe(c) ==> is_ascii_char(c) && !is_whitespace(c) && !is_ascii_uppercase_char(c)
            && ascii_lower(c) == c,
{
}

/// Asking for a separator leaves the output ending with exactly one more
/// `-` than before, or unchanged when it ended with `-` already; asking
/// twice is asking once.
pub proof fn lemma_separator(out: Seq<char>)
    ensures
        with_separator(out).len() > 0,
        with_separator(out).last() == '-',
        out.len() > 0 && out.last() == '-' ==> with_separator(out) == out,
        !(out.len() > 0 && out.last() == '-') ==> with_separator(out) == out.push('-'),
        with_separator(with_separator(out)) == with_separator(out),
{
}

/// Processing a text in two parts is processing it whole.
pub proof fn lemma_with_chars_concat(out: Seq<char>, a: Seq<char>, b: Seq<char>)
    ensures
        with_chars(out, a + b) == with_chars(with_chars(out, a), b),
    decreases b.len(),
{
    if b.len() == 0 {
        assert(a + b =~= a);
    } else {
        lemma_with_chars_concat(out, a, b.drop_last());
        assert((a + b).drop_last() =~= a + b.drop_last());
        assert((a + b).last() == b.last());
    }
}

/// Normalising a source text in two parts is normalising it whole.
pub proof fn lemma_name_from_concat(out: Seq<char>, a: Seq<char>, b: Seq<char>)
    ensures
        name_from(out, a + b) == name_from(name_from(out, a), b),
    decreases b.len(),
{
    if b.len() == 0 {
        assert(a + b =~= a);
    } else {
        lemma_name_from_concat(out, a, b.drop_last());
        assert((a + b).drop_last() =~= a + b.drop_last());
        assert((a + b).last() == b.last());
    }
}

/// Processing one character keeps a name-safe output name-safe.
pub proof fn lemma_with_char_safe(out: Seq<char>, c: char)
    requires
        all_name_safe(out),
    ensures
        all_name_safe(with_char(out, c)),
{
}

/// Processing characters keeps a name-safe output name-safe.
pub proof fn lemma_with_chars_safe(out: Seq<char>, cs: Seq<char>)
    requires
        all_name_safe(out),
    ensures
        all_name_safe(with_chars(out, cs)),
    decreases cs.len(),
{
    if cs.len() > 0 {
        lemma_with_chars_safe(out, cs.drop_last());
        lemma_with_char_safe(with_chars(out, cs.drop_last()), cs.last());
    }
}

/// The normaliser only ever appends name-safe characters: a name-safe
/// output stays name-safe whatever the source text holds.
pub proof fn lemma_name_from_safe(out: Seq<char>, input: Seq<char>)
    requires
        all_name_safe(out),
    ensures
        all_name_safe(name_from(out, input)),
    decreases input.len(),
{
    if input.len() > 0 {
        let before = name_from(out, input.drop_last());
        lemma_name_from_safe(out, input.drop_last());
        let c = input.last();
        if is_ascii_char(c) {
            lemma_with_char_safe(before, c);
        } else {
            match transliteration(c) {
                Some(cs) => lemma_with_chars_safe(before, cs),
                None => {},
            }
        }
    }
}

/// A name-safe source text is appended to the output as it stands.
pub proof fn lemma_name_from_identity(out: Seq<char>, s: Seq<char>)
    requires
        all_name_safe(s),
    ensures
        name_from(out, s) == out + s,
    decreases s.len(),
{
    if s.len() == 0 {
        assert(out + s =~= out);
    } else {
        let front = s.drop_last();
        assert(all_name_safe(front)) by {
            assert forall|i: int| 0 <= i < front.len() implies name_safe(#[trigger] front[i]) by {
                assert(front[i] == s[i]);
            }
        }
        lemma_name_from_identity(out, front);
        assert(name_safe(s[s.len() - 1]));
        lemma_name_safe_char(s.last());
        assert(out + s =~= (out + front).push(s.last()));
    }
}

/// A name-safe string neither starts nor ends with whitespace.
pub proof fn lemma_name_safe_is_trimmed(s: Seq<char>)
    requires
        all_name_safe(s),
    ensures
        is_trimmed(s),
{
    if s.len() > 0 {
        assert(name_safe(s[0]));
        assert(name_safe(s[s.len() - 1]));
        lemma_name_safe_char(s.first());
        lemma_name_safe_char(s.last());
    }
}

/// Separator collapsing, for replacement characters: a run of one or more
/// unsafe characters is processed as one request for a separator.
pub proof fn lemma_unsafe_chars_collapse(out: Seq<char>, cs: Seq<char>)
    requires
        cs.len() > 0,
        all_unsafe(cs),
    ensures
        with_chars(out, cs) == with_separator(out),
    decreases cs.len(),
{
    let front = cs.drop_last();
    assert(is_unsafe_char(cs[cs.len() - 1]));
    if front.len() > 0 {
        assert(all_unsafe(front)) by {
            assert forall|i: int| 0 <= i < front.len() implies is_unsafe_char(
                #[trigger] front[i],
            ) by {
                assert(front[i] == cs[i]);
            }
        }
        lemma_unsafe_chars_collapse(out, front);
        lemma_separator(out);
    } else {
        assert(with_chars(out, front) == out);
    }
}

/// One unsafe character of the source text is one request for a separator.
pub proof fn lemma_unsafe_source_char(out: Seq<char>, c: char)
    requires
        is_unsafe_source_char(c),
    ensures
        with_source_char(out, c) == with_separator(out),
{
    if !is_ascii_char(c) {
        match transliteration(c) {
            Some(cs) => lemma_unsafe_chars_collapse(out, cs),
            None => {},
        }
    }
}

/// Separator collapsing: a run of one or more unsafe characters of the
/// source text, however long, is normalised as one request for a separator.
/// The output gains a single `-`, or nothing where it ended with `-`
/// before the run.
pub proof fn lemma_unsafe_run_collapses(out: Seq<char>, run: Seq<char>)
    requires
        run.len() > 0,
        is_unsafe_run(run),
    ensures
        name_from(out, run) == with_separator(out),
    decreases run.len(),
{
    let front = run.drop_last();
    assert(is_unsafe_source_char(run[run.len() - 1]));
    if front.len() > 0 {
        assert(is_unsafe_run(front)) by {
            assert forall|i: int| 0 <= i < front.len() implies is_unsafe_source_char(
                #[trigger] front[i],
            ) by {
                assert(front[i] == run[i]);
            }
        }
        lemma_unsafe_run_collapses(out, front);
        lemma_unsafe_source_char(with_separator(out), run.last());
        lemma_separator(out);
    } else {
        assert(name_from(out, front) == out);
        lemma_unsafe_source_char(out, run.last());
    }
}

/// Separator collapsing, where the output does not end with `-` before
/// the run: the run, however long, adds exactly one `-` and nothing else.
pub proof fn lemma_unsafe_run_adds_one_separator(out: Seq<char>, run: Seq<char>)
    requires
        run.len() > 0,
        is_unsafe_run(run),
        out.len() == 0 || out.last() != '-',
    ensures
        name_from(out, run) == out.push('-'),
{
    lemma_unsafe_run_collapses(out, run);
}

/// Separator collapsing inside a text: whatever stands before and after an
/// unsafe run, the run contributes one request for a separator between
/// them, regardless of its length.
pub proof fn lemma_unsafe_run_between(
    out: Seq<char>,
    before: Seq<char>,
    run: Seq<char>,
    after: Seq<char>,
)
    requires
        run.len() > 0,
        is_unsafe_run(run),
    ensures
        name_from(out, before + run + after) == name_from(
            with_separator(name_from(out, before)),
            after,
        ),
{
    lemma_name_from_concat(out, before + run, after);
    lemma_name_from_concat(out, before, run);
    lemma_unsafe_run_collapses(name_from(out, before), run);
}

/// A source text made of unsafe characters only normalises to a single `-`.
pub proof fn lemma_unsafe_only(run: Seq<char>)
    requires
        run.len() > 0,
        is_unsafe_run(run),
    ensures
        name_from(Seq::empty(), run) == seq!['-'],
{
    lemma_unsafe_run_collapses(Seq::empty(), run);
    assert(Seq::<char>::empty().push('-') =~= seq!['-']);
}

/// Case folding: an ASCII upper-case letter is normalised as its lower-case
/// form is, to that form, which lies 32 code points above it; the letter
/// itself is not name-safe.
pub proof fn lemma_uppercase_folds(out: Seq<char>, c: char)
    requires
        is_ascii_uppercase_char(c),
    ensures
        with_source_char(out, c) == with_source_char(out, ascii_lower(c)),
        with_source_char(out, c) == out.push(ascii_lower(c)),
        is_ascii_lowercase_char(ascii_lower(c)),
        ascii_lower(c) as int == c as int + 32,
        !name_safe(c),
{
}

/// A string that holds an ASCII upper-case letter is not name-safe.
pub proof fn lemma_uppercase_not_name_safe(s: Seq<char>, i: int)
    requires
        0 <= i < s.len(),
        is_ascii_uppercase_char(s[i]),
    ensures
        !all_name_safe(s),
{
    lemma_uppercase_folds(Seq::empty(), s[i]);
}

/// What the normaliser returns is name-safe and trimmed.
pub proof fn lemma_normalized_name_valid(s: Seq<char>)
    ensures
        all_name_safe(normalized_name(s)),
        is_trimmed(normalized_name(s)),
{
    lemma_name_from_safe(Seq::empty(), trimmed(s));
    lemma_name_safe_is_trimmed(normalized_name(s));
}

/// Normalising a name-safe string returns it unchanged.
pub proof fn lemma_normalized_name_fixed(s: Seq<char>)
    requires
        all_name_safe(s),
    ensures
        normalized_name(s) == s,
{
    lemma_name_safe_is_trimmed(s);
    lemma_trimmed_iff_fixed(s);
    lemma_name_from_identity(Seq::empty(), s);
    assert(Seq::<char>::empty() + s =~= s);
}

/// Normalising is idempotent: normalising what the normaliser returned
/// changes nothing.
pub proof fn lemma_normalized_name_idempotent(s: Seq<char>)
    ensures
        normalized_name(normalized_name(s)) == normalized_name(s),
{
    lemma_normalized_name_valid(s);
    lemma_normalized_name_fixed(normalized_name(s));
}

/// Lower-casing a string twice is lower-casing it once, and lower-casing
/// keeps a trimmed string trimmed.
pub proof fn lemma_ascii_lowered(s: Seq<char>)
    ensures
        ascii_lowered(ascii_lowered(s)) == ascii_lowered(s),
        is_trimmed(s) ==> is_trimmed(ascii_lowered(s)),
{
    let t = ascii_lowered(s);
    assert forall|i: int| 0 <= i < t.len() implies #[trigger] ascii_lowered(t)[i] == t[i] by {
        lemma_ascii_lower(s[i]);
    }
    assert(ascii_lowered(t) =~= t);
    if s.len() > 0 {
        lemma_ascii_lower(s.first());
        lemma_ascii_lower(s.last());
        assert(t.first() == ascii_lower(s.first()));
        assert(t.last() == ascii_lower(s.last()));
    }
}

/// A name-safe string has as many bytes as characters.
pub proof fn lemma_name_safe_len(s: Seq<char>)
    requires
        all_name_safe(s),
    ensures
        utf8_len(s) == s.len(),
{
    assert forall|i: int| 0 <= i < s.len() implies is_ascii_char(#[trigger] s[i]) by {
        assert(name_safe(s[i]));
        lemma_name_safe_char(s[i]);
    }
    lemma_utf8_len_ascii(s);
}

/// Round trip: under the default policy, however it is configured, a
/// name-safe string whose length lies within the configured bounds is
/// built into a name that holds exactly that string. Such a string has no
/// boundary whitespace and as many bytes as characters.
pub proof fn lemma_build_round_trip(builder: DefaultNameBuilder, s: Seq<char>)
    requires
        all_name_safe(s),
        s.len() <= usize::MAX,
        builder.min_length matches Some(min) ==> min <= s.len(),
        builder.max_length matches Some(max) ==> s.len() <= max,
    ensures
        builder.validation(s) is Ok,
        built(&builder, s) == Ok::<Seq<char>, NameError>(s),
{
    lemma_name_safe_len(s);
    lemma_name_safe_is_trimmed(s);
}

/// Building with repair does not alter an input that is valid as it
/// stands, whatever its normalised form would be.
pub proof fn lemma_valid_input_kept<B: NameBulder>(builder: B, s: Seq<char>)
    requires
        builder.validation(s) is Ok,
    ensures
        built_with_normalize(&builder, s) == Ok::<Seq<char>, B::Error>(s),
{
}

/// Under the default policy normalisation never fails and is idempotent,
/// however the policy is configured.
pub proof fn lemma_normalization_idempotent(builder: DefaultNameBuilder, s: Seq<char>)
    ensures
        builder.normalization(s) is Ok,
        builder.normalization(builder.normalization(s)->Ok_0) == builder.normalization(s),
{
    let text = if builder.trim_validation_enabled {
        trimmed(s)
    } else {
        s
    };
    let n = builder.normalization(s)->Ok_0;
    if builder.char_validation_enabled {
        lemma_name_from_safe(Seq::empty(), text);
        lemma_name_safe_is_trimmed(n);
        lemma_trimmed_iff_fixed(n);
        lemma_name_from_identity(Seq::empty(), n);
        assert(Seq::<char>::empty() + n =~= n);
    } else {
        lemma_ascii_lowered(text);
        if builder.trim_validation_enabled {
            lemma_trim_is_trimmed(s);
            lemma_trimmed_iff_fixed(n);
        }
    }
}

/// With the character check and the whitespace check on, what the
/// normaliser returns passes both: building with repair then yields the
/// input, its normalised form, or an error that reports the length.
pub proof fn lemma_repair_fails_on_length_only(builder: DefaultNameBuilder, s: Seq<char>)
    requires
        builder.char_validation_enabled,
        builder.trim_validation_enabled,
    ensures
        builder.normalization(s) == Ok::<Seq<char>, NameError>(normalized_name(s)),
        built_with_normalize(&builder, s) == Ok::<Seq<char>, NameError>(s)
            || built_with_normalize(&builder, s) == Ok::<Seq<char>, NameError>(
            normalized_name(s),
        ) || built_with_normalize(&builder, s) matches Err(NameError::InvalidLength(_)),
{
    lemma_normalized_name_valid(s);
}

} // verus!
