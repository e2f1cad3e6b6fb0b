//! What the operations on texts mean.

use vstd::prelude::*;

use crate::text;

verus! {

/// The number that a text of decimal digits stands for.
pub open spec fn value(digits: Seq<char>) -> nat
    decreases digits.len(),
{
    if digits.len() == 0 {
        0
    } else {
        10 * value(digits.drop_last()) + (digits.last() as nat - '0' as nat) as nat
    }
}

/// The decimal notation of a number consists of digits, begins with no zero
/// but that of 0 itself, and stands for the number.
pub proof fn law_decimals_stand_for_their_number(n: nat)
    ensures
        text::decimal(n).len() > 0,
        forall|i: int| 0 <= i < text::decimal(n).len() ==> '0' <= #[trigger] text::decimal(n)[i] <= '9',
        value(text::decimal(n)) == n,
        n > 0 ==> text::decimal(n)[0] != '0',
        n < 10 ==> text::decimal(n).len() == 1,
    decreases n,
{
    let s = text::decimal(n);
    if n < 10 {
        assert(s.drop_last() =~= seq![]);
        assert(value(s.drop_last()) == 0);
    } else {
        law_decimals_stand_for_their_number(n / 10);
        assert(s.drop_last() =~= text::decimal(n / 10));
        assert(s.last() == text::digit(n % 10));
        assert forall|i: int| 0 <= i < s.len() implies '0' <= #[trigger] s[i] <= '9' by {
            if i < s.len() - 1 {
                assert(s[i] == text::decimal(n / 10)[i]);
            }
        }
        assert(s[0] == text::decimal(n / 10)[0]);
    }
}

/// Trimming takes away white space at both ends and nothing else: the text is
/// the trimmed one between two blank ones, and the trimmed one neither begins
/// nor ends with white space.
pub proof fn law_trimming_takes_white_space_off_the_ends(s: Seq<char>)
    ensures
        exists|before: Seq<char>, after: Seq<char>| #[trigger]
            text::blank(before) && #[trigger] text::blank(after) && s == before + text::trimmed(s)
                + after,
        text::trimmed(s).len() > 0 ==> !text::white_space(text::trimmed(s).first())
            && !text::white_space(text::trimmed(s).last()),
{
    let u = text::trim_start(s);
    let t = text::trimmed(s);
    text::lemma_trim_start(s);
    text::lemma_trim_end(u);
    let before = s.take(s.len() - u.len());
    let after = u.skip(t.len() as int);
    assert(s =~= before + t + after);
    assert(text::blank(before));
    assert(text::blank(after)) by {
        assert forall|i: int| 0 <= i < after.len() implies text::white_space(
            #[trigger] after[i],
        ) by {
            assert(after[i] == u[i + t.len()]);
        }
    }
    if t.len() > 0 {
        assert(t.first() == u.first());
    }
}

/// Whether a text is blank: it has no character but white space.
pub proof fn law_blank_means_only_white_space(s: Seq<char>)
    ensures
        text::blank(s) <==> forall|i: int| 0 <= i < s.len() ==> text::white_space(#[trigger] s[i]),
{
}

/// A single part joins to itself, and parts join piece by piece, with the
/// separator in between.
pub proof fn law_parts_are_joined_in_order(
    a: Seq<Seq<char>>,
    b: Seq<Seq<char>>,
    separator: Seq<char>,
)
    ensures
        a.len() == 0 ==> text::joined(a, separator).len() == 0,
        a.len() == 1 ==> text::joined(a, separator) == a[0],
        a.len() > 0 && b.len() > 0 ==> text::joined(a + b, separator) == text::joined(a, separator)
            + separator + text::joined(b, separator),
    decreases b.len(),
{
    if a.len() > 0 && b.len() > 0 {
        let all = a + b;
        assert(all.drop_last() =~= a + b.drop_last());
        assert(all.last() == b.last());
        if b.len() == 1 {
            assert(all.drop_last() =~= a);
        } else {
            law_parts_are_joined_in_order(a, b.drop_last(), separator);
            assert(text::joined(all, separator) =~= text::joined(a, separator) + separator
                + text::joined(b, separator));
        }
    }
}

/// What follows the last of a character: the text is what comes before it, the
/// character, and what follows, which has no more of it. Where the character
/// does not occur nothing follows it.
pub proof fn law_after_last_splits_the_text(s: Seq<char>, c: char)
    ensures
        match text::after_last(s, c) {
            Some(rest) => rest.len() < s.len() && s[s.len() - rest.len() - 1] == c && rest
                == s.skip(s.len() - rest.len()) && !rest.contains(c),
            None => !s.contains(c),
        },
    decreases s.len(),
{
    if s.len() > 0 {
        let d = s.drop_last();
        law_after_last_splits_the_text(d, c);
        if s.last() == c {
            assert(s.skip(s.len() as int) =~= seq![]);
        } else {
            match text::after_last(d, c) {
                Some(rest) => {
                    let longer = rest.push(s.last());
                    assert(longer =~= s.skip(s.len() - longer.len()));
                    assert(s[s.len() - longer.len() - 1] == d[d.len() - rest.len() - 1]);
                    assert forall|i: int| 0 <= i < longer.len() implies longer[i] != c by {
                        if i < rest.len() {
                            assert(rest.contains(rest[i]));
                        }
                    }
                },
                None => {
                    assert forall|i: int| 0 <= i < s.len() implies s[i] != c by {
                        if i < d.len() {
                            assert(d.contains(d[i]));
                        }
                    }
                },
            }
        }
    }
}

/// The first position of a character is where it occurs and did not before,
/// or the end of the text.
pub proof fn law_first_position_is_first(s: Seq<char>, c: char)
    ensures
        0 <= text::first_position(s, c) <= s.len(),
        text::first_position(s, c) < s.len() ==> s[text::first_position(s, c)] == c,
        forall|i: int| 0 <= i < text::first_position(s, c) ==> #[trigger] s[i] != c,
    decreases s.len(),
{
    if s.len() > 0 && s.first() != c {
        let d = s.drop_first();
        law_first_position_is_first(d, c);
        assert forall|i: int| 0 <= i < text::first_position(s, c) implies #[trigger] s[i] != c by {
            if i > 0 {
                assert(s[i] == d[i - 1]);
            }
        }
    }
}

/// A text begins and ends with what it is made of, and only with that.
pub proof fn law_texts_begin_and_end_with_their_parts(s: Seq<char>, part: Seq<char>)
    ensures
        text::begins_with(s, part) <==> exists|rest: Seq<char>| s == #[trigger] (part + rest),
        text::finishes_with(s, part) <==> exists|rest: Seq<char>| s == #[trigger] (rest + part),
{
    if text::begins_with(s, part) {
        assert(s =~= part + s.skip(part.len() as int));
    }
    if exists|rest: Seq<char>| s == #[trigger] (part + rest) {
        let rest = choose|rest: Seq<char>| s == #[trigger] (part + rest);
        assert(s.take(part.len() as int) =~= part);
    }
    if text::finishes_with(s, part) {
        assert(s =~= s.take(s.len() - part.len()) + part);
    }
    if exists|rest: Seq<char>| s == #[trigger] (rest + part) {
        let rest = choose|rest: Seq<char>| s == #[trigger] (rest + part);
        assert(s.skip(s.len() - part.len()) =~= part);
    }
}

} // verus!
