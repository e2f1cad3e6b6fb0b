//! What holds of every file stem.

use vstd::prelude::*;

use crate::download;
use crate::download::MAX_STEM_LENGTH;
use crate::text;

verus! {

/// Whether a text holds nothing that file names cannot hold, no white space
/// but spaces, and no two spaces in a row.
pub open spec fn clean(s: Seq<char>) -> bool {
    &&& forall|i: int|
        0 <= i < s.len() ==> {
            &&& !text::control(#[trigger] s[i])
            &&& !download::forbidden(s[i])
            &&& text::white_space(s[i]) ==> s[i] == ' '
        }
    &&& forall|i: int|
        #![trigger s[i]]
        0 < i < s.len() ==> !(text::white_space(s[i - 1]) && text::white_space(s[i]))
}

/// Whether a text neither begins nor ends with a space, nor ends with a dot.
pub open spec fn tight(s: Seq<char>) -> bool {
    s.len() > 0 ==> {
        &&& !text::white_space(s.first())
        &&& !text::white_space(s.last())
        &&& s.last() != '.'
    }
}

/// File stems are safe: they are not empty, not too long, hold none of the
/// characters that file names cannot hold, and neither begin nor end with a
/// space, nor end with a dot.
pub proof fn law_file_stems_are_safe(s: Seq<char>)
    ensures
        0 < download::safe_name(s).len() <= MAX_STEM_LENGTH,
        clean(download::safe_name(s)),
        tight(download::safe_name(s)),
{
    lemma_reduced(s);
    reveal_strlit("未命名歌曲");
}

/// A name that is safe already is its own file stem.
pub proof fn law_safe_names_are_kept(name: Seq<char>)
    requires
        0 < name.len() <= MAX_STEM_LENGTH,
        clean(name),
        tight(name),
    ensures
        download::safe_name(name) == name,
{
    lemma_clean_is_collapsed(name);
    text::lemma_trim_start(name);
    text::lemma_trim_end(name);
    assert(text::trim_start(name) == name);
    assert(text::trim_end(name) == name);
    assert(download::without_dots(name) == name);
}

/// Making a file stem safe a second time changes nothing.
pub proof fn law_file_stems_are_stable(s: Seq<char>)
    ensures
        download::safe_name(download::safe_name(s)) == download::safe_name(s),
{
    law_file_stems_are_safe(s);
    law_safe_names_are_kept(download::safe_name(s));
}

/// What is left of a text is safe but for being empty.
proof fn lemma_reduced(s: Seq<char>)
    ensures
        download::reduced(s).len() <= MAX_STEM_LENGTH,
        clean(download::reduced(s)),
        tight(download::reduced(s)),
{
    let start = download::at_most(download::collapsed(s), MAX_STEM_LENGTH as nat);
    lemma_collapsed_is_clean(s);
    assert(clean(start));
    let mid = text::trim_start(start);
    text::lemma_trim_start(start);
    let off = start.len() - mid.len();
    assert(clean(mid)) by {
        assert forall|i: int| 0 <= i < mid.len() implies mid[i] == start[i + off] by {}
        assert forall|i: int|
            #![trigger mid[i]]
            0 < i < mid.len() implies !(text::white_space(mid[i - 1]) && text::white_space(
            mid[i],
        )) by {
            assert(mid[i - 1] == start[i + off - 1]);
            assert(mid[i] == start[i + off]);
        }
    }
    text::lemma_trim_end(mid);
    let end = text::trim_end(mid);
    assert(clean(end)) by {
        lemma_clean_prefix(mid, end.len() as int);
    }
    lemma_without_dots(end);
    let r = download::without_dots(end);
    lemma_clean_prefix(end, r.len() as int);
    if r.len() > 0 {
        assert(r.first() == mid.first());
        assert(r.last() == r[r.len() - 1]);
    }
}

/// Collapsing leaves nothing unclean, and ends with a space exactly if the
/// text ends with white space.
pub proof fn lemma_collapsed_is_clean(s: Seq<char>)
    ensures
        clean(download::collapsed(s)),
        s.len() > 0 ==> {
            &&& download::collapsed(s).len() > 0
            &&& text::white_space(download::collapsed(s).last()) == text::white_space(
                download::replacement(s.last()),
            )
        },
    decreases s.len(),
{
    if s.len() > 0 {
        let d = s.drop_last();
        lemma_collapsed_is_clean(d);
        let before = download::collapsed(d);
        let after = download::collapsed(s);
        if s.len() > 1 {
            assert(d.last() == s[s.len() - 2]);
        }
        if after.len() > before.len() {
            assert forall|i: int| 0 <= i < after.len() implies {
                &&& !text::control(#[trigger] after[i])
                &&& !download::forbidden(after[i])
                &&& text::white_space(after[i]) ==> after[i] == ' '
            } by {
                if i < before.len() {
                    assert(after[i] == before[i]);
                }
            }
            assert forall|i: int|
                #![trigger after[i]]
                0 < i < after.len() implies !(text::white_space(after[i - 1])
                && text::white_space(after[i])) by {
                assert(after[i - 1] == before[i - 1]);
                if i < before.len() {
                    assert(after[i] == before[i]);
                } else {
                    assert(before.last() == after[i - 1]);
                    assert(s.len() > 1);
                }
            }
        }
    }
}

/// A clean text is its own collapsed form.
pub proof fn lemma_clean_is_collapsed(s: Seq<char>)
    requires
        clean(s),
    ensures
        download::collapsed(s) == s,
    decreases s.len(),
{
    if s.len() > 0 {
        let d = s.drop_last();
        assert(d =~= s.take(s.len() - 1));
        lemma_clean_prefix(s, s.len() - 1);
        lemma_clean_is_collapsed(d);
        assert(download::replacement(s[s.len() - 1]) == s.last());
        if s.len() > 1 {
            assert(download::replacement(s[s.len() - 2]) == s[s.len() - 2]);
        }
        assert(download::collapsed(s) =~= s);
    }
}

/// The beginning of a clean text is clean.
pub proof fn lemma_clean_prefix(s: Seq<char>, k: int)
    requires
        clean(s),
        0 <= k <= s.len(),
    ensures
        clean(s.take(k)),
{
    let t = s.take(k);
    assert forall|i: int| 0 <= i < t.len() implies t[i] == s[i] by {}
    assert forall|i: int|
        #![trigger t[i]]
        0 < i < t.len() implies !(text::white_space(t[i - 1]) && text::white_space(t[i])) by {
        assert(t[i - 1] == s[i - 1]);
        assert(t[i] == s[i]);
    }
}

/// Dropping dots and spaces at the end leaves a beginning that does not end
/// with one.
proof fn lemma_without_dots(s: Seq<char>)
    ensures
        download::without_dots(s).len() <= s.len(),
        download::without_dots(s) == s.take(download::without_dots(s).len() as int),
        download::without_dots(s).len() > 0 ==> {
            &&& download::without_dots(s).last() != '.'
            &&& download::without_dots(s).last() != ' '
        },
    decreases s.len(),
{
    if s.len() > 0 && (s.last() == '.' || s.last() == ' ') {
        lemma_without_dots(s.drop_last());
        assert(s.drop_last().take(download::without_dots(s).len() as int) =~= s.take(
            download::without_dots(s).len() as int,
        ));
    } else {
        assert(s.take(s.len() as int) =~= s);
    }
}

} // verus!
