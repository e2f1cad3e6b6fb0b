//! What file names and extensions are made of.

use vstd::prelude::*;

use crate::download;
use crate::download::UrlFailure;
use crate::download_laws;
use crate::music::SongModel;
use crate::text;
use crate::text_laws;

verus! {

/// Whether a character cannot stand in a file name.
pub open spec fn bad(c: char) -> bool {
    ||| c as u32 <= 0x1f
    ||| 0x7f <= c as u32 <= 0x9f
    ||| c == '<'
    ||| c == '>'
    ||| c == ':'
    ||| c == '"'
    ||| c == '/'
    ||| c == '\\'
    ||| c == '|'
    ||| c == '?'
    ||| c == '*'
}

/// A text with an underscore for each character that cannot stand in a name.
pub open spec fn underscored(s: Seq<char>) -> Seq<char> {
    Seq::new(
        s.len(),
        |i: int|
            if bad(s[i]) {
                '_'
            } else {
                s[i]
            },
    )
}

/// A name without white space keeps its characters, but for an underscore in
/// place of each one that cannot stand in a file name.
pub proof fn law_bad_characters_become_underscores(s: Seq<char>)
    requires
        0 < s.len() <= 140,
        s.last() != '.',
        forall|i: int| 0 <= i < s.len() ==> bad(#[trigger] s[i]) || !text::white_space(s[i]),
    ensures
        download::safe_name(s) == underscored(s),
{
    lemma_underscored(s);
    let t = underscored(s);
    assert(download_laws::clean(t)) by {
        assert forall|i: int| 0 <= i < t.len() implies {
            &&& !text::control(#[trigger] t[i])
            &&& !download::forbidden(t[i])
            &&& !text::white_space(t[i])
        } by {
            assert(bad(s[i]) || !text::white_space(s[i]));
        }
    }
    assert(t.last() == t[t.len() - 1]);
    assert(bad(s[0]) || !text::white_space(s[0]));
    assert(bad(s[s.len() - 1]) || !text::white_space(s[s.len() - 1]));
    assert(download_laws::tight(t));
    download_laws::law_safe_names_are_kept(t);
    download_laws::lemma_clean_is_collapsed(t);
}

/// Without white space each character is replaced by itself.
proof fn lemma_underscored(s: Seq<char>)
    requires
        forall|i: int| 0 <= i < s.len() ==> bad(#[trigger] s[i]) || !text::white_space(s[i]),
    ensures
        download::collapsed(s) == underscored(s),
    decreases s.len(),
{
    if s.len() > 0 {
        let d = s.drop_last();
        assert forall|i: int| 0 <= i < d.len() implies bad(#[trigger] d[i]) || !text::white_space(
            d[i],
        ) by {
            assert(d[i] == s[i]);
        }
        lemma_underscored(d);
        assert(bad(s[s.len() - 1]) || !text::white_space(s[s.len() - 1]));
        assert(download::collapsed(s) =~= underscored(s));
    } else {
        assert(download::collapsed(s) =~= underscored(s));
    }
}

/// Whatever white space stands between two parts of a name, it counts as one
/// space.
pub proof fn law_white_space_counts_as_one_space(
    a: Seq<char>,
    b: Seq<char>,
    v: char,
    w: char,
)
    requires
        text::white_space(v),
        text::white_space(w),
        !bad(v),
        !bad(w),
    ensures
        download::safe_name(a + seq![v, w] + b) == download::safe_name(a + seq![' '] + b),
        download::safe_name(a + seq![v] + b) == download::safe_name(a + seq![' '] + b),
{
    let one = a + seq![' '];
    let other = a + seq![v];
    let two = a + seq![v, w];
    assert(one.drop_last() =~= a);
    assert(other.drop_last() =~= a);
    assert(two.drop_last() =~= other);
    assert(two[two.len() - 2] == v);
    if a.len() > 0 {
        assert(one[one.len() - 2] == a.last());
        assert(other[other.len() - 2] == a.last());
    }
    lemma_collapsed_on(one, other, b);
    lemma_collapsed_on(one, two, b);
}

/// Texts that collapse alike, and end alike, do so with whatever follows.
proof fn lemma_collapsed_on(x: Seq<char>, y: Seq<char>, b: Seq<char>)
    requires
        x.len() > 0,
        y.len() > 0,
        download::collapsed(x) == download::collapsed(y),
        text::white_space(download::replacement(x.last())) == text::white_space(
            download::replacement(y.last()),
        ),
    ensures
        download::collapsed(x + b) == download::collapsed(y + b),
    decreases b.len(),
{
    if b.len() == 0 {
        assert(x + b =~= x);
        assert(y + b =~= y);
    } else {
        let d = b.drop_last();
        lemma_collapsed_on(x, y, d);
        assert((x + b).drop_last() =~= x + d);
        assert((y + b).drop_last() =~= y + d);
        assert((x + b).last() == b.last() && (y + b).last() == b.last());
        if d.len() > 0 {
            assert((x + b)[(x + b).len() - 2] == d.last());
            assert((y + b)[(y + b).len() - 2] == d.last());
        } else {
            assert((x + b)[(x + b).len() - 2] == x.last());
            assert((y + b)[(y + b).len() - 2] == y.last());
        }
    }
}

/// A name that is too long is cut, and otherwise kept.
pub proof fn law_long_names_are_cut(s: Seq<char>)
    requires
        s.len() >= 140,
        download_laws::clean(s),
        !text::white_space(s[0]),
        !text::white_space(s[139]),
        s[139] != '.',
    ensures
        download::safe_name(s) == s.take(140),
{
    let t = s.take(140);
    download_laws::lemma_clean_is_collapsed(s);
    download_laws::lemma_clean_prefix(s, 140);
    assert(download_laws::tight(t));
    download_laws::law_safe_names_are_kept(t);
    download_laws::lemma_clean_is_collapsed(t);
    assert(s.len() == 140 ==> s =~= t);
}

/// Dots at the end of a name are dropped.
pub proof fn law_dots_at_the_end_are_dropped(name: Seq<char>, dots: Seq<char>)
    requires
        0 < name.len(),
        name.len() + dots.len() <= 140,
        download_laws::clean(name),
        download_laws::tight(name),
        forall|i: int| 0 <= i < dots.len() ==> #[trigger] dots[i] == '.',
    ensures
        download::safe_name(name + dots) == name,
{
    let s = name + dots;
    assert(download_laws::clean(s)) by {
        assert forall|i: int| 0 <= i < s.len() implies {
            &&& !text::control(#[trigger] s[i])
            &&& !download::forbidden(s[i])
            &&& text::white_space(s[i]) ==> s[i] == ' '
        } by {
            if i < name.len() {
                assert(s[i] == name[i]);
            } else {
                assert(s[i] == dots[i - name.len()]);
            }
        }
        assert forall|i: int|
            #![trigger s[i]]
            0 < i < s.len() implies !(text::white_space(s[i - 1]) && text::white_space(s[i])) by {
            if i < name.len() {
                assert(s[i] == name[i] && s[i - 1] == name[i - 1]);
            } else {
                assert(s[i] == dots[i - name.len()]);
            }
        }
    }
    download_laws::lemma_clean_is_collapsed(s);
    text::lemma_trim_start(s);
    text::lemma_trim_end(s);
    assert(s.first() == name.first());
    if dots.len() > 0 {
        assert(s.last() == dots[dots.len() - 1]);
    } else {
        assert(s =~= name);
    }
    assert(text::trim_start(s) == s);
    assert(text::trim_end(s) == s);
    lemma_dots(name, dots);
}

/// Dots are dropped one by one.
proof fn lemma_dots(name: Seq<char>, dots: Seq<char>)
    requires
        0 < name.len(),
        name.last() != '.',
        name.last() != ' ',
        forall|i: int| 0 <= i < dots.len() ==> #[trigger] dots[i] == '.',
    ensures
        download::without_dots(name + dots) == name,
    decreases dots.len(),
{
    if dots.len() == 0 {
        assert(name + dots =~= name);
    } else {
        assert((name + dots).drop_last() =~= name + dots.drop_last());
        assert((name + dots).last() == dots[dots.len() - 1]);
        lemma_dots(name, dots.drop_last());
    }
}

/// Whether a text holds nothing but dots and spaces.
pub open spec fn only_dots(s: Seq<char>) -> bool {
    forall|i: int| 0 <= i < s.len() ==> #[trigger] s[i] == '.' || s[i] == ' '
}

/// Where nothing is left of a name, a placeholder takes its place.
pub proof fn law_empty_names_get_a_placeholder(s: Seq<char>)
    requires
        only_dots(s),
    ensures
        download::safe_name(s) == "未命名歌曲"@,
{
    lemma_only_dots(s);
    let start = download::at_most(download::collapsed(s), 140);
    let mid = text::trim_start(start);
    let end = text::trim_end(mid);
    text::lemma_trim_start(start);
    text::lemma_trim_end(mid);
    assert(only_dots(start));
    assert(only_dots(mid)) by {
        assert forall|i: int| 0 <= i < mid.len() implies #[trigger] mid[i] == '.' || mid[i]
            == ' ' by {
            assert(mid[i] == start[i + start.len() - mid.len()]);
        }
    }
    assert(only_dots(end)) by {
        assert forall|i: int| 0 <= i < end.len() implies #[trigger] end[i] == '.' || end[i]
            == ' ' by {
            assert(end[i] == mid[i]);
        }
    }
    lemma_only_dots_go(end);
}

/// Collapsing brings in no other characters than dots and spaces.
proof fn lemma_only_dots(s: Seq<char>)
    requires
        only_dots(s),
    ensures
        only_dots(download::collapsed(s)),
    decreases s.len(),
{
    if s.len() > 0 {
        let d = s.drop_last();
        assert forall|i: int| 0 <= i < d.len() implies #[trigger] d[i] == '.' || d[i] == ' ' by {
            assert(d[i] == s[i]);
        }
        lemma_only_dots(d);
        assert(s[s.len() - 1] == '.' || s[s.len() - 1] == ' ');
    }
}

/// Of dots and spaces nothing is left.
proof fn lemma_only_dots_go(s: Seq<char>)
    requires
        only_dots(s),
    ensures
        download::without_dots(s).len() == 0,
    decreases s.len(),
{
    if s.len() > 0 {
        let d = s.drop_last();
        assert forall|i: int| 0 <= i < d.len() implies #[trigger] d[i] == '.' || d[i] == ' ' by {
            assert(d[i] == s[i]);
        }
        assert(s[s.len() - 1] == '.' || s[s.len() - 1] == ' ');
        lemma_only_dots_go(d);
    }
}

/// A file is named after the song and all of its artists, in their order, with
/// commas between them; a song without artists is by an unknown one.
pub proof fn law_files_are_named_after_the_song(song: SongModel)
    ensures
        ({
            let named = |artists: Seq<char>| song.name + " - "@ + artists;
            &&& song.artists.len() == 0 ==> download::stem(song) == download::safe_name(
                named("未知歌手"@),
            )
            &&& song.artists.len() > 0 ==> download::stem(song) == download::safe_name(
                named(download::artist_list(song)),
            )
        }),
        song.artists.len() == 0 ==> download::artist_list(song).len() == 0,
        song.artists.len() == 1 ==> download::artist_list(song) == song.artists[0].name,
        song.artists.len() > 1 ==> download::artist_list(song) == download::artist_list(
            SongModel { artists: song.artists.drop_last(), ..song },
        ) + ","@ + song.artists.last().name,
{
    let names = download::names(song.artists);
    if song.artists.len() > 1 {
        assert(names.drop_last() =~= download::names(song.artists.drop_last()));
        assert(names.last() == song.artists.last().name);
        let last = seq![names.last()];
        assert(names.drop_last() + last =~= names);
        text_laws::law_parts_are_joined_in_order(names.drop_last(), last, ","@);
        text_laws::law_parts_are_joined_in_order(last, last, ","@);
    }
}

/// A file name that is safe as it is stays so: name, dash and artist.
pub proof fn law_safe_songs_keep_their_name(song: SongModel)
    requires
        song.artists.len() > 0,
        ({
            let name = song.name + " - "@ + download::artist_list(song);
            name.len() <= 140 && download_laws::clean(name) && download_laws::tight(name)
        }),
    ensures
        download::stem(song) == song.name + " - "@ + download::artist_list(song),
{
    let name = song.name + " - "@ + download::artist_list(song);
    reveal_strlit(" - ");
    download_laws::law_safe_names_are_kept(name);
}

/// Whether a text can be an extension: one to sixteen ASCII letters or digits.
pub open spec fn can_be_extension(s: Seq<char>) -> bool {
    &&& 1 <= s.len() <= 16
    &&& forall|i: int|
        0 <= i < s.len() ==> ('0' <= #[trigger] s[i] <= '9' || 'A' <= s[i] <= 'Z' || 'a' <= s[i]
            <= 'z')
}

/// What follows the last dot of a file name is its extension, if it can be one.
pub proof fn law_extensions_follow_the_last_dot(stem: Seq<char>, extension: Seq<char>)
    requires
        !extension.contains('.'),
    ensures
        can_be_extension(extension) ==> download::extension_of(
            Some(stem + seq!['.'] + extension),
        ) == Ok::<Seq<char>, UrlFailure>(extension),
        !can_be_extension(extension) ==> download::extension_of(
            Some(stem + seq!['.'] + extension),
        ) == Err::<Seq<char>, UrlFailure>(UrlFailure::NoExtension),
{
    let name = stem + seq!['.'] + extension;
    text_laws::law_after_last_splits_the_text(name, '.');
    assert(name[stem.len() as int] == '.');
    match text::after_last(name, '.') {
        Some(rest) => {
            let p = name.len() - rest.len() - 1;
            if p < stem.len() {
                assert(rest[stem.len() - p - 1] == '.');
                assert(rest.contains('.'));
            }
            if p > stem.len() {
                assert(extension[p - stem.len() - 1] == '.');
                assert(extension.contains('.'));
            }
            assert(rest =~= extension);
        },
        None => {
            assert(name.contains('.'));
        },
    }
}

/// An address without a file name, or with one that has no dot, gives no
/// extension; only the last part of its path counts.
pub proof fn law_only_file_names_have_extensions(
    url: Seq<char>,
    name: Seq<char>,
    parts: Seq<Seq<char>>,
)
    ensures
        download::extension_of(None) == Err::<Seq<char>, UrlFailure>(UrlFailure::NoFileName),
        name.len() == 0 ==> download::extension_of(Some(name)) == Err::<Seq<char>, UrlFailure>(
            UrlFailure::NoFileName,
        ),
        name.len() > 0 && !name.contains('.') ==> download::extension_of(Some(name)) == Err::<
            Seq<char>,
            UrlFailure,
        >(UrlFailure::NoExtension),
        download::last_segment(Some(parts.push(name))) == Some(name),
        download::last_segment(Some(seq![])) is None,
        download::last_segment(None) is None,
        download::url_extension(url) == match download::url_segments(url) {
            Some(segments) => download::extension_of(download::last_segment(segments)),
            None => Err::<Seq<char>, UrlFailure>(UrlFailure::Invalid),
        },
{
    text_laws::law_after_last_splits_the_text(name, '.');
    if name.len() > 0 && text::after_last(name, '.') is Some {
        let rest = text::after_last(name, '.')->Some_0;
        assert(name[name.len() - rest.len() - 1] == '.');
    }
}

/// Names are built up character by character: bad ones become underscores, runs
/// of white space a single space, and all others stay.
pub proof fn law_names_are_built_up(a: Seq<char>, c: char)
    ensures
        download::collapsed(seq![]).len() == 0,
        bad(c) ==> download::collapsed(a.push(c)) == download::collapsed(a).push('_'),
        !bad(c) && !text::white_space(c) ==> download::collapsed(a.push(c)) == download::collapsed(
            a,
        ).push(c),
        !bad(c) && text::white_space(c) ==> download::collapsed(a.push(c)) == if a.len() > 0 && !bad(
            a.last(),
        ) && text::white_space(a.last()) {
            download::collapsed(a)
        } else {
            download::collapsed(a).push(' ')
        },
{
    let s = a.push(c);
    assert(s.drop_last() =~= a);
    assert(s.last() == c);
    if a.len() > 0 {
        assert(s[s.len() - 2] == a.last());
    }
}

/// The stem is what lies, among the first 140 characters, between white space at
/// the beginning and dots and spaces at the end.
pub proof fn law_stems_are_what_is_left(s: Seq<char>)
    ensures
        ({
            let all = download::collapsed(s);
            let start = if all.len() <= 140 {
                all
            } else {
                all.take(140)
            };
            ||| only_dots(start) && download::safe_name(s) == "未命名歌曲"@
            ||| !only_dots(start) && exists|before: Seq<char>, after: Seq<char>| #[trigger]
                text::blank(before) && #[trigger] only_dots(after) && start == before
                    + download::safe_name(s) + after
        }),
        download_laws::tight(download::safe_name(s)),
{
    let start = download::at_most(download::collapsed(s), 140);
    download_laws::law_file_stems_are_safe(s);
    download_laws::lemma_collapsed_is_clean(s);
    let mid = text::trim_start(start);
    let end = text::trim_end(mid);
    let rest = download::without_dots(end);
    text::lemma_trim_start(start);
    text::lemma_trim_end(mid);
    lemma_dropped_dots(end);
    let before = start.take(start.len() - mid.len());
    let after = start.skip(start.len() - mid.len() + rest.len());
    assert(start =~= before + rest + after);
    assert(text::blank(before));
    assert(only_dots(after)) by {
        assert forall|i: int| 0 <= i < after.len() implies #[trigger] after[i] == '.' || after[i]
            == ' ' by {
            let k = rest.len() + i;
            assert(after[i] == mid[k]);
            assert(after[i] == start[start.len() - mid.len() + k]);
            if k < end.len() {
                assert(end[k] == mid[k]);
            } else {
                assert(text::white_space(mid[k]));
                lemma_clean_start(s, start.len() - mid.len() + k);
            }
        }
    }
    if rest.len() == 0 {
        assert(only_dots(start)) by {
            assert forall|i: int| 0 <= i < start.len() implies #[trigger] start[i] == '.'
                || start[i] == ' ' by {
                if i < before.len() {
                    assert(start[i] == before[i]);
                    lemma_clean_start(s, i);
                } else {
                    assert(start[i] == after[i - before.len()]);
                }
            }
        }
    } else {
        assert(rest.last() == start[before.len() + rest.len() - 1]);
    }
}

/// White space among the first characters of a collapsed text is a space.
proof fn lemma_clean_start(s: Seq<char>, i: int)
    requires
        0 <= i < download::at_most(download::collapsed(s), 140).len(),
        text::white_space(download::at_most(download::collapsed(s), 140)[i]),
    ensures
        download::at_most(download::collapsed(s), 140)[i] == ' ',
{
    download_laws::lemma_collapsed_is_clean(s);
    assert(download::at_most(download::collapsed(s), 140)[i] == download::collapsed(s)[i]);
}

/// What is dropped at the end of a text are dots and spaces, all of them.
proof fn lemma_dropped_dots(s: Seq<char>)
    ensures
        download::without_dots(s).len() <= s.len(),
        download::without_dots(s) == s.take(download::without_dots(s).len() as int),
        forall|i: int|
            download::without_dots(s).len() <= i < s.len() ==> #[trigger] s[i] == '.' || s[i]
                == ' ',
        download::without_dots(s).len() > 0 ==> download::without_dots(s).last() != '.'
            && download::without_dots(s).last() != ' ',
    decreases s.len(),
{
    if s.len() > 0 && (s.last() == '.' || s.last() == ' ') {
        let d = s.drop_last();
        lemma_dropped_dots(d);
        assert(d.take(download::without_dots(s).len() as int) =~= s.take(
            download::without_dots(s).len() as int,
        ));
        assert forall|i: int| download::without_dots(s).len() <= i < s.len() implies #[trigger] s[i]
            == '.' || s[i] == ' ' by {
            if i < d.len() {
                assert(d[i] == s[i]);
            }
        }
    } else {
        assert(s.take(s.len() as int) =~= s);
    }
}

/// What is said of links that no file can be named after.
pub proof fn law_unusable_links_are_told_apart()
    ensures
        UrlFailure::Invalid.text() == "平台返回的下载链接格式无效"@,
        UrlFailure::NoFileName.text() == "平台返回的下载链接没有原始文件名"@,
        UrlFailure::NoExtension.text() == "平台返回的下载链接没有可用的原始扩展名"@,
{
}

} // verus!
