//! Names for downloaded files.

use vstd::prelude::*;

use crate::model;
use crate::music;
use crate::music::{Song, SongModel};
use crate::text;

verus! {

/// The most characters that a file stem is made of.
pub const MAX_STEM_LENGTH: usize = 140;

/// The most characters that a file extension is made of.
pub const MAX_EXTENSION_LENGTH: usize = 16;

/// The characters that file names cannot hold on every system.
pub open spec fn forbidden(c: char) -> bool {
    ||| c == '<'
    ||| c == '>'
    ||| c == ':'
    ||| c == '"'
    ||| c == '/'
    ||| c == '\\'
    ||| c == '|'
    ||| c == '?'
    ||| c == '*'
}

/// The character that stands for `c` in a file name.
pub open spec fn replacement(c: char) -> char {
    if text::control(c) || forbidden(c) {
        '_'
    } else {
        c
    }
}

/// A text with each character replaced, and each run of white space as a
/// single space.
pub open spec fn collapsed(s: Seq<char>) -> Seq<char>
    decreases s.len(),
{
    if s.len() == 0 {
        s
    } else {
        let rest = collapsed(s.drop_last());
        if !text::white_space(replacement(s.last())) {
            rest.push(replacement(s.last()))
        } else if s.len() > 1 && text::white_space(replacement(s[s.len() - 2])) {
            rest
        } else {
            rest.push(' ')
        }
    }
}

/// The first `n` elements, or all if there are fewer.
pub open spec fn at_most(s: Seq<char>, n: nat) -> Seq<char> {
    if s.len() <= n {
        s
    } else {
        s.take(n as int)
    }
}

/// A text without the dots and spaces at its end.
pub open spec fn without_dots(s: Seq<char>) -> Seq<char>
    decreases s.len(),
{
    if s.len() > 0 && (s.last() == '.' || s.last() == ' ') {
        without_dots(s.drop_last())
    } else {
        s
    }
}

/// What is left of a text for a file name.
pub open spec fn reduced(s: Seq<char>) -> Seq<char> {
    without_dots(text::trimmed(at_most(collapsed(s), MAX_STEM_LENGTH as nat)))
}

/// The file stem for a text: what is left of it, or a placeholder.
pub open spec fn safe_name(s: Seq<char>) -> Seq<char> {
    if reduced(s).len() == 0 {
        "未命名歌曲"@
    } else {
        reduced(s)
    }
}

/// Whether `c` is one of the characters that file names cannot hold.
fn is_forbidden(c: char) -> (r: bool)
    ensures
        r == forbidden(c),
{
    c == '<' || c == '>' || c == ':' || c == '"' || c == '/' || c == '\\' || c == '|' || c == '?'
        || c == '*'
}

/// Collapsing a longer text only appends.
proof fn lemma_collapsed_grows(s: Seq<char>, k: int)
    requires
        0 <= k <= s.len(),
    ensures
        collapsed(s.take(k)).len() <= collapsed(s).len(),
        collapsed(s.take(k)) == collapsed(s).take(collapsed(s.take(k)).len() as int),
    decreases s.len(),
{
    if k == s.len() {
        assert(s.take(k) =~= s);
        assert(collapsed(s).take(collapsed(s).len() as int) =~= collapsed(s));
    } else {
        let d = s.drop_last();
        assert(d.take(k) =~= s.take(k));
        lemma_collapsed_grows(d, k);
        let n = collapsed(s.take(k)).len() as int;
        assert(collapsed(d).take(n) =~= collapsed(s).take(n));
    }
}

/// The beginning of a collapsed text.
fn collapse(value: &str) -> (r: String)
    ensures
        r@ == at_most(collapsed(value@), MAX_STEM_LENGTH as nat),
{
    let mut out = String::new();
    let mut length: usize = 0;
    let mut previous_space: bool = false;
    let ghost all = value@;
    for c in it: value.chars()
        invariant
            it.seq() == all,
            all == value@,
            out@ == collapsed(all.take(it.index() as int)),
            length == out@.len(),
            length < MAX_STEM_LENGTH,
            previous_space == (it.index() > 0 && text::white_space(
                replacement(all[it.index() - 1]),
            )),
    {
        let ghost i = it.index() as int;
        let replaced = if text::is_control(c) || is_forbidden(c) {
            '_'
        } else {
            c
        };
        proof {
            assert(c == all[i]);
            assert(all.take(i + 1).drop_last() =~= all.take(i));
            assert(all.take(i + 1).last() == c);
            if i > 0 {
                assert(all.take(i + 1)[i - 1] == all[i - 1]);
            }
        }
        if text::is_white_space(replaced) {
            if !previous_space {
                out.push(' ');
                length = length + 1;
            }
            previous_space = true;
        } else {
            out.push(replaced);
            length = length + 1;
            previous_space = false;
        }
        proof {
            assert(out@ == collapsed(all.take(i + 1)));
        }
        if length >= MAX_STEM_LENGTH {
            proof {
                lemma_collapsed_grows(all, i + 1);
                assert(collapsed(all).take(collapsed(all).len() as int) =~= collapsed(all));
            }
            return out;
        }
    }
    proof {
        assert(all.take(all.len() as int) =~= all);
    }
    out
}

/// A text without the dots and spaces at its end.
fn strip_dots(s: &str) -> (r: String)
    ensures
        r@ == without_dots(s@),
{
    let chars = text::characters(s);
    let mut end: usize = chars.len();
    proof {
        assert(s@.take(end as int) =~= s@);
    }
    while end > 0 && (chars[end - 1] == '.' || chars[end - 1] == ' ')
        invariant
            chars@ == s@,
            end <= chars.len(),
            without_dots(s@) == without_dots(s@.take(end as int)),
        decreases end,
    {
        proof {
            assert(s@.take(end as int).drop_last() =~= s@.take(end - 1));
        }
        end = end - 1;
    }
    proof {
        assert(s@.subrange(0, end as int) =~= s@.take(end as int));
    }
    s.substring_char(0, end).to_owned()
}

/// The file stem for a text.
pub fn sanitize_filename(value: &str) -> (r: String)
    ensures
        r@ == safe_name(value@),
{
    let start = collapse(value);
    let middle = text::trim(start.as_str());
    let sanitized = strip_dots(middle.as_str());
    if sanitized.as_str().unicode_len() == 0 {
        "未命名歌曲".to_owned()
    } else {
        sanitized
    }
}

/// The names of artists.
pub open spec fn names(artists: Seq<music::Named>) -> Seq<Seq<char>> {
    artists.map_values(|artist: music::Named| artist.name)
}

/// The artists of a song, separated by commas.
pub open spec fn artist_list(song: SongModel) -> Seq<char> {
    text::joined(names(song.artists), ","@)
}

/// The file stem for a song: its name and its artists, made safe.
pub open spec fn stem(song: SongModel) -> Seq<char> {
    safe_name(
        song.name + " - "@ + if song.artists.len() == 0 {
            "未知歌手"@
        } else {
            artist_list(song)
        },
    )
}

/// The artists of a song, separated by commas.
pub fn artists_text(song: &Song) -> (r: String)
    ensures
        r@ == artist_list(song@),
{
    let ghost all = names(song@.artists);
    let mut out = String::new();
    let mut i: usize = 0;
    while i < song.artists.len()
        invariant
            all == names(song@.artists),
            i <= song.artists.len(),
            out@ == text::joined(all.take(i as int), ","@),
        decreases song.artists.len() - i,
    {
        if i > 0 {
            out.append(",");
        }
        out.append(song.artists[i].name.as_str());
        proof {
            let prefix = all.take(i + 1);
            assert(prefix.drop_last() =~= all.take(i as int));
            assert(prefix.last() == song.artists@[i as int].name@);
            assert(out@ =~= text::joined(prefix, ","@));
        }
        i = i + 1;
    }
    proof {
        assert(all.take(all.len() as int) =~= all);
    }
    out
}

/// The file stem for a song.
pub fn file_stem(song: &Song) -> (r: String)
    ensures
        r@ == stem(song@),
{
    let mut name = song.name.clone();
    name.append(" - ");
    if song.artists.len() == 0 {
        name.append("未知歌手");
    } else {
        name.append(artists_text(song).as_str());
    }
    sanitize_filename(name.as_str())
}

/// Why a download address gives no file extension.
#[derive(Clone, Copy, Debug, PartialEq, Eq, Structural)]
pub enum UrlFailure {
    /// The address is no URL.
    Invalid,
    /// The address does not end in a file name.
    NoFileName,
    /// The file name has no usable extension.
    NoExtension,
}

impl UrlFailure {
    /// What is shown to the user.
    pub open spec fn text(self) -> Seq<char> {
        match self {
            UrlFailure::Invalid => "平台返回的下载链接格式无效"@,
            UrlFailure::NoFileName => "平台返回的下载链接没有原始文件名"@,
            UrlFailure::NoExtension => "平台返回的下载链接没有可用的原始扩展名"@,
        }
    }

    /// What is shown to the user.
    pub fn message(self) -> (r: &'static str)
        ensures
            r@ == self.text(),
    {
        match self {
            UrlFailure::Invalid => "平台返回的下载链接格式无效",
            UrlFailure::NoFileName => "平台返回的下载链接没有原始文件名",
            UrlFailure::NoExtension => "平台返回的下载链接没有可用的原始扩展名",
        }
    }
}

/// The segments of a URL's path, where it has any; nothing at all if the text
/// is no URL.
pub uninterp spec fn url_segments(url: Seq<char>) -> Option<Option<Seq<Seq<char>>>>;

/// The texts of segments, where there are any.
pub open spec fn segment_texts(segments: Option<Vec<String>>) -> Option<Seq<Seq<char>>> {
    match segments {
        Some(segments) => Some(model::views(segments@)),
        None => None,
    }
}

/// `reqwest::Url::parse` on the text, and `path_segments` on the result; `None`
/// stands for the error of `parse`. What comes out is named by `url_segments`.
#[verifier::external_body]
fn parse_segments(url: &str) -> (r: Option<Option<Vec<String>>>)
    ensures
        match r {
            Some(segments) => url_segments(url@) == Some(segment_texts(segments)),
            None => url_segments(url@) is None,
        },
{
    let parsed = reqwest::Url::parse(url).ok()?;
    Some(parsed.path_segments().map(|segments| segments.map(str::to_owned).collect()))
}

/// Whether a text can be a file extension.
pub open spec fn usable_extension(s: Seq<char>) -> bool {
    &&& 0 < s.len() <= MAX_EXTENSION_LENGTH
    &&& forall|i: int| 0 <= i < s.len() ==> text::alphanumeric(#[trigger] s[i])
}

/// The file extension of the last path segment of an address: what follows
/// its last dot.
pub open spec fn extension_of(segment: Option<Seq<char>>) -> Result<Seq<char>, UrlFailure> {
    match segment {
        Some(name) if name.len() > 0 => match text::after_last(name, '.') {
            Some(extension) if usable_extension(extension) => Ok(extension),
            _ => Err(UrlFailure::NoExtension),
        },
        _ => Err(UrlFailure::NoFileName),
    }
}

/// The last segment, where there is one.
pub open spec fn last_segment(segments: Option<Seq<Seq<char>>>) -> Option<Seq<char>> {
    match segments {
        Some(segments) if segments.len() > 0 => Some(segments.last()),
        _ => None,
    }
}

/// The file extension of an address.
pub open spec fn url_extension(url: Seq<char>) -> Result<Seq<char>, UrlFailure> {
    match url_segments(url) {
        Some(segments) => extension_of(last_segment(segments)),
        None => Err(UrlFailure::Invalid),
    }
}

/// Whether a text can be a file extension.
fn is_usable_extension(s: &str) -> (r: bool)
    ensures
        r == usable_extension(s@),
{
    let n: usize = s.unicode_len();
    if n == 0 || n > MAX_EXTENSION_LENGTH {
        return false;
    }
    for c in it: s.chars()
        invariant
            it.seq() == s@,
            forall|i: int| 0 <= i < it.index() ==> text::alphanumeric(#[trigger] s@[i]),
    {
        if !text::is_alphanumeric(c) {
            proof {
                assert(!text::alphanumeric(s@[it.index() as int]));
            }
            return false;
        }
    }
    true
}

/// The file extension of the last path segment of an address.
pub fn segment_extension(segment: Option<String>) -> (r: Result<String, UrlFailure>)
    ensures
        match r {
            Ok(extension) => extension_of(model::view_of(segment)) == Ok::<Seq<char>, UrlFailure>(
                extension@,
            ),
            Err(e) => extension_of(model::view_of(segment)) == Err::<Seq<char>, UrlFailure>(e),
        },
{
    let name = match segment {
        Some(name) => name,
        None => return Err(UrlFailure::NoFileName),
    };
    if name.as_str().unicode_len() == 0 {
        return Err(UrlFailure::NoFileName);
    }
    match text::text_after_last(name.as_str(), '.') {
        Some(extension) => if is_usable_extension(extension.as_str()) {
            Ok(extension)
        } else {
            Err(UrlFailure::NoExtension)
        },
        None => Err(UrlFailure::NoExtension),
    }
}

/// The file extension of the segments of an address.
pub fn segments_extension(segments: Option<Vec<String>>) -> (r: Result<String, UrlFailure>)
    ensures
        match r {
            Ok(extension) => extension_of(last_segment(segment_texts(segments))) == Ok::<
                Seq<char>,
                UrlFailure,
            >(extension@),
            Err(e) => extension_of(last_segment(segment_texts(segments))) == Err::<
                Seq<char>,
                UrlFailure,
            >(e),
        },
{
    match segments {
        Some(mut segments) => {
            let ghost all = segments@;
            let last = segments.pop();
            proof {
                if all.len() > 0 {
                    assert(model::views(all).last() == all.last()@);
                }
            }
            segment_extension(last)
        },
        None => segment_extension(None),
    }
}

/// The file extension of an address. None is made up where the address has
/// none.
pub fn original_url_extension(url: &str) -> (r: Result<String, UrlFailure>)
    ensures
        match r {
            Ok(extension) => url_extension(url@) == Ok::<Seq<char>, UrlFailure>(extension@),
            Err(e) => url_extension(url@) == Err::<Seq<char>, UrlFailure>(e),
        },
{
    match parse_segments(url) {
        Some(segments) => segments_extension(segments),
        None => Err(UrlFailure::Invalid),
    }
}

} // verus!
