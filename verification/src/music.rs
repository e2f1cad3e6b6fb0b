//! Songs, platforms, qualities and login tokens.

use vstd::prelude::*;

use crate::model;
use crate::text;

verus! {

/// A music platform.
#[derive(Clone, Copy, Debug, PartialEq, Eq, Structural)]
pub enum Platform {
    Netease,
    Tencent,
}

/// A playback quality.
#[derive(Clone, Copy, Debug, PartialEq, Eq, Structural)]
pub enum SongQuality {
    Master,
    Surround,
    Stereo,
    Hires,
    Lossless,
    Exhigh,
    Standard,
}

/// One of the artists of a song.
#[derive(Debug)]
pub struct SongArtist {
    pub id: String,
    pub name: String,
}

/// The album that a song belongs to.
#[derive(Debug)]
pub struct SongAlbum {
    pub id: String,
    pub name: String,
}

/// A song, as either platform describes it.
#[derive(Debug)]
pub struct Song {
    pub id: String,
    pub name: String,
    pub pic_url: String,
    pub artists: Vec<SongArtist>,
    pub album: SongAlbum,
}

/// One page of a song search.
#[derive(Debug)]
pub struct SearchSongResult {
    pub songs: Vec<Song>,
    pub more: bool,
}

/// A playback address.
#[derive(Debug)]
pub struct UrlResult {
    pub id: String,
    pub level: SongQuality,
    pub url: String,
}

/// A login on the Netease platform. `expires_at` is in seconds since the Unix
/// epoch, and `None` if it is not known.
#[derive(Debug)]
pub struct NeteaseLoginToken {
    pub music_u: String,
    pub music_r_u: String,
    pub csrf: String,
    pub expires_at: Option<i64>,
}

/// A login on the Tencent platform. `expires_at` is in seconds since the Unix
/// epoch, and `None` if it is not known.
#[derive(Debug)]
pub struct TencentLoginToken {
    pub music_id: u64,
    pub music_key: String,
    pub refresh_token: String,
    pub refresh_key: String,
    pub login_type: u64,
    pub expires_at: Option<i64>,
}

/// A login on either platform.
#[derive(Debug)]
pub enum LoginToken {
    Netease(NeteaseLoginToken),
    Tencent(TencentLoginToken),
}

/// What an artist or an album is.
pub struct Named {
    pub id: Seq<char>,
    pub name: Seq<char>,
}

/// What a song is.
pub struct SongModel {
    pub id: Seq<char>,
    pub name: Seq<char>,
    pub pic_url: Seq<char>,
    pub artists: Seq<Named>,
    pub album: Named,
}

/// What a login on the Netease platform is.
pub struct NeteaseLogin {
    pub music_u: Seq<char>,
    pub music_r_u: Seq<char>,
    pub csrf: Seq<char>,
    pub expires_at: Option<i64>,
}

/// What a login on the Tencent platform is.
pub struct TencentLogin {
    pub music_id: u64,
    pub music_key: Seq<char>,
    pub refresh_token: Seq<char>,
    pub refresh_key: Seq<char>,
    pub login_type: u64,
    pub expires_at: Option<i64>,
}

/// What a login on either platform is.
pub enum Login {
    Netease(NeteaseLogin),
    Tencent(TencentLogin),
}

impl View for SongArtist {
    type V = Named;

    open spec fn view(&self) -> Named {
        Named { id: self.id@, name: self.name@ }
    }
}

impl View for SongAlbum {
    type V = Named;

    open spec fn view(&self) -> Named {
        Named { id: self.id@, name: self.name@ }
    }
}

impl View for Song {
    type V = SongModel;

    open spec fn view(&self) -> SongModel {
        SongModel {
            id: self.id@,
            name: self.name@,
            pic_url: self.pic_url@,
            artists: model::views(self.artists@),
            album: self.album@,
        }
    }
}

impl View for NeteaseLoginToken {
    type V = NeteaseLogin;

    open spec fn view(&self) -> NeteaseLogin {
        NeteaseLogin {
            music_u: self.music_u@,
            music_r_u: self.music_r_u@,
            csrf: self.csrf@,
            expires_at: self.expires_at,
        }
    }
}

impl View for TencentLoginToken {
    type V = TencentLogin;

    open spec fn view(&self) -> TencentLogin {
        TencentLogin {
            music_id: self.music_id,
            music_key: self.music_key@,
            refresh_token: self.refresh_token@,
            refresh_key: self.refresh_key@,
            login_type: self.login_type,
            expires_at: self.expires_at,
        }
    }
}

impl View for LoginToken {
    type V = Login;

    open spec fn view(&self) -> Login {
        match self {
            LoginToken::Netease(token) => Login::Netease(token@),
            LoginToken::Tencent(token) => Login::Tencent(token@),
        }
    }
}

impl Clone for SongArtist {
    fn clone(&self) -> (r: Self)
        ensures
            r@ == self@,
    {
        SongArtist { id: self.id.clone(), name: self.name.clone() }
    }
}

impl Clone for SongAlbum {
    fn clone(&self) -> (r: Self)
        ensures
            r@ == self@,
    {
        SongAlbum { id: self.id.clone(), name: self.name.clone() }
    }
}

impl Clone for Song {
    fn clone(&self) -> (r: Self)
        ensures
            r@ == self@,
    {
        let mut artists: Vec<SongArtist> = Vec::new();
        let mut i: usize = 0;
        while i < self.artists.len()
            invariant
                i <= self.artists.len(),
                artists.len() == i,
                forall|j: int| 0 <= j < i ==> (#[trigger] artists@[j])@ == self.artists@[j]@,
            decreases self.artists.len() - i,
        {
            artists.push(self.artists[i].clone());
            i = i + 1;
        }
        proof {
            assert(model::views(artists@) =~= model::views(self.artists@));
        }
        Song {
            id: self.id.clone(),
            name: self.name.clone(),
            pic_url: self.pic_url.clone(),
            artists,
            album: self.album.clone(),
        }
    }
}

impl Clone for NeteaseLoginToken {
    fn clone(&self) -> (r: Self)
        ensures
            r@ == self@,
    {
        NeteaseLoginToken {
            music_u: self.music_u.clone(),
            music_r_u: self.music_r_u.clone(),
            csrf: self.csrf.clone(),
            expires_at: self.expires_at,
        }
    }
}

impl Clone for TencentLoginToken {
    fn clone(&self) -> (r: Self)
        ensures
            r@ == self@,
    {
        TencentLoginToken {
            music_id: self.music_id,
            music_key: self.music_key.clone(),
            refresh_token: self.refresh_token.clone(),
            refresh_key: self.refresh_key.clone(),
            login_type: self.login_type,
            expires_at: self.expires_at,
        }
    }
}

impl Clone for LoginToken {
    fn clone(&self) -> (r: Self)
        ensures
            r@ == self@,
    {
        match self {
            LoginToken::Netease(token) => LoginToken::Netease(token.clone()),
            LoginToken::Tencent(token) => LoginToken::Tencent(token.clone()),
        }
    }
}

/// `NeteaseLoginToken::to_cookie` of the platform client writes the session
/// and the CSRF token as a `Cookie` header; the fields stand in it as they are.
#[verifier::external_body]
fn netease_cookie(token: &NeteaseLoginToken) -> (r: String)
    ensures
        r@ == token@.cookie(),
{
    netease_qq_music_api::models::NeteaseLoginToken::new(
        token.music_u.as_str(),
        token.music_r_u.as_str(),
        token.csrf.as_str(),
        token.expires_at,
    ).to_cookie()
}

/// `TencentLoginToken::to_cookie` of the platform client writes the account,
/// its key, twice, and the login type as a `Cookie` header; the fields stand
/// in it as they are, numbers in decimal notation.
#[verifier::external_body]
fn tencent_cookie(token: &TencentLoginToken) -> (r: String)
    ensures
        r@ == token@.cookie(),
{
    netease_qq_music_api::models::TencentLoginToken::new(
        token.music_id,
        token.music_key.as_str(),
        token.refresh_token.as_str(),
        token.refresh_key.as_str(),
        token.expires_at,
        token.login_type,
    ).to_cookie()
}

impl NeteaseLogin {
    /// The `Cookie` header for requests on behalf of this login.
    pub open spec fn cookie(self) -> Seq<char> {
        "MUSIC_U="@ + self.music_u + "; __csrf="@ + self.csrf
    }
}

impl TencentLogin {
    /// The `Cookie` header for requests on behalf of this login.
    pub open spec fn cookie(self) -> Seq<char> {
        "uin="@ + text::decimal(self.music_id as nat) + "; qqmusic_key="@ + self.music_key
            + "; qm_keyst="@ + self.music_key + "; tmeLoginType="@ + text::decimal(
            self.login_type as nat,
        )
    }
}

impl Login {
    /// The platform of a login.
    pub open spec fn platform(self) -> Platform {
        match self {
            Login::Netease(_) => Platform::Netease,
            Login::Tencent(_) => Platform::Tencent,
        }
    }

    /// When a login expires.
    pub open spec fn expires_at(self) -> Option<i64> {
        match self {
            Login::Netease(login) => login.expires_at,
            Login::Tencent(login) => login.expires_at,
        }
    }

    /// Whether a login has expired at the given time. One that expires at an
    /// unknown time has not.
    pub open spec fn expired_at(self, now: int) -> bool {
        self.expires_at() is Some && now >= self.expires_at()->Some_0
    }

    /// The `Cookie` header for requests on behalf of this login.
    pub open spec fn cookie(self) -> Seq<char> {
        match self {
            Login::Netease(login) => login.cookie(),
            Login::Tencent(login) => login.cookie(),
        }
    }
}

impl NeteaseLoginToken {
    /// A login with the given fields.
    pub fn new(music_u: &str, music_r_u: &str, csrf: &str, expires_at: Option<i64>) -> (r: Self)
        ensures
            r@ == (NeteaseLogin {
                music_u: music_u@,
                music_r_u: music_r_u@,
                csrf: csrf@,
                expires_at,
            }),
    {
        NeteaseLoginToken {
            music_u: music_u.to_owned(),
            music_r_u: music_r_u.to_owned(),
            csrf: csrf.to_owned(),
            expires_at,
        }
    }

    /// The `Cookie` header for requests on behalf of this login.
    pub fn to_cookie(&self) -> (r: String)
        ensures
            r@ == self@.cookie(),
    {
        netease_cookie(self)
    }
}

impl TencentLoginToken {
    /// A login with the given fields.
    pub fn new(
        music_id: u64,
        music_key: &str,
        refresh_token: &str,
        refresh_key: &str,
        expires_at: Option<i64>,
        login_type: u64,
    ) -> (r: Self)
        ensures
            r@ == (TencentLogin {
                music_id,
                music_key: music_key@,
                refresh_token: refresh_token@,
                refresh_key: refresh_key@,
                login_type,
                expires_at,
            }),
    {
        TencentLoginToken {
            music_id,
            music_key: music_key.to_owned(),
            refresh_token: refresh_token.to_owned(),
            refresh_key: refresh_key.to_owned(),
            login_type,
            expires_at,
        }
    }

    /// The `Cookie` header for requests on behalf of this login.
    pub fn to_cookie(&self) -> (r: String)
        ensures
            r@ == self@.cookie(),
    {
        tencent_cookie(self)
    }
}

impl LoginToken {
    /// The platform of a login.
    pub fn platform(&self) -> (r: Platform)
        ensures
            r == self@.platform(),
    {
        match self {
            LoginToken::Netease(_) => Platform::Netease,
            LoginToken::Tencent(_) => Platform::Tencent,
        }
    }

    /// The `Cookie` header for requests on behalf of this login.
    pub fn to_cookie(&self) -> (r: String)
        ensures
            r@ == self@.cookie(),
    {
        match self {
            LoginToken::Netease(token) => token.to_cookie(),
            LoginToken::Tencent(token) => token.to_cookie(),
        }
    }
}

/// When a login expires.
pub fn token_expires_at(token: &LoginToken) -> (r: Option<i64>)
    ensures
        r == token@.expires_at(),
{
    match token {
        LoginToken::Netease(token) => token.expires_at,
        LoginToken::Tencent(token) => token.expires_at,
    }
}

/// Whether a login has expired at the given time.
pub fn token_is_expired_at(token: &LoginToken, now: i64) -> (r: bool)
    ensures
        r == token@.expired_at(now as int),
{
    match token_expires_at(token) {
        Some(expires_at) => now >= expires_at,
        None => false,
    }
}

impl Platform {
    /// The other platform.
    pub open spec fn other(self) -> Platform {
        match self {
            Platform::Netease => Platform::Tencent,
            Platform::Tencent => Platform::Netease,
        }
    }

    /// What a platform is called.
    pub open spec fn label(self) -> Seq<char> {
        match self {
            Platform::Netease => "网易云音乐"@,
            Platform::Tencent => "QQ 音乐"@,
        }
    }

    /// What a platform is called where space is short.
    pub open spec fn short_name(self) -> Seq<char> {
        match self {
            Platform::Netease => "网易云"@,
            Platform::Tencent => "QQ音乐"@,
        }
    }
}

impl SongQuality {
    /// What a quality is called.
    pub open spec fn label(self) -> Seq<char> {
        match self {
            SongQuality::Master => "母带"@,
            SongQuality::Surround => "环绕声"@,
            SongQuality::Stereo => "立体声"@,
            SongQuality::Hires => "Hi-Res"@,
            SongQuality::Lossless => "无损"@,
            SongQuality::Exhigh => "极高"@,
            SongQuality::Standard => "标准"@,
        }
    }

    /// The next better quality; the worst one after the best.
    pub open spec fn next(self) -> SongQuality {
        match self {
            SongQuality::Standard => SongQuality::Exhigh,
            SongQuality::Exhigh => SongQuality::Lossless,
            SongQuality::Lossless => SongQuality::Hires,
            SongQuality::Hires => SongQuality::Stereo,
            SongQuality::Stereo => SongQuality::Surround,
            SongQuality::Surround => SongQuality::Master,
            SongQuality::Master => SongQuality::Standard,
        }
    }
}

/// The key by which a song is told apart from all others.
pub open spec fn key_of(platform: Platform, id: Seq<char>) -> Seq<char> {
    seq![
        match platform {
            Platform::Netease => 'N',
            Platform::Tencent => 'Q',
        },
        ':',
    ] + id
}

/// The key by which a song is told apart from all others.
pub fn song_key(platform: Platform, id: &str) -> (r: String)
    ensures
        r@ == key_of(platform, id@),
{
    let mut key = String::new();
    key.push(
        match platform {
            Platform::Netease => 'N',
            Platform::Tencent => 'Q',
        },
    );
    key.push(':');
    key.append(id);
    proof {
        assert(key@ =~= key_of(platform, id@));
    }
    key
}

/// Two songs have the same key exactly if they are the same song of the same
/// platform.
pub proof fn law_keys_tell_songs_apart(p: Platform, a: Seq<char>, q: Platform, b: Seq<char>)
    ensures
        key_of(p, a) == key_of(q, b) <==> p == q && a == b,
{
    if key_of(p, a) == key_of(q, b) {
        assert(key_of(p, a)[0] == key_of(q, b)[0]);
        assert(key_of(p, a).skip(2) =~= a);
        assert(key_of(q, b).skip(2) =~= b);
    }
}

} // verus!
