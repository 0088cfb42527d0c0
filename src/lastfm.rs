//! Album records of the upstream scrobbling API, and the request for them.
use crate::constants::Period;
use crate::raster::{decoded_rgb, raster_view, Raster};
use vstd::prelude::*;
use vstd::string::StringExecFns;

verus! {

/// The artist of an album record.
#[derive(Clone, Debug)]
pub struct Artist {
    pub url: String,
    pub name: String,
    pub mbid: String,
}

/// One size variant of an album's cover artwork; an empty `url` means that
/// there is no artwork of that size.
#[derive(Clone, Debug)]
pub struct Image {
    pub url: String,
    pub size: String,
}

/// One entry of a user's ranked top albums.
#[derive(Clone, Debug)]
pub struct Album {
    pub name: String,
    pub artist: Artist,
    pub playcount: String,
    pub url: String,
    pub images: Vec<Image>,
}

/// The ranked album list of a response.
#[derive(Clone, Debug)]
pub struct TopAlbums {
    pub album: Vec<Album>,
}

/// The body of a top-albums response.
#[derive(Clone, Debug)]
pub struct LastFmResponse {
    pub topalbums: TopAlbums,
}

/// Where the upstream API is and the key to call it with.
#[derive(Clone, Debug)]
pub struct LastFm {
    endpoint: String,
    api_key: String,
}

/// Why the upstream API gave no album list.
#[derive(Clone, Copy, Debug, PartialEq, Eq, Structural)]
pub enum UpstreamError {
    /// The response had this status rather than 200.
    Status(u16),
    /// The body did not match the expected shape.
    Decode,
}

/// An album record lacks the requested artwork size altogether.
#[derive(Clone, Copy, Debug, PartialEq, Eq, Structural)]
pub struct ArtworkLookupError;

/// `k` is the first index of `images` whose size is `size`.
pub open spec fn is_first_variant(images: Seq<Image>, size: Seq<char>, k: int) -> bool {
    &&& 0 <= k < images.len()
    &&& images[k].size@ == size
    &&& forall|j: int| 0 <= j < k ==> images[j].size@ != size
}

/// Whether `images` has a variant of the given size.
pub open spec fn has_variant(images: Seq<Image>, size: Seq<char>) -> bool {
    exists|j: int| 0 <= j < images.len() && images[j].size@ == size
}

/// The first variant of `size` in `images` has a non-empty URL.
pub open spec fn has_artwork(images: Seq<Image>, size: Seq<char>) -> bool {
    exists|k: int| #[trigger] is_first_variant(images, size, k) && images[k].url@.len() != 0
}

/// The decimal digits of `n`, most significant first.
pub open spec fn decimal(n: nat) -> Seq<char>
    decreases n,
{
    if n < 10 {
        seq![digit_char(n)]
    } else {
        decimal(n / 10) + seq![digit_char(n % 10)]
    }
}

/// The character of a decimal digit.
pub open spec fn digit_char(d: nat) -> char {
    if d < 10 {
        (d + '0' as nat) as char
    } else {
        '?'
    }
}

fn digit_str(d: usize) -> (r: &'static str)
    requires
        d < 10,
    ensures
        r@ == seq![digit_char(d as nat)],
{
    proof {
        reveal_strlit("0");
        reveal_strlit("1");
        reveal_strlit("2");
        reveal_strlit("3");
        reveal_strlit("4");
        reveal_strlit("5");
        reveal_strlit("6");
        reveal_strlit("7");
        reveal_strlit("8");
        reveal_strlit("9");
    }
    match d {
        0 => "0",
        1 => "1",
        2 => "2",
        3 => "3",
        4 => "4",
        5 => "5",
        6 => "6",
        7 => "7",
        8 => "8",
        _ => "9",
    }
}

/// `n` written in decimal.
pub fn decimal_string(n: usize) -> (r: String)
    ensures
        r@ == decimal(n as nat),
    decreases n,
{
    if n < 10 {
        String::from_str(digit_str(n))
    } else {
        let mut s = decimal_string(n / 10);
        s.append(digit_str(n % 10));
        s
    }
}

/// The query URL for the `count` top albums of `username` over `period`.
pub open spec fn top_albums_url(
    endpoint: Seq<char>,
    api_key: Seq<char>,
    username: Seq<char>,
    period: Period,
    count: nat,
) -> Seq<char> {
    endpoint + "/?method=user.gettopalbums&user="@ + username + "&period="@ + period.spec_name()
        + "&api_key="@ + api_key + "&limit="@ + decimal(count) + "&format=json"@
}

impl LastFm {
    /// A client of the API at `endpoint`, calling it with `api_key`.
    pub fn new(endpoint: String, api_key: String) -> (r: LastFm)
        ensures
            r.endpoint() == endpoint@,
            r.api_key() == api_key@,
    {
        LastFm { endpoint, api_key }
    }

    /// The base URL of the API.
    pub closed spec fn endpoint(&self) -> Seq<char> {
        self.endpoint@
    }

    /// The key that requests carry.
    pub closed spec fn api_key(&self) -> Seq<char> {
        self.api_key@
    }

    /// The URL to fetch the `count` top albums of `username` over `period` from.
    pub fn top_albums_url(&self, username: &str, period: Period, count: usize) -> (r: String)
        ensures
            r@ == top_albums_url(self.endpoint(), self.api_key(), username@, period, count as nat),
    {
        let mut url = self.endpoint.clone();
        url.append("/?method=user.gettopalbums&user=");
        url.append(username);
        url.append("&period=");
        url.append(period.to_str());
        url.append("&api_key=");
        url.append(self.api_key.as_str());
        url.append("&limit=");
        let n = decimal_string(count);
        url.append(n.as_str());
        url.append("&format=json");
        url
    }
}

/// The album list that a top-albums response carries: `status` is the HTTP
/// status, `body` the decoded body, `None` where it did not decode.
pub fn top_albums_from_response(status: u16, body: Option<LastFmResponse>) -> (r: Result<
    Vec<Album>,
    UpstreamError,
>)
    ensures
        status != 200 ==> r == Err::<Vec<Album>, UpstreamError>(UpstreamError::Status(status)),
        status == 200 && body is None ==> r == Err::<Vec<Album>, UpstreamError>(UpstreamError::Decode),
        status == 200 && body is Some ==> (r matches Ok(v) && v@ == body->Some_0.topalbums.album@),
{
    if status != 200 {
        return Err(UpstreamError::Status(status));
    }
    match body {
        Some(b) => Ok(b.topalbums.album),
        None => Err(UpstreamError::Decode),
    }
}

impl Album {
    /// The URL of the first artwork variant of the given size: `None` where
    /// that variant's URL is empty, an error where there is no such variant.
    pub fn artwork_url(&self, size: &str) -> (r: Result<Option<String>, ArtworkLookupError>)
        ensures
            r is Err <==> !has_variant(self.images@, size@),
            r matches Ok(u) ==> exists|k: int|
                {
                    &&& #[trigger] is_first_variant(self.images@, size@, k)
                    &&& (self.images@[k].url@.len() == 0 ==> u is None)
                    &&& (self.images@[k].url@.len() != 0 ==> (u matches Some(s) && s@
                        == self.images@[k].url@))
                },
    {
        let mut i: usize = 0;
        while i < self.images.len()
            invariant
                i <= self.images@.len(),
                forall|j: int| 0 <= j < i ==> self.images@[j].size@ != size@,
            decreases self.images@.len() - i,
        {
            let image = &self.images[i];
            if crate::constants::same_text(image.size.as_str(), size) {
                proof {
                    assert(is_first_variant(self.images@, size@, i as int));
                }
                if image.url.as_str().is_empty() {
                    return Ok(None);
                }
                return Ok(Some(image.url.clone()));
            }
            i += 1;
        }
        Err(ArtworkLookupError)
    }

    /// The artwork of the given size, decoded to RGB. `download` is what
    /// fetching the variant's URL gave, `None` where that failed. Missing,
    /// empty, unfetched and undecodable artwork all give `None`.
    pub fn get_image(&self, size: &str, download: Option<&[u8]>) -> (r: Option<Raster>)
        ensures
            r is Some <==> has_artwork(self.images@, size@) && download is Some && decoded_rgb(
                download->Some_0@,
            ) is Some,
            r matches Some(img) ==> decoded_rgb(download->Some_0@) == Some(raster_view(img)),
    {
        match self.artwork_url(size) {
            Ok(Some(_)) => match download {
                Some(bytes) => Raster::decode(bytes),
                None => None,
            },
            _ => None,
        }
    }
}

} // verus!
