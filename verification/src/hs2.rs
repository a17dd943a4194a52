//! The Homestuck^2 sources: the story's RSS feed and the bonus page.
//!
//! Fetching and markup extraction happen outside the library; what arrives
//! here is the extracted fields of each raw item. This module owns the rest
//! of the pipeline: turning an RSS item into an `Update` (the page number in
//! the item's title field is the id), collapsing adjacent items that share a
//! publication timestamp, and turning a bonus-page entry's `m/d/y` date into
//! a timestamp id.

use vstd::prelude::*;
use vstd::string::StrSliceExecFns;
use std::collections::hash_map::DefaultHasher;
use std::hash::Hasher;
use vstd::std_specs::hash::DefaultHasherAdditionalSpecFns;
use crate::{ConversionError, IntoUpdate, Media, Update, UpdateView};
use crate::num::{all_digits, dec_value};

verus! {

/// Ghost shape of an RSS item's extracted fields.
pub ghost struct RssItemView {
    pub title: Option<Seq<char>>,
    pub link: Option<Seq<char>>,
    pub description: Option<Seq<char>>,
    pub pub_date: Option<Seq<u8>>,
}

/// The fields of one raw RSS item, as extracted by the fetching side: the
/// item's title, link and description text, and the raw bytes of its
/// publication timestamp (used only as a collapse key, never interpreted).
pub struct RssItemData {
    pub title: Option<String>,
    pub link: Option<String>,
    pub description: Option<String>,
    pub pub_date: Option<Vec<u8>>,
}

impl View for RssItemData {
    type V = RssItemView;

    open spec fn view(&self) -> RssItemView {
        RssItemView {
            title: match self.title {
                Some(s) => Some(s@),
                None => None,
            },
            link: match self.link {
                Some(s) => Some(s@),
                None => None,
            },
            description: match self.description {
                Some(s) => Some(s@),
                None => None,
            },
            pub_date: match self.pub_date {
                Some(b) => Some(b@),
                None => None,
            },
        }
    }
}

/// How an RSS item converts for a media: only the story feed is served; the
/// item must carry a link, a description (the display title) and a title
/// holding the decimal page number, which becomes the id and is shown.
pub open spec fn rss_conversion(item: RssItemView, media: Media) -> Result<UpdateView, ConversionError> {
    if item.link is None {
        Err(ConversionError::MissingLink)
    } else if media != Media::Homestuck2 {
        Err(ConversionError::UnsupportedMedia(media))
    } else if item.description is None {
        Err(ConversionError::MissingTitle)
    } else if item.title is None {
        Err(ConversionError::MissingId)
    } else if !(item.title->Some_0.len() > 0 && all_digits(item.title->Some_0)
        && dec_value(item.title->Some_0) <= u64::MAX) {
        Err(ConversionError::InvalidId)
    } else {
        Ok(UpdateView {
            id: dec_value(item.title->Some_0) as u64,
            title: item.description->Some_0,
            link: item.link->Some_0,
            media: media,
            show_id: true,
        })
    }
}

impl IntoUpdate for RssItemData {
    fn into_update(&self, media: &Media) -> (r: Result<Update, ConversionError>)
        ensures
            rss_conversion(self@, *media) matches Ok(uv) ==> r matches Ok(u) && u@ == uv,
            rss_conversion(self@, *media) matches Err(e) ==> r == Err::<Update, ConversionError>(e),
    {
        let link = match &self.link {
            Some(l) => l,
            None => {
                return Err(ConversionError::MissingLink);
            },
        };
        match media {
            Media::Homestuck2 => {
                let title = match &self.description {
                    Some(t) => t,
                    None => {
                        return Err(ConversionError::MissingTitle);
                    },
                };
                let id_text = match &self.title {
                    Some(t) => t,
                    None => {
                        return Err(ConversionError::MissingId);
                    },
                };
                let id = match crate::num::parse_u64(id_text.as_str()) {
                    Some(v) => v,
                    None => {
                        return Err(ConversionError::InvalidId);
                    },
                };
                Ok(Update {
                    id,
                    title: title.clone(),
                    link: link.clone(),
                    media: *media,
                    show_id: true,
                })
            },
            _ => Err(ConversionError::UnsupportedMedia(*media)),
        }
    }
}

/// The collapse key of one hashed write of `bytes`.
pub open spec fn bytes_hash(bytes: Seq<u8>) -> u64 {
    DefaultHasher::spec_finish(seq![bytes])
}

/// Hashes a byte string with the standard library's default hasher; the
/// result is a function of the bytes alone within one hasher algorithm.
pub fn hash(bytes: &[u8]) -> (r: u64)
    ensures
        r == bytes_hash(bytes@),
{
    let mut hasher = DefaultHasher::new();
    hasher.write(bytes);
    proof {
        assert(hasher@ =~= seq![bytes@]);
    }
    hasher.finish()
}

/// The collapse key of one item: the hash of its publication timestamp
/// bytes, or nothing when the item carries none.
pub open spec fn item_key(item: RssItemView) -> Option<u64> {
    match item.pub_date {
        Some(b) => Some(bytes_hash(b)),
        None => None,
    }
}

pub open spec fn keys_of(items: Seq<RssItemView>) -> Seq<Option<u64>> {
    Seq::new(items.len(), |i: int| item_key(items[i]))
}

/// Whether position `i` survives the collapse: the last item of every
/// adjacent run of equal keys is kept, the rest are dropped.
pub open spec fn kept(items: Seq<RssItemView>, i: int) -> bool {
    i == items.len() - 1 || keys_of(items)[i + 1] != keys_of(items)[i]
}

/// The updates of the story feed from position `i` on: every kept item is
/// converted in order, and the first conversion failure is the result.
pub open spec fn updates_from(items: Seq<RssItemView>, media: Media, i: int)
    -> Result<Seq<UpdateView>, ConversionError>
    decreases items.len() - i,
{
    if i < 0 || i >= items.len() {
        Ok(Seq::empty())
    } else if !kept(items, i) {
        updates_from(items, media, i + 1)
    } else {
        match rss_conversion(items[i], media) {
            Err(e) => Err(e),
            Ok(u) => match updates_from(items, media, i + 1) {
                Err(e) => Err(e),
                Ok(rest) => Ok(seq![u] + rest),
            },
        }
    }
}

fn same_key(a: &Option<u64>, b: &Option<u64>) -> (r: bool)
    ensures
        r == (*a == *b),
{
    match (a, b) {
        (None, None) => true,
        (Some(x), Some(y)) => *x == *y,
        _ => false,
    }
}

/// The story feed's updates, freshest first.
pub struct Hs2Feed(pub Vec<Update>);

impl Hs2Feed {
    /// The fetched updates, freshest first.
    pub fn updates(&self) -> (r: &[Update])
        ensures
            r@ == self.0@,
    {
        self.0.as_slice()
    }

    /// Builds the story feed from the extracted RSS items, freshest first:
    /// adjacent items sharing a publication timestamp collapse into their
    /// last occurrence, and every surviving item converts through the RSS
    /// rule; the first item that fails to convert fails the whole feed.
    pub fn from_items(media: &Media, items: &Vec<RssItemData>) -> (r: Result<Hs2Feed, ConversionError>)
        ensures
            r matches Ok(feed) ==> {
                &&& updates_from(items@.map_values(|it: RssItemData| it@), *media, 0) matches Ok(us)
                &&& feed.0@.map_values(|u: Update| u@) == us
            },
            r matches Err(e) ==> updates_from(items@.map_values(|it: RssItemData| it@), *media, 0)
                == Err::<Seq<UpdateView>, ConversionError>(e),
    {
        let ghost v = items@.map_values(|it: RssItemData| it@);
        let len = items.len();
        let mut keys: Vec<Option<u64>> = Vec::new();
        let mut i: usize = 0;
        while i < len
            invariant
                len == items@.len(),
                v == items@.map_values(|it: RssItemData| it@),
                keys@.len() == i,
                i <= len,
                forall|j: int| 0 <= j < i ==> keys@[j] == item_key(#[trigger] v[j]),
            decreases len - i,
        {
            let k = match &items[i].pub_date {
                Some(b) => Some(hash(b.as_slice())),
                None => None,
            };
            keys.push(k);
            i += 1;
        }
        let mut out: Vec<Update> = Vec::new();
        let mut i: usize = 0;
        while i < len
            invariant
                len == items@.len(),
                v == items@.map_values(|it: RssItemData| it@),
                keys@.len() == len,
                i <= len,
                forall|j: int| 0 <= j < len ==> keys@[j] == item_key(#[trigger] v[j]),
                updates_from(v, *media, 0) == match updates_from(v, *media, i as int) {
                    Err(e) => Err::<Seq<UpdateView>, ConversionError>(e),
                    Ok(rest) => Ok(out@.map_values(|u: Update| u@) + rest),
                },
            decreases len - i,
        {
            let keep = if i + 1 == len {
                true
            } else {
                !same_key(&keys[i], &keys[i + 1])
            };
            proof {
                assert(keys_of(v)[i as int] == keys@[i as int]);
                if i + 1 < len {
                    assert(keys_of(v)[i + 1] == keys@[i + 1]);
                }
            }
            if keep {
                match items[i].into_update(media) {
                    Ok(u) => {
                        let ghost prev = out@.map_values(|u2: Update| u2@);
                        out.push(u);
                        proof {
                            assert(out@.map_values(|u2: Update| u2@) =~= prev.push(u@));
                            assert forall|rest: Seq<UpdateView>|
                                prev.push(u@) + rest =~= prev + (seq![u@] + rest) by {}
                        }
                    },
                    Err(e) => {
                        return Err(e);
                    },
                }
            }
            i += 1;
        }
        proof {
            assert(updates_from(v, *media, len as int) == Ok::<Seq<UpdateView>, ConversionError>(Seq::empty()));
            assert(out@.map_values(|u: Update| u@) + Seq::<UpdateView>::empty()
                =~= out@.map_values(|u: Update| u@));
        }
        Ok(Hs2Feed(out))
    }
}

pub open spec fn is_leap_year(y: int) -> bool {
    y % 4 == 0 && (y % 100 != 0 || y % 400 == 0)
}

pub open spec fn days_in_month(y: int, m: int) -> int {
    if m == 1 || m == 3 || m == 5 || m == 7 || m == 8 || m == 10 || m == 12 {
        31
    } else if m == 4 || m == 6 || m == 9 || m == 11 {
        30
    } else if is_leap_year(y) {
        29
    } else {
        28
    }
}

/// A real proleptic-Gregorian calendar date.
pub open spec fn valid_ymd(y: int, m: int, d: int) -> bool {
    1 <= m <= 12 && 1 <= d <= days_in_month(y, m)
}

/// The midnight-UTC timestamp of a calendar date.
pub uninterp spec fn timestamp_of(y: int, m: int, d: int) -> int;

/// Relies on chrono's `NaiveDate::from_ymd_opt`, `NaiveDate::and_hms_opt`
/// and `DateTime::timestamp`: the midnight UTC timestamp of a
/// proleptic-Gregorian date, a function of the date alone. `from_ymd_opt`
/// returns `None` exactly on a month/day pair that is no real date or a year
/// outside chrono's range, and years 1 through 9999 lie well inside that
/// range; midnight is always a valid time of day.
#[verifier::external_body]
fn ymd_timestamp(y: i32, m: u32, d: u32) -> (r: Option<i64>)
    ensures
        1 <= y <= 9999 && valid_ymd(y as int, m as int, d as int) ==> r is Some,
        !valid_ymd(y as int, m as int, d as int) ==> r is None,
        r matches Some(ts) ==> ts == timestamp_of(y as int, m as int, d as int),
{
    let date = chrono::NaiveDate::from_ymd_opt(y, m, d)?;
    let time = date.and_hms_opt(0, 0, 0)?;
    Some(time.and_utc().timestamp())
}

/// The position of the first `c` in `s` at or after `from`, or `s.len()`
/// when there is none.
pub open spec fn find_from(s: Seq<char>, c: char, from: int) -> int
    decreases s.len() - from,
{
    if !(0 <= from < s.len()) {
        s.len() as int
    } else if s[from] == c {
        from
    } else {
        find_from(s, c, from + 1)
    }
}

fn find_char_from(s: &str, c: char, from: usize) -> (r: usize)
    requires
        from <= s@.len(),
    ensures
        r == find_from(s@, c, from as int),
        from <= r <= s@.len(),
{
    let len = s.unicode_len();
    let mut i: usize = from;
    while i < len
        invariant
            from <= i <= len,
            len == s@.len(),
            find_from(s@, c, from as int) == find_from(s@, c, i as int),
        decreases len - i,
    {
        let ch = s.get_char(i);
        if ch == c {
            return i;
        }
        i += 1;
    }
    len
}

/// `s` with every trailing " - " marker removed, as the bonus page writes
/// after each entry's date.
pub open spec fn trim_date_suffix(s: Seq<char>) -> Seq<char>
    decreases s.len(),
{
    if s.len() >= 3 && s.subrange(s.len() - 3, s.len() as int) == " - "@ {
        trim_date_suffix(s.take(s.len() - 3))
    } else {
        s
    }
}

fn strip_date_suffix_once(t: &str) -> (r: Option<&str>)
    ensures
        r matches Some(t2) ==> t2@.len() < t@.len()
            && trim_date_suffix(t2@) == trim_date_suffix(t@),
        r is None ==> trim_date_suffix(t@) == t@,
{
    proof {
        reveal_strlit(" - ");
    }
    let len = t.unicode_len();
    if len < 3 {
        return None;
    }
    let a = t.get_char(len - 3);
    let b = t.get_char(len - 2);
    let c = t.get_char(len - 1);
    if a == ' ' && b == '-' && c == ' ' {
        proof {
            assert(t@.subrange(len - 3, len as int) =~= " - "@);
        }
        Some(t.substring_char(0, len - 3))
    } else {
        proof {
            assert(t@.subrange(len - 3, len as int) != " - "@) by {
                if t@.subrange(len - 3, len as int) == " - "@ {
                    assert(t@.subrange(len - 3, len as int)[0] == ' ');
                    assert(t@.subrange(len - 3, len as int)[1] == '-');
                    assert(t@.subrange(len - 3, len as int)[2] == ' ');
                }
            }
        }
        None
    }
}

fn trim_date_text(s: &str) -> (r: &str)
    ensures
        r@ == trim_date_suffix(s@),
{
    let mut t = s;
    loop
        invariant
            trim_date_suffix(s@) == trim_date_suffix(t@),
        decreases t@.len(),
    {
        match strip_date_suffix_once(t) {
            Some(t2) => {
                t = t2;
            },
            None => {
                return t;
            },
        }
    }
}

/// The month, day and year a bonus-page date line denotes: trailing " - "
/// markers are dropped, the text before the first slash is the month, the
/// text between the first two slashes is the day, and the text from there to
/// the next slash (or the end) is the year — each a non-empty run of decimal
/// digits, or the line denotes no date.
pub open spec fn bonus_date(s: Seq<char>) -> Option<(int, int, int)> {
    let t = trim_date_suffix(s);
    let i1 = find_from(t, '/', 0);
    let i2 = find_from(t, '/', i1 + 1);
    let i3 = find_from(t, '/', i2 + 1);
    if i1 >= t.len() || i2 >= t.len() {
        None
    } else {
        let ms = t.take(i1);
        let ds = t.subrange(i1 + 1, i2);
        let ys = t.subrange(i2 + 1, i3);
        if ms.len() > 0 && all_digits(ms) && dec_value(ms) <= u64::MAX
            && ds.len() > 0 && all_digits(ds) && dec_value(ds) <= u64::MAX
            && ys.len() > 0 && all_digits(ys) && dec_value(ys) <= u64::MAX {
            Some((dec_value(ms), dec_value(ds), dec_value(ys)))
        } else {
            None
        }
    }
}

/// The id a bonus-page date line yields: the midnight-UTC timestamp of its
/// date, provided the date is a real calendar date in years 1 through 9999
/// and its timestamp is not before the epoch; otherwise none, and the entry
/// is dropped.
pub open spec fn bonus_id(s: Seq<char>) -> Option<int> {
    match bonus_date(s) {
        None => None,
        Some((m, d, y)) => if 1 <= y <= 9999 && valid_ymd(y, m, d) && timestamp_of(y, m, d) >= 0 {
            Some(timestamp_of(y, m, d))
        } else {
            None
        },
    }
}

/// Builds one bonus-page update from an entry's extracted parts: the date
/// line yields the id (see `bonus_id`), the id is not shown, and entries
/// whose date line yields none are dropped.
pub fn bonus_update(date_text: &str, title: &str, link: &str, media: &Media) -> (r: Option<Update>)
    ensures
        (r is Some) == (bonus_id(date_text@) is Some),
        r matches Some(u) ==> bonus_id(date_text@) matches Some(ts) && u@ == (UpdateView {
            id: ts as u64,
            title: title@,
            link: link@,
            media: *media,
            show_id: false,
        }),
{
    let t = trim_date_text(date_text);
    let len = t.unicode_len();
    let i1 = find_char_from(t, '/', 0);
    if i1 >= len {
        return None;
    }
    let i2 = find_char_from(t, '/', i1 + 1);
    if i2 >= len {
        return None;
    }
    let i3 = find_char_from(t, '/', i2 + 1);
    let ms = t.substring_char(0, i1);
    let ds = t.substring_char(i1 + 1, i2);
    let ys = t.substring_char(i2 + 1, i3);
    let m = match crate::num::parse_u64(ms) {
        Some(v) => v,
        None => {
            return None;
        },
    };
    let d = match crate::num::parse_u64(ds) {
        Some(v) => v,
        None => {
            return None;
        },
    };
    let y = match crate::num::parse_u64(ys) {
        Some(v) => v,
        None => {
            return None;
        },
    };
    if m == 0 || m > 12 {
        return None;
    }
    if d == 0 || d > 31 {
        return None;
    }
    if y == 0 || y > 9999 {
        return None;
    }
    match ymd_timestamp(y as i32, m as u32, d as u32) {
        Some(ts) => {
            if ts < 0 {
                None
            } else {
                Some(Update {
                    id: ts as u64,
                    title: title.to_owned(),
                    link: link.to_owned(),
                    media: *media,
                    show_id: false,
                })
            }
        },
        None => None,
    }
}

} // verus!
