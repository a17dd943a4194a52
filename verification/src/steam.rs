//! The Steam-backed sources: a game's news feed and a game's changelog
//! counter.
//!
//! The HTTP calls and the JSON decoding happen outside the library; what
//! arrives here is the decoded news items or the reported change number.
//! This module owns which media each Steam source serves, the query and
//! store-page addresses, and how a news item or a change number becomes an
//! `Update`.

use vstd::prelude::*;
use crate::{FetchError, IntoUpdate, ConversionError, Media, Update, UpdateView};

verus! {

/// One decoded entry of a game's Steam news feed.
#[derive(Clone, PartialEq, Eq, Debug, Hash)]
pub struct NewsItem {
    pub gid: u128,
    pub title: String,
    pub url: String,
    pub is_external_url: bool,
    pub author: String,
    pub contents: String,
    pub feed_label: String,
    pub date: u64,
    pub feed_name: String,
    pub feed_type: usize,
    pub app_id: u32,
    pub tags: Vec<String>,
}

impl IntoUpdate for NewsItem {
    /// A news item always converts: its publication time is the id (not
    /// meaningful to show), its title is the title, its address is the link.
    fn into_update(&self, media: &Media) -> (r: Result<Update, ConversionError>)
        ensures
            r matches Ok(u) && u@ == (UpdateView {
                id: self.date,
                title: self.title@,
                link: self.url@,
                media: *media,
                show_id: false,
            }),
    {
        Ok(Update {
            id: self.date,
            title: self.title.clone(),
            link: self.url.clone(),
            media: *media,
            show_id: false,
        })
    }
}

/// A game's decoded Steam news response.
#[derive(Clone, PartialEq, Eq, Debug, Hash)]
pub struct AppNews {
    pub app_id: u32,
    pub news_items: Vec<NewsItem>,
    pub count: usize,
}

impl AppNews {
    /// The fetched news items, freshest first.
    pub fn updates(&self) -> (r: &[NewsItem])
        ensures
            r@ == self.news_items@,
    {
        self.news_items.as_slice()
    }

    /// The news query address for a media served by the Steam news source;
    /// any other media is a contract violation reported as an error.
    pub fn url_for(media: &Media) -> (r: Result<&'static str, FetchError>)
        ensures
            *media == Media::PQSteam ==> (r matches Ok(u)
                && u@ == "https://api.steampowered.com/ISteamNews/GetNewsForApp/v0002/?appid=1144030&count=999999&maxlength=1&format=json"@),
            *media == Media::HiveswapAct2News ==> (r matches Ok(u)
                && u@ == "https://api.steampowered.com/ISteamNews/GetNewsForApp/v0002/?appid=1181840&count=999999&maxlength=1&format=json"@),
            !(*media == Media::PQSteam || *media == Media::HiveswapAct2News)
                ==> r == Err::<&'static str, FetchError>(FetchError::UnsupportedMedia(*media)),
    {
        match media {
            Media::PQSteam => Ok(
                "https://api.steampowered.com/ISteamNews/GetNewsForApp/v0002/?appid=1144030&count=999999&maxlength=1&format=json",
            ),
            Media::HiveswapAct2News => Ok(
                "https://api.steampowered.com/ISteamNews/GetNewsForApp/v0002/?appid=1181840&count=999999&maxlength=1&format=json",
            ),
            _ => Err(FetchError::UnsupportedMedia(*media)),
        }
    }
}

/// Relies on `core::slice::from_ref`: a slice holding exactly its argument.
#[verifier::external_body]
fn slice_from_ref<T>(item: &T) -> (r: &[T])
    ensures
        r@ =~= seq![*item],
{
    core::slice::from_ref(item)
}

/// A game's changelog watcher: the latest change, already as an `Update`.
pub struct AppChanges {
    latest: Update,
}

impl AppChanges {
    /// The single update the changelog source reports.
    pub closed spec fn latest_spec(self) -> UpdateView {
        self.latest@
    }

    /// The one fetched update.
    pub fn updates(&self) -> (r: &[Update])
        ensures
            r@.len() == 1,
            r@[0]@ == self.latest_spec(),
    {
        slice_from_ref(&self.latest)
    }

    /// The changelog query address for a media served by this source.
    pub fn api_url_for(media: &Media) -> (r: Result<&'static str, FetchError>)
        ensures
            *media == Media::HiveswapAct2Steam ==> (r matches Ok(u)
                && u@ == "https://steamappinfo.leo60228.space/productinfo/1181840"@),
            *media != Media::HiveswapAct2Steam
                ==> r == Err::<&'static str, FetchError>(FetchError::UnsupportedMedia(*media)),
    {
        match media {
            Media::HiveswapAct2Steam => Ok("https://steamappinfo.leo60228.space/productinfo/1181840"),
            _ => Err(FetchError::UnsupportedMedia(*media)),
        }
    }

    /// Builds the changelog source from a reported change number: the change
    /// number is the id (worth showing), the link is the game's store page,
    /// and there is no title. Media this source does not serve are rejected.
    pub fn from_change_number(media: &Media, change_number: u64) -> (r: Result<AppChanges, FetchError>)
        ensures
            *media == Media::HiveswapAct2Steam ==> (r matches Ok(a)
                && a.latest_spec() == (UpdateView {
                    id: change_number,
                    title: ""@,
                    link: "https://store.steampowered.com/app/1181840"@,
                    media: *media,
                    show_id: true,
                })),
            *media != Media::HiveswapAct2Steam
                ==> r == Err::<AppChanges, FetchError>(FetchError::UnsupportedMedia(*media)),
    {
        match media {
            Media::HiveswapAct2Steam => Ok(AppChanges {
                latest: Update {
                    id: change_number,
                    title: "".to_owned(),
                    link: "https://store.steampowered.com/app/1181840".to_owned(),
                    media: *media,
                    show_id: true,
                },
            }),
            _ => Err(FetchError::UnsupportedMedia(*media)),
        }
    }
}

} // verus!
