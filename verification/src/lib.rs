//! Update detection and dispatch for a fixed set of content sources.
//!
//! Each tracked source ("media") publishes items carrying a monotonically
//! non-decreasing numeric id. The library keeps a per-media watermark (the
//! highest id ever accepted as new), decides whether a freshly fetched item
//! is genuinely new, and fans the resulting notification text out to every
//! registered sink channel. Network fetching and durable storage are left to
//! the surrounding program; the decisions are made here.

use vstd::prelude::*;

pub mod event_loop;
pub mod hs2;
pub mod laws;
pub mod num;
pub mod sb20020;
pub mod steam;
pub mod watermark;

verus! {

/// One tracked content source. The set is fixed at compile time and every
/// other component uses `Media` as its lookup key.
#[derive(Copy, Clone, PartialEq, Eq, Structural, Hash, Debug)]
pub enum Media {
    Homestuck2,
    Homestuck2Bonus,
    PQSteam,
    HiveswapAct2News,
    HiveswapAct2Steam,
}

/// How many `Media` variants exist; watermark storage is keyed by
/// `Media::index`, which lies below this bound.
pub const MEDIA_COUNT: usize = 5;

pub open spec fn media_index_spec(m: Media) -> int {
    match m {
        Media::Homestuck2 => 0,
        Media::Homestuck2Bonus => 1,
        Media::PQSteam => 2,
        Media::HiveswapAct2News => 3,
        Media::HiveswapAct2Steam => 4,
    }
}

/// The human-readable name of a media, as it appears at the front of every
/// notification message.
pub open spec fn media_name_spec(m: Media) -> Seq<char> {
    match m {
        Media::Homestuck2 => "Homestuck^2"@,
        Media::Homestuck2Bonus => "Homestuck^2 bonus"@,
        Media::PQSteam => "PesterQuest"@,
        Media::HiveswapAct2News => "Hiveswap Act 2 news"@,
        Media::HiveswapAct2Steam => "Hiveswap Act 2 Steam"@,
    }
}

impl Media {
    /// A distinct index per variant, used to key the watermark store.
    pub fn index(&self) -> (i: usize)
        ensures
            i == media_index_spec(*self),
            i < MEDIA_COUNT,
    {
        match self {
            Media::Homestuck2 => 0,
            Media::Homestuck2Bonus => 1,
            Media::PQSteam => 2,
            Media::HiveswapAct2News => 3,
            Media::HiveswapAct2Steam => 4,
        }
    }

    /// The display name used when formatting notifications.
    pub fn display_name(&self) -> (r: String)
        ensures
            r@ == media_name_spec(*self),
    {
        match self {
            Media::Homestuck2 => "Homestuck^2".to_owned(),
            Media::Homestuck2Bonus => "Homestuck^2 bonus".to_owned(),
            Media::PQSteam => "PesterQuest".to_owned(),
            Media::HiveswapAct2News => "Hiveswap Act 2 news".to_owned(),
            Media::HiveswapAct2Steam => "Hiveswap Act 2 Steam".to_owned(),
        }
    }
}

/// Ghost shape of an `Update`: the same fields with text as character
/// sequences, so contracts can speak about updates by value.
pub ghost struct UpdateView {
    pub id: u64,
    pub title: Seq<char>,
    pub link: Seq<char>,
    pub media: Media,
    pub show_id: bool,
}

/// One detected item: a monotonically non-decreasing id within its media, a
/// display title, a canonical link, and whether the id is worth showing to a
/// human. Immutable once constructed.
#[derive(Clone, PartialEq, Eq, Hash, Debug)]
pub struct Update {
    pub id: u64,
    pub title: String,
    pub link: String,
    pub media: Media,
    pub show_id: bool,
}

impl View for Update {
    type V = UpdateView;

    open spec fn view(&self) -> UpdateView {
        UpdateView {
            id: self.id,
            title: self.title@,
            link: self.link@,
            media: self.media,
            show_id: self.show_id,
        }
    }
}

/// The notification text for an update: the media's display name, the `upd8`
/// marker with the id when `show_id` holds, the title, then the link on its
/// own line.
pub open spec fn spec_message(u: UpdateView) -> Seq<char> {
    if u.show_id {
        media_name_spec(u.media) + " upd8 #"@ + num::dec_str(u.id as nat) + "! "@ + u.title
            + "\n"@ + u.link
    } else {
        media_name_spec(u.media) + " upd8! "@ + u.title + "\n"@ + u.link
    }
}

impl Update {
    /// A field-for-field copy of the update.
    pub fn duplicate(&self) -> (r: Update)
        ensures
            r@ == self@,
    {
        Update {
            id: self.id,
            title: self.title.clone(),
            link: self.link.clone(),
            media: self.media,
            show_id: self.show_id,
        }
    }

    /// The human-readable notification text pushed to every sink.
    pub fn format_message(&self) -> (r: String)
        ensures
            r@ == spec_message(self@),
    {
        let mut s = self.media.display_name();
        if self.show_id {
            s.append(" upd8 #");
            let digits = num::u64_to_string(self.id);
            s.append(digits.as_str());
            s.append("! ");
        } else {
            s.append(" upd8! ");
        }
        s.append(self.title.as_str());
        s.append("\n");
        s.append(self.link.as_str());
        proof {
            assert(s@ =~= spec_message(self@));
        }
        s
    }

    /// Converts a raw item through its media's conversion rule.
    pub fn from<T: IntoUpdate + ?Sized>(item: &T, media: &Media) -> Result<Update, ConversionError> {
        item.into_update(media)
    }

    /// Whether this update is the newest ever accepted for its media: the
    /// detection step applied to this update's id (see `detect`). Reports
    /// true exactly when the id advances the media's watermark.
    pub fn latest(&self, store: &mut watermark::WatermarkStore, persisted: Option<u64>)
        -> (fresh: bool)
        requires
            old(store).wf(),
        ensures
            final(store).wf(),
            fresh == watermark::advance_accepts(
                old(store).effective_spec(self.media, persisted), self.id),
            final(store).is_loaded_spec(self.media),
            final(store).value_spec(self.media) == watermark::advance_step(
                old(store).effective_spec(self.media, persisted), self.id),
            forall|m2: Media| media_index_spec(m2) != media_index_spec(self.media)
                ==> #[trigger] final(store).entry(m2) == old(store).entry(m2),
            (!old(store).is_loaded_spec(self.media) && persisted is None && self.id >= 1)
                ==> fresh,
    {
        detect(store, &self.media, persisted, self.id)
    }
}

/// A fetched item could not be turned into an `Update`.
#[derive(Clone, Copy, PartialEq, Eq, Debug)]
pub enum ConversionError {
    /// The media is not served by the source the item came from.
    UnsupportedMedia(Media),
    /// The item carries no link.
    MissingLink,
    /// The item carries no display title.
    MissingTitle,
    /// The item carries no id field.
    MissingId,
    /// The id field is not a decimal number that fits the id type.
    InvalidId,
}

/// A source failed to deliver its items.
#[derive(Clone, PartialEq, Eq, Debug)]
pub enum FetchError {
    /// The media is not served by the source it was requested from.
    UnsupportedMedia(Media),
    /// The transport failed before any response arrived.
    Transport(String),
    /// A response arrived but could not be decoded.
    MalformedResponse(String),
    /// The upstream service reported a failure status.
    UpstreamStatus(u16),
}

/// Why one media's check produced no verdict this tick.
#[derive(Clone, PartialEq, Eq, Debug)]
pub enum CheckError {
    Fetch(FetchError),
    Conversion(ConversionError),
}

/// A raw item convertible to an `Update` for a given media.
pub trait IntoUpdate {
    fn into_update(&self, media: &Media) -> Result<Update, ConversionError>;
}

impl IntoUpdate for Update {
    fn into_update(&self, _media: &Media) -> (r: Result<Update, ConversionError>)
        ensures
            r matches Ok(u) && u@ == self@,
    {
        Ok(self.duplicate())
    }
}

/// The source plug-in contract: a source fetches an ordered collection of raw
/// items for a media it serves — freshest item first — and must report any
/// failure as a `FetchError` rather than abort. Requesting a media the source
/// does not serve is an error, never a silent no-op.
pub trait Feed: Sized {
    type Item: IntoUpdate;

    /// The fetched raw items, freshest first.
    fn updates(&self) -> &[Self::Item];

    /// Fetches the items for `media`.
    fn fetch(media: &Media) -> Result<Self, FetchError>;
}

/// The detection step once a fetched item's id is at hand: lazily initialise
/// the media's watermark from `persisted` (0 when there is none), then
/// check-and-advance with `id`. Reports true exactly when `id` is strictly
/// newer than everything previously accepted for this media — in particular,
/// on a cold start (nothing loaded, no persisted record) every id of at
/// least 1 is new.
pub fn detect(store: &mut watermark::WatermarkStore, media: &Media, persisted: Option<u64>, id: u64)
    -> (fresh: bool)
    requires
        old(store).wf(),
    ensures
        final(store).wf(),
        fresh == watermark::advance_accepts(old(store).effective_spec(*media, persisted), id),
        final(store).is_loaded_spec(*media),
        final(store).value_spec(*media) == watermark::advance_step(
            old(store).effective_spec(*media, persisted), id),
        forall|m2: Media| media_index_spec(m2) != media_index_spec(*media)
            ==> #[trigger] final(store).entry(m2) == old(store).entry(m2),
        (!old(store).is_loaded_spec(*media) && persisted is None && id >= 1) ==> fresh,
{
    store.load(media, persisted);
    store.advance(media, id)
}

/// One media's check: fetch through the source `F`, convert the freshest raw
/// item, and report it exactly when its id advances the media's watermark.
/// Errors and quiet outcomes leave the media's effective watermark where it
/// was, and no outcome ever touches another media's state.
pub fn check_for_update<F: Feed>(
    media: &Media,
    store: &mut watermark::WatermarkStore,
    persisted: Option<u64>,
) -> (r: Result<Option<Update>, CheckError>)
    requires
        old(store).wf(),
    ensures
        final(store).wf(),
        forall|m2: Media| media_index_spec(m2) != media_index_spec(*media)
            ==> #[trigger] final(store).entry(m2) == old(store).entry(m2),
        r matches Err(_) ==> final(store).entry(*media) == old(store).entry(*media),
        r matches Ok(u) && u is None ==> final(store).effective_spec(*media, persisted)
            == old(store).effective_spec(*media, persisted),
        r matches Ok(Some(upd)) ==> {
            &&& upd.id > old(store).effective_spec(*media, persisted)
            &&& final(store).is_loaded_spec(*media)
            &&& final(store).value_spec(*media) == upd.id
        },
{
    let feed = match F::fetch(media) {
        Ok(f) => f,
        Err(e) => {
            return Err(CheckError::Fetch(e));
        },
    };
    let items = feed.updates();
    if items.len() == 0 {
        return Ok(None);
    }
    let update = match items[0].into_update(media) {
        Ok(u) => u,
        Err(e) => {
            return Err(CheckError::Conversion(e));
        },
    };
    let fresh = detect(store, media, persisted, update.id);
    if fresh {
        Ok(Some(update))
    } else {
        Ok(None)
    }
}

/// The media checked on every tick, in registry order.
pub open spec fn media_list_spec() -> Seq<Media> {
    seq![
        Media::Homestuck2,
        Media::PQSteam,
        Media::HiveswapAct2News,
        Media::HiveswapAct2Steam,
    ]
}

/// The fixed, ordered registry of media polled by the event loop.
pub fn media_list() -> (r: Vec<Media>)
    ensures
        r@ == media_list_spec(),
{
    let mut v: Vec<Media> = Vec::new();
    v.push(Media::Homestuck2);
    v.push(Media::PQSteam);
    v.push(Media::HiveswapAct2News);
    v.push(Media::HiveswapAct2Steam);
    proof {
        assert(v@ =~= media_list_spec());
    }
    v
}

} // verus!
