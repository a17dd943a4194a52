use upd8r::hs2::{bonus_update, hash, Hs2Feed, RssItemData};
use upd8r::sb20020::{sb_entry_update, SbFeed};
use upd8r::steam::{AppChanges, AppNews, NewsItem};
use upd8r::{ConversionError, FetchError, IntoUpdate, Media, Update};

fn rss_item(title: &str, link: &str, description: &str, pub_date: &str) -> RssItemData {
    RssItemData {
        title: Some(title.to_string()),
        link: Some(link.to_string()),
        description: Some(description.to_string()),
        pub_date: Some(pub_date.as_bytes().to_vec()),
    }
}

#[test]
fn rss_item_converts_for_the_story_feed() {
    let item = rss_item("1901", "https://example.test/p/1901", "A new page", "Mon, 01 Jan");
    let update = item.into_update(&Media::Homestuck2).unwrap();
    assert_eq!(update.id, 1901);
    assert_eq!(update.title, "A new page");
    assert_eq!(update.link, "https://example.test/p/1901");
    assert_eq!(update.media, Media::Homestuck2);
    assert!(update.show_id);
}

#[test]
fn rss_item_error_cases() {
    let mut item = rss_item("1901", "l", "d", "p");
    item.link = None;
    assert_eq!(
        item.into_update(&Media::Homestuck2),
        Err(ConversionError::MissingLink)
    );

    let mut item = rss_item("1901", "l", "d", "p");
    item.description = None;
    assert_eq!(
        item.into_update(&Media::Homestuck2),
        Err(ConversionError::MissingTitle)
    );

    let mut item = rss_item("1901", "l", "d", "p");
    item.title = None;
    assert_eq!(
        item.into_update(&Media::Homestuck2),
        Err(ConversionError::MissingId)
    );

    let item = rss_item("page 1901", "l", "d", "p");
    assert_eq!(
        item.into_update(&Media::Homestuck2),
        Err(ConversionError::InvalidId)
    );

    let item = rss_item("1901", "l", "d", "p");
    assert_eq!(
        item.into_update(&Media::PQSteam),
        Err(ConversionError::UnsupportedMedia(Media::PQSteam))
    );
}

#[test]
fn hash_is_deterministic_within_a_process() {
    assert_eq!(hash(b"Mon, 01 Jan"), hash(b"Mon, 01 Jan"));
    assert_ne!(hash(b"Mon, 01 Jan"), hash(b"Tue, 02 Jan"));
}

#[test]
fn story_feed_collapses_items_sharing_a_timestamp() {
    let items = vec![
        rss_item("3", "l3", "first of a pair", "same-day"),
        rss_item("4", "l4", "second of a pair", "same-day"),
        rss_item("5", "l5", "alone", "other-day"),
    ];
    let feed = Hs2Feed::from_items(&Media::Homestuck2, &items).unwrap();
    let updates = feed.updates();
    // Of two adjacent items sharing a timestamp, the later one survives.
    assert_eq!(updates.len(), 2);
    assert_eq!(updates[0].title, "second of a pair");
    assert_eq!(updates[0].id, 4);
    assert_eq!(updates[1].title, "alone");
    assert_eq!(updates[1].id, 5);
}

#[test]
fn story_feed_fails_on_a_bad_surviving_item() {
    let mut bad = rss_item("not-a-number", "l", "d", "day-two");
    bad.title = Some("not-a-number".to_string());
    let items = vec![rss_item("3", "l3", "fine", "day-one"), bad];
    match Hs2Feed::from_items(&Media::Homestuck2, &items) {
        Err(e) => assert_eq!(e, ConversionError::InvalidId),
        Ok(_) => panic!("a surviving item with a bad id must fail the feed"),
    }
}

#[test]
fn bonus_entry_date_becomes_a_timestamp_id() {
    let update = bonus_update(
        "4/13/2009 - ",
        "A Bonus Story",
        "https://example.test/bonus/1",
        &Media::Homestuck2Bonus,
    )
    .unwrap();
    // Midnight UTC of 2009-04-13.
    assert_eq!(update.id, 1239580800);
    assert_eq!(update.title, "A Bonus Story");
    assert_eq!(update.link, "https://example.test/bonus/1");
    assert!(!update.show_id);
}

#[test]
fn bonus_entry_rejects_bad_dates() {
    let media = Media::Homestuck2Bonus;
    assert!(bonus_update("2/30/2020", "t", "l", &media).is_none());
    assert!(bonus_update("13/1/2020", "t", "l", &media).is_none());
    assert!(bonus_update("4/13", "t", "l", &media).is_none());
    assert!(bonus_update("soon", "t", "l", &media).is_none());
    assert!(bonus_update("", "t", "l", &media).is_none());
    assert!(bonus_update("0/0/0", "t", "l", &media).is_none());
}

#[test]
fn news_item_converts_unconditionally() {
    let item = NewsItem {
        gid: 99,
        title: "Patch notes".to_string(),
        url: "https://example.test/news/99".to_string(),
        is_external_url: false,
        author: "someone".to_string(),
        contents: "c".to_string(),
        feed_label: "f".to_string(),
        date: 1600000000,
        feed_name: "n".to_string(),
        feed_type: 0,
        app_id: 1144030,
        tags: Vec::new(),
    };
    let update = item.into_update(&Media::PQSteam).unwrap();
    assert_eq!(update.id, 1600000000);
    assert_eq!(update.title, "Patch notes");
    assert_eq!(update.link, "https://example.test/news/99");
    assert!(!update.show_id);
}

#[test]
fn steam_news_addresses() {
    assert_eq!(
        AppNews::url_for(&Media::PQSteam).unwrap(),
        "https://api.steampowered.com/ISteamNews/GetNewsForApp/v0002/?appid=1144030&count=999999&maxlength=1&format=json"
    );
    assert_eq!(
        AppNews::url_for(&Media::HiveswapAct2News).unwrap(),
        "https://api.steampowered.com/ISteamNews/GetNewsForApp/v0002/?appid=1181840&count=999999&maxlength=1&format=json"
    );
    assert_eq!(
        AppNews::url_for(&Media::Homestuck2),
        Err(FetchError::UnsupportedMedia(Media::Homestuck2))
    );
}

#[test]
fn steam_changelog_source() {
    assert_eq!(
        AppChanges::api_url_for(&Media::HiveswapAct2Steam).unwrap(),
        "https://steamappinfo.leo60228.space/productinfo/1181840"
    );
    assert_eq!(
        AppChanges::api_url_for(&Media::PQSteam),
        Err(FetchError::UnsupportedMedia(Media::PQSteam))
    );
    let changes = AppChanges::from_change_number(&Media::HiveswapAct2Steam, 7777).unwrap();
    let updates = changes.updates();
    assert_eq!(updates.len(), 1);
    assert_eq!(updates[0].id, 7777);
    assert_eq!(updates[0].title, "");
    assert_eq!(updates[0].link, "https://store.steampowered.com/app/1181840");
    assert!(updates[0].show_id);
    match AppChanges::from_change_number(&Media::Homestuck2, 1) {
        Err(e) => assert_eq!(e, FetchError::UnsupportedMedia(Media::Homestuck2)),
        Ok(_) => panic!("a media the changelog source does not serve must be rejected"),
    }
}

#[test]
fn chapter_anchor_parses_id_and_title() {
    let update = sb_entry_update(
        "Chapter 5: The Fall",
        "/chapter-5",
        &Media::Homestuck2,
    )
    .unwrap();
    assert_eq!(update.id, 5);
    assert_eq!(update.title, "The Fall");
    assert_eq!(
        update.link,
        "https://www.sbnation.com/secret-base/21410129/20020/chapter-5"
    );
    assert!(update.show_id);
}

#[test]
fn chapter_anchor_rejects_malformed_text() {
    let media = Media::Homestuck2;
    assert!(sb_entry_update("No separator here", "/x", &media).is_none());
    assert!(sb_entry_update("Chapter: missing number", "/x", &media).is_none());
    assert!(sb_entry_update("Chapter five: words", "/x", &media).is_none());
}

#[test]
fn chapter_feed_is_sorted_newest_first() {
    let entries: Vec<(String, String)> = vec![
        ("Chapter 2: B".to_string(), "/2".to_string()),
        ("nonsense".to_string(), "/skip".to_string()),
        ("Chapter 9: C".to_string(), "/9".to_string()),
        ("Chapter 5: A".to_string(), "/5".to_string()),
    ];
    let feed = SbFeed::from_entries(&Media::Homestuck2, &entries);
    let ids: Vec<u64> = feed.updates().iter().map(|u| u.id).collect();
    assert_eq!(ids, vec![9, 5, 2]);
}

#[test]
fn update_converts_to_itself() {
    let update = Update {
        id: 1,
        title: "t".to_string(),
        link: "l".to_string(),
        media: Media::Homestuck2,
        show_id: true,
    };
    let copy = Update::from(&update, &Media::PQSteam).unwrap();
    assert_eq!(copy, update);
}
