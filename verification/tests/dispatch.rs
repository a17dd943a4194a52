use upd8r::event_loop::{fan_out, run_tick, TickOutcome};
use upd8r::watermark::WatermarkStore;
use upd8r::{CheckError, Feed, FetchError, Media, Update};

/// Serves the story feed with one fixed item (id 42) and fails every other
/// media with a transport error.
struct StoryOnlySource(Vec<Update>);

impl Feed for StoryOnlySource {
    type Item = Update;

    fn updates(&self) -> &[Update] {
        &self.0
    }

    fn fetch(media: &Media) -> Result<StoryOnlySource, FetchError> {
        match media {
            Media::Homestuck2 => Ok(StoryOnlySource(vec![Update {
                id: 42,
                title: "The Answer".to_string(),
                link: "https://example.test/42".to_string(),
                media: *media,
                show_id: true,
            }])),
            _ => Err(FetchError::Transport("unreachable host".to_string())),
        }
    }
}

/// Serves the Steam news media with one fixed item (id 7, hidden) and fails
/// the story feed.
struct SevenOrFail(Vec<Update>);

impl Feed for SevenOrFail {
    type Item = Update;

    fn updates(&self) -> &[Update] {
        &self.0
    }

    fn fetch(media: &Media) -> Result<SevenOrFail, FetchError> {
        match media {
            Media::PQSteam => Ok(SevenOrFail(vec![Update {
                id: 7,
                title: "Lucky".to_string(),
                link: "https://example.test/7".to_string(),
                media: *media,
                show_id: false,
            }])),
            _ => Err(FetchError::Transport("unreachable host".to_string())),
        }
    }
}

#[test]
fn fan_out_reaches_every_sink() {
    let (s1, r1) = crossbeam_channel::unbounded::<String>();
    let (s2, r2) = crossbeam_channel::unbounded::<String>();
    let senders = vec![s1, s2];
    let delivered = fan_out(&senders, &"hello".to_string());
    assert_eq!(delivered, vec![true, true]);
    assert_eq!(r1.try_recv().unwrap(), "hello");
    assert_eq!(r2.try_recv().unwrap(), "hello");
}

#[test]
fn broken_sink_does_not_block_the_other() {
    let (s1, r1) = crossbeam_channel::unbounded::<String>();
    let (s2, r2) = crossbeam_channel::unbounded::<String>();
    drop(r1); // S1's consumer is gone: its conduit is broken.
    let senders = vec![s1, s2];

    let media_list = vec![Media::Homestuck2];
    let persisted = vec![None];
    let mut store = WatermarkStore::new();
    let report = run_tick::<StoryOnlySource>(&media_list, &mut store, &persisted, &senders);

    assert_eq!(report.len(), 1);
    match &report[0] {
        TickOutcome::Notified { update, message, delivered } => {
            assert_eq!(update.id, 42);
            assert!(message.contains("upd8 #42"));
            assert_eq!(delivered, &vec![false, true]);
        }
        other => panic!("expected a notification, got {:?}", outcome_name(other)),
    }
    // S2 still receives exactly one message despite S1's failure.
    assert_eq!(
        r2.try_recv().unwrap(),
        "Homestuck^2 upd8 #42! The Answer\nhttps://example.test/42"
    );
    assert!(r2.try_recv().is_err());
}

#[test]
fn one_failing_media_does_not_skip_the_next() {
    let (s, r) = crossbeam_channel::unbounded::<String>();
    let senders = vec![s];

    // The story feed throws; the Steam news media has an unseen item.
    let media_list = vec![Media::Homestuck2, Media::PQSteam];
    let persisted = vec![None, None];
    let mut store = WatermarkStore::new();
    let report = run_tick::<SevenOrFail>(&media_list, &mut store, &persisted, &senders);

    assert_eq!(report.len(), 2);
    match &report[0] {
        TickOutcome::Failed(CheckError::Fetch(FetchError::Transport(msg))) => {
            assert_eq!(msg, "unreachable host");
        }
        other => panic!("expected a fetch failure, got {:?}", outcome_name(other)),
    }
    match &report[1] {
        TickOutcome::Notified { update, delivered, .. } => {
            assert_eq!(update.id, 7);
            assert_eq!(delivered, &vec![true]);
        }
        other => panic!("expected a notification, got {:?}", outcome_name(other)),
    }
    // Exactly one message was delivered, for the media that worked.
    assert_eq!(r.try_recv().unwrap(), "PesterQuest upd8! Lucky\nhttps://example.test/7");
    assert!(r.try_recv().is_err());
}

#[test]
fn quiet_tick_sends_nothing() {
    let (s, r) = crossbeam_channel::unbounded::<String>();
    let senders = vec![s];
    let media_list = vec![Media::Homestuck2];
    let persisted = vec![Some(42u64)]; // id 42 was already seen
    let mut store = WatermarkStore::new();
    let report = run_tick::<StoryOnlySource>(&media_list, &mut store, &persisted, &senders);
    assert_eq!(report.len(), 1);
    assert!(matches!(report[0], TickOutcome::Quiet));
    assert!(r.try_recv().is_err());
}

#[test]
fn a_tick_reports_each_media_once_and_advances() {
    let senders = Vec::new();
    let media_list = vec![Media::Homestuck2];
    let persisted = vec![None];
    let mut store = WatermarkStore::new();

    let first = run_tick::<StoryOnlySource>(&media_list, &mut store, &persisted, &senders);
    assert!(matches!(first[0], TickOutcome::Notified { .. }));

    // The same item on the next tick is no longer news.
    let second = run_tick::<StoryOnlySource>(&media_list, &mut store, &persisted, &senders);
    assert!(matches!(second[0], TickOutcome::Quiet));
}

fn outcome_name(o: &TickOutcome) -> &'static str {
    match o {
        TickOutcome::Notified { .. } => "Notified",
        TickOutcome::Quiet => "Quiet",
        TickOutcome::Failed(_) => "Failed",
    }
}
