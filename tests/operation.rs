use dlcommon::cookies::{cookie_url, Browser};
use dlcommon::http::{check_status, content_length, Destination, FileDownload, Outcome, Plan, UsagePref};
use dlcommon::operation::{ItemState, OperationBuilder, Scheduler, SettingsError, Source};
use dlcommon::progress::{
    bar_message, display_name, spinner_message, Finish, Indicator, IndicatorUpdate, Transfer,
};

#[test]
fn settings_defaults() {
    let s = OperationBuilder::new().build().unwrap();
    assert_eq!(s.concurrency, 1);
    assert_eq!(s.wait_after_download, 1);
    let s = OperationBuilder::new().concurrency(5).wait_after_download(3).build().unwrap();
    assert_eq!(s.concurrency, 5);
    assert_eq!(s.wait_after_download, 3);
}

#[test]
fn zero_concurrency_refused() {
    assert_eq!(OperationBuilder::new().concurrency(0).build(), Err(SettingsError::ZeroConcurrency));
}

#[test]
fn bounded_concurrency() {
    let mut s = Scheduler::new(2, 4);
    assert_eq!(s.start_next(), Some(0));
    assert_eq!(s.start_next(), Some(1));
    assert_eq!(s.start_next(), None);
    assert_eq!(s.in_flight(), 2);
    s.finish(0, true);
    // the cooldown still holds the permit
    assert_eq!(s.start_next(), None);
    s.release(0);
    assert_eq!(s.start_next(), Some(2));
    assert_eq!(s.start_next(), None);
    assert_eq!(s.in_flight(), 2);
}

#[test]
fn failure_is_isolated() {
    let mut s = Scheduler::new(3, 3);
    assert_eq!(s.start_next(), Some(0));
    assert_eq!(s.start_next(), Some(1));
    assert_eq!(s.start_next(), Some(2));
    s.finish(1, false);
    assert_eq!(s.state(0), ItemState::Running);
    assert_eq!(s.state(2), ItemState::Running);
    s.finish(0, true);
    s.finish(2, true);
    for i in 0..3 {
        s.release(i);
    }
    assert!(s.is_complete());
    assert_eq!(s.reported(), 3);
    assert_eq!(s.state(1), ItemState::Done { succeeded: false });
    assert_eq!(s.state(2), ItemState::Done { succeeded: true });
}

#[test]
fn empty_run_is_complete() {
    let mut s = Scheduler::new(1, 0);
    assert!(s.is_complete());
    assert_eq!(s.start_next(), None);
    assert_eq!(s.len(), 0);
}

#[test]
fn three_sequential_downloads() {
    let header: &[u8] = b"attachment; filename=\"f.bin\"";
    let items: Vec<FileDownload> = ["a", "b", "c"]
        .iter()
        .map(|d| {
            FileDownload::builder()
                .url(format!("http://127.0.0.1:8080/{d}"))
                .target(format!("/tmp/run/{d}").into_bytes())
                .filename_use_content_disposition(UsagePref::Require)
                .build()
                .unwrap()
        })
        .collect();
    assert_eq!(items.num_downloads(), 3);
    let settings = OperationBuilder::new().concurrency(1).build().unwrap();
    let mut s = settings.scheduler(3);
    let mut order = vec![];
    while !s.is_complete() {
        let i = s.start_next().unwrap();
        assert_eq!(s.start_next(), None);
        let d = items.request(i).unwrap();
        assert_eq!(check_status(200, false), Ok(()));
        let len = content_length(Some(b"1024")).unwrap();
        let dest = d.destination(Some(header)).unwrap();
        let plan = d.plan(false, len, Destination::Missing).unwrap();
        assert_eq!(
            plan,
            Plan::Fetch { outcome: Outcome::Download(1024), new_request: false, create_parent: true }
        );
        order.push(String::from_utf8(dest).unwrap());
        s.finish(i, true);
        s.release(i);
    }
    assert_eq!(order, vec!["/tmp/run/a/f.bin", "/tmp/run/b/f.bin", "/tmp/run/c/f.bin"]);
    assert_eq!(items.request(3).map(|d| d.url), None);
}

#[test]
fn indicator_starts_at_reported_position() {
    let mut i = Indicator::new();
    assert_eq!(i.finish(true), Finish::NoBar);
    assert_eq!(i.on_progress(100, 40), IndicatorUpdate::ShowBar { len: 100, pos: 40 });
    assert_eq!(i, Indicator::Bar { len: 100, pos: 40 });
    assert_eq!(i.on_progress(100, 90), IndicatorUpdate::SetPosition(90));
    assert_eq!(i.finish(true), Finish::Success);
    assert_eq!(i.finish(false), Finish::Failure);
}

#[test]
fn transfer_counts_bytes() {
    let mut t = Transfer::start(10);
    assert_eq!(t.received, 0);
    assert_eq!(t.add(4), 4);
    assert_eq!(t.add(6), 10);
    t.received = u64::MAX - 1;
    assert_eq!(t.add(5), u64::MAX);
    assert_eq!(t.total, 10);
}

#[test]
fn labels() {
    assert_eq!(spinner_message(&None), "Setting up download");
    assert_eq!(spinner_message(&Some("T".to_string())), "T");
    assert_eq!(bar_message(&None, "http://h/x"), "Downloading from 'http://h/x'");
    assert_eq!(bar_message(&Some("T".to_string()), "http://h/x"), "T");
    assert_eq!(display_name(&None, "http://h/x"), "http://h/x");
    assert_eq!(display_name(&Some("T".to_string()), "http://h/x"), "T");
}

#[test]
fn cookie_urls() {
    assert_eq!(cookie_url(".example.com", "/"), "https://example.com/");
    assert_eq!(cookie_url("..a.b", "/p/q"), "https://a.b/p/q");
    assert_eq!(cookie_url("host", ""), "https://host");
    assert_eq!(Browser::default(), Browser::Firefox);
}
