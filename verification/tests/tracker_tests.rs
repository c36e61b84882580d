use anti_window_snap::tracker::{
    after_created_job, after_renamed_job, classify_event, is_configured_title, job_message,
    on_created, on_enumerated, on_renamed, Job, RootWindowCache, State, WindowEvent,
};

#[test]
fn events_are_classified() {
    assert_eq!(classify_event(0x8000, 0, 0), WindowEvent::Created);
    assert_eq!(classify_event(0x800C, 0, 0), WindowEvent::Renamed);
    assert_eq!(classify_event(0x8000, -4, 0), WindowEvent::Other);
    assert_eq!(classify_event(0x800C, 0, 3), WindowEvent::Other);
    assert_eq!(classify_event(0x8001, 0, 0), WindowEvent::Other);
}

#[test]
fn created_window_is_looked_at_once() {
    let (entry, job) = on_created(None);
    assert_eq!(entry, (State::Processing, State::UnProcessed));
    assert_eq!(job, Some(Job::Created));
    assert_eq!(on_created(Some(entry)), (entry, None));
    let done = after_created_job(entry);
    assert_eq!(done, (State::Processed, State::UnProcessed));
    assert_eq!(on_created(Some(done)), (done, None));
}

#[test]
fn renamed_windows_are_looked_at_until_hidden() {
    let (entry, job) = on_renamed(None);
    assert_eq!(entry, (State::UnProcessed, State::Processing));
    assert_eq!(job, Some(Job::Renamed));
    let (not_hidden, next) = after_renamed_job(entry, false);
    assert_eq!(not_hidden, (State::UnProcessed, State::Processed));
    assert_eq!(next, None);
    let (running, job) = on_renamed(Some(not_hidden));
    assert_eq!(running, not_hidden);
    assert_eq!(job, Some(Job::Renamed));
    let (hidden, next) = after_renamed_job(running, true);
    assert_eq!(hidden, (State::UnProcessed, State::Completed));
    assert_eq!(next, None);
    assert_eq!(on_renamed(Some(hidden)), (hidden, None));
}

#[test]
fn rename_during_a_title_job_is_not_lost() {
    // The title job starts and reads the old title.
    let (running, job) = on_renamed(None);
    assert_eq!(job, Some(Job::Renamed));
    // The title changes to a configured one while the job runs.
    let (pending, job) = on_renamed(Some(running));
    assert_eq!(pending, (State::UnProcessed, State::Pending));
    assert_eq!(job, None);
    // A third change keeps it pending without starting a second job.
    assert_eq!(on_renamed(Some(pending)), (pending, None));
    // The job ends without hiding (it saw the old title): the title is read again.
    let (again, next) = after_renamed_job(pending, false);
    assert_eq!(again, (State::UnProcessed, State::Processing));
    assert_eq!(next, Some(Job::Renamed));
    // This time the title is configured: the window is hidden and left alone.
    let (hidden, next) = after_renamed_job(again, true);
    assert_eq!(hidden.1, State::Completed);
    assert_eq!(next, None);
}

#[test]
fn created_then_renamed_window_gets_a_title_job() {
    let (entry, _) = on_created(None);
    let (entry2, job) = on_renamed(Some(entry));
    assert_eq!(entry2, entry);
    assert_eq!(entry2, (State::Processing, State::UnProcessed));
    assert_eq!(job, Some(Job::Renamed));
    assert_eq!(after_created_job(entry2), (State::Processed, State::UnProcessed));
}

#[test]
fn enumerated_windows_start_afresh() {
    assert_eq!(on_enumerated(), ((State::Processing, State::UnProcessed), Job::Created));
}

#[test]
fn configured_titles_match_exactly() {
    let titles = vec!["微信".to_string(), "Notepad".to_string()];
    assert!(is_configured_title(&titles, &"Notepad".to_string()));
    assert!(is_configured_title(&titles, &"微信".to_string()));
    assert!(!is_configured_title(&titles, &"notepad".to_string()));
    assert!(!is_configured_title(&titles, &"Notepad ".to_string()));
    assert!(!is_configured_title(&Vec::new(), &"".to_string()));
}

#[test]
fn job_messages() {
    assert_eq!(job_message("微信", true), "已经设置窗口防截屏:微信");
    assert_eq!(job_message("Notepad", false), "设置窗口防截屏失败:Notepad");
    assert_eq!(job_message("", true), "已经设置窗口防截屏:");
}

#[test]
fn root_window_cache_remembers() {
    let mut cache = RootWindowCache::new();
    assert_eq!(cache.lookup(5), None);
    cache.record(5, true);
    cache.record(6, false);
    assert_eq!(cache.lookup(5), Some(true));
    assert_eq!(cache.lookup(6), Some(false));
    cache.record(5, false);
    assert_eq!(cache.lookup(5), Some(false));
    assert_eq!(cache.lookup(7), None);
}
