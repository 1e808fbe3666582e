use pdf_renderer::browser::containers::browser::{
    BrowserConfiguration, BrowserConfigurationBuilder, BrowserConfigurationBuilderError,
    BrowserContainer, LaunchOptions, LockAttempt, TabsAction, TabsEvent,
};

fn configuration(tabs_count: usize) -> BrowserConfiguration {
    BrowserConfiguration { headless: true, tabs_count }
}

fn pool(slots: usize) -> BrowserContainer {
    let mut pool = BrowserContainer::new(configuration(slots));
    assert!(matches!(pool.init_tabs(TabsEvent::Listed(Ok(slots))), TabsAction::Ready));
    pool
}

fn failure_of(action: TabsAction) -> (String, String) {
    match action {
        TabsAction::Fail(error) => (String::from(error.stage), error.message),
        _ => panic!("the build did not fail"),
    }
}

#[test]
fn configuration_builder_needs_every_field() {
    let mut builder = BrowserConfigurationBuilder::default();
    match builder.build() {
        Err(BrowserConfigurationBuilderError::UninitializedField(field)) => {
            assert_eq!(field, "headless")
        },
        Ok(_) => panic!("an empty builder built"),
    }
    builder.headless(false);
    match builder.build() {
        Err(BrowserConfigurationBuilderError::UninitializedField(field)) => {
            assert_eq!(field, "tabs_count")
        },
        Ok(_) => panic!("a builder without a count built"),
    }
    builder.tabs_count(3);
    let config = builder.build().unwrap();
    assert_eq!(config, BrowserConfiguration { headless: false, tabs_count: 3 });
}

#[test]
fn configuration_builder_names_the_first_missing_field() {
    let mut builder = BrowserConfigurationBuilder::default();
    builder.tabs_count(3);
    match builder.build() {
        Err(error) => {
            assert!(matches!(
                error,
                BrowserConfigurationBuilderError::UninitializedField("headless")
            ));
            assert_eq!(error.to_display_string(), "`headless` must be initialized");
        },
        Ok(_) => panic!("a builder without a flag built"),
    }
    assert_eq!(
        BrowserConfigurationBuilderError::UninitializedField("tabs_count").to_display_string(),
        "`tabs_count` must be initialized"
    );
}

#[test]
fn configuration_builder_chains_and_keeps_the_last_value() {
    let mut builder = BrowserConfigurationBuilder::default();
    builder.headless(true).tabs_count(2).tabs_count(9).headless(false);
    assert_eq!(builder.build().unwrap(), BrowserConfiguration { headless: false, tabs_count: 9 });
    assert_eq!(builder.build().unwrap(), BrowserConfiguration { headless: false, tabs_count: 9 });
}

#[test]
fn new_pool_has_no_slots_yet() {
    let mut pool = BrowserContainer::new(configuration(4));
    assert!(!pool.is_ready());
    assert_eq!(pool.capacity(), 0);
    assert_eq!(pool.outstanding(), 0);
    assert_eq!(pool.config(), configuration(4));
    assert!(pool.tab(0).is_none());
    assert_eq!(pool.lock_tab(), LockAttempt::Wait(25));
}

#[test]
fn building_opens_sessions_until_there_are_enough() {
    let mut pool = BrowserContainer::new(configuration(3));
    assert!(matches!(pool.init_tabs(TabsEvent::Launched), TabsAction::Count));
    let mut sessions = 1;
    let mut action = pool.init_tabs(TabsEvent::Counted(Ok(sessions)));
    let mut opened = 0;
    loop {
        match action {
            TabsAction::Open => {
                sessions += 1;
                opened += 1;
                assert!(matches!(pool.init_tabs(TabsEvent::Opened(Ok(()))), TabsAction::Count));
                action = pool.init_tabs(TabsEvent::Counted(Ok(sessions)));
            },
            TabsAction::List => break,
            _ => panic!("the build left its course"),
        }
        assert!(!pool.is_ready());
        assert_eq!(pool.capacity(), 0);
    }
    assert_eq!(opened, 2);
    assert_eq!(sessions, 3);
    assert!(matches!(pool.init_tabs(TabsEvent::Listed(Ok(sessions))), TabsAction::Ready));
    assert!(pool.is_ready());
    assert_eq!(pool.capacity(), 3);
    assert_eq!(pool.outstanding(), 0);
    for slot in 0..3 {
        let tab = pool.tab(slot).unwrap();
        assert_eq!(tab.session(), slot);
        assert!(!tab.is_locked());
    }
    assert!(pool.tab(3).is_none());
}

#[test]
fn building_wraps_every_session_that_is_there() {
    let mut pool = BrowserContainer::new(configuration(2));
    assert!(matches!(pool.init_tabs(TabsEvent::Counted(Ok(2))), TabsAction::List));
    let mut more = BrowserContainer::new(configuration(2));
    assert!(matches!(more.init_tabs(TabsEvent::Counted(Ok(5))), TabsAction::List));
    assert!(matches!(more.init_tabs(TabsEvent::Listed(Ok(5))), TabsAction::Ready));
    assert_eq!(more.capacity(), 5);
    let mut none = BrowserContainer::new(configuration(0));
    assert!(matches!(none.init_tabs(TabsEvent::Counted(Ok(0))), TabsAction::List));
    assert!(matches!(none.init_tabs(TabsEvent::Listed(Ok(0))), TabsAction::Ready));
    assert!(none.is_ready());
    assert_eq!(none.capacity(), 0);
}

#[test]
fn building_fails_without_a_pool() {
    let mut pool = BrowserContainer::new(configuration(2));
    assert_eq!(
        failure_of(pool.init_tabs(TabsEvent::Counted(Err(String::from("PoisonError"))))),
        (String::from("init_tabs"), String::from("PoisonError"))
    );
    assert!(pool.has_failed());
    assert!(!pool.is_ready());
    assert_eq!(pool.capacity(), 0);

    let mut pool = BrowserContainer::new(configuration(2));
    assert!(!pool.has_failed());
    assert_eq!(
        failure_of(pool.init_tabs(TabsEvent::Opened(Err(String::from("no connection"))))),
        (String::from("init_tabs"), String::from("error when creating tabs: no connection"))
    );
    assert!(pool.has_failed());

    let mut pool = BrowserContainer::new(configuration(2));
    assert_eq!(
        failure_of(pool.init_tabs(TabsEvent::Listed(Err(String::from("PoisonError"))))),
        (
            String::from("init_tabs"),
            String::from("error when creating tab containers: PoisonError")
        )
    );
    assert!(pool.has_failed());
    assert!(!pool.is_ready());
    assert_eq!(pool.capacity(), 0);
}

#[test]
fn failed_build_is_final() {
    let mut pool = BrowserContainer::new(configuration(2));
    assert!(matches!(pool.init_tabs(TabsEvent::Launched), TabsAction::Count));
    assert!(matches!(pool.init_tabs(TabsEvent::Counted(Ok(1))), TabsAction::Open));
    let first = failure_of(pool.init_tabs(TabsEvent::Opened(Err(String::from("no connection")))));
    assert_eq!(first.1, "error when creating tabs: no connection");
    let events = vec![
        TabsEvent::Listed(Ok(1)),
        TabsEvent::Listed(Ok(2)),
        TabsEvent::Launched,
        TabsEvent::Counted(Ok(2)),
        TabsEvent::Opened(Ok(())),
        TabsEvent::Counted(Err(String::from("other"))),
        TabsEvent::Listed(Err(String::from("other"))),
    ];
    for event in events {
        assert_eq!(failure_of(pool.init_tabs(event)), first);
        assert!(pool.has_failed());
        assert!(!pool.is_ready());
        assert_eq!(pool.capacity(), 0);
        assert!(pool.tab(0).is_none());
    }
    assert_eq!(pool.lock_tab(), LockAttempt::Wait(25));
    assert_eq!(pool.outstanding(), 0);
}

#[test]
fn built_pool_keeps_its_capacity() {
    let mut pool = pool(3);
    assert_eq!(pool.lock_tab(), LockAttempt::Locked(0));
    assert!(matches!(pool.init_tabs(TabsEvent::Listed(Ok(7))), TabsAction::Ready));
    assert!(matches!(pool.init_tabs(TabsEvent::Launched), TabsAction::Ready));
    assert!(matches!(pool.init_tabs(TabsEvent::Counted(Ok(0))), TabsAction::Ready));
    assert!(matches!(
        pool.init_tabs(TabsEvent::Opened(Err(String::from("x")))),
        TabsAction::Ready
    ));
    assert_eq!(pool.capacity(), 3);
    assert_eq!(pool.outstanding(), 1);
    assert!(pool.tab(0).unwrap().is_locked());
    pool.unlock_tab(0);
    pool.unlock_tab(17);
    assert_eq!(pool.capacity(), 3);
}

#[test]
fn scan_leases_the_first_free_slot() {
    let mut pool = pool(3);
    assert_eq!(pool.lock_tab(), LockAttempt::Locked(0));
    assert_eq!(pool.lock_tab(), LockAttempt::Locked(1));
    assert_eq!(pool.outstanding(), 2);
    pool.unlock_tab(0);
    assert_eq!(pool.outstanding(), 1);
    assert_eq!(pool.lock_tab(), LockAttempt::Locked(0));
    assert_eq!(pool.lock_tab(), LockAttempt::Locked(2));
    assert_eq!(pool.outstanding(), 3);
    assert!(pool.tab(0).unwrap().is_locked());
    assert!(pool.tab(1).unwrap().is_locked());
    assert!(pool.tab(2).unwrap().is_locked());
}

#[test]
fn full_pool_tells_the_caller_to_wait() {
    let mut pool = pool(2);
    assert_eq!(pool.lock_tab(), LockAttempt::Locked(0));
    assert_eq!(pool.lock_tab(), LockAttempt::Locked(1));
    for _ in 0..10 {
        assert_eq!(pool.lock_tab(), LockAttempt::Wait(25));
        assert_eq!(pool.outstanding(), 2);
    }
    pool.unlock_tab(1);
    assert_eq!(pool.lock_tab(), LockAttempt::Locked(1));
    assert_eq!(pool.lock_tab(), LockAttempt::Wait(25));
}

#[test]
fn unlock_of_a_free_or_missing_slot_changes_nothing() {
    let mut pool = pool(2);
    pool.unlock_tab(0);
    pool.unlock_tab(1);
    pool.unlock_tab(2);
    pool.unlock_tab(usize::MAX);
    assert_eq!(pool.outstanding(), 0);
    assert_eq!(pool.capacity(), 2);
    assert_eq!(pool.lock_tab(), LockAttempt::Locked(0));
    pool.unlock_tab(1);
    assert_eq!(pool.outstanding(), 1);
    assert!(pool.tab(0).unwrap().is_locked());
    assert!(!pool.tab(1).unwrap().is_locked());
}

#[test]
fn restart_launches_with_the_same_configuration_and_keeps_the_leases() {
    let mut pool = BrowserContainer::new(BrowserConfiguration { headless: false, tabs_count: 2 });
    pool.init_tabs(TabsEvent::Listed(Ok(2)));
    assert_eq!(pool.lock_tab(), LockAttempt::Locked(0));
    let options = pool.restart_browser();
    assert_eq!(
        options,
        LaunchOptions { headless: false, idle_browser_timeout_secs: 3600, port: Some(39625) }
    );
    assert_eq!(pool.capacity(), 2);
    assert_eq!(pool.outstanding(), 1);
    assert!(pool.tab(0).unwrap().is_locked());
    assert_eq!(pool.lock_tab(), LockAttempt::Locked(1));
}

#[test]
fn leases_never_exceed_the_capacity() {
    for capacity in 1..=4usize {
        let mut pool = pool(capacity);
        let cycles = 5 * capacity;
        // Each caller asks until it has a lease, holds it for a few rounds and
        // gives it back.
        let mut held: Vec<Option<(usize, usize)>> = vec![None; cycles];
        let mut done = vec![false; cycles];
        let mut most = 0;
        let mut rounds = 0;
        while done.iter().any(|ended| !ended) {
            rounds += 1;
            assert!(rounds < 10_000);
            for caller in 0..cycles {
                if done[caller] {
                    continue;
                }
                match held[caller] {
                    None => {
                        if let LockAttempt::Locked(slot) = pool.lock_tab() {
                            assert!(slot < capacity);
                            assert!(held.iter().all(|lease| match lease {
                                Some((taken, _)) => *taken != slot,
                                None => true,
                            }));
                            held[caller] = Some((slot, 1 + caller % 3));
                        }
                    },
                    Some((slot, 0)) => {
                        pool.unlock_tab(slot);
                        held[caller] = None;
                        done[caller] = true;
                    },
                    Some((slot, rounds_left)) => held[caller] = Some((slot, rounds_left - 1)),
                }
                let out = held.iter().filter(|lease| lease.is_some()).count();
                assert_eq!(pool.outstanding(), out);
                assert!(out <= capacity);
                most = most.max(out);
            }
        }
        assert_eq!(most, capacity);
        assert_eq!(pool.outstanding(), 0);
    }
}
