use pdf_renderer::browser::containers::browser::{
    launch_error, launch_options, BrowserConfiguration, LaunchFailure, LaunchOptions, DEBUG_PORT,
    IDLE_BROWSER_TIMEOUT_SECS,
};
use pdf_renderer::browser::containers::tab::{fail, RenderStage};
use pdf_renderer::browser::result::Error;

#[test]
fn error_keeps_stage_and_message() {
    let error = Error::new("init_tabs", String::from("no backend"));
    assert_eq!(error.stage, "init_tabs");
    assert_eq!(error.message, "no backend");
}

#[test]
fn error_renders_for_users_and_for_diagnostics() {
    let error = Error::new("render_html", String::from("error printing to PDF: boom"));
    assert_eq!(error.to_display_string(), "at render_html: error printing to PDF: boom");
    assert_eq!(error.to_debug_string(), "[render_html] error printing to PDF: boom");
}

#[test]
fn error_with_cause_appends_the_cause() {
    let error = Error::caused("launch_browser", "error creating browser: ", "not found");
    assert_eq!(error.stage, "launch_browser");
    assert_eq!(error.message, "error creating browser: not found");
    let empty = Error::caused("x", "", "");
    assert_eq!(empty.message, "");
    assert_eq!(empty.to_display_string(), "at x: ");
    assert_eq!(empty.to_debug_string(), "[x] ");
}

#[test]
fn each_render_stage_has_its_own_message() {
    let staging = fail(RenderStage::Staging, "disk full");
    assert_eq!(staging.stage, "staging");
    assert_eq!(staging.message, "error saving page to temp: disk full");
    assert_eq!(fail(RenderStage::Resolving, "()").message, "error creating url from path: ()");
    assert_eq!(fail(RenderStage::Navigating, "gone").message, "error navigating to page: gone");
    assert_eq!(fail(RenderStage::Exporting, "boom").message, "error printing to PDF: boom");
    assert_eq!(fail(RenderStage::Joining, "Any").message, "error joining thread: Any");
    assert_eq!(RenderStage::Staging.describe(), "error saving page to temp: ");
    assert_eq!(RenderStage::Joining.describe(), "error joining thread: ");
}

#[test]
fn each_render_stage_has_its_own_tag() {
    let stages = [
        (RenderStage::Staging, "staging"),
        (RenderStage::Resolving, "resolving"),
        (RenderStage::Navigating, "navigating"),
        (RenderStage::Exporting, "exporting"),
        (RenderStage::Joining, "joining"),
    ];
    for (stage, tag) in stages {
        assert_eq!(stage.name(), tag);
        assert_eq!(fail(stage, "cause").stage, tag);
        assert_eq!(fail(stage, "").stage, tag);
    }
    for (one, _) in stages {
        for (other, _) in stages {
            assert_eq!(one == other, fail(one, "x").stage == fail(other, "x").stage);
        }
    }
    assert_eq!(
        fail(RenderStage::Exporting, "boom").to_display_string(),
        "at exporting: error printing to PDF: boom"
    );
    assert_eq!(
        fail(RenderStage::Joining, "Any").to_debug_string(),
        "[joining] error joining thread: Any"
    );
}

#[test]
fn duplicate_of_an_error_holds_the_same() {
    let error = Error::new("init_tabs", String::from("no backend"));
    let copy = error.duplicate();
    assert_eq!(copy.stage, "init_tabs");
    assert_eq!(copy.message, "no backend");
    assert_eq!(error.message, "no backend");
}

#[test]
fn launch_options_follow_the_configuration() {
    let options = launch_options(&BrowserConfiguration { headless: true, tabs_count: 4 });
    assert_eq!(
        options,
        LaunchOptions { headless: true, idle_browser_timeout_secs: 3600, port: Some(39625) }
    );
    let windowed = launch_options(&BrowserConfiguration { headless: false, tabs_count: 0 });
    assert!(!windowed.headless);
    assert_eq!(windowed.idle_browser_timeout_secs, IDLE_BROWSER_TIMEOUT_SECS);
    assert_eq!(windowed.port, Some(DEBUG_PORT));
}

#[test]
fn launch_failures_are_told_apart() {
    let options = launch_error(&LaunchFailure::Options(String::from("bad port")));
    assert_eq!(options.stage, "launch_browser");
    assert_eq!(options.message, "error creating launch options: bad port");
    let browser = launch_error(&LaunchFailure::Browser(String::from("no binary")));
    assert_eq!(browser.stage, "launch_browser");
    assert_eq!(browser.message, "error creating browser: no binary");
    assert_eq!(
        browser.to_display_string(),
        "at launch_browser: error creating browser: no binary"
    );
}
