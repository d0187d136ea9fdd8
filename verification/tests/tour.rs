use tour::chrome::ButtonLabel;
use tour::chrome::Chrome;
use tour::controller::ShellRequest;
use tour::controller::TourController;
use tour::controller::TourMode;
use tour::page::Page;
use tour::paginator::Paginator;
use tour::paginator::PositionChanged;

fn content_page(title: &str) -> Page {
    Page::illustrated(
        String::from("res://img"),
        String::from(title),
        String::from("heading"),
        String::from("body"),
    )
}

fn welcome_tour() -> TourController {
    let mut p = Paginator::new();
    p.register(Page::welcome(String::from("Welcome")));
    p.register(content_page("A"));
    p.register(content_page("B"));
    p.register(content_page("C"));
    TourController::new(p)
}

#[test]
fn full_tour_ends_with_a_close_request() {
    let mut c = welcome_tour();
    c.start();
    assert_eq!(c.mode, TourMode::InProgress);
    assert_eq!(c.paginator.current_index, 1);
    assert_eq!(c.chrome.title, "A");
    assert!(c.chrome.navigation_visible);

    assert_eq!(c.advance(), ShellRequest::Proceed);
    assert_eq!(c.advance(), ShellRequest::Proceed);
    assert_eq!(c.chrome.title, "C");
    assert_eq!(c.chrome.label, ButtonLabel::Finish);

    assert_eq!(c.advance(), ShellRequest::CloseWindow);
    assert_eq!(c.paginator.current_index, 3);
    assert_eq!(c.chrome.title, "C");
}

#[test]
fn retreat_at_lower_bound_returns_to_welcome() {
    let mut c = welcome_tour();
    c.start();
    assert_eq!(c.retreat(), ShellRequest::Proceed);
    assert_eq!(c.mode, TourMode::InProgress);
    assert_eq!(c.paginator.current_index, 0);
    assert_eq!(c.chrome.title, "Welcome");

    assert_eq!(c.retreat(), ShellRequest::Proceed);
    assert_eq!(c.mode, TourMode::NotStarted);
    assert_eq!(c.paginator.current_index, 0);
    assert!(!c.chrome.navigation_visible);
}

#[test]
fn skip_terminates_from_not_started() {
    let c = welcome_tour();
    assert_eq!(c.mode, TourMode::NotStarted);
    assert_eq!(c.skip(), ShellRequest::Terminate);
}

#[test]
fn skip_terminates_while_in_progress() {
    let mut c = welcome_tour();
    c.start();
    assert_eq!(c.skip(), ShellRequest::Terminate);
}

#[test]
fn starting_again_after_an_exit_resumes_at_first_content_page() {
    let mut c = welcome_tour();
    c.start();
    assert_eq!(c.retreat(), ShellRequest::Proceed);
    assert_eq!(c.retreat(), ShellRequest::Proceed);
    assert_eq!(c.mode, TourMode::NotStarted);
    c.start();
    assert_eq!(c.mode, TourMode::InProgress);
    assert_eq!(c.paginator.current_index, 1);
    assert_eq!(c.chrome.title, "A");
    assert_eq!(c.chrome.label, ButtonLabel::Continue);
}

#[test]
fn single_page_tour_starts_on_its_last_page() {
    let mut p = Paginator::new();
    p.register(Page::welcome(String::from("Welcome")));
    let mut c = TourController::new(p);
    c.start();
    assert_eq!(c.paginator.current_index, 0);
    assert_eq!(c.chrome.title, "Welcome");
    assert_eq!(c.chrome.label, ButtonLabel::Finish);
    assert!(c.chrome.navigation_visible);
    assert_eq!(c.advance(), ShellRequest::CloseWindow);
}

#[test]
fn chrome_recomputes_label_on_every_notification() {
    let mut chrome = Chrome::new();
    assert_eq!(chrome.label, ButtonLabel::Continue);
    assert_eq!(chrome.title, "");

    chrome.on_position_changed(PositionChanged {
        index: 3,
        title: String::from("Learn More"),
        is_last: true,
    });
    assert_eq!(chrome.title, "Learn More");
    assert_eq!(chrome.label, ButtonLabel::Finish);

    chrome.on_position_changed(PositionChanged {
        index: 2,
        title: String::from("Search"),
        is_last: false,
    });
    assert_eq!(chrome.title, "Search");
    assert_eq!(chrome.label, ButtonLabel::Continue);
}

#[test]
fn navigation_and_welcome_ui_are_mutually_exclusive() {
    let mut chrome = Chrome::new();
    assert!(!chrome.navigation_visible);
    chrome.show_navigation_ui();
    assert!(chrome.navigation_visible);
    chrome.hide_navigation_ui();
    assert!(!chrome.navigation_visible);
}
