use bazaar::Config;
use bazaar::DEFAULT_TIMEOUT;
use bazaar::Page;
use bazaar::Status;
use bazaar::Theme;
use bazaar::Toast;

#[test]
fn status_labels_are_their_names() {
    assert_eq!(Status::Primary.label(), "Primary");
    assert_eq!(Status::Secondary.label(), "Secondary");
    assert_eq!(Status::Success.label(), "Success");
    assert_eq!(Status::Danger.label(), "Danger");
}

#[test]
fn defaults_match_the_shell_expectations() {
    assert_eq!(Status::default(), Status::Primary);
    assert_eq!(Theme::default(), Theme::Dark);
    assert_eq!(DEFAULT_TIMEOUT, 5);
    let toast = Toast::default();
    assert_eq!(toast.title, "");
    assert_eq!(toast.body, "");
    assert_eq!(toast.status, Status::Primary);
}

#[test]
fn shell_state_is_plain_data() {
    let config = Config { dark_mode: true };
    assert!(config.dark_mode);
    let page = Page::LandingPage;
    assert_ne!(page, Page::Installed);
    assert_ne!(page, Page::Detail);
}
