use msgvault::navigation::{NavigationStack, ViewLevel};
use msgvault::types::ViewType;

#[test]
fn navigation_current_always_present() {
    let mut nav = NavigationStack::new();
    assert_eq!(*nav.current(), ViewLevel::Dashboard);
    assert!(!nav.can_go_back());

    nav.push(ViewLevel::Search);
    assert_eq!(*nav.current(), ViewLevel::Search);
    assert!(nav.can_go_back());

    assert!(nav.pop());
    assert_eq!(*nav.current(), ViewLevel::Dashboard);
    assert!(!nav.can_go_back());

    // a pop on an empty history is a safe no-op
    assert!(!nav.pop());
    assert_eq!(*nav.current(), ViewLevel::Dashboard);
}

#[test]
fn jump_truncates_history() {
    // history [A, B, C], current D
    let a = ViewLevel::Dashboard;
    let b = ViewLevel::Aggregates { view_type: ViewType::Senders };
    let c = ViewLevel::Search;
    let d = ViewLevel::Sync;
    let mut nav = NavigationStack::new();
    nav.push(b.clone());
    nav.push(c.clone());
    nav.push(d.clone());
    assert_eq!(*nav.current(), d);

    nav.jump_to(1);
    // history is [A], current is B; C and D are gone
    assert_eq!(*nav.current(), b);
    let crumbs = nav.breadcrumbs();
    assert_eq!(crumbs.len(), 2);
    assert_eq!(crumbs[0].view, a);
    assert_eq!(crumbs[1].view, b);
    assert!(nav.pop());
    assert_eq!(*nav.current(), a);
    assert!(!nav.can_go_back());
}

#[test]
fn jump_out_of_range_is_noop() {
    let mut nav = NavigationStack::new();
    nav.push(ViewLevel::Search);
    nav.jump_to(5);
    assert_eq!(*nav.current(), ViewLevel::Search);
    assert!(nav.can_go_back());
}

#[test]
fn breadcrumb_labels() {
    let sub = ViewLevel::SubAggregates {
        parent_view_type: ViewType::Domains,
        parent_key: "acme.com".to_string(),
        view_type: ViewType::Labels,
    };
    assert_eq!(sub.title(), "acme.com → Labels");

    let mut nav = NavigationStack::new();
    nav.push(sub);
    let crumbs = nav.breadcrumbs();
    assert_eq!(crumbs.len(), 2);
    assert_eq!(crumbs[0].label, "Dashboard");
    assert_eq!(crumbs[1].label, "acme.com → Labels");
}

#[test]
fn view_titles() {
    assert_eq!(ViewLevel::Dashboard.title(), "Dashboard");
    assert_eq!(ViewLevel::Aggregates { view_type: ViewType::SenderNames }.title(), "Sender Names");
    assert_eq!(ViewLevel::MessageDetail { message_id: 42 }.title(), "Message #42");
    assert_eq!(
        ViewLevel::Messages { filter_description: "Senders: a@b".to_string() }.title(),
        "Senders: a@b"
    );
    assert_eq!(ViewLevel::Search.title(), "Search");
    assert!(ViewLevel::Dashboard.is_dashboard());
    assert!(!ViewLevel::Search.is_dashboard());
}

#[test]
fn view_type_cycle() {
    assert_eq!(ViewType::Senders.next(), ViewType::SenderNames);
    assert_eq!(ViewType::Time.next(), ViewType::Senders);
    assert_eq!(ViewType::Senders.previous(), ViewType::Time);
    assert_eq!(ViewType::all().len(), 7);
    assert_eq!(ViewType::Domains.as_str(), "domains");
    assert_eq!(ViewType::RecipientNames.display_name(), "Recipient Names");
}
