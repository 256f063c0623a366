use amfm::navigation::handle_navigation;
use amfm::navigation::FocusRegion;
use amfm::navigation::NavKey;

#[test]
fn right_moves_from_stations_to_info() {
    let (focus, selection) = handle_navigation(FocusRegion::MainArea, None, NavKey::Right);
    assert_eq!(focus, Some(FocusRegion::RadioInfo));
    assert_eq!(selection, None);

    let (focus, _) = handle_navigation(FocusRegion::RadioInfo, None, NavKey::Right);
    assert_eq!(focus, None);
}

#[test]
fn left_always_returns_to_stations_and_clears_selection() {
    let (focus, selection) = handle_navigation(FocusRegion::Queue, Some(3), NavKey::Left);
    assert_eq!(focus, Some(FocusRegion::MainArea));
    assert_eq!(selection, None);

    let (focus, selection) = handle_navigation(FocusRegion::RadioInfo, None, NavKey::Left);
    assert_eq!(focus, Some(FocusRegion::MainArea));
    assert_eq!(selection, None);

    let (focus, selection) = handle_navigation(FocusRegion::MainArea, Some(2), NavKey::Left);
    assert_eq!(focus, None);
    assert_eq!(selection, Some(2));
}

#[test]
fn down_enters_the_queue_and_walks_it() {
    let (focus, selection) = handle_navigation(FocusRegion::RadioInfo, None, NavKey::Down);
    assert_eq!(focus, Some(FocusRegion::Queue));
    assert_eq!(selection, Some(0));

    let (focus, selection) = handle_navigation(FocusRegion::Queue, Some(0), NavKey::Down);
    assert_eq!(focus, None);
    assert_eq!(selection, Some(1));

    let (focus, selection) = handle_navigation(FocusRegion::Queue, Some(usize::MAX), NavKey::Down);
    assert_eq!(focus, None);
    assert_eq!(selection, Some(usize::MAX));
}

#[test]
fn up_walks_the_queue_and_leaves_it_at_the_top() {
    let (focus, selection) = handle_navigation(FocusRegion::Queue, Some(2), NavKey::Up);
    assert_eq!(focus, None);
    assert_eq!(selection, Some(1));

    let (focus, selection) = handle_navigation(FocusRegion::Queue, Some(0), NavKey::Up);
    assert_eq!(focus, Some(FocusRegion::RadioInfo));
    assert_eq!(selection, None);

    let (focus, selection) = handle_navigation(FocusRegion::Queue, None, NavKey::Up);
    assert_eq!(focus, Some(FocusRegion::RadioInfo));
    assert_eq!(selection, None);
}
