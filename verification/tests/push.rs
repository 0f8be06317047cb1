use revolt::push::offline_recipients;

fn ids(list: &[&str]) -> Vec<String> {
    list.iter().map(|s| s.to_string()).collect()
}

#[test]
fn online_targets_are_left_out() {
    let queued = offline_recipients(&ids(&["a", "b", "c"]), &ids(&["b"]));
    assert_eq!(queued, ids(&["a", "c"]));
}

#[test]
fn duplicates_are_queued_once_at_first_occurrence() {
    let queued = offline_recipients(&ids(&["a", "b", "a", "c", "b"]), &ids(&[]));
    assert_eq!(queued, ids(&["a", "b", "c"]));
}

#[test]
fn everyone_online_means_nobody_queued() {
    let queued = offline_recipients(&ids(&["a", "b"]), &ids(&["a", "b", "c"]));
    assert!(queued.is_empty());
}

#[test]
fn empty_recipient_list_queues_nobody() {
    let queued = offline_recipients(&ids(&[]), &ids(&["a"]));
    assert!(queued.is_empty());
}

#[test]
fn dedup_and_presence_combine() {
    let queued = offline_recipients(&ids(&["a", "a", "b", "b", "c"]), &ids(&["a"]));
    assert_eq!(queued, ids(&["b", "c"]));
}
