use wavbench::file_set::{file_name_set, FileNameSet};

#[test]
fn keeps_names_once_in_order() {
    let mut set = FileNameSet::new();
    assert!(set.is_empty());
    assert!(set.insert("b.wav".to_string()));
    assert!(set.insert("a.wav".to_string()));
    assert!(!set.insert("b.wav".to_string()));
    assert!(set.insert("B.wav".to_string()));
    assert_eq!(set.len(), 3);
    assert_eq!(set.names(), &vec!["B.wav".to_string(), "a.wav".to_string(), "b.wav".to_string()]);
    assert!(set.contains("a.wav"));
    assert!(!set.contains("c.wav"));
}

#[test]
fn builds_a_set_from_a_listing() {
    let listing = vec!["z.wav".to_string(), "ab.wav".to_string(), "a.wav".to_string(), "z.wav".to_string()];
    let set = file_name_set(&listing);
    assert_eq!(set.names(), &vec!["a.wav".to_string(), "ab.wav".to_string(), "z.wav".to_string()]);
    let other = file_name_set(&vec!["ab.wav".to_string()]);
    assert_eq!(set.difference(&other), vec!["a.wav".to_string(), "z.wav".to_string()]);
    assert!(other.difference(&set).is_empty());
}
