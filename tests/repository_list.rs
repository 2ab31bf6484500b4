use prism::config::{config_dir_for, config_path_for, file_name, AppConfig};

#[test]
fn add_find_and_contains() {
    let mut c = AppConfig::new();
    let r = c.add_repository("proj".to_string(), "/home/u/proj".to_string());
    assert_eq!(r.name, "proj");
    assert_eq!(r.path, "/home/u/proj");
    assert_eq!(r.id.len(), 36);
    assert!(r.last_opened_at.is_none());
    assert_eq!(c.repositories.len(), 1);
    assert_eq!(c.repositories[0].id, r.id);
    assert!(c.contains_path("/home/u/proj"));
    assert!(!c.contains_path("/home/u/other"));
    assert_eq!(c.find_by_path("/home/u/proj").unwrap().id, r.id);
    assert!(c.find_by_path("/nope").is_none());
}

#[test]
fn fresh_ids_differ() {
    let mut c = AppConfig::default();
    let a = c.add_repository("a".to_string(), "/a".to_string());
    let b = c.add_repository("b".to_string(), "/b".to_string());
    assert_ne!(a.id, b.id);
    assert_eq!(a.id.matches('-').count(), 4);
}

#[test]
fn remove_by_id() {
    let mut c = AppConfig::new();
    let a = c.add_repository("a".to_string(), "/a".to_string());
    let b = c.add_repository("b".to_string(), "/b".to_string());
    assert!(c.remove_repository(&a.id));
    assert_eq!(c.repositories.len(), 1);
    assert_eq!(c.repositories[0].id, b.id);
    assert!(!c.remove_repository(&a.id));
    assert_eq!(c.repositories.len(), 1);
}

#[test]
fn update_last_opened_marks_entry() {
    let mut c = AppConfig::new();
    let a = c.add_repository("a".to_string(), "/a".to_string());
    let b = c.add_repository("b".to_string(), "/b".to_string());
    c.update_last_opened(&b.id);
    assert!(c.repositories[0].last_opened_at.is_none());
    let t = c.repositories[1].last_opened_at.unwrap();
    assert!(t.seconds >= b.added_at.seconds);
    c.update_last_opened("missing");
    assert!(c.repositories[0].last_opened_at.is_none());
    assert_eq!(c.repositories[0].id, a.id);
}

#[test]
fn register_refuses_duplicates_and_names_entries() {
    let mut c = AppConfig::new();
    let r = c.register_repository("/home/u/proj".to_string(), None).unwrap();
    assert_eq!(r.name, "proj");
    let e = c.register_repository("/home/u/proj".to_string(), Some("x".to_string())).unwrap_err();
    assert_eq!(e, "Repository already in list");
    assert_eq!(c.repositories.len(), 1);
    let r = c.register_repository("/".to_string(), None).unwrap();
    assert_eq!(r.name, "Unnamed");
    let r = c.register_repository("/w".to_string(), Some("Work".to_string())).unwrap();
    assert_eq!(r.name, "Work");
}

#[test]
fn file_name_of_paths() {
    assert_eq!(file_name("/home/u/proj").as_deref(), Some("proj"));
    assert_eq!(file_name("/home/u/proj/").as_deref(), Some("proj"));
    assert_eq!(file_name("proj").as_deref(), Some("proj"));
    assert_eq!(file_name("/"), None);
    assert_eq!(file_name(""), None);
    assert_eq!(file_name("/a/.."), None);
}

#[test]
fn config_locations() {
    assert_eq!(config_dir_for(Some("/home/u".to_string())).unwrap(), "/home/u/.prism");
    assert_eq!(config_path_for(Some("/home/u".to_string())).unwrap(), "/home/u/.prism/repositories.json");
    assert_eq!(config_path_for(None).unwrap_err(), "Cannot find home directory");
    if let Ok(p) = AppConfig::config_path() {
        assert!(p.ends_with("/.prism/repositories.json"));
    }
}
