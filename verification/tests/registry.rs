use redundancy::component::Component;
use redundancy::registry::{ComponentRegistry, RegistryError};

#[test]
fn new_registry_is_empty() {
    let r = ComponentRegistry::new();
    assert_eq!(r.len(), 0);
    assert!(!r.contains(&String::from("Primary")));
}

#[test]
fn register_then_get_finds_the_component() {
    let mut r = ComponentRegistry::new();
    assert!(r.register(Component::new("Primary", true)).is_ok());
    assert!(r.register(Component::new("Backup", false)).is_ok());
    assert_eq!(r.len(), 2);

    let p = r.get(&String::from("Primary")).unwrap();
    assert_eq!(p.name().as_str(), "Primary");
    assert!(p.check_health());

    let b = r.get(&String::from("Backup")).unwrap();
    assert_eq!(b.name().as_str(), "Backup");
    assert!(!b.check_health());
}

#[test]
fn duplicate_registration_is_refused() {
    let mut r = ComponentRegistry::new();
    assert!(r.register(Component::new("Primary", true)).is_ok());
    let refused = r.register(Component::new("Primary", false));
    assert_eq!(refused, Err(RegistryError::DuplicateName));
    assert_eq!(r.len(), 1);
    let kept = r.get(&String::from("Primary")).unwrap();
    assert!(kept.check_health());
}

#[test]
fn lookup_of_unknown_name_fails() {
    let mut r = ComponentRegistry::new();
    assert!(r.register(Component::new("Primary", true)).is_ok());
    let missing = r.get(&String::from("Standby"));
    assert!(matches!(missing, Err(RegistryError::NotFound)));
}

#[test]
fn one_pass_visits_every_component_once() {
    let mut r = ComponentRegistry::new();
    assert!(r.register(Component::new("A", true)).is_ok());
    assert!(r.register(Component::new("B", false)).is_ok());
    assert!(r.register(Component::new("C", true)).is_ok());

    let mut names = Vec::new();
    for i in 0..r.len() {
        names.push(r.component_at(i).name().as_str().to_string());
    }
    assert_eq!(names, vec!["A".to_string(), "B".to_string(), "C".to_string()]);
}
