use operaton_task_worker::registry::{all_names, find, Registry};
use operaton_task_worker::types::{
    out_string, ExternalTaskFn, HandlerError, HandlerResult, InputVariables, OutputVariables,
};

fn test_handler(_input: &InputVariables) -> HandlerResult {
    Ok(OutputVariables::new())
}

fn first(_input: &InputVariables) -> HandlerResult {
    let mut out = OutputVariables::new();
    out.insert("who".to_string(), out_string("first"));
    Ok(out)
}

fn second(_input: &InputVariables) -> HandlerResult {
    Err(HandlerError::Technical("second".to_string()))
}

#[test]
fn registry_finds_macro_registered_handler() {
    let mut registry: Registry<ExternalTaskFn> = Registry::new();
    registry.register("__test_handler__example__".to_string(), test_handler);
    let names = all_names(&registry);
    assert!(names.contains(&"__test_handler__example__".to_string()));
    let f = find(&registry, "__test_handler__example__").expect("handler should be registered");
    let input: InputVariables = InputVariables::new();
    let out = f(&input).expect("handler should return Ok");
    assert!(out.is_empty());
}

#[test]
fn registered_handlers_are_found_by_their_exact_name() {
    let mut registry: Registry<ExternalTaskFn> = Registry::new();
    assert!(registry.register("h1".to_string(), first));
    assert!(registry.register("h2".to_string(), second));
    let input = InputVariables::new();
    assert!(find(&registry, "h1").unwrap()(&input).is_ok());
    assert!(find(&registry, "h2").unwrap()(&input).is_err());
    assert!(find(&registry, "missing").is_none());
    assert!(find(&registry, "H1").is_none());
    assert!(find(&registry, "h").is_none());
    assert!(find(&registry, "h1 ").is_none());
    let names = all_names(&registry);
    assert_eq!(names, vec!["h1".to_string(), "h2".to_string()]);
    assert_eq!(registry.len(), 2);
}

#[test]
fn first_registration_of_a_name_answers() {
    let mut registry: Registry<u32> = Registry::new();
    assert!(registry.register("h".to_string(), 1));
    assert!(!registry.register("h".to_string(), 2));
    assert!(registry.register("g".to_string(), 3));
    assert_eq!(find(&registry, "h"), Some(&1));
    assert_eq!(find(&registry, "g"), Some(&3));
    assert_eq!(registry.position("h"), Some(0));
    assert_eq!(registry.position("g"), Some(2));
    assert_eq!(registry.position("x"), None);
    assert_eq!(all_names(&registry), vec!["h".to_string(), "h".to_string(), "g".to_string()]);
    assert_eq!(registry.handler_at(1).map(|h| (h.name.as_str(), h.func)), Some(("h", 2)));
    assert!(registry.handler_at(3).is_none());
}

#[test]
fn empty_registry_finds_nothing() {
    let registry: Registry<u32> = Registry::new();
    assert_eq!(find(&registry, "h"), None);
    assert!(all_names(&registry).is_empty());
    assert_eq!(registry.len(), 0);
}
