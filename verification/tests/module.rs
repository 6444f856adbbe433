use rpos::module::{Module, ModuleList};

fn test_func(argc: u32, _argv: Vec<String>) {
    println!("hello,this is test function!");
    assert_eq!(argc, 1);
}

fn noop(_argc: u32, _argv: Vec<String>) {}

fn never(_argc: u32, _argv: Vec<String>) {
    panic!("a replaced module must not run");
}

#[test]
fn test_module_register() {
    let mut list: ModuleList<fn(u32, Vec<String>)> = ModuleList::new();
    Module::register(&mut list, "test", test_func as fn(u32, Vec<String>));

    assert_eq!(list.len(), 1);
    Module::get_module(&list, "test").execute(1, Vec::new());
}

#[test]
fn register_same_name_replaces_module() {
    let mut list: ModuleList<fn(u32, Vec<String>)> = ModuleList::new();
    Module::register(&mut list, "m", noop as fn(u32, Vec<String>));
    Module::register(&mut list, "m", never as fn(u32, Vec<String>));
    Module::register(&mut list, "m", noop as fn(u32, Vec<String>));
    assert_eq!(list.len(), 1);

    Module::get_module(&list, "m").execute(0, Vec::new());
}

#[test]
fn modules_found_by_their_names() {
    let mut list: ModuleList<fn(u32, Vec<String>)> = ModuleList::new();
    Module::register(&mut list, "alpha", noop as fn(u32, Vec<String>));
    Module::register(&mut list, "beta", noop as fn(u32, Vec<String>));

    assert_eq!(list.len(), 2);
    assert!(list.contains("alpha"));
    assert!(list.contains("beta"));
    assert!(!list.contains("gamma"));
    assert_eq!(Module::get_module(&list, "beta").name, "beta");
}
