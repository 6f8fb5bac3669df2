use cogno::ModuleRef;

fn module(components: &[&str], functions: &[&str]) -> ModuleRef {
    let mut m = ModuleRef::new(
        "/src".to_string(),
        components.iter().map(|c| c.to_string()).collect(),
    );
    for f in functions {
        m.add_function(f.to_string());
    }
    m
}

#[test]
fn empty_module_has_no_test_functions() {
    let m = module(&["main.rs"], &[]);
    assert!(!m.has_test_functions());
    assert_eq!(m.get_path(), "/src");
    assert_eq!(m.to_source(), "");
}

#[test]
fn crate_root_file_gives_bare_calls() {
    let m = module(&["main.rs"], &["test", "panic_test"]);
    assert!(m.has_test_functions());
    assert_eq!(m.to_source(), "test(&mut recorder);\npanic_test(&mut recorder);\n");
}

#[test]
fn plain_module_file_uses_its_stem() {
    let m = module(&["sting.rs"], &["test"]);
    assert_eq!(m.to_source(), "sting::test(&mut recorder);\n");
}

#[test]
fn nested_module_joins_components() {
    let m = module(&["net", "http.rs"], &["get_test", "post_test"]);
    assert_eq!(
        m.to_source(),
        "net::http::get_test(&mut recorder);\nnet::http::post_test(&mut recorder);\n",
    );
}

#[test]
fn nested_crate_root_file_keeps_directory() {
    let m = module(&["sub", "lib.rs"], &["check"]);
    assert_eq!(m.to_source(), "sub::check(&mut recorder);\n");
}

#[test]
fn only_last_dot_starts_the_extension() {
    let m = module(&["archive.tar.rs"], &["t"]);
    assert_eq!(m.to_source(), "archive.tar::t(&mut recorder);\n");
}
