use il4il::playground::Playground;

#[test]
fn successful_assembly_keeps_the_module() {
    let mut playground = Playground::new();
    assert!(playground.module().is_none());
    let errors = playground.assemble(".section metadata;");
    assert!(errors.errors().is_empty());
    assert_eq!(playground.module().as_ref().unwrap().sections().len(), 1);
}

#[test]
fn failed_assembly_keeps_the_previous_module() {
    let mut playground = Playground::new();
    playground.assemble(".section metadata;\n.section metadata;");
    let errors = playground.assemble(".unknown;");
    assert_eq!(errors.errors().len(), 1);
    assert_eq!(playground.module().as_ref().unwrap().sections().len(), 2);
}
