use il4il::run::split_arguments;

fn strings(values: &[&str]) -> Vec<String> {
    values.iter().map(|s| s.to_string()).collect()
}

#[test]
fn arguments_after_separator_belong_to_the_program() {
    let (interpreter, program) = split_arguments(&strings(&["il4il-run", "-p", "a.il4il", "--", "x", "--", "y"]));
    assert_eq!(interpreter, strings(&["il4il-run", "-p", "a.il4il"]));
    assert_eq!(program, strings(&["x", "--", "y"]));
}

#[test]
fn without_separator_every_argument_is_the_interpreters() {
    let (interpreter, program) = split_arguments(&strings(&["il4il-run", "-r", "lib"]));
    assert_eq!(interpreter, strings(&["il4il-run", "-r", "lib"]));
    assert!(program.is_empty());
}

#[test]
fn interpreter_path_is_never_a_separator() {
    let (interpreter, program) = split_arguments(&strings(&["--", "--", "z"]));
    assert_eq!(interpreter, strings(&["--"]));
    assert_eq!(program, strings(&["z"]));
}

#[test]
fn no_arguments_split_into_nothing() {
    let (interpreter, program) = split_arguments(&Vec::new());
    assert!(interpreter.is_empty());
    assert!(program.is_empty());
}
