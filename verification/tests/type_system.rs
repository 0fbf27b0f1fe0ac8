use il4il::integer::VarI28;
use il4il::type_system::TypeTag;

#[test]
fn type_tags_are_all_negative_variable_length_integers() {
    let results = TypeTag::all()
        .iter()
        .copied()
        .map(|tag| VarI28::read_from([tag.to_u8()].as_slice()))
        .collect::<Vec<_>>();

    if !results.iter().all(|result| matches!(result, Ok(Ok((value, _))) if value.get() < 0)) {
        panic!("{:?}", results);
    }
}

#[test]
fn type_tags_have_correct_values() {
    let expected = TypeTag::all()
        .iter()
        .copied()
        .map(|tag| Some(tag.into_i28()))
        .collect::<Vec<Option<VarI28>>>();

    let actual = TypeTag::all()
        .iter()
        .copied()
        .map(|tag| {
            VarI28::read_from([tag.to_u8()].as_slice())
                .ok()
                .and_then(Result::ok)
                .map(|(value, _)| value)
        })
        .collect::<Vec<_>>();

    assert_eq!(expected, actual);
}
