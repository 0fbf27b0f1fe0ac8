//! The command line of the IL4IL interpreter: the arguments before `--` are the interpreter's, those after it are the
//! program's.
use vstd::prelude::*;
use crate::binary::parser::spec_views;

verus! {

/// Splits the arguments that follow the program path: those before the first `--` are the interpreter's, those after
/// it are the program's, and the `--` itself belongs to neither.
pub open spec fn spec_split_rest(rest: Seq<Seq<char>>) -> (Seq<Seq<char>>, Seq<Seq<char>>)
    decreases rest.len(),
{
    if rest.len() == 0 {
        (Seq::empty(), Seq::empty())
    } else if rest[0] == "--"@ {
        (Seq::empty(), rest.skip(1))
    } else {
        let (interpreter, program) = spec_split_rest(rest.skip(1));
        (seq![rest[0]] + interpreter, program)
    }
}

/// Splits the command line into the interpreter's arguments and the program's: the first argument, the path of the
/// interpreter, is always the interpreter's.
pub open spec fn spec_split_arguments(arguments: Seq<Seq<char>>) -> (Seq<Seq<char>>, Seq<Seq<char>>) {
    if arguments.len() == 0 {
        (Seq::empty(), Seq::empty())
    } else {
        let (interpreter, program) = spec_split_rest(arguments.skip(1));
        (seq![arguments[0]] + interpreter, program)
    }
}

/// Splits the command line into the interpreter's arguments and the program's.
pub fn split_arguments(arguments: &Vec<String>) -> (r: (Vec<String>, Vec<String>))
    ensures
        (spec_views(r.0@), spec_views(r.1@)) == spec_split_arguments(spec_views(arguments@)),
{
    let ghost views = spec_views(arguments@);
    let mut interpreter: Vec<String> = Vec::new();
    let mut program: Vec<String> = Vec::new();
    if arguments.len() == 0 {
        assert(spec_views(interpreter@) =~= Seq::<Seq<char>>::empty());
        return (interpreter, program);
    }
    interpreter.push(arguments[0].clone());
    let mut has_program = false;
    let mut i: usize = 1;
    assert(spec_views(interpreter@) =~= seq![views[0]]);
    assert(spec_views(program@) =~= Seq::<Seq<char>>::empty());
    assert(views.skip(1) =~= views.skip(1 as int));
    while i < arguments.len()
        invariant
            1 <= i <= arguments@.len(),
            views == spec_views(arguments@),
            views.len() == arguments@.len(),
            !has_program ==> program@.len() == 0,
            !has_program ==> spec_split_arguments(views) == (
                spec_views(interpreter@) + spec_split_rest(views.skip(i as int)).0,
                spec_split_rest(views.skip(i as int)).1,
            ),
            has_program ==> spec_split_arguments(views) == (
                spec_views(interpreter@),
                spec_views(program@) + views.skip(i as int),
            ),
        decreases arguments@.len() - i,
    {
        let argument = arguments[i].clone();
        let ghost rest = views.skip(i as int);
        assert(rest[0] == argument@);
        assert(rest.skip(1) =~= views.skip(i + 1));
        let ghost before_interpreter = interpreter@;
        let ghost before_program = program@;
        if has_program {
            program.push(argument);
            assert(spec_views(program@) =~= spec_views(before_program).push(rest[0]));
            assert(spec_views(program@) + views.skip(i + 1) =~= spec_views(before_program) + rest);
        } else if crate::text::str_eq(argument.as_str(), "--") {
            has_program = true;
            assert(spec_views(program@) + views.skip(i + 1) =~= views.skip(i + 1));
            assert(spec_views(interpreter@) + Seq::<Seq<char>>::empty() =~= spec_views(interpreter@));
        } else {
            interpreter.push(argument);
            assert(spec_views(interpreter@) =~= spec_views(before_interpreter).push(rest[0]));
            assert(spec_views(interpreter@) + spec_split_rest(views.skip(i + 1)).0 =~= spec_views(before_interpreter)
                + (seq![rest[0]] + spec_split_rest(views.skip(i + 1)).0));
        }
        i = i + 1;
    }
    proof {
        assert(views.skip(i as int) =~= Seq::<Seq<char>>::empty());
        assert(spec_views(program@).len() == program@.len());
        if !has_program {
            assert(spec_views(program@) =~= Seq::<Seq<char>>::empty());
        }
        assert(spec_views(interpreter@) + Seq::<Seq<char>>::empty() =~= spec_views(interpreter@));
        assert(spec_views(program@) + Seq::<Seq<char>>::empty() =~= spec_views(program@));
    }
    (interpreter, program)
}

} // verus!
