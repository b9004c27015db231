use vstd::prelude::*;

verus! {

/// What `{:?}` writes for a list of strings with these characters: brackets,
/// each string quoted with its special characters escaped, commas between.
pub uninterp spec fn debug_list(args: Seq<Seq<char>>) -> Seq<char>;

/// The text printed before the listed arguments of a second launch.
pub open spec fn opened_with() -> Seq<char> {
    "a new app instance was opened with "@
}

/// The text printed after the listed arguments of a second launch.
pub open spec fn already_triggered() -> Seq<char> {
    " and the deep link event was already triggered"@
}

/// The line the running instance prints when another launch hands it its
/// arguments, `listed` being those arguments as `{:?}` writes them.
pub open spec fn second_instance_text(listed: Seq<char>) -> Seq<char> {
    opened_with() + listed + already_triggered()
}

/// Relies on the `Debug` impl of `Vec<String>` (through `format!`): what it
/// writes depends on the strings alone.
#[verifier::external_body]
fn debug_of_args(argv: &Vec<String>) -> (r: String)
    ensures
        r@ == debug_list(argv.deep_view()),
{
    format!("{argv:?}")
}

/// The line printed for a second launch whose arguments, as `{:?}` writes
/// them, are `listed`.
pub fn second_instance_message_from(listed: &str) -> (r: String)
    ensures
        r@ == second_instance_text(listed@),
{
    let mut line = String::from_str("a new app instance was opened with ");
    line.append(listed);
    line.append(" and the deep link event was already triggered");
    line
}

/// The line the running instance prints when a second launch hands it the
/// argument list `argv`.
pub fn second_instance_message(argv: &Vec<String>) -> (r: String)
    ensures
        r@ == second_instance_text(debug_list(argv.deep_view())),
{
    let listed = debug_of_args(argv);
    second_instance_message_from(listed.as_str())
}

/// The line printed for a second launch holds, in this order and with nothing
/// else around them, the fixed opening words, the launch's arguments as listed,
/// and the fixed words on the deep-link event.
pub proof fn second_instance_line_shows_arguments(listed: Seq<char>)
    ensures
        second_instance_text(listed).len() == opened_with().len() + listed.len()
            + already_triggered().len(),
        second_instance_text(listed).subrange(0, opened_with().len() as int) == opened_with(),
        second_instance_text(listed).subrange(
            opened_with().len() as int,
            (opened_with().len() + listed.len()) as int,
        ) == listed,
        second_instance_text(listed).subrange(
            (opened_with().len() + listed.len()) as int,
            second_instance_text(listed).len() as int,
        ) == already_triggered(),
{
    let t = second_instance_text(listed);
    let a = opened_with().len() as int;
    let b = a + listed.len();
    assert(t.subrange(0, a) =~= opened_with());
    assert(t.subrange(a, b) =~= listed);
    assert(t.subrange(b, t.len() as int) =~= already_triggered());
}

} // verus!
