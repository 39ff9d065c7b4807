//! Arguments: the flags that an argument list spells and the parameters that
//! it holds.

use vstd::prelude::*;
use vstd::seq_lib::lemma_flatten_concat;
use vstd::string::group_string_axioms;
use crate::error::{Failure, QueryError};
use crate::text::{chars_of, push_char, text_from};

verus! {

/// An argument is written as a flag when its first character is a dash.
pub open spec fn is_flag(arg: Seq<char>) -> bool {
    arg.len() > 0 && arg[0] == '-'
}

/// A flag argument is in the long form when it starts with two dashes.
pub open spec fn is_long_flag(arg: Seq<char>) -> bool {
    arg.len() >= 2 && arg[0] == '-' && arg[1] == '-'
}

/// What one character of a short flag argument stands for: a flag of that one
/// character, or nothing where the character is a dash.
pub open spec fn letter_tokens(c: char) -> Seq<Seq<char>> {
    if c == '-' {
        Seq::empty()
    } else {
        seq![seq![c]]
    }
}

/// The flags that one argument stands for, in the order in which it spells them.
///
/// An argument that is no flag stands for none. A long flag stands for what
/// follows its two dashes, taken whole. A short flag stands for its characters,
/// one flag each. A flag that would read as a single dash is left out.
pub open spec fn arg_tokens(arg: Seq<char>) -> Seq<Seq<char>> {
    if !is_flag(arg) {
        Seq::empty()
    } else if is_long_flag(arg) {
        if arg.skip(2) == seq!['-'] {
            Seq::empty()
        } else {
            seq![arg.skip(2)]
        }
    } else {
        arg.flat_map(|c: char| letter_tokens(c))
    }
}

/// The flags that a list of arguments stands for: those of each argument, in
/// the order of the arguments.
pub open spec fn tokens(args: Seq<Seq<char>>) -> Seq<Seq<char>> {
    args.flat_map(|arg: Seq<char>| arg_tokens(arg))
}

/// Some argument of the list is written as a flag.
pub open spec fn has_flag(args: Seq<Seq<char>>) -> bool {
    exists|i: int| 0 <= i < args.len() && is_flag(#[trigger] args[i])
}

/// The flag list of an argument list: its flags in order, or, where no
/// argument is written as a flag, the one empty flag that asks for the default
/// operation.
pub open spec fn flags_of(args: Seq<Seq<char>>) -> Seq<Seq<char>> {
    if has_flag(args) {
        tokens(args)
    } else {
        seq![Seq::empty()]
    }
}

/// The arguments that are not written as flags, in order.
pub open spec fn positional(args: Seq<Seq<char>>) -> Seq<Seq<char>> {
    args.filter(|arg: Seq<char>| !is_flag(arg))
}

/// The parameters of an argument list: its positional arguments without the
/// first one, which stands in the place of the program's name. A list without
/// positional arguments has no parameters.
pub open spec fn params_of(args: Seq<Seq<char>>) -> Seq<Seq<char>> {
    if positional(args).len() == 0 {
        Seq::empty()
    } else {
        positional(args).skip(1)
    }
}

/// The most parameters that a run accepts: a title and a section name.
pub const MAX_PARAMS: usize = 2;

proof fn lemma_tokens_push(args: Seq<Seq<char>>, arg: Seq<char>)
    ensures
        tokens(args.push(arg)) == tokens(args) + arg_tokens(arg),
{
    args.lemma_flat_map_push(|a: Seq<char>| arg_tokens(a), arg);
}

proof fn lemma_positional_push(args: Seq<Seq<char>>, arg: Seq<char>)
    ensures
        positional(args.push(arg)) == if is_flag(arg) {
            positional(args)
        } else {
            positional(args).push(arg)
        },
{
    reveal(Seq::filter);
    assert(args.push(arg).drop_last() =~= args);
}

proof fn lemma_has_flag_push(args: Seq<Seq<char>>, arg: Seq<char>)
    ensures
        has_flag(args.push(arg)) == (has_flag(args) || is_flag(arg)),
{
    let longer = args.push(arg);
    if has_flag(args) {
        let i = choose|i: int| 0 <= i < args.len() && is_flag(#[trigger] args[i]);
        assert(is_flag(longer[i]));
    }
    if is_flag(arg) {
        assert(is_flag(longer[args.len() as int]));
    }
    if has_flag(longer) {
        let i = choose|i: int| 0 <= i < longer.len() && is_flag(#[trigger] longer[i]);
        if i < args.len() {
            assert(is_flag(args[i]));
        }
    }
}

/// Flags keep the order of the arguments: the flags of two argument lists put
/// one after the other are the flags of the first list followed by the flags
/// of the second. Where either list holds a flag, that is the flag list of the
/// whole.
pub proof fn lemma_flags_keep_argument_order(first: Seq<Seq<char>>, second: Seq<Seq<char>>)
    ensures
        tokens(first + second) == tokens(first) + tokens(second),
        has_flag(first + second) == (has_flag(first) || has_flag(second)),
        has_flag(first) || has_flag(second) ==> flags_of(first + second) == tokens(first) + tokens(
            second,
        ),
{
    let each = |arg: Seq<char>| arg_tokens(arg);
    let both = first + second;
    assert(both.map_values(each) =~= first.map_values(each) + second.map_values(each));
    lemma_flatten_concat(first.map_values(each), second.map_values(each));
    if has_flag(first) {
        let i = choose|i: int| 0 <= i < first.len() && is_flag(#[trigger] first[i]);
        assert(is_flag(both[i]));
    }
    if has_flag(second) {
        let i = choose|i: int| 0 <= i < second.len() && is_flag(#[trigger] second[i]);
        assert(is_flag(both[first.len() + i]));
    }
    if has_flag(both) {
        let i = choose|i: int| 0 <= i < both.len() && is_flag(#[trigger] both[i]);
        if i < first.len() {
            assert(is_flag(first[i]));
        } else {
            assert(is_flag(second[i - first.len()]));
        }
    }
}

/// A short flag argument spells its flags letter by letter: a dash followed
/// by letters, none of them a dash, stands for one flag per letter, in the
/// order of the letters.
pub proof fn lemma_short_flag_spells_letters(letters: Seq<char>)
    requires
        forall|i: int| 0 <= i < letters.len() ==> letters[i] != '-',
    ensures
        arg_tokens(seq!['-'] + letters) == letters.map_values(|c: char| seq![c]),
    decreases letters.len(),
{
    let each = |c: char| letter_tokens(c);
    let single = |c: char| seq![c];
    let arg = seq!['-'] + letters;
    assert(is_flag(arg));
    if letters.len() == 0 {
        assert(arg =~= seq!['-']);
        assert(arg.map_values(each) =~= seq![Seq::<Seq<char>>::empty()]);
        arg.map_values(each).lemma_flatten_singleton();
        assert(arg_tokens(arg) =~= letters.map_values(single));
    } else {
        assert(arg[1] == letters[0]);
        assert(!is_long_flag(arg));
        let fewer = letters.drop_last();
        let shorter = seq!['-'] + fewer;
        lemma_short_flag_spells_letters(fewer);
        assert(!is_long_flag(shorter)) by {
            if fewer.len() > 0 {
                assert(shorter[1] == fewer[0]);
            }
        }
        assert(arg =~= shorter.push(letters.last()));
        shorter.lemma_flat_map_push(each, letters.last());
        assert(arg_tokens(arg) =~= letters.map_values(single));
    }
}

/// A long flag argument stands for one flag: what follows its two dashes,
/// taken whole, unless that is a single dash.
pub proof fn lemma_long_flag_is_one_flag(name: Seq<char>)
    ensures
        arg_tokens(seq!['-', '-'] + name) == if name == seq!['-'] {
            Seq::<Seq<char>>::empty()
        } else {
            seq![name]
        },
{
    let arg = seq!['-', '-'] + name;
    assert(arg.skip(2) =~= name);
}

/// Every flag that a short flag argument spells is one character, and that
/// character is no dash.
proof fn lemma_cluster_flags_are_letters(letters: Seq<char>, i: int)
    requires
        0 <= i < letters.flat_map(|c: char| letter_tokens(c)).len(),
    ensures
        letters.flat_map(|c: char| letter_tokens(c))[i].len() == 1,
        letters.flat_map(|c: char| letter_tokens(c))[i][0] != '-',
    decreases letters.len(),
{
    let each = |c: char| letter_tokens(c);
    if letters.len() == 0 {
        assert(letters.flat_map(each) =~= Seq::<Seq<char>>::empty());
    } else {
        let fewer = letters.drop_last();
        assert(letters =~= fewer.push(letters.last()));
        fewer.lemma_flat_map_push(each, letters.last());
        if i < fewer.flat_map(each).len() {
            lemma_cluster_flags_are_letters(fewer, i);
        }
    }
}

/// No flag reads as a single dash. No flag begins with a dash either, unless
/// the argument that spells it begins with three of them.
pub proof fn lemma_flags_have_no_leading_dash(arg: Seq<char>, i: int)
    requires
        0 <= i < arg_tokens(arg).len(),
    ensures
        arg_tokens(arg)[i] != seq!['-'],
        !(arg.len() >= 3 && arg[0] == '-' && arg[1] == '-' && arg[2] == '-') ==> !is_flag(
            arg_tokens(arg)[i],
        ),
{
    if is_flag(arg) && !is_long_flag(arg) {
        lemma_cluster_flags_are_letters(arg, i);
        assert(seq!['-'][0] == '-');
    }
}

/// Without an argument that is written as a flag, the flag list is the one
/// empty flag.
pub proof fn lemma_no_flag_asks_for_default(args: Seq<Seq<char>>)
    requires
        forall|i: int| 0 <= i < args.len() ==> !is_flag(#[trigger] args[i]),
    ensures
        flags_of(args) == seq![Seq::<char>::empty()],
{
}

/// An argument that is a dash and nothing more stands for no flag: with it or
/// without it, the arguments around it stand for the same flags.
pub proof fn lemma_lone_dash_spells_nothing(before: Seq<Seq<char>>, after: Seq<Seq<char>>)
    ensures
        tokens(before + seq![seq!['-']] + after) == tokens(before + after),
        flags_of(before + seq![seq!['-']] + after) == tokens(before + after),
{
    let dash = seq![seq!['-']];
    assert(tokens(dash) =~= Seq::<Seq<char>>::empty()) by {
        lemma_short_flag_spells_letters(Seq::empty());
        assert(seq!['-'] + Seq::<char>::empty() =~= seq!['-']);
        assert(dash =~= Seq::<Seq<char>>::empty().push(seq!['-']));
        lemma_tokens_push(Seq::empty(), seq!['-']);
    }
    assert(has_flag(dash)) by {
        assert(is_flag(dash[0]));
    }
    lemma_flags_keep_argument_order(before, dash);
    lemma_flags_keep_argument_order(before + dash, after);
    lemma_flags_keep_argument_order(before, after);
    assert(tokens(before + dash + after) =~= tokens(before + after));
}

/// Positional arguments keep their order, wherever flags stand among them.
pub proof fn lemma_positional_keep_order(first: Seq<Seq<char>>, second: Seq<Seq<char>>)
    ensures
        positional(first + second) == positional(first) + positional(second),
{
    Seq::filter_distributes_over_add(first, second, |arg: Seq<char>| !is_flag(arg));
}

/// The parameters are what follows the first positional argument: after any
/// flags, one argument that is no flag is dropped, and exactly the positional
/// arguments behind it remain, in order.
pub proof fn lemma_params_drop_first_positional(
    before: Seq<Seq<char>>,
    name: Seq<char>,
    rest: Seq<Seq<char>>,
)
    requires
        forall|i: int| 0 <= i < before.len() ==> is_flag(#[trigger] before[i]),
        !is_flag(name),
    ensures
        params_of(before + seq![name] + rest) == positional(rest),
        positional(before + seq![name] + rest) == seq![name] + positional(rest),
{
    let keep = |arg: Seq<char>| !is_flag(arg);
    lemma_positional_keep_order(before, seq![name]);
    lemma_positional_keep_order(before + seq![name], rest);
    assert(positional(before) =~= Seq::<Seq<char>>::empty()) by {
        before.lemma_all_neg_filter_empty(keep);
    }
    assert(seq![name] =~= Seq::<Seq<char>>::empty().push(name));
    lemma_positional_push(Seq::empty(), name);
    assert(positional(Seq::empty()) =~= Seq::<Seq<char>>::empty()) by {
        reveal(Seq::filter);
    }
    assert(positional(seq![name]) =~= seq![name]);
    assert(positional(before + seq![name] + rest) =~= seq![name] + positional(rest));
    assert((seq![name] + positional(rest)).skip(1) =~= positional(rest));
}

/// Whether the argument is written as a flag.
fn written_as_flag(arg: &str) -> (flagged: bool)
    ensures
        flagged == is_flag(arg@),
{
    broadcast use group_string_axioms;

    let mut rest = arg.chars();
    match rest.next() {
        Some(first) => first == '-',
        None => false,
    }
}

/// Appends to `flags` the flags that the short flag argument `chars` spells.
fn push_cluster(flags: &mut Vec<String>, chars: &Vec<char>)
    ensures
        final(flags).deep_view() == old(flags).deep_view() + chars@.flat_map(
            |c: char| letter_tokens(c),
        ),
{
    let ghost before = flags.deep_view();
    let ghost each = |c: char| letter_tokens(c);
    let mut j: usize = 0;
    assert(chars@.take(0).flat_map(each) =~= Seq::<Seq<char>>::empty());
    while j < chars.len()
        invariant
            j <= chars.len(),
            each == |c: char| letter_tokens(c),
            flags.deep_view() == before + chars@.take(j as int).flat_map(each),
        decreases chars.len() - j,
    {
        let c = chars[j];
        proof {
            chars@.lemma_flat_map_take_append(each, j as int);
        }
        if c != '-' {
            let ghost here = flags.deep_view();
            let mut flag = String::new();
            push_char(&mut flag, c);
            assert(flag@ =~= seq![c]);
            flags.push(flag);
            assert(flags.deep_view() =~= here.push(seq![c]));
            assert(flags.deep_view() =~= before + chars@.take(j + 1).flat_map(each));
        } else {
            assert(flags.deep_view() =~= before + chars@.take(j + 1).flat_map(each));
        }
        j += 1;
    }
    assert(chars@.take(chars.len() as int) =~= chars@);
}

/// Appends to `flags` the flags that `arg` stands for, and tells whether
/// `arg` is written as a flag.
fn push_arg_tokens(flags: &mut Vec<String>, arg: &String) -> (flagged: bool)
    ensures
        final(flags).deep_view() == old(flags).deep_view() + arg_tokens(arg@),
        flagged == is_flag(arg@),
{
    let ghost before = flags.deep_view();
    let chars = chars_of(arg.as_str());
    if chars.len() == 0 || chars[0] != '-' {
        assert(flags.deep_view() =~= before + arg_tokens(arg@));
        false
    } else if chars.len() >= 2 && chars[1] == '-' {
        if chars.len() == 3 && chars[2] == '-' {
            assert(arg@.skip(2) =~= seq!['-']);
            assert(flags.deep_view() =~= before + arg_tokens(arg@));
        } else {
            let name = text_from(&chars, 2);
            assert(name@ != seq!['-']) by {
                if name@ == seq!['-'] {
                    assert(name@.len() == 1);
                    assert(name@[0] == '-');
                }
            }
            flags.push(name);
            assert(flags.deep_view() =~= before.push(arg@.skip(2)));
            assert(flags.deep_view() =~= before + arg_tokens(arg@));
        }
        true
    } else {
        push_cluster(flags, &chars);
        true
    }
}

/// The flags of an argument list, in the order in which the arguments spell
/// them; where no argument is written as a flag, the list holds the one empty
/// flag, which asks for the default operation.
pub fn get_flags(args: &Vec<String>) -> (flags: Vec<String>)
    ensures
        flags.deep_view() == flags_of(args.deep_view()),
        !has_flag(args.deep_view()) ==> flags.deep_view() == seq![Seq::<char>::empty()],
{
    let ghost all = args.deep_view();
    let mut flags: Vec<String> = Vec::new();
    let mut seen = false;
    let mut i: usize = 0;
    assert(all.take(0) =~= Seq::<Seq<char>>::empty());
    assert(flags.deep_view() =~= tokens(all.take(0)));
    while i < args.len()
        invariant
            i <= args.len(),
            all == args.deep_view(),
            flags.deep_view() == tokens(all.take(i as int)),
            seen == has_flag(all.take(i as int)),
        decreases args.len() - i,
    {
        proof {
            assert(all.take(i + 1) =~= all.take(i as int).push(args[i as int]@));
            lemma_tokens_push(all.take(i as int), args[i as int]@);
            lemma_has_flag_push(all.take(i as int), args[i as int]@);
        }
        let flagged = push_arg_tokens(&mut flags, &args[i]);
        seen = seen || flagged;
        i += 1;
    }
    assert(all.take(args.len() as int) =~= all);
    if !seen {
        flags = Vec::new();
        flags.push(String::new());
        assert(flags.deep_view() =~= seq![Seq::<char>::empty()]);
    }
    flags
}

/// The parameters of an argument list: the arguments that are not written as
/// flags, in order, without the first of them. More than `MAX_PARAMS` of them
/// are refused.
pub fn get_params(args: &Vec<String>) -> (params: Result<Vec<String>, QueryError>)
    ensures
        match params {
            Ok(p) => p.deep_view() == params_of(args.deep_view()) && p.len() <= MAX_PARAMS,
            Err(e) => e@ == Failure::TooManyArguments && params_of(args.deep_view()).len()
                > MAX_PARAMS,
        },
{
    let ghost all = args.deep_view();
    let mut found: Vec<String> = Vec::new();
    let mut i: usize = 0;
    assert(all.take(0) =~= Seq::<Seq<char>>::empty());
    assert(positional(all.take(0)) =~= Seq::<Seq<char>>::empty()) by {
        reveal(Seq::filter);
    }
    while i < args.len()
        invariant
            i <= args.len(),
            all == args.deep_view(),
            found.deep_view() == positional(all.take(i as int)),
        decreases args.len() - i,
    {
        proof {
            assert(all.take(i + 1) =~= all.take(i as int).push(args[i as int]@));
            lemma_positional_push(all.take(i as int), args[i as int]@);
        }
        let arg = &args[i];
        if !written_as_flag(arg.as_str()) {
            let ghost here = found.deep_view();
            found.push(arg.clone());
            assert(found.deep_view() =~= here.push(arg@));
        }
        i += 1;
    }
    assert(all.take(args.len() as int) =~= all);
    if found.len() > 0 {
        let ghost here = found.deep_view();
        found.remove(0);
        assert(found.deep_view() =~= here.skip(1));
    }
    if found.len() > MAX_PARAMS {
        Err(QueryError::TooManyArguments)
    } else {
        Ok(found)
    }
}

} // verus!
