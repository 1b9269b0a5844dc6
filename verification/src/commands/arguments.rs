//! The argument parser of `pico_args`, as far as the command line needs it.
//!
//! Nothing in this file is proved: each contract restates what the parser's
//! source does, over the list of arguments that the parser still holds.

use vstd::prelude::*;

verus! {

#[verifier::external_type_specification]
#[verifier::external_body]
pub struct ExArguments(pico_args::Arguments);

#[verifier::external_type_specification]
#[verifier::external_body]
pub struct ExArgumentsError(pico_args::Error);

/// The arguments that a parser still holds, in order. An argument that is
/// valid UTF-8 stands as its text, any other as `None`.
pub uninterp spec fn pending(arguments: pico_args::Arguments) -> Seq<Option<Seq<char>>>;

/// A text that begins with a dash: a flag or an option, not a word.
pub open spec fn is_dashed(text: Seq<char>) -> bool {
    text.len() > 0 && text[0] == '-'
}

/// The flags that the parser accepts as a key: `--` and a name, or a dash and
/// one character.
pub open spec fn is_flag(text: Seq<char>) -> bool {
    text.len() >= 2 && text[0] == '-' && (text[1] == '-' || text.len() == 2)
}

/// Whether a list of arguments starts with a word: an argument that is not
/// text that begins with a dash.
pub open spec fn leads_with_word(list: Seq<Option<Seq<char>>>) -> bool {
    list.len() > 0 && !(list[0] matches Some(text) && is_dashed(text))
}

/// Texts as a parser holds them.
pub open spec fn as_arguments(texts: Seq<Seq<char>>) -> Seq<Option<Seq<char>>> {
    texts.map_values(|text: Seq<char>| Some(text))
}

/// `pico_args::Arguments::from_vec`: the parser holds the given arguments, in
/// the given order.
#[verifier::external_body]
pub(crate) fn arguments_from(args: Vec<String>) -> (arguments: pico_args::Arguments)
    ensures
        pending(arguments) == as_arguments(args.deep_view()),
{
    pico_args::Arguments::from_vec(args.into_iter().map(Into::into).collect())
}

/// `pico_args::Arguments::contains` with one key: reports whether some
/// argument is the flag, and drops the first one that is.
#[verifier::external_body]
pub(crate) fn take_flag(arguments: &mut pico_args::Arguments, flag: &'static str) -> (found: bool)
    requires
        is_flag(flag@),
    ensures
        found == pending(*old(arguments)).contains(Some(flag@)),
        pending(*final(arguments)) == pending(*old(arguments)).remove_value(Some(flag@)),
{
    arguments.contains(flag)
}

/// `pico_args::Arguments::subcommand`: where the list starts with a word, the
/// word leaves the list and is returned, or an error if it is not UTF-8;
/// otherwise the list stays as it is and nothing is returned.
#[verifier::external_body]
pub(crate) fn take_subcommand(arguments: &mut pico_args::Arguments) -> (taken: Result<
    Option<String>,
    pico_args::Error,
>)
    ensures
        pending(*final(arguments)) == if leads_with_word(pending(*old(arguments))) {
            pending(*old(arguments)).drop_first()
        } else {
            pending(*old(arguments))
        },
        !leads_with_word(pending(*old(arguments))) ==> (taken matches Ok(None)),
        leads_with_word(pending(*old(arguments))) ==> match pending(*old(arguments))[0] {
            Some(text) => (taken matches Ok(Some(word)) && word@ == text),
            None => taken is Err,
        },
{
    arguments.subcommand()
}

/// `pico_args::Arguments::opt_free_from_str` for a `String`: the first
/// argument, whatever it looks like, leaves the list and is returned, or an
/// error if it is not UTF-8; of an empty list nothing is returned.
#[verifier::external_body]
pub(crate) fn take_free(arguments: &mut pico_args::Arguments) -> (taken: Result<
    Option<String>,
    pico_args::Error,
>)
    ensures
        pending(*final(arguments)) == if pending(*old(arguments)).len() > 0 {
            pending(*old(arguments)).drop_first()
        } else {
            pending(*old(arguments))
        },
        pending(*old(arguments)).len() == 0 ==> (taken matches Ok(None)),
        pending(*old(arguments)).len() > 0 ==> match pending(*old(arguments))[0] {
            Some(text) => (taken matches Ok(Some(word)) && word@ == text),
            None => taken is Err,
        },
{
    arguments.opt_free_from_str::<String>()
}

} // verus!
