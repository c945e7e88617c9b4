//! What the commands of a page carry: which method is called, and which parameter has
//! which value.
use vstd::prelude::*;

use crate::page::call::{call, CallView, ParamView};

verus! {

// ---------------------------------------------------------------------------
// Parameters

/// The value of a parameter of a command. Of two of one name the later one counts.
pub open spec fn param(c: CallView, name: Seq<char>) -> Option<ParamView>
    decreases c.params.len(),
{
    if c.params.len() == 0 {
        None
    } else if c.params.last().0 == name {
        Some(c.params.last().1)
    } else {
        param(CallView { params: c.params.drop_last(), ..c }, name)
    }
}

/// A text as a parameter, if there is one.
pub open spec fn text_param(text: Option<Seq<char>>) -> Option<ParamView> {
    match text {
        Some(t) => Some(ParamView::Text(t)),
        None => None,
    }
}

/// A switch as a parameter, if there is one.
pub open spec fn bool_param(yes: Option<bool>) -> Option<ParamView> {
    match yes {
        Some(y) => Some(ParamView::Bool(y)),
        None => None,
    }
}

/// A number as a parameter, if there is one.
pub open spec fn int_param(number: Option<i64>) -> Option<ParamView> {
    match number {
        Some(n) => Some(ParamView::Int(n as int)),
        None => None,
    }
}

/// How many of them there are.
pub open spec fn one_if(there: bool) -> nat {
    if there {
        1
    } else {
        0
    }
}

/// A new command has its method and no parameter.
pub proof fn a_new_command_has_no_parameter(method: Seq<char>, name: Seq<char>)
    ensures
        call(method).method == method,
        call(method).params.len() == 0,
        param(call(method), name) is None,
{
}

/// A parameter that is added has its value, and every other one keeps its own. The
/// method stays.
pub broadcast proof fn a_parameter_is_added(
    c: CallView,
    name: Seq<char>,
    value: ParamView,
    other: Seq<char>,
)
    ensures
        #[trigger] param(c.with(name, value), other) == if other == name {
            Some(value)
        } else {
            param(c, other)
        },
        c.with(name, value).params.len() == c.params.len() + 1,
        c.with(name, value).method == c.method,
{
    let longer = c.with(name, value);
    assert(longer.params.drop_last() =~= c.params);
    assert(CallView { params: longer.params.drop_last(), ..longer } == c);
}

/// A parameter that may be missing is added exactly if it is there.
pub proof fn a_parameter_is_added_if_it_is_there(
    c: CallView,
    name: Seq<char>,
    text: Option<Seq<char>>,
    yes: Option<bool>,
    number: Option<i64>,
    other: Seq<char>,
)
    requires
        other != name,
        param(c, name) is None,
    ensures
        param(c.with_text(name, text), name) == text_param(text),
        param(c.with_bool(name, yes), name) == bool_param(yes),
        param(c.with_int(name, number), name) == int_param(number),
        param(c.with_text(name, text), other) == param(c, other),
        param(c.with_bool(name, yes), other) == param(c, other),
        param(c.with_int(name, number), other) == param(c, other),
        c.with_text(name, text).method == c.method,
        c.with_bool(name, yes).method == c.method,
        c.with_int(name, number).method == c.method,
{
    broadcast use a_parameter_is_added;

}

} // verus!
