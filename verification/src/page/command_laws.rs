//! What the operations of a page tell the browser: evaluations, the mouse, blocked URLs,
//! scripts for new documents and user agents.
use vstd::prelude::*;
use serde_json::Value;

use crate::error::CdpErrorView;
use crate::page::budget::{
    counted, ending_of, exceed_steps, received, start_steps, total_after, EventDataReceived,
    WireBudget,
};
use crate::page::call::{call, CallView, ParamView, Rgba, StepView};
use crate::page::commands::{
    block_step, features_call, headers_call, locale_call, processors_call, stop_steps, switch_call,
    text_call, virtual_time_call,
};
use crate::page::disguise::{StealthOs, StealthTier};
use crate::page::dom::{
    describe_host_call, forest_ids, found_in_all, get_document_call, node_call, node_ids,
    searched, Node, ShadowActionView, ShadowReply, ShadowStage,
};
use crate::page::evaluation::{
    after_result, as_function, begun, evaluate_call, function_call, in_context, sent_evaluation, settled,
    settled_function, CallFunctionView, EvaluateView, EvaluationActionView, EvaluationView,
};
use crate::page::input::{
    full_tree_call, highlight_call, mouse_call, moved_and, opaque_red, partial_tree_call,
    MouseActionView, MouseButton, Point,
};
use crate::page::laws::{
    a_parameter_is_added, bool_param, int_param, one_if, param, text_param,
};
use crate::page::screenshot::MediaTypeParams;
use crate::page::scripts::{
    add_script_call, add_script_steps, chosen_os, chosen_tier, combined,
};
use crate::protocol::HeaderValueView;
use crate::text::made_of;

verus! {

// ---------------------------------------------------------------------------
// Evaluations

/// A switch that was not set is on.
pub open spec fn on_unless_set(set: Option<bool>) -> Option<bool> {
    match set {
        Some(_) => set,
        None => Some(true),
    }
}

/// The command evaluates the expression in its context. Promises are awaited and the
/// result is a value, unless that was set otherwise.
pub open spec fn evaluates(c: CallView, params: EvaluateView) -> bool {
    &&& c.method == "Runtime.evaluate"@
    &&& param(c, "expression"@) == Some(ParamView::Text(params.expression))
    &&& param(c, "contextId"@) == int_param(params.context_id)
    &&& param(c, "awaitPromise"@) == bool_param(on_unless_set(params.await_promise))
    &&& param(c, "returnByValue"@) == bool_param(on_unless_set(params.return_by_value))
    &&& param(c, "userGesture"@) == bool_param(params.user_gesture)
    &&& c.params.len() == 3 + one_if(params.context_id is Some) + one_if(
        params.user_gesture is Some,
    )
}

/// The command calls the function with its arguments in its context. Promises are awaited
/// and the result is a value, unless that was set otherwise.
pub open spec fn calls_function(c: CallView, params: CallFunctionView) -> bool {
    &&& c.method == "Runtime.callFunctionOn"@
    &&& param(c, "functionDeclaration"@) == Some(ParamView::Text(params.function_declaration))
    &&& params.arguments.len() > 0 ==> param(c, "arguments"@) == Some(
        ParamView::Arguments(params.arguments),
    )
    &&& params.arguments.len() == 0 ==> param(c, "arguments"@) is None
    &&& param(c, "executionContextId"@) == int_param(params.execution_context_id)
    &&& param(c, "awaitPromise"@) == bool_param(on_unless_set(params.await_promise))
    &&& param(c, "returnByValue"@) == bool_param(on_unless_set(params.return_by_value))
    &&& param(c, "userGesture"@) == bool_param(params.user_gesture)
    &&& c.params.len() == 3 + one_if(params.arguments.len() > 0) + one_if(
        params.execution_context_id is Some,
    ) + one_if(params.user_gesture is Some)
}

/// An expression is evaluated as it was given.
pub proof fn an_expression_is_evaluated_as_it_was_given(params: EvaluateView)
    ensures
        evaluates(evaluate_call(settled(params)), params),
{
    broadcast use a_parameter_is_added;

    reveal_strlit("expression");
    reveal_strlit("contextId");
    reveal_strlit("awaitPromise");
    reveal_strlit("returnByValue");
    reveal_strlit("userGesture");
    assert("expression"@.len() == 10 && "contextId"@.len() == 9 && "awaitPromise"@.len() == 12);
    assert("returnByValue"@.len() == 13 && "userGesture"@.len() == 11);
    let p = settled(params);
    let none = call("Runtime.evaluate"@);
    assert(forall|name: Seq<char>| #[trigger] param(none, name) is None);
    let a = none.with("expression"@, ParamView::Text(p.expression));
    let b = a.with_int("contextId"@, p.context_id);
    let d = b.with_bool("returnByValue"@, p.return_by_value);
    let e = d.with_bool("userGesture"@, p.user_gesture);
    let f = e.with_bool("awaitPromise"@, p.await_promise);
    assert(evaluate_call(p) == f);
    assert(param(b, "contextId"@) == int_param(params.context_id));
    assert(param(b, "expression"@) == Some(ParamView::Text(params.expression)));
    assert(param(b, "userGesture"@) is None);
    assert(param(d, "userGesture"@) is None);
    assert(param(d, "contextId"@) == param(b, "contextId"@));
    assert(param(d, "expression"@) == param(b, "expression"@));
    assert(param(e, "userGesture"@) == bool_param(params.user_gesture));
    assert(param(e, "contextId"@) == param(d, "contextId"@));
    assert(param(e, "expression"@) == param(d, "expression"@));
    assert(param(e, "returnByValue"@) == param(d, "returnByValue"@));
    assert(param(f, "userGesture"@) == param(e, "userGesture"@));
    assert(param(f, "contextId"@) == param(e, "contextId"@));
}

/// A function is called as it was given, with all its arguments in their order.
pub proof fn a_function_is_called_as_it_was_given(params: CallFunctionView)
    ensures
        calls_function(function_call(settled_function(params)), params),
{
    broadcast use a_parameter_is_added;

    reveal_strlit("functionDeclaration");
    reveal_strlit("arguments");
    reveal_strlit("executionContextId");
    reveal_strlit("awaitPromise");
    reveal_strlit("returnByValue");
    reveal_strlit("userGesture");
    assert("functionDeclaration"@.len() == 19 && "arguments"@.len() == 9);
    assert("executionContextId"@.len() == 18 && "awaitPromise"@.len() == 12);
    assert("returnByValue"@.len() == 13 && "userGesture"@.len() == 11);
    let p = settled_function(params);
    let none = call("Runtime.callFunctionOn"@);
    assert(forall|name: Seq<char>| #[trigger] param(none, name) is None);
    let a = none.with("functionDeclaration"@, ParamView::Text(p.function_declaration));
    let b = if p.arguments.len() > 0 {
        a.with("arguments"@, ParamView::Arguments(p.arguments))
    } else {
        a
    };
    let d = b.with_bool("returnByValue"@, p.return_by_value);
    let e = d.with_bool("userGesture"@, p.user_gesture);
    let f = e.with_bool("awaitPromise"@, p.await_promise);
    let g = f.with_int("executionContextId"@, p.execution_context_id);
    assert(function_call(p) == g);
    assert(param(a, "arguments"@) is None);
    assert(param(b, "functionDeclaration"@) == Some(ParamView::Text(params.function_declaration)));
    assert(param(b, "userGesture"@) is None);
    assert(param(b, "executionContextId"@) is None);
    assert(param(d, "userGesture"@) is None);
    assert(param(d, "executionContextId"@) is None);
    assert(param(d, "arguments"@) == param(b, "arguments"@));
    assert(param(d, "functionDeclaration"@) == param(b, "functionDeclaration"@));
    assert(param(e, "userGesture"@) == bool_param(params.user_gesture));
    assert(param(e, "executionContextId"@) is None);
    assert(param(e, "arguments"@) == param(d, "arguments"@));
    assert(param(e, "functionDeclaration"@) == param(d, "functionDeclaration"@));
    assert(param(e, "returnByValue"@) == param(d, "returnByValue"@));
    assert(param(f, "executionContextId"@) is None);
    assert(param(f, "arguments"@) == param(e, "arguments"@));
    assert(param(f, "userGesture"@) == param(e, "userGesture"@));
    assert(param(f, "functionDeclaration"@) == param(e, "functionDeclaration"@));
    assert(param(f, "returnByValue"@) == param(e, "returnByValue"@));
}

/// An evaluation with a context is sent at once, and one without asks for that of the
/// page first. What is asked about is what was given.
pub proof fn an_evaluation_needs_a_context(
    expression: EvaluateView,
    function: CallFunctionView,
)
    ensures
        match begun(EvaluationView::Expression(expression)) {
            EvaluationActionView::Expression(c, kept) => expression.context_id is Some && kept
                == expression && evaluates(c, expression),
            EvaluationActionView::GetContext(asked) => expression.context_id is None && asked
                == EvaluationView::Expression(expression),
            _ => false,
        },
        match begun(EvaluationView::Function(function)) {
            EvaluationActionView::Function(c) => function.execution_context_id is Some
                && calls_function(c, function),
            EvaluationActionView::GetContext(asked) => function.execution_context_id is None
                && asked == EvaluationView::Function(function),
            _ => false,
        },
{
    an_expression_is_evaluated_as_it_was_given(expression);
    a_function_is_called_as_it_was_given(function);
}

/// The context of the page is taken exactly where there is none, and nothing else of the
/// evaluation changes.
pub proof fn the_context_of_the_page_is_taken_where_there_is_none(
    expression: EvaluateView,
    function: CallFunctionView,
    context: Option<i64>,
)
    ensures
        ({
            let wanted = EvaluateView {
                context_id: if expression.context_id is Some {
                    expression.context_id
                } else {
                    context
                },
                ..expression
            };
            sent_evaluation(in_context(EvaluationView::Expression(expression), context))
                matches EvaluationActionView::Expression(c, kept) && kept == wanted && evaluates(
                c,
                wanted,
            )
        }),
        ({
            let wanted = CallFunctionView {
                execution_context_id: if function.execution_context_id is Some {
                    function.execution_context_id
                } else {
                    context
                },
                ..function
            };
            sent_evaluation(in_context(EvaluationView::Function(function), context))
                matches EvaluationActionView::Function(c) && calls_function(c, wanted)
        }),
{
    an_expression_is_evaluated_as_it_was_given(
        EvaluateView {
            context_id: if expression.context_id is Some {
                expression.context_id
            } else {
                context
            },
            ..expression
        },
    );
    a_function_is_called_as_it_was_given(
        CallFunctionView {
            execution_context_id: if function.execution_context_id is Some {
                function.execution_context_id
            } else {
                context
            },
            ..function
        },
    );
}

/// An expression that is a function is called without arguments where it was evaluated,
/// with what was set for it.
pub proof fn an_expression_becomes_the_function_that_it_is(params: EvaluateView)
    ensures
        as_function(params).function_declaration == params.expression,
        as_function(params).arguments.len() == 0,
        as_function(params).execution_context_id == params.context_id,
        as_function(params).await_promise == params.await_promise,
        as_function(params).return_by_value == params.return_by_value,
        as_function(params).user_gesture == params.user_gesture,
{
}

/// An expression that came back as a function is called where it was evaluated, exactly if
/// that was asked for. Any other result is handed out.
pub proof fn an_expression_that_is_a_function_is_called(params: EvaluateView)
    ensures
        after_result(params, false) is Done,
        params.eval_as_function_fallback is None || params.eval_as_function_fallback == Some(false)
            ==> after_result(params, true) is Done,
        params.eval_as_function_fallback == Some(true) ==> (after_result(params, true)
            matches EvaluationActionView::Function(c) && {
            &&& c.method == "Runtime.callFunctionOn"@
            &&& param(c, "functionDeclaration"@) == Some(ParamView::Text(params.expression))
            &&& param(c, "arguments"@) is None
            &&& param(c, "executionContextId"@) == int_param(params.context_id)
            &&& param(c, "awaitPromise"@) == bool_param(on_unless_set(params.await_promise))
        }),
{
    a_function_is_called_as_it_was_given(as_function(params));
}

// ---------------------------------------------------------------------------
// The mouse

/// The command presses or releases this button at this point.
pub open spec fn acts_at(
    c: CallView,
    kind: Seq<char>,
    point: Point,
    button: Seq<char>,
    modifiers: i64,
    count: i64,
) -> bool {
    &&& c.method == "Input.dispatchMouseEvent"@
    &&& param(c, "type"@) == Some(ParamView::Text(kind))
    &&& param(c, "x"@) == Some(ParamView::Number(point.x))
    &&& param(c, "y"@) == Some(ParamView::Number(point.y))
    &&& param(c, "button"@) == Some(ParamView::Text(button))
    &&& param(c, "modifiers"@) == Some(ParamView::Int(modifiers as int))
    &&& param(c, "clickCount"@) == Some(ParamView::Int(count as int))
    &&& c.params.len() == 6
}

/// The mouse is moved to the point first, and the button is then pressed or released at
/// the same point.
pub proof fn the_mouse_acts_where_it_was_moved_to(
    kind: Seq<char>,
    point: Point,
    button: MouseButton,
    modifiers: i64,
    count: i64,
)
    ensures
        ({
            let actions = moved_and(kind, point, button, modifiers, count);
            &&& actions.len() == 2
            &&& actions[0] == MouseActionView::Move(point)
            &&& actions[1] matches MouseActionView::Run(StepView::Execute(c)) && acts_at(
                c,
                kind,
                point,
                button.name(),
                modifiers,
                count,
            )
        }),
{
    broadcast use a_parameter_is_added;

    reveal_strlit("type");
    reveal_strlit("x");
    reveal_strlit("y");
    reveal_strlit("button");
    reveal_strlit("modifiers");
    reveal_strlit("clickCount");
    assert("type"@.len() == 4 && "x"@.len() == 1 && "y"@.len() == 1 && "button"@.len() == 6);
    assert("modifiers"@.len() == 9 && "clickCount"@.len() == 10);
    assert("x"@[0] == 'x' && "y"@[0] == 'y');
    let a = call("Input.dispatchMouseEvent"@).with("type"@, ParamView::Text(kind));
    let b = a.with("x"@, ParamView::Number(point.x));
    let d = b.with("y"@, ParamView::Number(point.y));
    let e = d.with("modifiers"@, ParamView::Int(modifiers as int));
    let f = e.with("button"@, ParamView::Text(button.name()));
    let g = f.with("clickCount"@, ParamView::Int(count as int));
    assert(mouse_call(kind, point, button, modifiers, count) == g);
    assert(param(g, "type"@) == param(f, "type"@));
    assert(param(f, "type"@) == param(e, "type"@));
    assert(param(e, "type"@) == param(d, "type"@));
    assert(param(d, "type"@) == param(b, "type"@));
    assert(param(b, "type"@) == param(a, "type"@));
    assert(param(g, "x"@) == param(f, "x"@));
    assert(param(f, "x"@) == param(e, "x"@));
    assert(param(e, "x"@) == param(d, "x"@));
    assert(param(d, "x"@) == param(b, "x"@));
    assert(param(g, "y"@) == param(f, "y"@));
    assert(param(f, "y"@) == param(e, "y"@));
    assert(param(e, "y"@) == param(d, "y"@));
    assert(param(g, "modifiers"@) == param(f, "modifiers"@));
    assert(param(f, "modifiers"@) == param(e, "modifiers"@));
    assert(param(g, "button"@) == param(f, "button"@));
}

/// Each button has its own name.
pub proof fn buttons_have_their_names()
    ensures
        MouseButton::Left.name() == "left"@,
        MouseButton::Middle.name() == "middle"@,
        MouseButton::Right.name() == "right"@,
        MouseButton::Back.name() == "back"@,
        MouseButton::Forward.name() == "forward"@,
        MouseButton::NoButton.name() == "none"@,
{
}

/// The highlight of a click is a square of 15 pixels at the point, in the colour, with a
/// white outline.
pub proof fn a_click_is_highlighted_where_it_is(x: i64, y: i64, color: Rgba)
    ensures
        ({
            let c = highlight_call(x, y, color);
            &&& c.method == "Overlay.highlightRect"@
            &&& param(c, "x"@) == Some(ParamView::Int(x as int))
            &&& param(c, "y"@) == Some(ParamView::Int(y as int))
            &&& param(c, "width"@) == Some(ParamView::Int(15))
            &&& param(c, "height"@) == Some(ParamView::Int(15))
            &&& param(c, "color"@) == Some(ParamView::Color(color))
            &&& param(c, "outlineColor"@) matches Some(ParamView::Color(outline)) && outline.r
                == 255 && outline.g == 255 && outline.b == 255 && outline.a is None
            &&& c.params.len() == 6
        }),
        opaque_red().r == 255 && opaque_red().g == 0 && opaque_red().b == 0,
        opaque_red().a == Some(0x3FF0_0000_0000_0000u64),
{
    broadcast use a_parameter_is_added;

    reveal_strlit("x");
    reveal_strlit("y");
    reveal_strlit("width");
    reveal_strlit("height");
    reveal_strlit("color");
    reveal_strlit("outlineColor");
    assert("x"@.len() == 1 && "y"@.len() == 1 && "width"@.len() == 5 && "height"@.len() == 6);
    assert("color"@.len() == 5 && "outlineColor"@.len() == 12);
    assert("x"@[0] == 'x' && "y"@[0] == 'y' && "width"@[0] == 'w' && "color"@[0] == 'c');
    let white = Rgba { r: 255, g: 255, b: 255, a: None };
    let a = call("Overlay.highlightRect"@).with("x"@, ParamView::Int(x as int));
    let b = a.with("y"@, ParamView::Int(y as int));
    let d = b.with("width"@, ParamView::Int(15));
    let e = d.with("height"@, ParamView::Int(15));
    let f = e.with("color"@, ParamView::Color(color));
    let g = f.with("outlineColor"@, ParamView::Color(white));
    assert(highlight_call(x, y, color) == g);
    assert(param(g, "x"@) == param(f, "x"@));
    assert(param(f, "x"@) == param(e, "x"@));
    assert(param(e, "x"@) == param(d, "x"@));
    assert(param(d, "x"@) == param(b, "x"@));
    assert(param(b, "x"@) == param(a, "x"@));
    assert(param(g, "y"@) == param(f, "y"@));
    assert(param(f, "y"@) == param(e, "y"@));
    assert(param(e, "y"@) == param(d, "y"@));
    assert(param(d, "y"@) == param(b, "y"@));
    assert(param(g, "width"@) == param(f, "width"@));
    assert(param(f, "width"@) == param(e, "width"@));
    assert(param(e, "width"@) == param(d, "width"@));
    assert(param(g, "height"@) == param(f, "height"@));
    assert(param(f, "height"@) == param(e, "height"@));
    assert(param(g, "color"@) == param(f, "color"@));
}

// ---------------------------------------------------------------------------
// Settings of a page

/// A setting is told by its own method, as it was given, and nothing else is told.
pub proof fn settings_are_told_as_they_were_given(
    method: Seq<char>,
    name: Seq<char>,
    on: bool,
    text: Seq<char>,
    locale: Option<Seq<char>>,
    number: i64,
)
    ensures
        switch_call(method, name, on).method == method,
        param(switch_call(method, name, on), name) == Some(ParamView::Bool(on)),
        switch_call(method, name, on).params.len() == 1,
        text_call(method, name, text).method == method,
        param(text_call(method, name, text), name) == Some(ParamView::Text(text)),
        text_call(method, name, text).params.len() == 1,
        locale_call(locale).method == "Emulation.setLocaleOverride"@,
        param(locale_call(locale), "locale"@) == text_param(locale),
        locale_call(locale).params.len() == one_if(locale is Some),
        processors_call(number).method == "Emulation.setHardwareConcurrencyOverride"@,
        param(processors_call(number), "hardwareConcurrency"@) == Some(
            ParamView::Int(number as int),
        ),
        node_call(method, number).method == method,
        param(node_call(method, number), "nodeId"@) == Some(ParamView::Int(number as int)),
{
    broadcast use a_parameter_is_added;

}

/// Features of the medium and headers are told as they were given, all of them.
pub proof fn features_and_headers_are_told_as_they_were_given(
    features: Seq<(Seq<char>, Seq<char>)>,
    headers: Map<Seq<char>, HeaderValueView>,
)
    ensures
        features_call(features).method == "Emulation.setEmulatedMedia"@,
        param(features_call(features), "features"@) == Some(ParamView::Named(features)),
        headers_call(headers).method == "Network.setExtraHTTPHeaders"@,
        param(headers_call(headers), "headers"@) == Some(ParamView::Headers(headers)),
{
    broadcast use a_parameter_is_added;

}

/// Each medium has its own name.
pub proof fn media_have_their_names()
    ensures
        MediaTypeParams::Screen.name() == "screen"@,
        MediaTypeParams::Print.name() == "print"@,
        MediaTypeParams::Null.name() == "null"@,
{
}

/// Virtual time has the budget and the moment that were given, and the policy and the
/// limit that were given or else `advance` and 10000.
pub proof fn virtual_time_is_told_as_it_was_given(
    budget: Value,
    policy: Option<Seq<char>>,
    starvation: Option<i64>,
    initial: Option<Value>,
)
    ensures
        ({
            let c = virtual_time_call(budget, policy, starvation, initial);
            &&& c.method == "Emulation.setVirtualTimePolicy"@
            &&& param(c, "budget"@) == Some(ParamView::Json(budget))
            &&& policy matches Some(p) ==> param(c, "policy"@) == Some(ParamView::Text(p))
            &&& policy is None ==> param(c, "policy"@) == Some(ParamView::Text("advance"@))
            &&& starvation matches Some(n) ==> param(c, "maxVirtualTimeTaskStarvationCount"@)
                == Some(ParamView::Int(n as int))
            &&& starvation is None ==> param(c, "maxVirtualTimeTaskStarvationCount"@) == Some(
                ParamView::Int(10_000),
            )
            &&& initial matches Some(t) ==> param(c, "initialVirtualTime"@) == Some(
                ParamView::Json(t),
            )
            &&& initial is None ==> param(c, "initialVirtualTime"@) is None
            &&& c.params.len() == 3 + one_if(initial is Some)
        }),
{
    broadcast use a_parameter_is_added;

    reveal_strlit("policy");
    reveal_strlit("budget");
    reveal_strlit("maxVirtualTimeTaskStarvationCount");
    reveal_strlit("initialVirtualTime");
    assert("policy"@.len() == 6 && "budget"@.len() == 6);
    assert("policy"@[0] == 'p' && "budget"@[0] == 'b');
    assert("maxVirtualTimeTaskStarvationCount"@.len() == 33);
    assert("initialVirtualTime"@.len() == 18);
    let none = call("Emulation.setVirtualTimePolicy"@);
    assert(forall|name: Seq<char>| #[trigger] param(none, name) is None);
    let way = if policy is Some {
        policy->0
    } else {
        "advance"@
    };
    let limit: int = if starvation is Some {
        starvation->0 as int
    } else {
        10_000
    };
    let a = none.with("policy"@, ParamView::Text(way));
    let b = a.with("budget"@, ParamView::Json(budget));
    let d = b.with("maxVirtualTimeTaskStarvationCount"@, ParamView::Int(limit));
    assert(param(a, "initialVirtualTime"@) is None);
    assert(param(b, "initialVirtualTime"@) is None);
    assert(param(b, "policy"@) == param(a, "policy"@));
    assert(param(d, "policy"@) == param(b, "policy"@));
    assert(param(d, "budget"@) == param(b, "budget"@));
    assert(param(d, "initialVirtualTime"@) is None);
    let c = virtual_time_call(budget, policy, starvation, initial);
    assert(initial is None ==> c == d);
    assert(initial matches Some(t) ==> c == d.with("initialVirtualTime"@, ParamView::Json(t)));
}

/// The accessibility tree is asked for by what was given, and by nothing else.
pub proof fn the_accessibility_tree_is_asked_for_as_it_was_given(
    depth: Option<i64>,
    frame: Option<Seq<char>>,
    node: Option<i64>,
    backend: Option<i64>,
    object: Option<Seq<char>>,
    relatives: Option<bool>,
)
    ensures
        ({
            let c = full_tree_call(depth, frame);
            &&& c.method == "Accessibility.getFullAXTree"@
            &&& param(c, "depth"@) == int_param(depth)
            &&& param(c, "frameId"@) == text_param(frame)
            &&& c.params.len() == one_if(depth is Some) + one_if(frame is Some)
        }),
        ({
            let c = partial_tree_call(node, backend, object, relatives);
            &&& c.method == "Accessibility.getPartialAXTree"@
            &&& param(c, "nodeId"@) == int_param(node)
            &&& param(c, "backendNodeId"@) == int_param(backend)
            &&& param(c, "objectId"@) == text_param(object)
            &&& param(c, "fetchRelatives"@) == bool_param(relatives)
            &&& c.params.len() == one_if(node is Some) + one_if(backend is Some) + one_if(
                object is Some,
            ) + one_if(relatives is Some)
        }),
{
    broadcast use a_parameter_is_added;

    reveal_strlit("depth");
    reveal_strlit("frameId");
    reveal_strlit("nodeId");
    reveal_strlit("backendNodeId");
    reveal_strlit("objectId");
    reveal_strlit("fetchRelatives");
    assert("depth"@.len() == 5 && "frameId"@.len() == 7 && "nodeId"@.len() == 6);
    assert("backendNodeId"@.len() == 13 && "objectId"@.len() == 8);
    assert("fetchRelatives"@.len() == 14);
    let full = call("Accessibility.getFullAXTree"@);
    let part = call("Accessibility.getPartialAXTree"@);
    assert(forall|name: Seq<char>| #[trigger] param(full, name) is None);
    assert(forall|name: Seq<char>| #[trigger] param(part, name) is None);
    let f = full.with_int("depth"@, depth);
    assert(param(f, "frameId"@) is None);
    assert(param(f, "depth"@) == int_param(depth));
    let a = part.with_int("nodeId"@, node);
    let b = a.with_int("backendNodeId"@, backend);
    let d = b.with_text("objectId"@, object);
    assert(param(a, "nodeId"@) == int_param(node));
    assert(param(a, "backendNodeId"@) is None);
    assert(param(a, "objectId"@) is None);
    assert(param(a, "fetchRelatives"@) is None);
    assert(param(b, "nodeId"@) == int_param(node));
    assert(param(b, "backendNodeId"@) == int_param(backend));
    assert(param(b, "objectId"@) is None);
    assert(param(b, "fetchRelatives"@) is None);
    assert(param(d, "nodeId"@) == int_param(node));
    assert(param(d, "backendNodeId"@) == int_param(backend));
    assert(param(d, "objectId"@) == text_param(object));
    assert(param(d, "fetchRelatives"@) is None);
}

// ---------------------------------------------------------------------------
// Blocked URLs and budgets

/// The step blocks these URLs and no others.
pub open spec fn blocks(step: StepView, urls: Seq<Seq<char>>) -> bool {
    step matches StepView::Send(c) && {
        &&& c.method == "Network.setBlockedURLs"@
        &&& c.params.len() == 1
        &&& param(c, "urlPatterns"@) matches Some(ParamView::Patterns(list)) && list.len()
            == urls.len() && forall|i: int|
            0 <= i < urls.len() ==> (#[trigger] list[i]).0 == urls[i] && list[i].1
    }
}

/// URLs are blocked as they were given, each of them.
pub proof fn urls_are_blocked_as_they_were_given(urls: Seq<Seq<char>>)
    ensures
        blocks(block_step(urls), urls),
{
    broadcast use a_parameter_is_added;

}

/// A page that is stopped stops loading and blocks every URL after that. One whose
/// budget is exceeded does so, and is closed last if that was asked for.
pub proof fn a_stopped_page_loads_nothing_more(close: bool)
    ensures
        stop_steps().len() == 2,
        stop_steps()[0] matches StepView::Send(c) && c.method == "Page.stopLoading"@
            && c.params.len() == 0,
        blocks(stop_steps()[1], seq!["*"@]),
        exceed_steps(close).len() == 2 + one_if(close),
        exceed_steps(close).take(2) == stop_steps(),
        close ==> (exceed_steps(close)[2] matches StepView::Send(c) && c.method == "Page.close"@
            && c.params.len() == 0),
{
    urls_are_blocked_as_they_were_given(seq!["*"@]);
    assert(exceed_steps(close).take(2) =~= stop_steps());
}

/// The events of the network are turned on before a budget exactly if that was asked for.
pub proof fn a_budget_turns_the_network_on_if_asked(enable: Option<bool>)
    ensures
        start_steps(enable).len() == one_if(enable matches Some(yes) && yes),
        start_steps(enable).len() == 1 ==> (start_steps(enable)[0] matches StepView::Send(c)
            && c.method == "Network.enable"@ && c.params.len() == 0),
{
}

/// What arrives counts by its length on the wire, and on request by its length when
/// unpacked too. Negative lengths count for nothing, and the total stays within 64 bits.
pub proof fn arrivals_count_by_their_length(event: EventDataReceived, total: nat)
    requires
        total <= u64::MAX,
    ensures
        event.encoded_data_length >= 0 ==> counted(event, false) == event.encoded_data_length,
        event.encoded_data_length < 0 ==> counted(event, false) == 0,
        event.data_length >= 0 ==> counted(event, true) == counted(event, false)
            + event.data_length,
        event.data_length < 0 ==> counted(event, true) == counted(event, false),
        forall|count: nat|
            total + count <= u64::MAX ==> #[trigger] total_after(total, count) == total + count,
        forall|count: nat|
            total + count > u64::MAX ==> #[trigger] total_after(total, count) == u64::MAX,
{
}

/// Data adds to the total what it counts for, up to what 64 bits can hold, and changes
/// nothing else. The page is ended exactly when the total is above the limit: it stops,
/// blocks every URL, and is closed if that was asked for.
pub proof fn a_page_is_ended_above_its_limit(budget: WireBudget, event: EventDataReceived)
    ensures
        ({
            let after = received(budget, event);
            let count = counted(event, budget.track_all);
            &&& budget.total_bytes + count <= u64::MAX ==> after.total_bytes == budget.total_bytes
                + count
            &&& budget.total_bytes + count > u64::MAX ==> after.total_bytes == u64::MAX
            &&& after.max_bytes == budget.max_bytes
            &&& after.close_on_exceed == budget.close_on_exceed
            &&& after.track_all == budget.track_all
        }),
        budget.total_bytes <= budget.max_bytes ==> ending_of(budget) is None,
        budget.total_bytes > budget.max_bytes ==> (ending_of(budget) matches Some(steps) && {
            &&& steps.len() == 2 + one_if(budget.close_on_exceed)
            &&& steps[0] matches StepView::Send(c) && c.method == "Page.stopLoading"@
            &&& blocks(steps[1], seq!["*"@])
            &&& budget.close_on_exceed ==> (steps[2] matches StepView::Send(c) && c.method
                == "Page.close"@)
        }),
{
    a_stopped_page_loads_nothing_more(budget.close_on_exceed);
    let steps = exceed_steps(budget.close_on_exceed);
    assert(steps.take(2)[0] == steps[0] && steps.take(2)[1] == steps[1]);
}

// ---------------------------------------------------------------------------
// Scripts for new documents

/// The command has the script run in each new document, and at once if that is said.
pub open spec fn runs_in_new_documents(
    c: CallView,
    source: Seq<char>,
    at_once: Option<bool>,
) -> bool {
    &&& c.method == "Page.addScriptToEvaluateOnNewDocument"@
    &&& param(c, "source"@) == Some(ParamView::Text(source))
    &&& param(c, "runImmediately"@) == bool_param(at_once)
    &&& c.params.len() == 1 + one_if(at_once is Some)
}

/// A script is run in new documents as it was given. Without a script, or with an empty
/// one, nothing is done.
pub proof fn a_script_is_run_as_it_was_given(source: Seq<char>, at_once: Option<bool>)
    ensures
        runs_in_new_documents(add_script_call(source, at_once), source, at_once),
        source.len() > 0 ==> add_script_steps(Some(source), at_once).len() == 1 && (
        add_script_steps(Some(source), at_once)[0] matches StepView::Send(c)
            && runs_in_new_documents(c, source, at_once)),
        source.len() == 0 ==> add_script_steps(Some(source), at_once).len() == 0,
        add_script_steps(None, at_once).len() == 0,
{
    broadcast use a_parameter_is_added;

    reveal_strlit("source");
    reveal_strlit("runImmediately");
    assert("source"@.len() == 6 && "runImmediately"@.len() == 14);
    let a = call("Page.addScriptToEvaluateOnNewDocument"@).with("source"@, ParamView::Text(source));
    assert(param(a, "runImmediately"@) is None);
}

/// The script of the user's follows the generated one, in a function of its own. Both are
/// whole.
pub proof fn the_script_of_the_user_follows(generated: Seq<char>, custom: Seq<char>)
    ensures
        combined(generated, None) == generated,
        made_of(combined(generated, Some(custom)), generated, ";(()=>{"@ + custom, "})();;"@),
{
    reveal_strlit(";");
    reveal_strlit("(()=>{");
    reveal_strlit("})();");
    reveal_strlit(";(()=>{");
    reveal_strlit("})();;");
    assert(combined(generated, Some(custom)) =~= generated + (";(()=>{"@ + custom) + "})();;"@);
}

/// A disguise is the one that was asked for; where nothing was, it is the basic one of no
/// known system.
pub proof fn a_disguise_is_the_one_that_was_asked_for(os: StealthOs, tier: StealthTier)
    ensures
        chosen_os(Some(os)) == os,
        chosen_tier(Some(tier)) == tier,
        chosen_os(None) == StealthOs::Unknown,
        chosen_tier(None) == StealthTier::Basic,
{
}

// ---------------------------------------------------------------------------
// Documents

/// The document is asked for with all that is in it, and a shadow host by its number with
/// its shadow roots.
pub proof fn documents_are_asked_for_whole(host: i64)
    ensures
        get_document_call().method == "DOM.getDocument"@,
        param(get_document_call(), "depth"@) == Some(ParamView::Int(-1)),
        param(get_document_call(), "pierce"@) == Some(ParamView::Bool(true)),
        describe_host_call(host).method == "DOM.describeNode"@,
        param(describe_host_call(host), "nodeId"@) == Some(ParamView::Int(host as int)),
        param(describe_host_call(host), "depth"@) == Some(ParamView::Int(0)),
        param(describe_host_call(host), "pierce"@) == Some(ParamView::Bool(true)),
{
    broadcast use a_parameter_is_added;

    reveal_strlit("depth");
    reveal_strlit("pierce");
    reveal_strlit("nodeId");
    assert("depth"@.len() == 5 && "pierce"@.len() == 6 && "nodeId"@.len() == 6);
    assert("pierce"@[0] == 'p' && "nodeId"@[0] == 'n');
    let a = call("DOM.getDocument"@).with("depth"@, ParamView::Int(-1));
    assert(param(get_document_call(), "depth"@) == param(a, "depth"@));
    let b = call("DOM.describeNode"@).with("nodeId"@, ParamView::Int(host as int));
    let d = b.with("depth"@, ParamView::Int(0));
    assert(param(describe_host_call(host), "depth"@) == param(d, "depth"@));
    assert(param(describe_host_call(host), "nodeId"@) == param(d, "nodeId"@));
    assert(param(d, "nodeId"@) == param(b, "nodeId"@));
}

/// A search inside a shadow root goes through four replies: the host is searched in the
/// document by its selector, is described, and the element is searched by its own
/// selector in the first shadow root of the host. What is found there is the result.
pub proof fn an_element_is_found_in_the_shadow_root_of_its_host(
    host_selector: Seq<char>,
    inner_selector: Seq<char>,
    document: Node,
    host: i64,
    described: Node,
    found: i64,
)
    ensures
        ({
            let reply = ShadowReply::Node(document);
            let (first, find_host) = searched(
                host_selector,
                inner_selector,
                ShadowStage::Document,
                reply,
            );
            let (second, ask) = searched(
                host_selector,
                inner_selector,
                first,
                ShadowReply::Found(host),
            );
            let (third, find_inner) = searched(
                host_selector,
                inner_selector,
                second,
                ShadowReply::Node(described),
            );
            &&& find_host matches Ok(ShadowActionView::Find { selector, node_id }) && selector
                == host_selector && node_id == document.node_id
            &&& ask matches Ok(ShadowActionView::Ask(c)) && c.method == "DOM.describeNode"@
                && param(c, "nodeId"@) == Some(ParamView::Int(host as int))
            &&& match described.shadow_roots {
                Some(roots) if roots.len() > 0 => {
                    let (fourth, end) = searched(
                        host_selector,
                        inner_selector,
                        third,
                        ShadowReply::Found(found),
                    );
                    &&& find_inner matches Ok(ShadowActionView::Find { selector, node_id })
                        && selector == inner_selector && node_id == roots[0].node_id
                    &&& end matches Ok(ShadowActionView::Done(id)) && id == found
                    &&& fourth == ShadowStage::Done
                },
                _ => {
                    &&& third == ShadowStage::Done
                    &&& find_inner matches Err(CdpErrorView::Msg(text)) && text
                        == "host has no shadow root"@
                },
            }
        }),
{
    documents_are_asked_for_whole(host);
}

proof fn lemma_forest(nodes: Vec<Node>, from: int, id: i64)
    requires
        0 <= from <= nodes.len(),
    ensures
        forest_ids(nodes, from).contains(id) <==> exists|i: int|
            from <= i < nodes.len() && node_ids(#[trigger] nodes[i]).contains(id),
    decreases nodes.len() - from,
{
    if from < nodes.len() {
        lemma_forest(nodes, from + 1, id);
        lemma_sum_contains(node_ids(nodes[from]), forest_ids(nodes, from + 1), id);
        if node_ids(nodes[from]).contains(id) {
            assert(from <= from < nodes.len() && node_ids(nodes[from]).contains(id));
        }
    }
}

proof fn lemma_sum_contains(a: Seq<i64>, b: Seq<i64>, id: i64)
    ensures
        (a + b).contains(id) <==> a.contains(id) || b.contains(id),
{
    let all = a + b;
    if all.contains(id) {
        let i = choose|i: int| 0 <= i < all.len() && all[i] == id;
        if i < a.len() {
            assert(a[i] == id);
        } else {
            assert(b[i - a.len()] == id);
        }
    }
    if a.contains(id) {
        let i = choose|i: int| 0 <= i < a.len() && a[i] == id;
        assert(all[i] == id);
    }
    if b.contains(id) {
        let i = choose|i: int| 0 <= i < b.len() && b[i] == id;
        assert(all[a.len() + i] == id);
    }
}

/// In a node are the node itself and what is in its children, in the document of its
/// frame and in its shadow roots, and nothing else.
pub proof fn what_is_in_a_node(node: Node, id: i64)
    ensures
        node_ids(node)[0] == node.node_id,
        node_ids(node).contains(id) <==> {
            ||| id == node.node_id
            ||| node.children matches Some(children) && exists|i: int|
                0 <= i < children.len() && node_ids(#[trigger] children[i]).contains(id)
            ||| node.content_document matches Some(document) && node_ids(*document).contains(id)
            ||| node.shadow_roots matches Some(roots) && exists|i: int|
                0 <= i < roots.len() && node_ids(#[trigger] roots[i]).contains(id)
        },
{
    let own = seq![node.node_id];
    let children = match node.children {
        Some(children) => forest_ids(children, 0),
        None => Seq::empty(),
    };
    let document = match node.content_document {
        Some(document) => node_ids(*document),
        None => Seq::empty(),
    };
    let roots = match node.shadow_roots {
        Some(roots) => forest_ids(roots, 0),
        None => Seq::empty(),
    };
    assert(node_ids(node) == own + children + document + roots);
    lemma_sum_contains(own + children + document, roots, id);
    lemma_sum_contains(own + children, document, id);
    lemma_sum_contains(own, children, id);
    assert(own.contains(id) <==> id == node.node_id) by {
        assert(own[0] == node.node_id);
    }
    match node.children {
        Some(children) => lemma_forest(children, 0, id),
        None => {},
    }
    match node.shadow_roots {
        Some(roots) => lemma_forest(roots, 0, id),
        None => {},
    }
}

/// What was found is what one of the searches found that did not fail.
pub proof fn what_was_found_is_what_a_search_found(results: Seq<Option<Vec<i64>>>, id: i64)
    ensures
        found_in_all(results).contains(id) <==> exists|i: int|
            0 <= i < results.len() && (#[trigger] results[i] matches Some(ids) && ids@.contains(
                id,
            )),
    decreases results.len(),
{
    if results.len() > 0 {
        let rest = results.drop_last();
        what_was_found_is_what_a_search_found(rest, id);
        let last = match results.last() {
            Some(ids) => ids@,
            None => Seq::empty(),
        };
        lemma_sum_contains(found_in_all(rest), last, id);
        if found_in_all(rest).contains(id) {
            let i = choose|i: int|
                0 <= i < rest.len() && (#[trigger] rest[i] matches Some(ids) && ids@.contains(id));
            assert(results[i] == rest[i]);
        }
        if last.contains(id) {
            assert(results[results.len() - 1] == results.last());
        }
        if exists|i: int|
            0 <= i < results.len() && (#[trigger] results[i] matches Some(ids) && ids@.contains(
                id,
            )) {
            let i = choose|i: int|
                0 <= i < results.len() && (#[trigger] results[i] matches Some(ids)
                    && ids@.contains(id));
            if i < rest.len() {
                assert(rest[i] == results[i]);
            }
        }
    }
}

} // verus!
