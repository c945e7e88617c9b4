//! Expressions and functions that a page evaluates.
use vstd::prelude::*;
use serde_json::Value;

use crate::error::CdpError;
use crate::page::call::{
    argument_views, call, Argument, ArgumentView, Call, CallView, Page, Param, ParamView,
};
use crate::protocol::opt_text;

verus! {

/// An expression that is to be evaluated.
#[derive(Debug)]
pub struct EvaluateParams {
    /// The expression.
    pub expression: String,
    /// The context in which it is evaluated.
    pub context_id: Option<i64>,
    /// Is a promise awaited?
    pub await_promise: Option<bool>,
    /// Is the result a value and not a reference?
    pub return_by_value: Option<bool>,
    /// Does it count as an act of the user?
    pub user_gesture: Option<bool>,
    /// Is a function evaluated as one, if that is what the expression is?
    pub eval_as_function_fallback: Option<bool>,
}

/// The view of [`EvaluateParams`].
pub struct EvaluateView {
    pub expression: Seq<char>,
    pub context_id: Option<i64>,
    pub await_promise: Option<bool>,
    pub return_by_value: Option<bool>,
    pub user_gesture: Option<bool>,
    pub eval_as_function_fallback: Option<bool>,
}

impl View for EvaluateParams {
    type V = EvaluateView;

    open spec fn view(&self) -> EvaluateView {
        EvaluateView {
            expression: self.expression@,
            context_id: self.context_id,
            await_promise: self.await_promise,
            return_by_value: self.return_by_value,
            user_gesture: self.user_gesture,
            eval_as_function_fallback: self.eval_as_function_fallback,
        }
    }
}

/// A function that is to be called.
#[derive(Debug)]
pub struct CallFunctionOnParams {
    /// The declaration of the function.
    pub function_declaration: String,
    /// Its arguments.
    pub arguments: Vec<Argument>,
    /// The context in which it is called.
    pub execution_context_id: Option<i64>,
    /// Is a promise awaited?
    pub await_promise: Option<bool>,
    /// Is the result a value and not a reference?
    pub return_by_value: Option<bool>,
    /// Does it count as an act of the user?
    pub user_gesture: Option<bool>,
}

/// The view of [`CallFunctionOnParams`].
pub struct CallFunctionView {
    pub function_declaration: Seq<char>,
    pub arguments: Seq<ArgumentView>,
    pub execution_context_id: Option<i64>,
    pub await_promise: Option<bool>,
    pub return_by_value: Option<bool>,
    pub user_gesture: Option<bool>,
}

impl View for CallFunctionOnParams {
    type V = CallFunctionView;

    open spec fn view(&self) -> CallFunctionView {
        CallFunctionView {
            function_declaration: self.function_declaration@,
            arguments: argument_views(self.arguments@),
            execution_context_id: self.execution_context_id,
            await_promise: self.await_promise,
            return_by_value: self.return_by_value,
            user_gesture: self.user_gesture,
        }
    }
}

/// The expression as a function.
pub open spec fn as_function(expression: EvaluateView) -> CallFunctionView {
    CallFunctionView {
        function_declaration: expression.expression,
        arguments: Seq::empty(),
        execution_context_id: expression.context_id,
        await_promise: expression.await_promise,
        return_by_value: expression.return_by_value,
        user_gesture: expression.user_gesture,
    }
}

/// The command that evaluates an expression.
pub open spec fn evaluate_call(params: EvaluateView) -> CallView {
    call("Runtime.evaluate"@).with("expression"@, ParamView::Text(params.expression)).with_int(
        "contextId"@,
        params.context_id,
    ).with_bool("returnByValue"@, params.return_by_value).with_bool(
        "userGesture"@,
        params.user_gesture,
    ).with_bool("awaitPromise"@, params.await_promise)
}

/// The command that calls a function.
pub open spec fn function_call(params: CallFunctionView) -> CallView {
    let base = call("Runtime.callFunctionOn"@).with(
        "functionDeclaration"@,
        ParamView::Text(params.function_declaration),
    );
    let with_arguments = if params.arguments.len() > 0 {
        base.with("arguments"@, ParamView::Arguments(params.arguments))
    } else {
        base
    };
    with_arguments.with_bool("returnByValue"@, params.return_by_value).with_bool(
        "userGesture"@,
        params.user_gesture,
    ).with_bool("awaitPromise"@, params.await_promise).with_int(
        "executionContextId"@,
        params.execution_context_id,
    )
}

/// What is set, or `true` where nothing is.
pub open spec fn or_true(set: Option<bool>) -> Option<bool> {
    if set is None {
        Some(true)
    } else {
        set
    }
}

/// The expression with its promise awaited and its result a value, unless that is set
/// otherwise.
pub open spec fn settled(params: EvaluateView) -> EvaluateView {
    EvaluateView {
        await_promise: or_true(params.await_promise),
        return_by_value: or_true(params.return_by_value),
        ..params
    }
}

/// The function with its promise awaited and its result a value, unless that is set
/// otherwise.
pub open spec fn settled_function(params: CallFunctionView) -> CallFunctionView {
    CallFunctionView {
        await_promise: or_true(params.await_promise),
        return_by_value: or_true(params.return_by_value),
        ..params
    }
}

fn set_or_true(set: Option<bool>) -> (filled: Option<bool>)
    ensures
        filled == or_true(set),
{
    if set.is_none() {
        Some(true)
    } else {
        set
    }
}

impl EvaluateParams {
    /// The command that evaluates the expression. Promises are awaited and the result is
    /// a value, unless that is set otherwise.
    pub fn call(&self) -> (c: Call)
        ensures
            c@ == evaluate_call(settled(self@)),
    {
        Call::new("Runtime.evaluate").with(
            "expression",
            Param::Text(self.expression.clone()),
        ).with_int("contextId", self.context_id).with_bool(
            "returnByValue",
            set_or_true(self.return_by_value),
        ).with_bool("userGesture", self.user_gesture).with_bool(
            "awaitPromise",
            set_or_true(self.await_promise),
        )
    }

    /// The expression as a function.
    pub fn to_function(&self) -> (function: CallFunctionOnParams)
        ensures
            function@ == as_function(self@),
    {
        let arguments: Vec<Argument> = Vec::new();
        proof {
            assert(argument_views(arguments@) =~= Seq::empty());
        }
        CallFunctionOnParams {
            function_declaration: self.expression.clone(),
            arguments,
            execution_context_id: self.context_id,
            await_promise: self.await_promise,
            return_by_value: self.return_by_value,
            user_gesture: self.user_gesture,
        }
    }
}

impl CallFunctionOnParams {
    /// The command that calls the function. Promises are awaited and the result is a
    /// value, unless that is set otherwise.
    pub fn call(self) -> (c: Call)
        ensures
            c@ == function_call(settled_function(self@)),
    {
        let base = Call::new("Runtime.callFunctionOn").with(
            "functionDeclaration",
            Param::Text(self.function_declaration),
        );
        let with_arguments = if self.arguments.len() > 0 {
            base.with("arguments", Param::Arguments(self.arguments))
        } else {
            base
        };
        with_arguments.with_bool("returnByValue", set_or_true(self.return_by_value)).with_bool(
            "userGesture",
            self.user_gesture,
        ).with_bool("awaitPromise", set_or_true(self.await_promise)).with_int(
            "executionContextId",
            self.execution_context_id,
        )
    }
}

/// What a page is to evaluate.
#[derive(Debug)]
pub enum Evaluation {
    /// An expression.
    Expression(EvaluateParams),
    /// A function.
    Function(CallFunctionOnParams),
}

/// The view of [`Evaluation`].
pub enum EvaluationView {
    Expression(EvaluateView),
    Function(CallFunctionView),
}

impl View for Evaluation {
    type V = EvaluationView;

    open spec fn view(&self) -> EvaluationView {
        match *self {
            Evaluation::Expression(params) => EvaluationView::Expression(params@),
            Evaluation::Function(params) => EvaluationView::Function(params@),
        }
    }
}

/// What is to be done next of an evaluation.
#[derive(Debug)]
pub enum EvaluationAction {
    /// Ask for the context of the page, for what is to be evaluated.
    GetContext(Evaluation),
    /// Evaluate the expression.
    Expression(Call, EvaluateParams),
    /// Call the function, and hand out its result.
    Function(Call),
    /// Hand out the result of the expression.
    Done,
}

/// The view of [`EvaluationAction`].
pub enum EvaluationActionView {
    GetContext(EvaluationView),
    Expression(CallView, EvaluateView),
    Function(CallView),
    Done,
}

impl View for EvaluationAction {
    type V = EvaluationActionView;

    open spec fn view(&self) -> EvaluationActionView {
        match *self {
            EvaluationAction::GetContext(evaluation) => EvaluationActionView::GetContext(
                evaluation@,
            ),
            EvaluationAction::Expression(c, params) => EvaluationActionView::Expression(
                c@,
                params@,
            ),
            EvaluationAction::Function(c) => EvaluationActionView::Function(c@),
            EvaluationAction::Done => EvaluationActionView::Done,
        }
    }
}

/// Does what is to be evaluated have a context?
pub open spec fn has_context(evaluation: EvaluationView) -> bool {
    match evaluation {
        EvaluationView::Expression(params) => params.context_id is Some,
        EvaluationView::Function(params) => params.execution_context_id is Some,
    }
}

/// What is to be evaluated, in this context where it has none.
pub open spec fn in_context(evaluation: EvaluationView, context: Option<i64>) -> EvaluationView {
    if has_context(evaluation) {
        evaluation
    } else {
        match evaluation {
            EvaluationView::Expression(params) => EvaluationView::Expression(
                EvaluateView { context_id: context, ..params },
            ),
            EvaluationView::Function(params) => EvaluationView::Function(
                CallFunctionView { execution_context_id: context, ..params },
            ),
        }
    }
}

/// The evaluation as it is sent.
pub open spec fn sent_evaluation(evaluation: EvaluationView) -> EvaluationActionView {
    match evaluation {
        EvaluationView::Expression(params) => EvaluationActionView::Expression(
            evaluate_call(settled(params)),
            params,
        ),
        EvaluationView::Function(params) => EvaluationActionView::Function(
            function_call(settled_function(params)),
        ),
    }
}

/// How an evaluation begins: without a context it needs that of the page.
pub open spec fn begun(evaluation: EvaluationView) -> EvaluationActionView {
    if has_context(evaluation) {
        sent_evaluation(evaluation)
    } else {
        EvaluationActionView::GetContext(evaluation)
    }
}

/// What follows the result of an expression: one that is a function is called as one, if
/// that is asked for.
pub open spec fn after_result(params: EvaluateView, is_function: bool) -> EvaluationActionView {
    if is_function && params.eval_as_function_fallback == Some(true) {
        EvaluationActionView::Function(function_call(settled_function(as_function(params))))
    } else {
        EvaluationActionView::Done
    }
}

impl Evaluation {
    /// Sends the evaluation.
    fn send(self) -> (action: EvaluationAction)
        ensures
            action@ == sent_evaluation(self@),
    {
        match self {
            Evaluation::Expression(params) => EvaluationAction::Expression(params.call(), params),
            Evaluation::Function(params) => EvaluationAction::Function(params.call()),
        }
    }

    /// Takes the context of the page, where the evaluation has none.
    pub fn on_context(self, context: Option<i64>) -> (action: EvaluationAction)
        ensures
            action@ == sent_evaluation(in_context(self@, context)),
    {
        match self {
            Evaluation::Expression(params) => {
                let mut params = params;
                if params.context_id.is_none() {
                    params.context_id = context;
                }
                Evaluation::Expression(params).send()
            },
            Evaluation::Function(params) => {
                let mut params = params;
                if params.execution_context_id.is_none() {
                    params.execution_context_id = context;
                }
                Evaluation::Function(params).send()
            },
        }
    }
}

impl Page {
    /// Begins an evaluation: without a context it needs that of the page.
    pub fn evaluate(&self, evaluation: Evaluation) -> (action: EvaluationAction)
        ensures
            action@ == begun(evaluation@),
    {
        let ready = match &evaluation {
            Evaluation::Expression(params) => params.context_id.is_some(),
            Evaluation::Function(params) => params.execution_context_id.is_some(),
        };
        if ready {
            evaluation.send()
        } else {
            EvaluationAction::GetContext(evaluation)
        }
    }

    /// Evaluates an expression. One that is a function is not called.
    pub fn evaluate_expression(&self, evaluate: EvaluateParams) -> (action: EvaluationAction)
        ensures
            action@ == begun(
                EvaluationView::Expression(
                    EvaluateView { eval_as_function_fallback: None, ..evaluate@ },
                ),
            ),
    {
        let mut evaluate = evaluate;
        evaluate.eval_as_function_fallback = None;
        self.evaluate(Evaluation::Expression(evaluate))
    }

    /// Calls a function, whose promise is awaited unless that is set otherwise.
    pub fn evaluate_function(&self, evaluate: CallFunctionOnParams) -> (action: EvaluationAction)
        ensures
            action@ == begun(EvaluationView::Function(evaluate@)),
    {
        self.evaluate(Evaluation::Function(evaluate))
    }
}

impl EvaluateParams {
    /// Takes what kind of result came back. An expression that is a function is
    /// called as one, if that is asked for.
    pub fn on_result(self, is_function: bool) -> (action: EvaluationAction)
        ensures
            action@ == after_result(self@, is_function),
    {
        let fallback = match self.eval_as_function_fallback {
            Some(yes) => yes,
            None => false,
        };
        if is_function && fallback {
            EvaluationAction::Function(self.to_function().call())
        } else {
            EvaluationAction::Done
        }
    }
}

/// A function that writes its argument over the document.
pub open spec fn write_document() -> Seq<char> {
    "(html) => {
            document.open();
            document.write(html);
            document.close();
        }"@
}

impl Page {
    /// Evaluates an expression in a session. Promises are awaited and the result is
    /// a value, unless that is set otherwise.
    pub fn evaluate_expression_with_session(&self, evaluate: EvaluateParams) -> (c: Call)
        ensures
            c@ == evaluate_call(settled(evaluate@)),
    {
        evaluate.call()
    }

    /// The result of an evaluation: an exception is an error.
    pub fn evaluation_result(exception: Option<Value>, result: Value) -> (outcome: Result<
        Value,
        CdpError,
    >)
        ensures
            outcome == match exception {
                Some(e) => Err::<Value, CdpError>(CdpError::JavascriptException(e)),
                None => Ok::<Value, CdpError>(result),
            },
    {
        match exception {
            Some(e) => Err(CdpError::JavascriptException(e)),
            None => Ok(result),
        }
    }

    /// Writes HTML over the document, in a context of the secondary world of the main
    /// frame. Nothing is written if the main frame can not be asked for. Either way
    /// the navigation is waited for afterwards.
    pub fn set_content(&self, html: &str, context: Option<Option<i64>>) -> (action: Option<
        EvaluationAction,
    >)
        ensures
            match context {
                Some(execution_context_id) => action matches Some(write) && write@ == begun(
                    EvaluationView::Function(
                        CallFunctionView {
                            function_declaration: write_document(),
                            arguments: seq![ArgumentView::Text(html@)],
                            execution_context_id,
                            await_promise: None,
                            return_by_value: None,
                            user_gesture: None,
                        },
                    ),
                ),
                None => action is None,
            },
    {
        match context {
            Some(execution_context_id) => {
                let params = CallFunctionOnParams {
                    function_declaration: "(html) => {
            document.open();
            document.write(html);
            document.close();
        }".to_owned(),
                    arguments: vec![Argument::Text(html.to_owned())],
                    execution_context_id,
                    await_promise: None,
                    return_by_value: None,
                    user_gesture: None,
                };
                proof {
                    assert(params@.arguments =~= seq![ArgumentView::Text(html@)]);
                }
                Some(self.evaluate_function(params))
            },
            None => None,
        }
    }

    /// The title of the document, by what `document.title` gave. An empty title is
    /// none.
    pub fn get_title(title: String) -> (found: Option<String>)
        ensures
            opt_text(found) == if title@.len() == 0 {
                None
            } else {
                Some(title@)
            },
    {
        if title.as_str().is_empty() {
            None
        } else {
            Some(title)
        }
    }
}

} // verus!
