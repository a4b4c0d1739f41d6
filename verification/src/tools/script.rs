//! The scripts that are run in a page, and what is read from their results.
use vstd::prelude::*;

use crate::error::{Failure, Refusal};
use crate::json::{items, lemma_array_view, Json, JsonView, Number};
use crate::outside::{
    ascii_bounded, json_quoted, json_string, no_ascii_neighbour, regex_found, regex_is_match,
};
use crate::text::{cat3, opt_text, same_text, starts_with};
use crate::tools::args::Read;

verus! {

/// The pattern of the word `return`.
pub const RETURN_WORD: &'static str = "\\breturn\\b";

/// The function that is made of a text: where it is a body, with a `return` of
/// its own, the function runs it; where it is an expression, the function hands
/// its value back.
pub open spec fn function_text(text: Seq<char>, body: bool) -> Seq<char> {
    if body {
        "async function() { "@ + text + " }"@
    } else {
        "async function() { return ("@ + text + "); }"@
    }
}

/// The function that is made of a text, given whether it is a body or an
/// expression.
pub fn wrap_expression(text: &str, body: bool) -> (r: String)
    ensures
        r@ == function_text(text@, body),
{
    if body {
        cat3("async function() { ", text, " }")
    } else {
        cat3("async function() { return (", text, "); }")
    }
}

/// The function that is run first: the one that hands back the value of the
/// expression, whatever stands inside it. Of a text that is no expression it is
/// no JavaScript, and [`body_function`] says what to run instead.
pub fn evaluate_function(expression: &str) -> (r: String)
    ensures
        r@ == function_text(expression@, false),
{
    wrap_expression(expression, false)
}

/// The function that is run where a text is no expression: a text with the word
/// `return` in it may be a body.
pub open spec fn body_text(text: Seq<char>) -> Option<Seq<char>> {
    if regex_found(RETURN_WORD@, text) == Some(true) {
        Some(function_text(text, true))
    } else {
        None
    }
}

/// The function that is run where a text is no expression. What counts is
/// whether the word `return` stands in it; a longer word such as `returnValue` is
/// another.
pub fn body_function(text: &str) -> (r: Option<String>)
    ensures
        opt_text(r) == body_text(text@),
        (exists|i: int| ascii_bounded(text@, "return"@, i)) ==> opt_text(r) == Some(
            function_text(text@, true),
        ),
        (forall|i: int| !no_ascii_neighbour(text@, "return"@, i)) ==> r is None,
{
    match regex_is_match(RETURN_WORD, text) {
        Some(true) => Some(wrap_expression(text, true)),
        _ => None,
    }
}

/// Whether what Chrome tells of an exception says that the function is no
/// JavaScript. Once an `async` function runs, whatever it throws is told as a
/// rejected promise; what is told otherwise came before it ran.
pub fn is_syntax_error(text: &str, class_name: &str) -> (r: bool)
    ensures
        r == (class_name@ == "SyntaxError"@ && !"Uncaught (in promise)"@.is_prefix_of(text@)),
{
    same_text(class_name, "SyntaxError") && !starts_with(text, "Uncaught (in promise)")
}

/// The expression that calls a function in the page's own world.
pub fn main_world_call(function: &str) -> (r: String)
    ensures
        r@ == "("@ + function@ + ")()"@,
{
    cat3("(", function, ")()")
}

/// The world that a script runs in.
#[derive(Debug, Clone, Copy, PartialEq, Eq, Structural)]
pub enum World {
    /// The page's own, where its variables can be read.
    Main,
    /// One beside it, which the page's scripts cannot see.
    Isolated,
}

/// The world that scripts of a session run in: under stealth, one that the page
/// cannot see.
pub fn world_for(stealth: bool) -> (r: World)
    ensures
        r == (if stealth {
            World::Isolated
        } else {
            World::Main
        }),
{
    if stealth {
        World::Isolated
    } else {
        World::Main
    }
}

/// The function that says whether a text stands on the page.
pub fn text_probe(needle: &str) -> (r: String)
    ensures
        r@ == "function() { return document.body && document.body.innerText && document.body.innerText.includes("@
            + json_quoted(needle@) + "); }"@,
{
    let quoted = quoted_or(needle, "''");
    cat3(
        "function() { return document.body && document.body.innerText && document.body.innerText.includes(",
        quoted.as_str(),
        "); }",
    )
}

/// The JSON string of a text.
fn quoted_or(s: &str, other: &str) -> (r: String)
    ensures
        r@ == json_quoted(s@),
{
    match json_string(s) {
        Ok(t) => t,
        Err(_) => other.to_string(),
    }
}

/// The function that brings the first element of a selector into view and says
/// where its middle is.
pub fn center_probe(selector: &str) -> (r: String)
    ensures
        r@ == "function() { const el = document.querySelector("@ + json_quoted(selector@)
            + "); if (!el) return null; el.scrollIntoView({block:'center',inline:'center'}); const r = el.getBoundingClientRect(); return [r.left + r.width/2, r.top + r.height/2]; }"@,
{
    let quoted = quoted_or(selector, "''");
    cat3(
        "function() { const el = document.querySelector(",
        quoted.as_str(),
        "); if (!el) return null; el.scrollIntoView({block:'center',inline:'center'}); const r = el.getBoundingClientRect(); return [r.left + r.width/2, r.top + r.height/2]; }",
    )
}

/// The function that empties an input.
pub const CLEAR_VALUE: &'static str =
    "function() { if (this.value !== undefined) this.value = ''; }";

/// The value of a script, or a refusal where it threw. A script without a value
/// has the value null.
pub fn script_result(exception: Option<String>, value: Option<Json>) -> (r: Result<Json, Refusal>)
    ensures
        match r {
            Ok(j) => {
                &&& exception is None
                &&& j@ == (match value {
                    Some(v) => v@,
                    None => JsonView::Null,
                })
            },
            Err(e) => {
                &&& exception is Some
                &&& e@ == Failure::JsException { message: exception->0@ }
            },
        },
{
    match exception {
        Some(message) => Err(Failure::JsException { message }),
        None => match value {
            Some(v) => Ok(v),
            None => Ok(Json::Null),
        },
    }
}

/// Whether the value of a probe is true.
pub fn is_true(value: &Json) -> (r: bool)
    ensures
        r == (value@ == JsonView::Bool(true)),
{
    match value {
        Json::Bool(b) => *b,
        _ => false,
    }
}

/// The middle of an element, from what the page said of it.
pub open spec fn center(value: JsonView, selector: Seq<char>) -> Read<(Number, Number)> {
    match value {
        JsonView::Array(v) => if v.len() == 2 {
            match (v[0], v[1]) {
                (JsonView::Number(x), JsonView::Number(y)) => Ok((x, y)),
                (JsonView::Number(_), _) => Err(Failure::BadCoordinate { axis: "y"@ }),
                _ => Err(Failure::BadCoordinate { axis: "x"@ }),
            }
        } else {
            Err(Failure::ElementNotFound { selector })
        },
        _ => Err(Failure::ElementNotFound { selector }),
    }
}

/// The middle of an element, from what the page said of it.
pub fn element_center(value: &Json, selector: &str) -> (r: Result<(Number, Number), Refusal>)
    ensures
        match r {
            Ok(p) => center(value@, selector@) == Read::<(Number, Number)>::Ok(p),
            Err(e) => center(value@, selector@) == Read::<(Number, Number)>::Err(e@),
        },
{
    match value {
        Json::Array(v) => {
            proof {
                lemma_array_view(*v);
            }
            if v.len() != 2 {
                return Err(Failure::ElementNotFound { selector: selector.to_string() });
            }
            proof {
                assert(items(v@)[0] == v@[0]@);
                assert(items(v@)[1] == v@[1]@);
            }
            let x = match &v[0] {
                Json::Number(n) => *n,
                _ => {
                    return Err(Failure::BadCoordinate { axis: "x".to_string() });
                },
            };
            let y = match &v[1] {
                Json::Number(n) => *n,
                _ => {
                    return Err(Failure::BadCoordinate { axis: "y".to_string() });
                },
            };
            Ok((x, y))
        },
        _ => Err(Failure::ElementNotFound { selector: selector.to_string() }),
    }
}

/// The two numbers that the page gives are the point, in their order; what is not
/// two values says that there is no such element, and a value that is no number
/// which of the two it is.
pub proof fn law_center_is_read(
    x: Number,
    y: Number,
    v: JsonView,
    list: Seq<JsonView>,
    selector: Seq<char>,
)
    requires
        !(v is Number),
        list.len() != 2,
    ensures
        center(JsonView::Array(seq![JsonView::Number(x), JsonView::Number(y)]), selector) == Read::<
            (Number, Number),
        >::Ok((x, y)),
        center(JsonView::Array(seq![v, JsonView::Number(y)]), selector) == Read::<
            (Number, Number),
        >::Err(Failure::BadCoordinate { axis: "x"@ }),
        center(JsonView::Array(seq![JsonView::Number(x), v]), selector) == Read::<
            (Number, Number),
        >::Err(Failure::BadCoordinate { axis: "y"@ }),
        center(JsonView::Array(list), selector) == Read::<(Number, Number)>::Err(
            Failure::ElementNotFound { selector },
        ),
        center(JsonView::Null, selector) == Read::<(Number, Number)>::Err(
            Failure::ElementNotFound { selector },
        ),
{
}

/// The text stands in its function as it is, in brackets behind a `return` where it
/// is an expression, and alone where it is a body.
pub proof fn law_text_stands_in_its_function(text: Seq<char>)
    ensures
        function_text(text, false) == "async function() { return ("@ + text + "); }"@,
        function_text(text, true) == "async function() { "@ + text + " }"@,
        body_text(text) matches Some(f) ==> f == "async function() { "@ + text + " }"@,
{
}

}
