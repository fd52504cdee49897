use vstd::prelude::*;
use crate::color::{Rgb, resolve, resolve_fill};
use crate::error::SignError;
use crate::text::{
    find_from, lemma_find_from_bounds, find_char, is_space, is_number, is_positive_number,
    check_number, check_positive_number, same_text,
};

verus! {

/// One parsed drawable, not yet placed in a scene. Numbers and path commands
/// are kept as written in the template.
#[derive(Clone, Debug, PartialEq, Eq)]
pub enum DrawIntent {
    Path { commands: String, fill: Rgb },
    Circle { cx: String, cy: String, radius: String, fill: Rgb, temp_marker: bool },
    TextPlaceholder { initial_value: String },
}

/// The mathematical value of a `DrawIntent`.
pub enum IntentModel {
    Path { commands: Seq<char>, fill: Rgb },
    Circle { cx: Seq<char>, cy: Seq<char>, radius: Seq<char>, fill: Rgb, temp_marker: bool },
    TextPlaceholder { initial_value: Seq<char> },
}

impl View for DrawIntent {
    type V = IntentModel;

    open spec fn view(&self) -> IntentModel {
        match self {
            DrawIntent::Path { commands, fill } => IntentModel::Path {
                commands: commands@,
                fill: *fill,
            },
            DrawIntent::Circle { cx, cy, radius, fill, temp_marker } => IntentModel::Circle {
                cx: cx@,
                cy: cy@,
                radius: radius@,
                fill: *fill,
                temp_marker: *temp_marker,
            },
            DrawIntent::TextPlaceholder { initial_value } => IntentModel::TextPlaceholder {
                initial_value: initial_value@,
            },
        }
    }
}

pub open spec fn intents_view(v: Seq<DrawIntent>) -> Seq<IntentModel> {
    v.map_values(|d: DrawIntent| d@)
}

pub open spec fn key_path() -> Seq<char> {
    seq!['p', 'a', 't', 'h']
}

pub open spec fn key_circle() -> Seq<char> {
    seq!['c', 'i', 'r', 'c', 'l', 'e']
}

pub open spec fn key_text_placeholder() -> Seq<char> {
    seq!['t', 'e', 'x', 't', '-', 'p', 'l', 'a', 'c', 'e', 'h', 'o', 'l', 'd', 'e', 'r']
}

pub open spec fn key_d() -> Seq<char> {
    seq!['d']
}

pub open spec fn key_fill() -> Seq<char> {
    seq!['f', 'i', 'l', 'l']
}

pub open spec fn key_cx() -> Seq<char> {
    seq!['c', 'x']
}

pub open spec fn key_cy() -> Seq<char> {
    seq!['c', 'y']
}

pub open spec fn key_r() -> Seq<char> {
    seq!['r']
}

pub open spec fn key_temp_marker() -> Seq<char> {
    seq!['t', 'e', 'm', 'p', 'M', 'a', 'r', 'k', 'e', 'r']
}

pub open spec fn key_value() -> Seq<char> {
    seq!['v', 'a', 'l', 'u', 'e']
}

pub open spec fn ends_name(c: char) -> bool {
    is_space(c) || c == '/'
}

/// End of the tag name that begins a tag body, scanning from `i`.
pub open spec fn name_end(b: Seq<char>, i: nat) -> nat
    decreases b.len() - i,
{
    if i >= b.len() {
        b.len()
    } else if ends_name(b[i as int]) {
        i
    } else {
        name_end(b, i + 1)
    }
}

/// The name of a tag, given the text between its `<` and `>`.
pub open spec fn tag_name(b: Seq<char>) -> Seq<char> {
    b.subrange(0, name_end(b, 0) as int)
}

/// A blank at `i`, then `key="`.
pub open spec fn attr_opens_at(b: Seq<char>, i: nat, key: Seq<char>) -> bool {
    &&& i + key.len() + 3 <= b.len()
    &&& is_space(b[i as int])
    &&& b.subrange(i + 1 as int, i + 1 + key.len() as int) == key
    &&& b[i + 1 + key.len() as int] == '='
    &&& b[i + 2 + key.len() as int] == '"'
}

/// The value of the first `key="..."` at or after `i`.
pub open spec fn attr_from(b: Seq<char>, key: Seq<char>, i: nat) -> Option<Seq<char>>
    decreases b.len() - i,
{
    if i >= b.len() {
        None
    } else if attr_opens_at(b, i, key) {
        let start = i + key.len() + 3;
        let end = find_from(b, start, '"');
        if end >= b.len() {
            None
        } else {
            Some(b.subrange(start as int, end as int))
        }
    } else {
        attr_from(b, key, i + 1)
    }
}

/// The value of attribute `key` in a tag body.
pub open spec fn attr(b: Seq<char>, key: Seq<char>) -> Option<Seq<char>> {
    attr_from(b, key, 0)
}

pub open spec fn path_intent(b: Seq<char>) -> Result<IntentModel, SignError> {
    match attr(b, key_d()) {
        Some(d) => if d.len() == 0 {
            Err(SignError::MalformedMarkup)
        } else {
            match resolve_fill(attr(b, key_fill())) {
                Ok(c) => Ok(IntentModel::Path { commands: d, fill: c }),
                Err(e) => Err(e),
            }
        },
        None => Err(SignError::MalformedMarkup),
    }
}

pub open spec fn circle_intent(b: Seq<char>) -> Result<IntentModel, SignError> {
    match (attr(b, key_cx()), attr(b, key_cy()), attr(b, key_r())) {
        (Some(x), Some(y), Some(r)) => if is_number(x) && is_number(y) && is_positive_number(r) {
            match resolve_fill(attr(b, key_fill())) {
                Ok(c) => Ok(
                    IntentModel::Circle {
                        cx: x,
                        cy: y,
                        radius: r,
                        fill: c,
                        temp_marker: match attr(b, key_temp_marker()) {
                            Some(v) => v.len() > 0,
                            None => false,
                        },
                    },
                ),
                Err(e) => Err(e),
            }
        } else {
            Err(SignError::MalformedMarkup)
        },
        _ => Err(SignError::MalformedMarkup),
    }
}

pub open spec fn text_intent(b: Seq<char>) -> Result<IntentModel, SignError> {
    match attr(b, key_value()) {
        Some(v) => Ok(IntentModel::TextPlaceholder { initial_value: v }),
        None => Err(SignError::MalformedMarkup),
    }
}

/// What one tag body contributes: nothing for an unknown tag, else its
/// intent or the reason it is malformed.
pub open spec fn tag_intent(b: Seq<char>) -> Option<Result<IntentModel, SignError>> {
    let name = tag_name(b);
    if name == key_path() {
        Some(path_intent(b))
    } else if name == key_circle() {
        Some(circle_intent(b))
    } else if name == key_text_placeholder() {
        Some(text_intent(b))
    } else {
        None
    }
}

/// The intents of the tags that open at or after `i`, in document order, or
/// the first error among them.
pub open spec fn parse_from(s: Seq<char>, i: nat) -> Result<Seq<IntentModel>, SignError>
    decreases s.len() - i,
    via parse_from_decreases
{
    if i >= s.len() {
        Ok(seq![])
    } else {
        let lt = find_from(s, i, '<');
        if lt >= s.len() {
            Ok(seq![])
        } else {
            let gt = find_from(s, lt + 1, '>');
            let rest = if gt < s.len() {
                parse_from(s, gt + 1)
            } else {
                Ok(seq![])
            };
            match tag_intent(s.subrange(lt + 1 as int, gt as int)) {
                None => rest,
                Some(Err(e)) => Err(e),
                Some(Ok(x)) => match rest {
                    Ok(v) => Ok(seq![x] + v),
                    Err(e) => Err(e),
                },
            }
        }
    }
}

#[via_fn]
proof fn parse_from_decreases(s: Seq<char>, i: nat) {
    if i < s.len() {
        lemma_find_from_bounds(s, i, '<');
        let lt = find_from(s, i, '<');
        if lt < s.len() {
            lemma_find_from_bounds(s, lt + 1, '>');
        }
    }
}

/// The scene description that a template denotes.
pub open spec fn parse_markup(s: Seq<char>) -> Result<Seq<IntentModel>, SignError> {
    parse_from(s, 0)
}

pub open spec fn prepend(v: Seq<IntentModel>, r: Result<Seq<IntentModel>, SignError>) -> Result<
    Seq<IntentModel>,
    SignError,
> {
    match r {
        Ok(w) => Ok(v + w),
        Err(e) => Err(e),
    }
}

pub open spec fn str_opt(o: Option<&str>) -> Option<Seq<char>> {
    match o {
        Some(s) => Some(s@),
        None => None,
    }
}

pub open spec fn intent_result_view(r: Result<DrawIntent, SignError>) -> Result<IntentModel, SignError> {
    match r {
        Ok(d) => Ok(d@),
        Err(e) => Err(e),
    }
}

pub open spec fn intents_result_view(r: Result<Vec<DrawIntent>, SignError>) -> Result<
    Seq<IntentModel>,
    SignError,
> {
    match r {
        Ok(v) => Ok(intents_view(v@)),
        Err(e) => Err(e),
    }
}

fn name_end_of(b: &str, n: usize) -> (r: usize)
    requires
        n == b@.len(),
    ensures
        r == name_end(b@, 0),
        r <= n,
{
    let mut j: usize = 0;
    while j < n
        invariant
            n == b@.len(),
            j <= n,
            name_end(b@, 0) == name_end(b@, j as nat),
        decreases n - j,
    {
        let c = b.get_char(j);
        if c == ' ' || c == '\n' || c == '\t' || c == '\r' || c == '/' {
            return j;
        }
        j = j + 1;
    }
    j
}

fn opens_at(b: &str, n: usize, i: usize, key: &str, k: usize) -> (r: bool)
    requires
        n == b@.len(),
        k == key@.len(),
        i < n,
    ensures
        r == attr_opens_at(b@, i as nat, key@),
{
    if k > n - i || n - i - k < 3 {
        return false;
    }
    let c = b.get_char(i);
    if !(c == ' ' || c == '\n' || c == '\t' || c == '\r') {
        return false;
    }
    let mut j: usize = 0;
    while j < k
        invariant
            n == b@.len(),
            k == key@.len(),
            i + k + 3 <= n,
            j <= k,
            forall|t: int| 0 <= t < j ==> b@[i + 1 + t] == key@[t],
        decreases k - j,
    {
        if b.get_char(i + 1 + j) != key.get_char(j) {
            assert(b@.subrange(i + 1 as int, i + 1 + k as int)[j as int] != key@[j as int]);
            return false;
        }
        j = j + 1;
    }
    assert(b@.subrange(i + 1 as int, i + 1 + k as int) =~= key@);
    b.get_char(i + 1 + k) == '=' && b.get_char(i + 2 + k) == '"'
}

/// The value of attribute `key` in the tag body `b`.
pub fn attr_value<'a>(b: &'a str, key: &str) -> (r: Option<&'a str>)
    ensures
        str_opt(r) == attr(b@, key@),
{
    let n = b.unicode_len();
    let k = key.unicode_len();
    let mut i: usize = 0;
    while i < n
        invariant
            n == b@.len(),
            k == key@.len(),
            i <= n,
            attr(b@, key@) == attr_from(b@, key@, i as nat),
        decreases n - i,
    {
        if opens_at(b, n, i, key, k) {
            let start = i + k + 3;
            let end = find_char(b, n, start, '"');
            if end >= n {
                return None;
            }
            return Some(b.substring_char(start, end));
        }
        i = i + 1;
    }
    None
}

fn path_intent_of(b: &str) -> (r: Result<DrawIntent, SignError>)
    ensures
        intent_result_view(r) == path_intent(b@),
{
    proof {
        reveal_strlit("d");
        reveal_strlit("fill");
        assert("d"@ =~= key_d());
        assert("fill"@ =~= key_fill());
    }
    match attr_value(b, "d") {
        None => Err(SignError::MalformedMarkup),
        Some(d) => {
            if d.unicode_len() == 0 {
                return Err(SignError::MalformedMarkup);
            }
            match resolve(attr_value(b, "fill")) {
                Ok(c) => Ok(DrawIntent::Path { commands: String::from_str(d), fill: c }),
                Err(e) => Err(e),
            }
        },
    }
}

fn circle_intent_of(b: &str) -> (r: Result<DrawIntent, SignError>)
    ensures
        intent_result_view(r) == circle_intent(b@),
{
    proof {
        reveal_strlit("cx");
        reveal_strlit("cy");
        reveal_strlit("r");
        reveal_strlit("fill");
        reveal_strlit("tempMarker");
        assert("cx"@ =~= key_cx());
        assert("cy"@ =~= key_cy());
        assert("r"@ =~= key_r());
        assert("fill"@ =~= key_fill());
        assert("tempMarker"@ =~= key_temp_marker());
    }
    match (attr_value(b, "cx"), attr_value(b, "cy"), attr_value(b, "r")) {
        (Some(x), Some(y), Some(r)) => {
            if !(check_number(x) && check_number(y) && check_positive_number(r)) {
                return Err(SignError::MalformedMarkup);
            }
            match resolve(attr_value(b, "fill")) {
                Ok(c) => {
                    let temp_marker = match attr_value(b, "tempMarker") {
                        Some(v) => v.unicode_len() > 0,
                        None => false,
                    };
                    Ok(
                        DrawIntent::Circle {
                            cx: String::from_str(x),
                            cy: String::from_str(y),
                            radius: String::from_str(r),
                            fill: c,
                            temp_marker,
                        },
                    )
                },
                Err(e) => Err(e),
            }
        },
        _ => Err(SignError::MalformedMarkup),
    }
}

fn text_intent_of(b: &str) -> (r: Result<DrawIntent, SignError>)
    ensures
        intent_result_view(r) == text_intent(b@),
{
    proof {
        reveal_strlit("value");
        assert("value"@ =~= key_value());
    }
    match attr_value(b, "value") {
        Some(v) => Ok(DrawIntent::TextPlaceholder { initial_value: String::from_str(v) }),
        None => Err(SignError::MalformedMarkup),
    }
}

/// The intent of one tag, given the text between its `<` and `>`.
pub fn tag_intent_of(b: &str) -> (r: Option<Result<DrawIntent, SignError>>)
    ensures
        match r {
            Some(x) => tag_intent(b@) == Some(intent_result_view(x)),
            None => tag_intent(b@) is None,
        },
{
    let n = b.unicode_len();
    let e = name_end_of(b, n);
    let name = b.substring_char(0, e);
    proof {
        reveal_strlit("path");
        reveal_strlit("circle");
        reveal_strlit("text-placeholder");
        assert("path"@ =~= key_path());
        assert("circle"@ =~= key_circle());
        assert("text-placeholder"@ =~= key_text_placeholder());
    }
    if same_text(name, "path") {
        Some(path_intent_of(b))
    } else if same_text(name, "circle") {
        Some(circle_intent_of(b))
    } else if same_text(name, "text-placeholder") {
        Some(text_intent_of(b))
    } else {
        None
    }
}

/// Reads a template into its scene description: one intent per `path`,
/// `circle` and `text-placeholder` tag, in document order; other tags are
/// skipped.
pub fn parse(template: &str) -> (r: Result<Vec<DrawIntent>, SignError>)
    ensures
        intents_result_view(r) == parse_markup(template@),
{
    let n = template.unicode_len();
    let mut out: Vec<DrawIntent> = Vec::new();
    let mut i: usize = 0;
    while i < n
        invariant
            n == template@.len(),
            i <= n,
            parse_markup(template@) == prepend(intents_view(out@), parse_from(template@, i as nat)),
        decreases n - i,
    {
        let lt = find_char(template, n, i, '<');
        if lt >= n {
            assert(intents_view(out@) + seq![] =~= intents_view(out@));
            return Ok(out);
        }
        let gt = find_char(template, n, lt + 1, '>');
        let body = template.substring_char(lt + 1, gt);
        let ghost before = intents_view(out@);
        let ghost rest = if gt < n {
            parse_from(template@, (gt + 1) as nat)
        } else {
            Ok(seq![])
        };
        match tag_intent_of(body) {
            None => {},
            Some(Err(e)) => {
                return Err(e);
            },
            Some(Ok(x)) => {
                out.push(x);
                proof {
                    assert(intents_view(out@) =~= before + seq![x@]);
                    if let Ok(w) = rest {
                        assert(before + (seq![x@] + w) =~= (before + seq![x@]) + w);
                    }
                }
            },
        }
        i = if gt < n {
            gt + 1
        } else {
            n
        };
    }
    assert(intents_view(out@) + seq![] =~= intents_view(out@));
    Ok(out)
}

} // verus!
