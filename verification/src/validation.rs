//! The validation layer: the rules that a field can be held to, and the
//! violations that a candidate entity is turned away with.

use vstd::prelude::*;
use crate::json;

verus! {

/// A value that a violation carries along: the bound that was missed, or the
/// value that missed it.
#[derive(Debug, PartialEq, Eq)]
pub enum ParamValue {
    Null,
    Number(u64),
    Text(String),
    TextList(Vec<String>),
}

pub enum ParamValueView {
    Null,
    Number(u64),
    Text(Seq<char>),
    TextList(Seq<Seq<char>>),
}

impl DeepView for ParamValue {
    type V = ParamValueView;

    open spec fn deep_view(&self) -> ParamValueView {
        match self {
            ParamValue::Null => ParamValueView::Null,
            ParamValue::Number(n) => ParamValueView::Number(*n),
            ParamValue::Text(s) => ParamValueView::Text(s@),
            ParamValue::TextList(l) => ParamValueView::TextList(l.deep_view()),
        }
    }
}

/// One rule that one field broke: the rule's code, the message for a human
/// reader where the rule has one, and the rule's parameters.
#[derive(Debug, PartialEq, Eq)]
pub struct ValidationError {
    pub code: String,
    pub message: Option<String>,
    pub params: Vec<(String, ParamValue)>,
}

pub struct ValidationErrorView {
    pub code: Seq<char>,
    pub message: Option<Seq<char>>,
    pub params: Seq<(Seq<char>, ParamValueView)>,
}

impl DeepView for ValidationError {
    type V = ValidationErrorView;

    open spec fn deep_view(&self) -> ValidationErrorView {
        ValidationErrorView {
            code: self.code@,
            message: self.message.deep_view(),
            params: self.params.deep_view(),
        }
    }
}

/// The violations of an entity: each field that broke a rule, in the order of
/// the entity's fields, with the rules it broke, in the order of its rules.
/// A field without violations has no entry.
#[derive(Debug, PartialEq, Eq)]
pub struct ValidationErrors {
    pub fields: Vec<(String, Vec<ValidationError>)>,
}

pub type ValidationErrorsView = Seq<(Seq<char>, Seq<ValidationErrorView>)>;

impl DeepView for ValidationErrors {
    type V = ValidationErrorsView;

    open spec fn deep_view(&self) -> ValidationErrorsView {
        self.fields.deep_view()
    }
}

/// Whether a length lies within the bounds that are set. Where `equal` is
/// set, it alone decides.
pub open spec fn length_within(
    length: nat,
    min: Option<u64>,
    max: Option<u64>,
    equal: Option<u64>,
) -> bool {
    match equal {
        Some(e) => length == e,
        None => (min matches Some(m) ==> length >= m) && (max matches Some(m) ==> length <= m),
    }
}

/// What the length rule measures: the characters of a text, the elements of
/// a list.
pub open spec fn measure(value: ParamValueView) -> nat {
    match value {
        ParamValueView::Text(s) => s.len(),
        ParamValueView::TextList(l) => l.len(),
        _ => 0,
    }
}

/// A text field's value, as the length rule takes it.
pub open spec fn text_value(value: Option<Seq<char>>) -> Option<ParamValueView> {
    match value {
        Some(s) => Some(ParamValueView::Text(s)),
        None => None,
    }
}

/// A list field's value, as the length rule takes it.
pub open spec fn list_value(value: Option<Seq<Seq<char>>>) -> Option<ParamValueView> {
    match value {
        Some(l) => Some(ParamValueView::TextList(l)),
        None => None,
    }
}

/// The bounds of a length rule, as the parameters of its violation.
pub open spec fn bound_params(min: Option<u64>, max: Option<u64>) -> Seq<
    (Seq<char>, ParamValueView),
> {
    let lower = match min {
        Some(m) => seq![("min"@, ParamValueView::Number(m))],
        None => Seq::empty(),
    };
    let upper = match max {
        Some(m) => seq![("max"@, ParamValueView::Number(m))],
        None => Seq::empty(),
    };
    lower + upper
}

/// The rule that a field be present: broken by an absent field.
pub open spec fn required_rule(present: bool, message: Option<Seq<char>>) -> Seq<
    ValidationErrorView,
> {
    if present {
        Seq::empty()
    } else {
        seq![
            ValidationErrorView {
                code: "required"@,
                message,
                params: seq![("value"@, ParamValueView::Null)],
            },
        ]
    }
}

/// The rule that a field's length lie within bounds: broken by a present
/// field whose length does not. An absent field does not break it.
pub open spec fn length_rule(
    value: Option<ParamValueView>,
    min: Option<u64>,
    max: Option<u64>,
    message: Option<Seq<char>>,
) -> Seq<ValidationErrorView> {
    match value {
        Some(v) => if length_within(measure(v), min, max, None) {
            Seq::empty()
        } else {
            seq![
                ValidationErrorView {
                    code: "length"@,
                    message,
                    params: bound_params(min, max).push(("value"@, v)),
                },
            ]
        },
        None => Seq::empty(),
    }
}

/// The rule that a list field hold at least one element: broken by a present
/// list without elements, which is then shown as the empty list that it is.
/// An absent field does not break it.
pub open spec fn non_empty_rule(items: Option<nat>, message: Option<Seq<char>>) -> Seq<
    ValidationErrorView,
> {
    match items {
        Some(n) => if n >= 1 {
            Seq::empty()
        } else {
            seq![
                ValidationErrorView {
                    code: "length"@,
                    message,
                    params: seq![
                        ("min"@, ParamValueView::Number(1)),
                        ("value"@, ParamValueView::TextList(Seq::empty())),
                    ],
                },
            ]
        },
        None => Seq::empty(),
    }
}

/// The rule that a field hold an e-mail address: broken by a present field
/// whose text is not well formed. An absent field does not break it.
pub open spec fn email_rule(
    value: Option<Seq<char>>,
    well_formed: bool,
    message: Option<Seq<char>>,
) -> Seq<ValidationErrorView> {
    match value {
        Some(v) => if well_formed {
            Seq::empty()
        } else {
            seq![
                ValidationErrorView {
                    code: "email"@,
                    message,
                    params: seq![("value"@, ParamValueView::Text(v))],
                },
            ]
        },
        None => Seq::empty(),
    }
}

/// The entry that a field contributes to the violations of its entity: none
/// where it broke no rule.
pub open spec fn field_entry(
    name: Seq<char>,
    found: Seq<ValidationErrorView>,
) -> ValidationErrorsView {
    if found.len() == 0 {
        Seq::empty()
    } else {
        seq![(name, found)]
    }
}

/// What validation answers: the violations, where there are any.
pub open spec fn outcome(errors: ValidationErrorsView) -> Result<(), ValidationErrorsView> {
    if errors.len() == 0 {
        Ok(())
    } else {
        Err(errors)
    }
}

/// The view of a validation answer.
pub open spec fn outcome_view(r: Result<(), ValidationErrors>) -> Result<(), ValidationErrorsView> {
    match r {
        Ok(()) => Ok(()),
        Err(e) => Err(e.deep_view()),
    }
}

/// Whether the text is well formed as an e-mail address, by the rules of the
/// HTML5 specification for such addresses.
pub uninterp spec fn well_formed_email(address: Seq<char>) -> bool;

/// `validator::validate_email` on a string slice. The contract claims that
/// its verdict depends on the text alone.
#[verifier::external_body]
pub(crate) fn validate_email(address: &str) -> (ok: bool)
    ensures
        ok == well_formed_email(address@),
{
    validator::validate_email(address)
}

/// Whether `length` lies within the bounds that are set.
pub fn validate_length(length: u64, min: Option<u64>, max: Option<u64>, equal: Option<u64>) -> (ok:
    bool)
    ensures
        ok == length_within(length as nat, min, max, equal),
{
    if let Some(e) = equal {
        return length == e;
    }
    if let Some(m) = min {
        if length < m {
            return false;
        }
    }
    if let Some(m) = max {
        if length > m {
            return false;
        }
    }
    true
}

/// A copy of `texts`.
pub fn copy_texts(texts: &Vec<String>) -> (copy: Vec<String>)
    ensures
        copy.deep_view() == texts.deep_view(),
{
    let mut copy: Vec<String> = Vec::new();
    let mut i: usize = 0;
    while i < texts.len()
        invariant
            i <= texts.len(),
            copy.len() == i,
            forall|j: int| 0 <= j < i ==> copy[j]@ == texts[j]@,
        decreases texts.len() - i,
    {
        copy.push(texts[i].clone());
        i += 1;
    }
    assert(copy.deep_view() =~= texts.deep_view());
    copy
}

fn owned(message: Option<&str>) -> (m: Option<String>)
    ensures
        m.deep_view() == message.deep_view(),
{
    match message {
        Some(text) => Some(text.to_owned()),
        None => None,
    }
}

fn bounds(min: Option<u64>, max: Option<u64>) -> (params: Vec<(String, ParamValue)>)
    ensures
        params.deep_view() == bound_params(min, max),
{
    let mut params: Vec<(String, ParamValue)> = Vec::new();
    if let Some(m) = min {
        params.push(("min".to_owned(), ParamValue::Number(m)));
    }
    if let Some(m) = max {
        params.push(("max".to_owned(), ParamValue::Number(m)));
    }
    assert(params.deep_view() =~= bound_params(min, max));
    params
}

/// Holds a field to the rule that it be present, and adds the violation, if
/// there is one, to `found`.
pub fn check_required(present: bool, message: Option<&str>, found: &mut Vec<ValidationError>)
    ensures
        final(found).deep_view() == old(found).deep_view() + required_rule(
            present,
            message.deep_view(),
        ),
{
    if !present {
        let mut params: Vec<(String, ParamValue)> = Vec::new();
        params.push(("value".to_owned(), ParamValue::Null));
        assert(params.deep_view() =~= seq![("value"@, ParamValueView::Null)]);
        found.push(
            ValidationError { code: "required".to_owned(), message: owned(message), params },
        );
    }
    assert(found.deep_view() =~= old(found).deep_view() + required_rule(
        present,
        message.deep_view(),
    ));
}

fn check_length(
    value: Option<ParamValue>,
    length: u64,
    min: Option<u64>,
    max: Option<u64>,
    message: Option<&str>,
    found: &mut Vec<ValidationError>,
)
    requires
        value matches Some(v) ==> length == measure(v.deep_view()),
    ensures
        final(found).deep_view() == old(found).deep_view() + length_rule(
            value.deep_view(),
            min,
            max,
            message.deep_view(),
        ),
{
    if let Some(v) = value {
        if !validate_length(length, min, max, None) {
            let mut params = bounds(min, max);
            let ghost before = params.deep_view();
            let ghost shown = v.deep_view();
            params.push(("value".to_owned(), v));
            assert(params.deep_view() =~= before.push(("value"@, shown)));
            found.push(
                ValidationError { code: "length".to_owned(), message: owned(message), params },
            );
        }
    }
    assert(found.deep_view() =~= old(found).deep_view() + length_rule(
        value.deep_view(),
        min,
        max,
        message.deep_view(),
    ));
}

/// Holds a text field to bounds on the number of its characters, and adds
/// the violation, if there is one, to `found`.
pub fn check_text_length(
    value: &Option<String>,
    min: Option<u64>,
    max: Option<u64>,
    message: Option<&str>,
    found: &mut Vec<ValidationError>,
)
    ensures
        final(found).deep_view() == old(found).deep_view() + length_rule(
            text_value(value.deep_view()),
            min,
            max,
            message.deep_view(),
        ),
{
    match value {
        Some(s) => {
            let length = s.as_str().unicode_len() as u64;
            check_length(Some(ParamValue::Text(s.clone())), length, min, max, message, found);
        },
        None => {
            check_length(None, 0, min, max, message, found);
        },
    }
}

/// Holds a list field to bounds on the number of its elements, and adds the
/// violation, if there is one, to `found`.
pub fn check_list_length(
    value: &Option<Vec<String>>,
    min: Option<u64>,
    max: Option<u64>,
    message: Option<&str>,
    found: &mut Vec<ValidationError>,
)
    ensures
        final(found).deep_view() == old(found).deep_view() + length_rule(
            list_value(value.deep_view()),
            min,
            max,
            message.deep_view(),
        ),
{
    match value {
        Some(l) => {
            let length = l.len() as u64;
            let shown = ParamValue::TextList(copy_texts(l));
            check_length(Some(shown), length, min, max, message, found);
        },
        None => {
            check_length(None, 0, min, max, message, found);
        },
    }
}

/// Holds a list field to the rule that it hold at least one element, given
/// the number of its elements where it is present, and adds the violation,
/// if there is one, to `found`.
pub fn check_non_empty(
    items: Option<usize>,
    message: Option<&str>,
    found: &mut Vec<ValidationError>,
)
    ensures
        final(found).deep_view() == old(found).deep_view() + non_empty_rule(
            match items {
                Some(n) => Some(n as nat),
                None => None,
            },
            message.deep_view(),
        ),
{
    if let Some(n) = items {
        if n < 1 {
            let mut params: Vec<(String, ParamValue)> = Vec::new();
            params.push(("min".to_owned(), ParamValue::Number(1)));
            let shown: Vec<String> = Vec::new();
            assert(shown.deep_view() =~= Seq::<Seq<char>>::empty());
            params.push(("value".to_owned(), ParamValue::TextList(shown)));
            assert(params.deep_view() =~= seq![
                ("min"@, ParamValueView::Number(1)),
                ("value"@, ParamValueView::TextList(Seq::empty())),
            ]);
            found.push(
                ValidationError { code: "length".to_owned(), message: owned(message), params },
            );
        }
    }
    assert(found.deep_view() =~= old(found).deep_view() + non_empty_rule(
        match items {
            Some(n) => Some(n as nat),
            None => None,
        },
        message.deep_view(),
    ));
}

/// Holds a text field to the rule that it be a well-formed e-mail address,
/// given whether it is, and adds the violation, if there is one, to `found`.
pub fn check_email(
    value: &Option<String>,
    well_formed: bool,
    message: Option<&str>,
    found: &mut Vec<ValidationError>,
)
    ensures
        final(found).deep_view() == old(found).deep_view() + email_rule(
            value.deep_view(),
            well_formed,
            message.deep_view(),
        ),
{
    if let Some(s) = value {
        if !well_formed {
            let mut params: Vec<(String, ParamValue)> = Vec::new();
            params.push(("value".to_owned(), ParamValue::Text(s.clone())));
            assert(params.deep_view() =~= seq![("value"@, ParamValueView::Text(s@))]);
            found.push(
                ValidationError { code: "email".to_owned(), message: owned(message), params },
            );
        }
    }
    assert(found.deep_view() =~= old(found).deep_view() + email_rule(
        value.deep_view(),
        well_formed,
        message.deep_view(),
    ));
}

impl ValidationErrors {
    /// No violations.
    pub fn new() -> (errors: ValidationErrors)
        ensures
            errors.deep_view() == ValidationErrorsView::empty(),
    {
        let errors = ValidationErrors { fields: Vec::new() };
        assert(errors.deep_view() =~= Seq::empty());
        errors
    }

    /// Whether no field broke a rule.
    pub fn is_empty(&self) -> (empty: bool)
        ensures
            empty == (self.deep_view().len() == 0),
    {
        self.fields.len() == 0
    }

    /// Records what one field was found to break, if anything.
    pub fn add_field(&mut self, name: &str, found: Vec<ValidationError>)
        ensures
            final(self).deep_view() == old(self).deep_view() + field_entry(
                name@,
                found.deep_view(),
            ),
    {
        if found.len() > 0 {
            self.fields.push((name.to_owned(), found));
        }
        assert(self.deep_view() =~= old(self).deep_view() + field_entry(name@, found.deep_view()));
    }

    /// The answer of a validation that found these violations.
    pub fn into_result(self) -> (r: Result<(), ValidationErrors>)
        ensures
            outcome_view(r) == outcome(self.deep_view()),
    {
        if self.is_empty() {
            Ok(())
        } else {
            Err(self)
        }
    }
}

} // verus!

verus! {

/// Each text as a JSON string literal.
pub open spec fn literals(texts: Seq<Seq<char>>) -> Seq<Seq<char>> {
    texts.map_values(|s: Seq<char>| json::json_string(s))
}

/// The JSON text of a violation's parameter value.
pub open spec fn param_json(value: ParamValueView) -> Seq<char> {
    match value {
        ParamValueView::Null => "null"@,
        ParamValueView::Number(n) => json::decimal(n as nat),
        ParamValueView::Text(s) => json::json_string(s),
        ParamValueView::TextList(l) => json::array_text(literals(l)),
    }
}

/// The JSON member for a violation's parameter.
pub open spec fn param_member(param: (Seq<char>, ParamValueView)) -> (Seq<char>, Seq<char>) {
    (json::json_string(param.0), param_json(param.1))
}

/// The JSON members for a violation's parameters.
pub open spec fn param_members(params: Seq<(Seq<char>, ParamValueView)>) -> Seq<
    (Seq<char>, Seq<char>),
> {
    params.map_values(|p| param_member(p))
}

/// The JSON members of a violation: `code`, `message` and `params`.
pub open spec fn error_members(error: ValidationErrorView) -> Seq<(Seq<char>, Seq<char>)> {
    seq![
        ("\"code\""@, json::json_string(error.code)),
        (
            "\"message\""@,
            json::nullable(
                match error.message {
                    Some(m) => Some(json::json_string(m)),
                    None => None,
                },
            ),
        ),
        ("\"params\""@, json::object_text(param_members(error.params))),
    ]
}

/// The JSON text of a violation: an object of `code`, `message` and
/// `params`.
pub open spec fn error_json(error: ValidationErrorView) -> Seq<char> {
    json::object_text(error_members(error))
}

/// The JSON texts of a field's violations.
pub open spec fn error_texts(found: Seq<ValidationErrorView>) -> Seq<Seq<char>> {
    found.map_values(|e| error_json(e))
}

/// The JSON member for a field's violations: the field's name and the array
/// of its violations.
pub open spec fn field_member(field: (Seq<char>, Seq<ValidationErrorView>)) -> (
    Seq<char>,
    Seq<char>,
) {
    (json::json_string(field.0), json::array_text(error_texts(field.1)))
}

/// The JSON text of an entity's violations: an object with one member for
/// each field that broke a rule.
pub open spec fn errors_json(errors: ValidationErrorsView) -> Seq<char> {
    json::object_text(field_members(errors))
}

/// The JSON members for an entity's violations.
pub open spec fn field_members(errors: ValidationErrorsView) -> Seq<(Seq<char>, Seq<char>)> {
    errors.map_values(|f| field_member(f))
}

impl ParamValue {
    /// The value as JSON text.
    pub fn to_json(&self) -> (text: String)
        ensures
            text@ == param_json(self.deep_view()),
    {
        match self {
            ParamValue::Null => "null".to_owned(),
            ParamValue::Number(n) => json::number(*n),
            ParamValue::Text(s) => json::quote(s.as_str()),
            ParamValue::TextList(l) => {
                let mut items: Vec<String> = Vec::new();
                let ghost shown = literals(l.deep_view());
                let mut i: usize = 0;
                while i < l.len()
                    invariant
                        i <= l.len(),
                        items.len() == i,
                        shown == literals(l.deep_view()),
                        forall|j: int| 0 <= j < i ==> items[j]@ == shown[j],
                    decreases l.len() - i,
                {
                    items.push(json::quote(l[i].as_str()));
                    i += 1;
                }
                assert(items.deep_view() =~= shown);
                json::array(&items)
            },
        }
    }
}

impl ValidationError {
    /// The violation as JSON text.
    pub fn to_json(&self) -> (text: String)
        ensures
            text@ == error_json(self.deep_view()),
    {
        let mut params: Vec<(String, String)> = Vec::new();
        let ghost shown = param_members(self.params.deep_view());
        let mut i: usize = 0;
        while i < self.params.len()
            invariant
                i <= self.params.len(),
                params.len() == i,
                shown == param_members(self.params.deep_view()),
                forall|j: int| 0 <= j < i ==> params[j].deep_view() == shown[j],
            decreases self.params.len() - i,
        {
            let name = json::quote(self.params[i].0.as_str());
            let value = self.params[i].1.to_json();
            params.push((name, value));
            i += 1;
        }
        assert(params.deep_view() =~= shown);
        let message = match &self.message {
            Some(m) => json::quote(m.as_str()),
            None => "null".to_owned(),
        };
        let mut members: Vec<(String, String)> = Vec::new();
        members.push(("\"code\"".to_owned(), json::quote(self.code.as_str())));
        members.push(("\"message\"".to_owned(), message));
        members.push(("\"params\"".to_owned(), json::object(&params)));
        assert(members.deep_view() =~= error_members(self.deep_view()));
        json::object(&members)
    }
}

impl ValidationErrors {
    /// The violations as JSON text.
    pub fn to_json(&self) -> (text: String)
        ensures
            text@ == errors_json(self.deep_view()),
    {
        let mut members: Vec<(String, String)> = Vec::new();
        let ghost shown = field_members(self.deep_view());
        let mut i: usize = 0;
        while i < self.fields.len()
            invariant
                i <= self.fields.len(),
                members.len() == i,
                shown == field_members(self.deep_view()),
                forall|j: int| 0 <= j < i ==> members[j].deep_view() == shown[j],
            decreases self.fields.len() - i,
        {
            let found = &self.fields[i].1;
            let mut items: Vec<String> = Vec::new();
            let ghost texts = error_texts(found.deep_view());
            let mut k: usize = 0;
            while k < found.len()
                invariant
                    k <= found.len(),
                    items.len() == k,
                    texts == error_texts(found.deep_view()),
                    forall|j: int| 0 <= j < k ==> items[j]@ == texts[j],
                decreases found.len() - k,
            {
                items.push(found[k].to_json());
                k += 1;
            }
            assert(items.deep_view() =~= texts);
            let name = json::quote(self.fields[i].0.as_str());
            members.push((name, json::array(&items)));
            i += 1;
        }
        assert(members.deep_view() =~= shown);
        json::object(&members)
    }
}

} // verus!
