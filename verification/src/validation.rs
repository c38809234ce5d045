//! Collecting what is wrong with the fields of a request, before anything
//! is done with it.

use validator::ValidationErrors;
use vstd::prelude::*;
use vstd::string::StrSliceExecFns;

verus! {

/// One error found on a field: its code, and the text that was found
/// wanting, where the error holds one under the key `value` of its
/// parameters.
pub struct Finding {
    pub code: Seq<char>,
    pub value: Option<Seq<char>>,
}

/// The finding that `text` breaks the rule of `code`.
pub open spec fn about(code: Seq<char>, text: Seq<char>) -> Finding {
    Finding { code, value: Some(text) }
}

/// The finding that a field is missing.
pub open spec fn blank() -> Finding {
    Finding { code: blank_code(), value: None }
}

/// What a `validator::ValidationErrors` holds: for each field that has an
/// entry, the errors found on it, in the order they were added, or `None`
/// where the entry stands for a nested struct or list.
pub uninterp spec fn entries(errors: ValidationErrors) -> Map<Seq<char>, Option<Seq<Finding>>>;

/// Whether `validator::ValidateEmail::validate_email` takes `text` for an
/// e-mail address.
pub uninterp spec fn email_shaped(text: Seq<char>) -> bool;

/// Whether `validator::ValidateUrl::validate_url` takes `text` for a URL.
pub uninterp spec fn url_shaped(text: Seq<char>) -> bool;

/// The code under which a missing field is noted.
pub open spec fn blank_code() -> Seq<char> {
    "can't be blank"@
}

/// Nothing found: no field has an error.
pub open spec fn none_found() -> Map<Seq<char>, Seq<Finding>> {
    Map::empty()
}

/// What was noted so far on `field`.
pub open spec fn noted_on(found: Map<Seq<char>, Seq<Finding>>, field: Seq<char>) -> Seq<Finding> {
    if found.contains_key(field) {
        found[field]
    } else {
        Seq::empty()
    }
}

/// `found` with one more error noted on `field`, after those already there.
pub open spec fn noted(found: Map<Seq<char>, Seq<Finding>>, field: Seq<char>, finding: Finding) -> Map<
    Seq<char>,
    Seq<Finding>,
> {
    found.insert(field, noted_on(found, field).push(finding))
}

/// `found`, with one more error noted on `field` unless `ok`.
pub open spec fn noted_unless(
    ok: bool,
    found: Map<Seq<char>, Seq<Finding>>,
    field: Seq<char>,
    finding: Finding,
) -> Map<Seq<char>, Seq<Finding>> {
    if ok {
        found
    } else {
        noted(found, field, finding)
    }
}

/// Every entry of `errors` is a list of errors on a field.
pub open spec fn flat(errors: ValidationErrors) -> bool {
    forall|field: Seq<char>| #[trigger]
        entries(errors).contains_key(field) ==> entries(errors)[field] is Some
}

/// The errors that `errors` holds, field by field.
pub open spec fn recorded(errors: ValidationErrors) -> Map<Seq<char>, Seq<Finding>> {
    Map::new(
        |field: Seq<char>| entries(errors).contains_key(field),
        |field: Seq<char>| entries(errors)[field]->0,
    )
}

/// At least `min` and at most `max` characters, where each is given.
pub open spec fn length_within(text: Seq<char>, min: Option<u64>, max: Option<u64>) -> bool {
    &&& min matches Some(least) ==> text.len() >= least
    &&& max matches Some(most) ==> text.len() <= most
}

/// A character that a username may hold: a lower-case ASCII letter, an
/// ASCII digit or an underscore.
pub open spec fn is_username_char(c: char) -> bool {
    ('a' <= c <= 'z') || ('0' <= c <= '9') || c == '_'
}

/// One to fifteen characters, each of which a username may hold.
pub open spec fn username_shaped(text: Seq<char>) -> bool {
    &&& 1 <= text.len() <= 15
    &&& forall|i: int| 0 <= i < text.len() ==> is_username_char(#[trigger] text[i])
}

/// `validator::ValidationErrors::new`: a collection without entries.
#[verifier::external_body]
fn errors_new() -> (errors: ValidationErrors)
    ensures
        flat(errors),
        recorded(errors) == none_found(),
{
    ValidationErrors::new()
}

/// `validator::ValidationErrors::add`, with an error that holds `code` and
/// no parameter (`validator::ValidationError::new`). The crate puts it
/// behind the errors that `field` already has, and panics where the entry of
/// `field` stands for a nested struct or list.
#[verifier::external_body]
fn errors_add(errors: &mut ValidationErrors, field: &'static str, code: &'static str)
    requires
        flat(*old(errors)),
    ensures
        flat(*final(errors)),
        recorded(*final(errors)) == noted(
            recorded(*old(errors)),
            field@,
            (Finding { code: code@, value: None }),
        ),
    no_unwind
{
    errors.add(field, validator::ValidationError::new(code))
}

/// `validator::ValidationErrors::add`, with an error that holds `code` and,
/// under the key `value` of its parameters, the text that was found wanting
/// (`validator::ValidationError::new` and then
/// `validator::ValidationError::add_param`), as the crate's derive attaches
/// it. The crate panics as for an error without a value.
#[verifier::external_body]
fn errors_add_valued(
    errors: &mut ValidationErrors,
    field: &'static str,
    code: &'static str,
    value: &String,
)
    requires
        flat(*old(errors)),
    ensures
        flat(*final(errors)),
        recorded(*final(errors)) == noted(recorded(*old(errors)), field@, about(code@, value@)),
    no_unwind
{
    let mut error = validator::ValidationError::new(code);
    error.add_param(std::borrow::Cow::from("value"), value);
    errors.add(field, error)
}

/// `validator::ValidationErrors::is_empty`: whether no field has an entry.
#[verifier::external_body]
fn errors_is_empty(errors: &ValidationErrors) -> (b: bool)
    ensures
        b <==> forall|field: Seq<char>| !entries(*errors).contains_key(field),
{
    errors.is_empty()
}

/// Whether `text` has at least `min` and at most `max` characters, where
/// each is given.
pub fn has_length(text: &String, min: Option<u64>, max: Option<u64>) -> (b: bool)
    ensures
        b == length_within(text@, min, max),
{
    let length = text.as_str().unicode_len() as u64;
    match min {
        Some(least) => if length < least {
            return false;
        },
        None => {},
    }
    match max {
        Some(most) => if length > most {
            return false;
        },
        None => {},
    }
    true
}

/// `validator::ValidateEmail::validate_email` on a text.
#[verifier::external_body]
pub(crate) fn is_email(text: &String) -> (b: bool)
    ensures
        b == email_shaped(text@),
{
    validator::ValidateEmail::validate_email(text)
}

/// `validator::ValidateUrl::validate_url` on a text.
#[verifier::external_body]
pub(crate) fn is_url(text: &String) -> (b: bool)
    ensures
        b == url_shaped(text@),
{
    validator::ValidateUrl::validate_url(text)
}

/// Whether `text` is of a username's shape.
pub fn is_username(text: &String) -> (b: bool)
    ensures
        b == username_shaped(text@),
{
    let chars = text.as_str();
    let length = chars.unicode_len();
    if length < 1 || length > 15 {
        return false;
    }
    let mut i: usize = 0;
    while i < length
        invariant
            i <= length,
            length == chars@.len(),
            chars@ == text@,
            forall|j: int| 0 <= j < i ==> is_username_char(#[trigger] chars@[j]),
        decreases length - i,
    {
        let c = chars.get_char(i);
        if !(('a' <= c && c <= 'z') || ('0' <= c && c <= '9') || c == '_') {
            return false;
        }
        i += 1;
    }
    true
}

/// What a failed check hands on: the collection of all that was found.
#[derive(Debug)]
pub struct Errors {
    pub errors: ValidationErrors,
}

/// Collects the errors found on the fields of one request.
pub struct FieldValidator {
    errors: ValidationErrors,
}

impl View for FieldValidator {
    type V = Map<Seq<char>, Seq<Finding>>;

    closed spec fn view(&self) -> Map<Seq<char>, Seq<Finding>> {
        recorded(self.errors)
    }
}

impl Default for FieldValidator {
    fn default() -> (v: FieldValidator)
        ensures
            v@ == none_found(),
    {
        FieldValidator { errors: errors_new() }
    }
}

/// A request whose fields obey rules.
pub trait Validate {
    /// The errors that the rules find on this request, field by field.
    spec fn broken_rules(&self) -> Map<Seq<char>, Seq<Finding>>;

    /// Holds this request to its rules.
    fn validate(&self) -> (found: FieldValidator)
        ensures
            found@ == self.broken_rules(),
    ;
}

impl FieldValidator {
    #[verifier::type_invariant]
    spec fn only_fields(self) -> bool {
        flat(self.errors)
    }

    /// Holds `model` to its rules.
    pub fn validate<T: Validate>(model: &T) -> (found: FieldValidator)
        ensures
            found@ == model.broken_rules(),
    {
        model.validate()
    }

    /// Notes one more error on `field`, one that is about no text.
    pub fn note(&mut self, field: &'static str, code: &'static str)
        ensures
            final(self)@ == noted(old(self)@, field@, (Finding { code: code@, value: None })),
    {
        proof {
            use_type_invariant(&*self);
        }
        errors_add(&mut self.errors, field, code);
    }

    /// Notes on `field` that `value` breaks the rule of `code`.
    pub fn note_value(&mut self, field: &'static str, code: &'static str, value: &String)
        ensures
            final(self)@ == noted(old(self)@, field@, about(code@, value@)),
    {
        proof {
            use_type_invariant(&*self);
        }
        errors_add_valued(&mut self.errors, field, code, value);
    }

    /// Notes on `field` that `value` breaks the rule of `code`, unless `ok`.
    pub fn require(&mut self, ok: bool, field: &'static str, code: &'static str, value: &String)
        ensures
            final(self)@ == noted_unless(ok, old(self)@, field@, about(code@, value@)),
    {
        if !ok {
            self.note_value(field, code, value);
        }
    }

    /// `Ok` where nothing was found, and all that was found where not.
    pub fn check(self) -> (r: Result<(), Errors>)
        ensures
            r is Ok <==> self@ == none_found(),
            r matches Err(e) ==> recorded(e.errors) == self@ && flat(e.errors),
    {
        proof {
            use_type_invariant(&self);
        }
        if errors_is_empty(&self.errors) {
            assert(self@ =~= none_found());
            Ok(())
        } else {
            proof {
                if self@ == none_found() {
                    assert forall|field: Seq<char>| !entries(self.errors).contains_key(field) by {
                        assert(!self@.contains_key(field));
                    }
                }
            }
            Err(Errors { errors: self.errors })
        }
    }

    /// The value of a field that must be there: the value where there is
    /// one, and where there is none a default value, with the lack noted on
    /// `field_name`.
    pub fn extract<T: Default>(&mut self, field_name: &'static str, field: Option<T>) -> (value: T)
        ensures
            field matches Some(given) ==> value == given && final(self)@ == old(self)@,
            field is None ==> final(self)@ == noted(old(self)@, field_name@, blank()),
            field is None ==> call_ensures(T::default, (), value),
    {
        match field {
            Some(given) => given,
            None => {
                self.note(field_name, "can't be blank");
                T::default()
            },
        }
    }
}

} // verus!
