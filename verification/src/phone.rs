//! Phone-number validation against a selected country.
//!
//! The `phonenumber` crate parses and checks numbers; on top of that a
//! number only counts as valid when it belongs to the country the user
//! selected, so a globally valid `+1 ...` number is refused for France.

use vstd::prelude::*;

use phonenumber::country::Id;
use phonenumber::PhoneNumber;
use std::fmt::Write;
use vstd::string::StrSliceExecFns;

verus! {

/// A CLDR country id of the `phonenumber` crate.
#[verifier::external_type_specification]
#[verifier::external_body]
pub struct ExCountryId(phonenumber::country::Id);

/// A phone number parsed by the `phonenumber` crate.
#[verifier::external_type_specification]
#[verifier::external_body]
pub struct ExPhoneNumber(phonenumber::PhoneNumber);

/// `Id::clone`, which `phonenumber` derives on a `Copy` enum without
/// fields: it gives back the same id.
pub assume_specification[<phonenumber::country::Id as Clone>::clone](
    id: &phonenumber::country::Id,
) -> (r: phonenumber::country::Id)
    ensures
        r == *id,
;

/// Whether a character has the Unicode `White_Space` property (as std's
/// `char::is_whitespace` tests): U+0009 to U+000D, space, U+0085, U+00A0,
/// U+1680, U+2000 to U+200A, U+2028, U+2029, U+202F, U+205F and U+3000.
pub open spec fn unicode_whitespace(c: char) -> bool {
    let u = c as u32;
    ||| 0x09 <= u <= 0x0D
    ||| u == 0x20
    ||| u == 0x85
    ||| u == 0xA0
    ||| u == 0x1680
    ||| 0x2000 <= u <= 0x200A
    ||| u == 0x2028
    ||| u == 0x2029
    ||| u == 0x202F
    ||| u == 0x205F
    ||| u == 0x3000
}

/// Whether a character is Unicode whitespace (see `unicode_whitespace`).
fn is_whitespace_char(c: char) -> (r: bool)
    ensures
        r == unicode_whitespace(c),
{
    let u = c as u32;
    (0x09 <= u && u <= 0x0D) || u == 0x20 || u == 0x85 || u == 0xA0 || u == 0x1680 || (0x2000
        <= u && u <= 0x200A) || u == 0x2028 || u == 0x2029 || u == 0x202F || u == 0x205F || u
        == 0x3000
}

/// The text without its leading whitespace.
pub open spec fn trim_start(s: Seq<char>) -> Seq<char>
    decreases s.len(),
{
    if s.len() > 0 && unicode_whitespace(s[0]) {
        trim_start(s.drop_first())
    } else {
        s
    }
}

/// The text without its trailing whitespace.
pub open spec fn trim_end(s: Seq<char>) -> Seq<char>
    decreases s.len(),
{
    if s.len() > 0 && unicode_whitespace(s.last()) {
        trim_end(s.drop_last())
    } else {
        s
    }
}

/// The text without leading and trailing whitespace, as `str::trim` gives it.
pub open spec fn trimmed(s: Seq<char>) -> Seq<char> {
    trim_end(trim_start(s))
}

proof fn lemma_trim_start_cut(s: Seq<char>) -> (i: int)
    ensures
        0 <= i <= s.len(),
        trim_start(s) == s.subrange(i, s.len() as int),
        forall|k: int| 0 <= k < i ==> unicode_whitespace(#[trigger] s[k]),
        i < s.len() ==> !unicode_whitespace(s[i]),
    decreases s.len(),
{
    if s.len() > 0 && unicode_whitespace(s[0]) {
        let i0 = lemma_trim_start_cut(s.drop_first());
        assert(s.drop_first().subrange(i0, s.drop_first().len() as int) =~= s.subrange(
            i0 + 1,
            s.len() as int,
        ));
        assert forall|k: int| 0 <= k < i0 + 1 implies unicode_whitespace(#[trigger] s[k]) by {
            if k > 0 {
                assert(s[k] == s.drop_first()[k - 1]);
            }
        }
        if i0 + 1 < s.len() {
            assert(s[i0 + 1] == s.drop_first()[i0]);
        }
        i0 + 1
    } else {
        assert(s.subrange(0, s.len() as int) =~= s);
        0
    }
}

proof fn lemma_trim_end_cut(s: Seq<char>) -> (j: int)
    ensures
        0 <= j <= s.len(),
        trim_end(s) == s.subrange(0, j),
        forall|k: int| j <= k < s.len() ==> unicode_whitespace(#[trigger] s[k]),
        j > 0 ==> !unicode_whitespace(s[j - 1]),
    decreases s.len(),
{
    if s.len() > 0 && unicode_whitespace(s.last()) {
        let j0 = lemma_trim_end_cut(s.drop_last());
        assert(s.drop_last().subrange(0, j0) =~= s.subrange(0, j0));
        assert forall|k: int| j0 <= k < s.len() implies unicode_whitespace(#[trigger] s[k]) by {
            if k < s.len() - 1 {
                assert(s[k] == s.drop_last()[k]);
            }
        }
        if j0 > 0 {
            assert(s[j0 - 1] == s.drop_last()[j0 - 1]);
        }
        j0
    } else {
        assert(s.subrange(0, s.len() as int) =~= s);
        s.len() as int
    }
}

/// Trimming keeps the text between its first and last non-whitespace
/// characters: it is a slice `s[i..j]` of the text, everything before `i`
/// and from `j` on is whitespace, and a non-empty result starts and ends
/// with a non-whitespace character.
pub proof fn lemma_trimmed_drops_only_outer_whitespace(s: Seq<char>) -> (cut: (int, int))
    ensures
        0 <= cut.0 <= cut.1 <= s.len(),
        trimmed(s) == s.subrange(cut.0, cut.1),
        forall|k: int|
            (0 <= k < cut.0 || cut.1 <= k < s.len()) ==> unicode_whitespace(#[trigger] s[k]),
        trimmed(s).len() > 0 ==> !unicode_whitespace(trimmed(s)[0]) && !unicode_whitespace(
            trimmed(s).last(),
        ),
{
    let i = lemma_trim_start_cut(s);
    let t = s.subrange(i, s.len() as int);
    let j = lemma_trim_end_cut(t);
    assert(t.subrange(0, j) =~= s.subrange(i, i + j));
    assert forall|k: int| (0 <= k < i || i + j <= k < s.len()) implies unicode_whitespace(
        #[trigger] s[k],
    ) by {
        if k >= i + j {
            assert(s[k] == t[k - i]);
        }
    }
    if j > 0 {
        assert(trimmed(s)[0] == t[0]);
        assert(t[0] == s[i]);
        assert(trimmed(s).last() == t[j - 1]);
    }
    (i, i + j)
}

/// Removes leading and trailing whitespace.
pub fn trim_whitespace(s: &str) -> (r: &str)
    ensures
        r@ == trimmed(s@),
{
    let n = s.unicode_len();
    let mut a: usize = 0;
    assert(s@.subrange(0, n as int) =~= s@);
    while a < n && is_whitespace_char(s.get_char(a))
        invariant
            n == s@.len(),
            a <= n,
            trim_start(s@) == trim_start(s@.subrange(a as int, n as int)),
        decreases n - a,
    {
        assert(s@.subrange(a as int, n as int).drop_first() =~= s@.subrange(a + 1, n as int));
        a = a + 1;
    }
    let ghost t = s@.subrange(a as int, n as int);
    assert(trim_start(s@) == t);
    let mut b: usize = n;
    while b > a && is_whitespace_char(s.get_char(b - 1))
        invariant
            n == s@.len(),
            a <= b <= n,
            t == s@.subrange(a as int, n as int),
            trim_end(t) == trim_end(s@.subrange(a as int, b as int)),
        decreases b - a,
    {
        assert(s@.subrange(a as int, b as int).drop_last() =~= s@.subrange(a as int, b - 1));
        b = b - 1;
    }
    s.substring_char(a, b)
}

/// Whether `b` is `Some(a)`.
///
/// Compares with the `PartialEq` that `phonenumber` derives for
/// `Option<country::Id>`; `Id` is an enum without fields, so the derived
/// comparison holds exactly of the same variant.
#[verifier::external_body]
fn same_country(a: Id, b: Option<Id>) -> (r: bool)
    ensures
        r == (b == Some(a)),
{
    b == Some(a)
}

/// What `phonenumber::parse` gives for a selected country and a text: the
/// parsed number, or the message of its parse error. `parse` depends on its
/// arguments alone (it reads the crate's compiled-in metadata).
pub uninterp spec fn phone_parse(country: Id, text: Seq<char>) -> Result<PhoneNumber, Seq<char>>;

/// The country `phonenumber` assigns to a parsed number.
pub uninterp spec fn phone_number_country(number: PhoneNumber) -> Option<Id>;

/// Whether `phonenumber` considers a parsed number valid.
pub uninterp spec fn phone_number_valid(number: PhoneNumber) -> bool;

/// The E.164 text `phonenumber`'s formatter writes for a parsed number, or
/// `None` when it reports an error.
pub uninterp spec fn phone_number_e164(number: PhoneNumber) -> Option<Seq<char>>;

/// The `Debug` text of a country id, e.g. `US`.
pub uninterp spec fn country_debug(country: Id) -> Seq<char>;

/// The `Debug` text of an optional country id, as std's `Debug` for
/// `Option` writes it: `Some(US)` or `None`.
pub open spec fn optional_country_debug(country: Option<Id>) -> Seq<char> {
    match country {
        Some(id) => "Some("@ + country_debug(id) + ")"@,
        None => "None"@,
    }
}

/// Parses a number with `phonenumber::parse`, the selected country standing
/// for numbers written without a country code; on failure it gives back the
/// parse error's message. The contract names the outcome (`phone_parse`).
#[verifier::external_body]
fn parse_phone_number(country: Id, text: &str) -> (r: Result<PhoneNumber, String>)
    ensures
        match r {
            Ok(n) => phone_parse(country, text@) == Ok::<PhoneNumber, Seq<char>>(n),
            Err(m) => phone_parse(country, text@) == Err::<PhoneNumber, Seq<char>>(m@),
        },
{
    phonenumber::parse(Some(country), text).map_err(|e| e.to_string())
}

/// The country that `phonenumber` assigns to a parsed number
/// (`PhoneNumber::country().id()`), if its metadata names one; named
/// `phone_number_country`.
#[verifier::external_body]
fn phone_country(number: &PhoneNumber) -> (r: Option<Id>)
    ensures
        r == phone_number_country(*number),
{
    number.country().id()
}

/// Whether `phonenumber` considers a parsed number valid
/// (`PhoneNumber::is_valid`); named `phone_number_valid`.
#[verifier::external_body]
fn phone_is_valid(number: &PhoneNumber) -> (r: bool)
    ensures
        r == phone_number_valid(*number),
{
    number.is_valid()
}

/// A parsed number in E.164 form, written by `phonenumber`'s formatter in
/// `Mode::E164`; `None` when the formatter reports an error (it does so for
/// a number whose country code has no metadata). Named `phone_number_e164`.
#[verifier::external_body]
fn phone_e164(number: &PhoneNumber) -> (r: Option<String>)
    ensures
        r.deep_view() == phone_number_e164(*number),
{
    let mut out = String::new();
    match write!(out, "{}", number.format().mode(phonenumber::Mode::E164)) {
        Ok(()) => Some(out),
        Err(_) => None,
    }
}

/// The `Debug` text of a country id, e.g. `US`; named `country_debug`.
#[verifier::external_body]
fn country_debug_text(country: Id) -> (r: String)
    ensures
        r@ == country_debug(country),
{
    format!("{:?}", country)
}

/// The `Debug` text of an optional country id (see
/// `optional_country_debug`).
fn optional_country_debug_text(country: Option<Id>) -> (r: String)
    ensures
        r@ == optional_country_debug(country),
{
    match country {
        Some(id) => {
            let inner = country_debug_text(id);
            let mut out = String::from_str("Some(");
            out.append(inner.as_str());
            out.append(")");
            out
        },
        None => String::from_str("None"),
    }
}

/// A phone number that passed parsing, validity and selected-country checks.
#[derive(Clone, Debug, PartialEq, Eq)]
pub struct ValidatedPhoneNumber {
    e164: String,
    country: Id,
}

impl ValidatedPhoneNumber {
    /// The E.164 text of the number.
    pub closed spec fn spec_e164(&self) -> Seq<char> {
        self.e164@
    }

    /// The selected country the number belongs to.
    pub closed spec fn spec_country(&self) -> Id {
        self.country
    }

    /// The number in E.164 form, e.g. `+14155552671`.
    pub fn e164(&self) -> (r: &str)
        ensures
            r@ == self.spec_e164(),
    {
        self.e164.as_str()
    }

    /// The country the number belongs to.
    pub fn country(&self) -> (r: Id)
        ensures
            r == self.spec_country(),
    {
        self.country
    }
}

/// Why a non-empty phone number failed validation.
#[derive(Clone, Debug, PartialEq, Eq)]
pub enum PhoneNumberValidationError {
    /// The number parsed, but belongs to another country (or to none).
    WrongCountry { selected_country: Id, selected_label: String, parsed_country: Option<Id> },
    /// The number parsed for the selected country but is not a valid number.
    InvalidForCountry { selected_country: Id, selected_label: String },
    /// The text does not parse as a phone number.
    Parse { selected_country: Id, selected_label: String, message: String },
}

/// Whether `t` is the explanation of an error: `Not a valid {label} phone
/// number`, `Could not parse as {label} phone number: {message}`, or `Phone
/// number country {parsed} does not match selected country: {label}`, where
/// `{parsed}` is the `Debug` text of the parsed country.
pub open spec fn explains(e: PhoneNumberValidationError, t: Seq<char>) -> bool {
    match e {
        PhoneNumberValidationError::InvalidForCountry { selected_label, .. } => t == "Not a valid "@
            + selected_label@ + " phone number"@,
        PhoneNumberValidationError::Parse { selected_label, message, .. } => t
            == "Could not parse as "@ + selected_label@ + " phone number: "@ + message@,
        PhoneNumberValidationError::WrongCountry { selected_label, parsed_country, .. } => t
            == "Phone number country "@ + optional_country_debug(parsed_country)
            + " does not match selected country: "@ + selected_label@,
    }
}

impl PhoneNumberValidationError {
    /// The country that was selected.
    pub open spec fn spec_selected_country(&self) -> Id {
        match self {
            PhoneNumberValidationError::WrongCountry { selected_country, .. } => *selected_country,
            PhoneNumberValidationError::InvalidForCountry { selected_country, .. } => {
                *selected_country
            },
            PhoneNumberValidationError::Parse { selected_country, .. } => *selected_country,
        }
    }

    /// The label of the selected country, as shown in messages.
    pub open spec fn spec_selected_label(&self) -> Seq<char> {
        match self {
            PhoneNumberValidationError::WrongCountry { selected_label, .. } => selected_label@,
            PhoneNumberValidationError::InvalidForCountry { selected_label, .. } => selected_label@,
            PhoneNumberValidationError::Parse { selected_label, .. } => selected_label@,
        }
    }

    /// The human-readable explanation: `Not a valid {label} phone number`,
    /// `Could not parse as {label} phone number: {message}`, or
    /// `Phone number country {parsed:?} does not match selected country:
    /// {label}`.
    pub fn to_string(&self) -> (r: String)
        ensures
            explains(*self, r@),
    {
        match self {
            PhoneNumberValidationError::WrongCountry { selected_label, parsed_country, .. } => {
                let parsed = optional_country_debug_text(*parsed_country);
                let mut out = String::from_str("Phone number country ");
                out.append(parsed.as_str());
                out.append(" does not match selected country: ");
                out.append(selected_label.as_str());
                assert(out@ == "Phone number country "@ + parsed@
                    + " does not match selected country: "@ + selected_label@);
                out
            },
            PhoneNumberValidationError::InvalidForCountry { selected_label, .. } => {
                let mut out = String::from_str("Not a valid ");
                out.append(selected_label.as_str());
                out.append(" phone number");
                out
            },
            PhoneNumberValidationError::Parse { selected_label, message, .. } => {
                let mut out = String::from_str("Could not parse as ");
                out.append(selected_label.as_str());
                out.append(" phone number: ");
                out.append(message.as_str());
                out
            },
        }
    }
}

/// The result of validating a phone number against a selected country.
#[derive(Clone, Debug, PartialEq, Eq)]
pub enum PhoneNumberValidation {
    /// Empty (or blank) input, kept apart from invalid input so that optional
    /// fields can accept it.
    Empty,
    /// The number parsed, is valid, and belongs to the selected country.
    Valid(ValidatedPhoneNumber),
    /// The number was not blank but failed parsing, validity or the country
    /// check.
    Invalid(PhoneNumberValidationError),
}

impl PhoneNumberValidation {
    /// Whether the result is `Valid`.
    pub fn is_valid(&self) -> (r: bool)
        ensures
            r == (self is Valid),
    {
        match self {
            PhoneNumberValidation::Valid(_) => true,
            _ => false,
        }
    }

    /// Whether the result is `Empty`.
    pub fn is_empty(&self) -> (r: bool)
        ensures
            r == (self is Empty),
    {
        match self {
            PhoneNumberValidation::Empty => true,
            _ => false,
        }
    }

    /// The E.164 text when valid.
    pub fn e164(&self) -> (r: Option<&str>)
        ensures
            match self {
                PhoneNumberValidation::Valid(number) => r matches Some(t) && t@
                    == number.spec_e164(),
                _ => r is None,
            },
    {
        match self {
            PhoneNumberValidation::Valid(number) => Some(number.e164()),
            _ => None,
        }
    }

    /// Status text for demos, logs and simple forms: `Enter a phone number`,
    /// `Valid. E.164: {e164}`, or the error's explanation.
    pub fn message(&self) -> (r: String)
        ensures
            match self {
                PhoneNumberValidation::Empty => r@ == "Enter a phone number"@,
                PhoneNumberValidation::Valid(number) => r@ == "Valid. E.164: "@
                    + number.spec_e164(),
                PhoneNumberValidation::Invalid(error) => explains(*error, r@),
            },
    {
        match self {
            PhoneNumberValidation::Empty => String::from_str("Enter a phone number"),
            PhoneNumberValidation::Valid(number) => {
                let mut out = String::from_str("Valid. E.164: ");
                out.append(number.e164());
                out
            },
            PhoneNumberValidation::Invalid(error) => error.to_string(),
        }
    }
}

/// What the country check reads of a parsed number: the country the crate
/// assigns to it, whether it is valid, and its E.164 text when it is valid
/// for the selected country (`None` when that text could not be written).
pub struct ParsedPhone {
    pub country: Option<Id>,
    pub valid: bool,
    pub e164: Option<String>,
}

/// A parser outcome with its texts as characters: the assigned country,
/// validity and E.164 text of a parsed number, or the parse error's message.
pub type ParseOutcome = Result<(Option<Id>, bool, Option<Seq<char>>), Seq<char>>;

/// The characters of a parser outcome.
pub open spec fn outcome_view(outcome: Result<ParsedPhone, String>) -> ParseOutcome {
    match outcome {
        Ok(p) => Ok((p.country, p.valid, p.e164.deep_view())),
        Err(m) => Err(m@),
    }
}

/// What the parser reports for a trimmed text and a selected country: the
/// country, validity and (for a valid number of the selected country) the
/// E.164 text of the parsed number, or the parse error's message.
pub open spec fn parse_outcome(country: Id, text: Seq<char>) -> ParseOutcome {
    match phone_parse(country, text) {
        Err(m) => Err(m),
        Ok(n) => {
            let c = phone_number_country(n);
            let v = phone_number_valid(n);
            Ok((c, v, if v && c == Some(country) { phone_number_e164(n) } else { None }))
        },
    }
}

/// Whether `r` is the validation decided from `outcome`: a parse error is
/// `Parse`; a number of another country (or of none) is `WrongCountry`; a
/// valid number of the selected country with its E.164 text is `Valid`; any
/// other number is `InvalidForCountry`. Errors carry the selected country and
/// label.
pub open spec fn classified(
    r: PhoneNumberValidation,
    selected_country: Id,
    selected_label: Seq<char>,
    outcome: ParseOutcome,
) -> bool {
    match outcome {
        Err(message) => r matches PhoneNumberValidation::Invalid(
            PhoneNumberValidationError::Parse { selected_country: c, selected_label: l, message: m },
        ) && c == selected_country && l@ == selected_label && m@ == message,
        Ok((country, valid, e164)) => if country != Some(selected_country) {
            r matches PhoneNumberValidation::Invalid(
                PhoneNumberValidationError::WrongCountry {
                    selected_country: c,
                    selected_label: l,
                    parsed_country: pc,
                },
            ) && c == selected_country && l@ == selected_label && pc == country
        } else if valid && e164 is Some {
            r matches PhoneNumberValidation::Valid(v) && v.spec_e164() == e164->0
                && v.spec_country() == selected_country
        } else {
            r matches PhoneNumberValidation::Invalid(
                PhoneNumberValidationError::InvalidForCountry { selected_country: c, selected_label: l },
            ) && c == selected_country && l@ == selected_label
        },
    }
}

/// Decides a validation from the parser's outcome: a parse error is
/// `Parse`; a number of another country (or of none) is `WrongCountry`; a
/// valid number of the selected country with its E.164 text is `Valid`; any
/// other number is `InvalidForCountry`.
pub fn classify_parse_outcome(
    selected_country: Id,
    selected_label: &str,
    outcome: Result<ParsedPhone, String>,
) -> (r: PhoneNumberValidation)
    ensures
        classified(r, selected_country, selected_label@, outcome_view(outcome)),
{
    let label = String::from_str(selected_label);
    match outcome {
        Err(message) => PhoneNumberValidation::Invalid(
            PhoneNumberValidationError::Parse { selected_country, selected_label: label, message },
        ),
        Ok(p) => {
            if !same_country(selected_country, p.country) {
                PhoneNumberValidation::Invalid(
                    PhoneNumberValidationError::WrongCountry {
                        selected_country,
                        selected_label: label,
                        parsed_country: p.country,
                    },
                )
            } else {
                match (p.valid, p.e164) {
                    (true, Some(e164)) => PhoneNumberValidation::Valid(
                        ValidatedPhoneNumber { e164, country: selected_country },
                    ),
                    _ => PhoneNumberValidation::Invalid(
                        PhoneNumberValidationError::InvalidForCountry {
                            selected_country,
                            selected_label: label,
                        },
                    ),
                }
            }
        },
    }
}

/// Validates a phone number against a selected country, naming the country
/// `selected_label` in messages. Blank input is `Empty`; otherwise the
/// trimmed text is parsed with `phonenumber` for the selected country and
/// the outcome decided as `classified` says. In particular a valid result
/// belongs to the selected country, and an error carries the selected
/// country and label.
pub fn validate_phone_number_for_country_label(
    raw: &str,
    selected_country: Id,
    selected_label: &str,
) -> (r: PhoneNumberValidation)
    ensures
        (r is Empty) == (trimmed(raw@).len() == 0),
        trimmed(raw@).len() > 0 ==> classified(
            r,
            selected_country,
            selected_label@,
            parse_outcome(selected_country, trimmed(raw@)),
        ),
        r matches PhoneNumberValidation::Valid(v) ==> v.spec_country() == selected_country,
        r matches PhoneNumberValidation::Invalid(e) ==> {
            &&& e.spec_selected_country() == selected_country
            &&& e.spec_selected_label() == selected_label@
            &&& e matches PhoneNumberValidationError::WrongCountry { parsed_country, .. }
                ==> parsed_country != Some(selected_country)
        },
{
    let text = trim_whitespace(raw);
    if text.unicode_len() == 0 {
        return PhoneNumberValidation::Empty;
    }
    let outcome = match parse_phone_number(selected_country, text) {
        Err(message) => Err(message),
        Ok(number) => {
            let country = phone_country(&number);
            let valid = phone_is_valid(&number);
            let e164 = if valid && same_country(selected_country, country) {
                phone_e164(&number)
            } else {
                None
            };
            Ok(ParsedPhone { country, valid, e164 })
        },
    };
    classify_parse_outcome(selected_country, selected_label, outcome)
}

/// Validates a phone number against a selected country, naming the country
/// by its id's `Debug` text (e.g. `US`) in messages.
pub fn validate_phone_number_for_country(raw: &str, selected_country: Id) -> (r:
    PhoneNumberValidation)
    ensures
        (r is Empty) == (trimmed(raw@).len() == 0),
        trimmed(raw@).len() > 0 ==> classified(
            r,
            selected_country,
            country_debug(selected_country),
            parse_outcome(selected_country, trimmed(raw@)),
        ),
        r matches PhoneNumberValidation::Valid(v) ==> v.spec_country() == selected_country,
        r matches PhoneNumberValidation::Invalid(e) ==> {
            &&& e.spec_selected_country() == selected_country
            &&& e.spec_selected_label() == country_debug(selected_country)
            &&& e matches PhoneNumberValidationError::WrongCountry { parsed_country, .. }
                ==> parsed_country != Some(selected_country)
        },
{
    let label = country_debug_text(selected_country);
    validate_phone_number_for_country_label(raw, selected_country, label.as_str())
}

} // verus!
