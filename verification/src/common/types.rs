//! Value types shared across the modules: identifiers, whole numbers,
//! decimal amounts, quantities, e-mail addresses and currency codes.

use crate::common::bindings::{
    decimal_sign_of_text, parse_decimal_sign, parse_uuid, regex_is_match, regex_outcome, uuid_of_text,
};
use crate::common::text::text_eq;
use crate::common::value_object::{
    keep_trimmed, keep_trimmed_str, keep_unless_blank, keep_unless_blank_str,
    lemma_keep_trimmed_keeps, lemma_keep_unless_blank_keeps, ValueObjectData, ValueObjectError,
    ValueObjectOptional, ValueObjectRequired,
};
use crate::common::text::is_blank;
use crate::common::text::trim;
use crate::common::value_object::spec_parse_required;
use vstd::prelude::*;
use vstd::string::*;

verus! {

/// A UUID written as text.
#[derive(Debug, Clone, PartialEq)]
pub struct UuidVO(pub String);

impl UuidVO {
    /// The message for text that is not a UUID.
    pub const PARSE_ERROR: &'static str = "Hibás azonosító formátum";

    /// The verdict on a text: accepted when `uuid` reads a UUID from it.
    pub open spec fn spec_check(text: Seq<char>) -> Result<(), ValueObjectError> {
        if uuid_of_text(text) is Some {
            Ok(())
        } else {
            Err(ValueObjectError::InvalidInput(Self::PARSE_ERROR))
        }
    }
}

impl ValueObjectData for UuidVO {
    open spec fn spec_text(&self) -> Seq<char> {
        self.0@
    }

    open spec fn spec_new(data: Seq<char>) -> Option<Seq<char>> {
        keep_unless_blank(data)
    }

    proof fn lemma_new_keeps(data: Seq<char>) {
        lemma_keep_unless_blank_keeps(data);
    }

    open spec fn spec_validate(text: Seq<char>) -> Result<(), ValueObjectError> {
        Self::spec_check(text)
    }

    fn new(data: &str) -> (r: Option<Self>) {
        match keep_unless_blank_str(data) {
            Some(s) => Some(UuidVO(s)),
            None => None,
        }
    }

    fn validate(&self) -> (r: Result<(), ValueObjectError>) {
        match parse_uuid(self.0.as_str()) {
            Some(_) => Ok(()),
            None => Err(ValueObjectError::InvalidInput(Self::PARSE_ERROR)),
        }
    }

    fn get_value(&self) -> (r: &String) {
        &self.0
    }
}

impl ValueObjectRequired<UuidVO> {
    /// The UUID, as its 128-bit value.
    pub fn as_uuid(&self) -> (r: Result<u128, ValueObjectError>)
        ensures
            match r {
                Ok(v) => uuid_of_text(self@) == Some(v),
                Err(e) => uuid_of_text(self@) is None && e == ValueObjectError::InvalidInput(
                    UuidVO::PARSE_ERROR,
                ),
            },
    {
        let s = self.as_str();
        match s {
            Ok(t) => match parse_uuid(t) {
                Some(v) => Ok(v),
                None => Err(ValueObjectError::InvalidInput(UuidVO::PARSE_ERROR)),
            },
            Err(e) => Err(e),
        }
    }
}

impl ValueObjectOptional<UuidVO> {
    /// The UUID, as its 128-bit value, if one is held.
    pub fn as_uuid(&self) -> (r: Option<u128>)
        ensures
            match self@ {
                None => r is None,
                Some(t) => r == uuid_of_text(t),
            },
    {
        match self.as_str() {
            Some(t) => parse_uuid(t),
            None => None,
        }
    }
}

/// The value of a run of decimal digits.
pub open spec fn digits_value(s: Seq<char>) -> int
    decreases s.len(),
{
    if s.len() == 0 {
        0
    } else {
        digits_value(s.drop_last()) * 10 + (s.last() as int - '0' as int)
    }
}

/// A non-empty run of ASCII decimal digits.
pub open spec fn all_digits(s: Seq<char>) -> bool {
    s.len() > 0 && forall|i: int| 0 <= i < s.len() ==> '0' <= #[trigger] s[i] <= '9'
}

/// What `str::parse::<i32>` reads from a text: an optional `+` or `-` sign,
/// then ASCII digits only, the value within the range of `i32`.
pub open spec fn spec_parse_i32(s: Seq<char>) -> Option<i32> {
    let negative = s.len() > 0 && s[0] == '-';
    let digits = if s.len() > 0 && (s[0] == '-' || s[0] == '+') {
        s.drop_first()
    } else {
        s
    };
    if !all_digits(digits) {
        None
    } else {
        let v = if negative {
            -digits_value(digits)
        } else {
            digits_value(digits)
        };
        if i32::MIN <= v <= i32::MAX {
            Some(v as i32)
        } else {
            None
        }
    }
}

proof fn lemma_digits_value_nonneg(s: Seq<char>)
    requires
        forall|i: int| 0 <= i < s.len() ==> '0' <= #[trigger] s[i] <= '9',
    ensures
        digits_value(s) >= 0,
    decreases s.len(),
{
    if s.len() > 0 {
        assert(forall|i: int| 0 <= i < s.drop_last().len() ==> s.drop_last()[i] == s[i]);
        lemma_digits_value_nonneg(s.drop_last());
    }
}

/// Parses a text as `str::parse::<i32>` does.
pub fn parse_i32(s: &str) -> (r: Option<i32>)
    ensures
        r == spec_parse_i32(s@),
{
    let n = s.unicode_len();
    if n == 0 {
        assert(!all_digits(s@));
        return None;
    }
    let first = s.get_char(0);
    let negative = first == '-';
    let start: usize = if first == '-' || first == '+' {
        1
    } else {
        0
    };
    let ghost digits = if start == 1 {
        s@.drop_first()
    } else {
        s@
    };
    assert(digits =~= s@.subrange(start as int, n as int));
    assert(digits == (if s@.len() > 0 && (s@[0] == '-' || s@[0] == '+') {
        s@.drop_first()
    } else {
        s@
    }));
    if start == n {
        assert(!all_digits(digits));
        return None;
    }
    let mut acc: i64 = 0;
    let mut i: usize = start;
    let mut too_big = false;
    while i < n
        invariant
            start <= i <= n,
            n == s@.len(),
            digits == s@.subrange(start as int, n as int),
            digits == (if s@.len() > 0 && (s@[0] == '-' || s@[0] == '+') {
                s@.drop_first()
            } else {
                s@
            }),
            forall|k: int| start <= k < i ==> '0' <= #[trigger] s@[k] <= '9',
            !too_big ==> acc == digits_value(s@.subrange(start as int, i as int)),
            !too_big ==> 0 <= acc <= 2147483648,
            too_big ==> digits_value(s@.subrange(start as int, i as int)) > 2147483648,
        decreases n - i,
    {
        let c = s.get_char(i);
        if !('0' <= c && c <= '9') {
            assert(digits[i - start] == c);
            assert(!all_digits(digits));
            return None;
        }
        let d: i64 = (c as u32 - '0' as u32) as i64;
        proof {
            let pre = s@.subrange(start as int, i as int);
            let post = s@.subrange(start as int, i + 1);
            assert(post.drop_last() =~= pre);
            assert(post.last() == c);
            assert forall|k: int| 0 <= k < pre.len() implies '0' <= #[trigger] pre[k] <= '9' by {
                assert(pre[k] == s@[start + k]);
            }
            lemma_digits_value_nonneg(pre);
        }
        if !too_big {
            let next = acc * 10 + d;
            if next > 2147483648 {
                too_big = true;
            } else {
                acc = next;
            }
        }
        i = i + 1;
    }
    assert(s@.subrange(start as int, n as int) =~= digits);
    assert(all_digits(digits)) by {
        assert forall|k: int| 0 <= k < digits.len() implies '0' <= #[trigger] digits[k] <= '9' by {
            assert(digits[k] == s@[start + k]);
        }
    }
    if too_big {
        return None;
    }
    if negative {
        Some((0 - acc) as i32)
    } else if acc <= 2147483647 {
        Some(acc as i32)
    } else {
        None
    }
}

/// A whole number (32-bit) written as text.
#[derive(Debug, Clone, PartialEq)]
pub struct Integer32(pub String);

impl Integer32 {
    /// The message for text that is not a 32-bit whole number.
    pub const PARSE_ERROR: &'static str = "Hibás egész szám formátum";
}

impl ValueObjectData for Integer32 {
    open spec fn spec_text(&self) -> Seq<char> {
        self.0@
    }

    open spec fn spec_new(data: Seq<char>) -> Option<Seq<char>> {
        keep_unless_blank(data)
    }

    proof fn lemma_new_keeps(data: Seq<char>) {
        lemma_keep_unless_blank_keeps(data);
    }

    open spec fn spec_validate(text: Seq<char>) -> Result<(), ValueObjectError> {
        if spec_parse_i32(text) is Some {
            Ok(())
        } else {
            Err(ValueObjectError::InvalidInput(Self::PARSE_ERROR))
        }
    }

    fn new(data: &str) -> (r: Option<Self>) {
        match keep_unless_blank_str(data) {
            Some(s) => Some(Integer32(s)),
            None => None,
        }
    }

    fn validate(&self) -> (r: Result<(), ValueObjectError>) {
        match parse_i32(self.0.as_str()) {
            Some(_) => Ok(()),
            None => Err(ValueObjectError::InvalidInput(Self::PARSE_ERROR)),
        }
    }

    fn get_value(&self) -> (r: &String) {
        &self.0
    }
}

impl ValueObjectOptional<Integer32> {
    /// The number, if one is held.
    pub fn as_i32(&self) -> (r: Option<i32>)
        ensures
            match self@ {
                None => r is None,
                Some(t) => r == spec_parse_i32(t),
            },
    {
        match self.as_str() {
            Some(t) => parse_i32(t),
            None => None,
        }
    }
}

/// A decimal number written as text, as `bigdecimal` reads it (prices and
/// other amounts).
#[derive(Debug, Clone, PartialEq)]
pub struct Float64(pub String);

impl Float64 {
    /// The message for text that is not a number.
    pub const PARSE_ERROR: &'static str = "Hibás szám formátum";
}

impl ValueObjectData for Float64 {
    open spec fn spec_text(&self) -> Seq<char> {
        self.0@
    }

    open spec fn spec_new(data: Seq<char>) -> Option<Seq<char>> {
        keep_unless_blank(data)
    }

    proof fn lemma_new_keeps(data: Seq<char>) {
        lemma_keep_unless_blank_keeps(data);
    }

    open spec fn spec_validate(text: Seq<char>) -> Result<(), ValueObjectError> {
        if decimal_sign_of_text(text) is Some {
            Ok(())
        } else {
            Err(ValueObjectError::InvalidInput(Self::PARSE_ERROR))
        }
    }

    fn new(data: &str) -> (r: Option<Self>) {
        match keep_unless_blank_str(data) {
            Some(s) => Some(Float64(s)),
            None => None,
        }
    }

    fn validate(&self) -> (r: Result<(), ValueObjectError>) {
        match parse_decimal_sign(self.0.as_str()) {
            Some(_) => Ok(()),
            None => Err(ValueObjectError::InvalidInput(Self::PARSE_ERROR)),
        }
    }

    fn get_value(&self) -> (r: &String) {
        &self.0
    }
}

/// A quantity of stock: a decimal number greater than zero.
#[derive(Debug, Clone, PartialEq)]
pub struct Quantity(pub String);

impl Quantity {
    /// The message for text that is not a number.
    pub const PARSE_ERROR: &'static str = "Hibás mennyiség formátum";

    /// The message for a number that is not greater than zero.
    pub const VALIDATION_ERROR: &'static str = "A mennyiségnek nullánál nagyobbnak kell lennie";
}

impl ValueObjectData for Quantity {
    open spec fn spec_text(&self) -> Seq<char> {
        self.0@
    }

    open spec fn spec_new(data: Seq<char>) -> Option<Seq<char>> {
        keep_unless_blank(data)
    }

    proof fn lemma_new_keeps(data: Seq<char>) {
        lemma_keep_unless_blank_keeps(data);
    }

    open spec fn spec_validate(text: Seq<char>) -> Result<(), ValueObjectError> {
        match decimal_sign_of_text(text) {
            None => Err(ValueObjectError::InvalidInput(Self::PARSE_ERROR)),
            Some(sign) => if sign == 1 {
                Ok(())
            } else {
                Err(ValueObjectError::InvalidInput(Self::VALIDATION_ERROR))
            },
        }
    }

    fn new(data: &str) -> (r: Option<Self>) {
        match keep_unless_blank_str(data) {
            Some(s) => Some(Quantity(s)),
            None => None,
        }
    }

    fn validate(&self) -> (r: Result<(), ValueObjectError>) {
        match parse_decimal_sign(self.0.as_str()) {
            None => Err(ValueObjectError::InvalidInput(Self::PARSE_ERROR)),
            Some(sign) => if sign == 1 {
                Ok(())
            } else {
                Err(ValueObjectError::InvalidInput(Self::VALIDATION_ERROR))
            },
        }
    }

    fn get_value(&self) -> (r: &String) {
        &self.0
    }
}

/// An e-mail address.
#[derive(Debug, Clone, PartialEq)]
pub struct Email(pub String);

impl Email {
    /// The shape an address must have: no whitespace, one `@`, and a dot in
    /// the domain part.
    pub const PATTERN: &'static str = r"^[^@\s]+@[^@\s]+\.[^@\s]+$";

    /// The message for text that is not an e-mail address.
    pub const VALIDATION_ERROR: &'static str = "Hibás e-mail cím formátum";

    /// The verdict on a text: accepted when `PATTERN` matches it.
    pub open spec fn spec_check(text: Seq<char>) -> Result<(), ValueObjectError> {
        if regex_outcome(Self::PATTERN@, text) == Some(true) {
            Ok(())
        } else {
            Err(ValueObjectError::InvalidInput(Self::VALIDATION_ERROR))
        }
    }
}

/// The verdict that a pattern check gives for the outcome of the regex
/// engine: only a compiled pattern that matches accepts.
pub fn pattern_verdict(outcome: Option<bool>, message: &'static str) -> (r: Result<
    (),
    ValueObjectError,
>)
    ensures
        r == (if outcome == Some(true) {
            Ok::<(), ValueObjectError>(())
        } else {
            Err::<(), ValueObjectError>(ValueObjectError::InvalidInput(message))
        }),
{
    match outcome {
        Some(true) => Ok(()),
        _ => Err(ValueObjectError::InvalidInput(message)),
    }
}

impl ValueObjectData for Email {
    open spec fn spec_text(&self) -> Seq<char> {
        self.0@
    }

    open spec fn spec_new(data: Seq<char>) -> Option<Seq<char>> {
        keep_unless_blank(data)
    }

    proof fn lemma_new_keeps(data: Seq<char>) {
        lemma_keep_unless_blank_keeps(data);
    }

    open spec fn spec_validate(text: Seq<char>) -> Result<(), ValueObjectError> {
        Self::spec_check(text)
    }

    fn new(data: &str) -> (r: Option<Self>) {
        match keep_unless_blank_str(data) {
            Some(s) => Some(Email(s)),
            None => None,
        }
    }

    fn validate(&self) -> (r: Result<(), ValueObjectError>) {
        pattern_verdict(regex_is_match(Self::PATTERN, self.0.as_str()), Self::VALIDATION_ERROR)
    }

    fn get_value(&self) -> (r: &String) {
        &self.0
    }
}

/// A currency code: three capital letters A-Z, as in ISO 4217.
#[derive(Debug, Clone, PartialEq)]
pub struct CurrencyCode(pub String);

/// Whether a text is three capital letters A-Z.
pub open spec fn is_currency_code(text: Seq<char>) -> bool {
    text.len() == 3 && forall|i: int| 0 <= i < 3 ==> 'A' <= #[trigger] text[i] <= 'Z'
}

impl CurrencyCode {
    /// The message for text that is not a currency code.
    pub const VALIDATION_ERROR: &'static str = "Hibás pénznem kód";
}

impl ValueObjectData for CurrencyCode {
    open spec fn spec_text(&self) -> Seq<char> {
        self.0@
    }

    open spec fn spec_new(data: Seq<char>) -> Option<Seq<char>> {
        keep_unless_blank(data)
    }

    proof fn lemma_new_keeps(data: Seq<char>) {
        lemma_keep_unless_blank_keeps(data);
    }

    open spec fn spec_validate(text: Seq<char>) -> Result<(), ValueObjectError> {
        if is_currency_code(text) {
            Ok(())
        } else {
            Err(ValueObjectError::InvalidInput(Self::VALIDATION_ERROR))
        }
    }

    fn new(data: &str) -> (r: Option<Self>) {
        match keep_unless_blank_str(data) {
            Some(s) => Some(CurrencyCode(s)),
            None => None,
        }
    }

    fn validate(&self) -> (r: Result<(), ValueObjectError>) {
        let t = self.0.as_str();
        if t.unicode_len() != 3 {
            return Err(ValueObjectError::InvalidInput(Self::VALIDATION_ERROR));
        }
        let mut i: usize = 0;
        while i < 3
            invariant
                i <= 3,
                t@.len() == 3,
                t@ == self.0@,
                forall|k: int| 0 <= k < i ==> 'A' <= #[trigger] t@[k] <= 'Z',
            decreases 3 - i,
        {
            let c = t.get_char(i);
            if !('A' <= c && c <= 'Z') {
                return Err(ValueObjectError::InvalidInput(Self::VALIDATION_ERROR));
            }
            i = i + 1;
        }
        Ok(())
    }

    fn get_value(&self) -> (r: &String) {
        &self.0
    }
}

/// A free-text description: at most 3000 characters.
#[derive(Debug, Clone, PartialEq)]
pub struct Description(pub String);

impl Description {
    /// The message for a description longer than 3000 characters.
    pub const VALIDATION_ERROR: &'static str = "A leírás maximum 3000 karakter hosszú lehet";

    /// The length limit, in characters.
    pub const MAX_CHARS: usize = 3000;
}

impl ValueObjectData for Description {
    open spec fn spec_text(&self) -> Seq<char> {
        self.0@
    }

    open spec fn spec_new(data: Seq<char>) -> Option<Seq<char>> {
        keep_unless_blank(data)
    }

    proof fn lemma_new_keeps(data: Seq<char>) {
        lemma_keep_unless_blank_keeps(data);
    }

    open spec fn spec_validate(text: Seq<char>) -> Result<(), ValueObjectError> {
        if text.len() <= 3000 {
            Ok(())
        } else {
            Err(ValueObjectError::InvalidInput(Self::VALIDATION_ERROR))
        }
    }

    fn new(data: &str) -> (r: Option<Self>) {
        match keep_unless_blank_str(data) {
            Some(s) => Some(Description(s)),
            None => None,
        }
    }

    fn validate(&self) -> (r: Result<(), ValueObjectError>) {
        if self.0.as_str().unicode_len() <= Self::MAX_CHARS {
            Ok(())
        } else {
            Err(ValueObjectError::InvalidInput(Self::VALIDATION_ERROR))
        }
    }

    fn get_value(&self) -> (r: &String) {
        &self.0
    }
}

/// Whether a record is in use: active or inactive.
#[derive(Debug, Clone, PartialEq)]
pub struct ActivityStatus(pub String);

impl ActivityStatus {
    /// The message for an unknown status.
    pub const VALIDATION_ERROR: &'static str = "Hibás státusz";

    /// The statuses there are.
    pub open spec fn is_known(text: Seq<char>) -> bool {
        text == "active"@ || text == "inactive"@
    }
}

impl ValueObjectData for ActivityStatus {
    open spec fn spec_text(&self) -> Seq<char> {
        self.0@
    }

    open spec fn spec_new(data: Seq<char>) -> Option<Seq<char>> {
        keep_trimmed(data)
    }

    proof fn lemma_new_keeps(data: Seq<char>) {
        lemma_keep_trimmed_keeps(data);
    }

    open spec fn spec_validate(text: Seq<char>) -> Result<(), ValueObjectError> {
        if Self::is_known(text) {
            Ok(())
        } else {
            Err(ValueObjectError::InvalidInput(Self::VALIDATION_ERROR))
        }
    }

    fn new(data: &str) -> (r: Option<Self>) {
        match keep_trimmed_str(data) {
            Some(s) => Some(ActivityStatus(s)),
            None => None,
        }
    }

    fn validate(&self) -> (r: Result<(), ValueObjectError>) {
        let t = self.0.as_str();
        if text_eq(t, "active") || text_eq(t, "inactive") {
            Ok(())
        } else {
            Err(ValueObjectError::InvalidInput(Self::VALIDATION_ERROR))
        }
    }

    fn get_value(&self) -> (r: &String) {
        &self.0
    }
}

impl UuidVO {
    /// An identifier is accepted exactly when `uuid` reads a UUID from the text, which is kept as
    /// given; blank text is missing.
    pub proof fn lemma_parse(text: Seq<char>)
        ensures
            spec_parse_required::<UuidVO>(text) is Ok
                <==> !is_blank(text) && uuid_of_text(text) is Some,
            spec_parse_required::<UuidVO>(text) matches Ok(v) ==> v == text,
            is_blank(text)
                ==> spec_parse_required::<UuidVO>(text) == Err::<Seq<char>, _>(
                    ValueObjectError::Required,
                ),
            spec_parse_required::<UuidVO>(text) matches Err(ValueObjectError::InvalidInput(m))
                ==> m == Self::PARSE_ERROR,
    {
    }
}

impl Float64 {
    /// A decimal amount is accepted exactly when `bigdecimal` reads a number from the text,
    /// whatever its sign (zero and negative amounts included); the text is kept as given.
    pub proof fn lemma_parse(text: Seq<char>)
        ensures
            spec_parse_required::<Float64>(text) is Ok
                <==> !is_blank(text) && decimal_sign_of_text(text) is Some,
            spec_parse_required::<Float64>(text) matches Ok(v) ==> v == text,
            is_blank(text)
                ==> spec_parse_required::<Float64>(text) == Err::<Seq<char>, _>(
                    ValueObjectError::Required,
                ),
            spec_parse_required::<Float64>(text) matches Err(ValueObjectError::InvalidInput(m))
                ==> m == Self::PARSE_ERROR,
    {
    }
}

impl Quantity {
    /// A quantity is accepted exactly when `bigdecimal` reads a number greater than zero from the
    /// text; a number that is not positive and text that is no number are refused with their own
    /// messages.
    pub proof fn lemma_parse(text: Seq<char>)
        ensures
            spec_parse_required::<Quantity>(text) is Ok
                <==> !is_blank(text) && decimal_sign_of_text(text) == Some(1i8),
            spec_parse_required::<Quantity>(text) matches Ok(v) ==> v == text,
            is_blank(text)
                ==> spec_parse_required::<Quantity>(text) == Err::<Seq<char>, _>(
                    ValueObjectError::Required,
                ),
            spec_parse_required::<Quantity>(text) matches Err(ValueObjectError::InvalidInput(m))
                ==> (decimal_sign_of_text(text) is None ==> m == Self::PARSE_ERROR)
                    && (decimal_sign_of_text(text) is Some ==> m == Self::VALIDATION_ERROR),
    {
    }
}

impl Email {
    /// An e-mail address is accepted exactly when the pattern `^[^@\s]+@[^@\s]+\.[^@\s]+$`
    /// matches the text (no whitespace, one `@`, a dot after it), which is kept as given.
    pub proof fn lemma_parse(text: Seq<char>)
        ensures
            spec_parse_required::<Email>(text) is Ok
                <==> !is_blank(text) && regex_outcome(Self::PATTERN@, text) == Some(true),
            spec_parse_required::<Email>(text) matches Ok(v) ==> v == text,
            is_blank(text)
                ==> spec_parse_required::<Email>(text) == Err::<Seq<char>, _>(
                    ValueObjectError::Required,
                ),
            spec_parse_required::<Email>(text) matches Err(ValueObjectError::InvalidInput(m))
                ==> m == Self::VALIDATION_ERROR,
            Self::PATTERN@ == r"^[^@\s]+@[^@\s]+\.[^@\s]+$"@,
    {
    }
}

impl CurrencyCode {
    /// A currency code is accepted exactly when it is three capital letters A-Z.
    pub proof fn lemma_parse(text: Seq<char>)
        ensures
            spec_parse_required::<CurrencyCode>(text) is Ok
                <==> !is_blank(text) && text.len() == 3
                    && 'A' <= text[0] <= 'Z' && 'A' <= text[1] <= 'Z' && 'A' <= text[2] <= 'Z',
            spec_parse_required::<CurrencyCode>(text) matches Ok(v) ==> v == text,
            is_blank(text)
                ==> spec_parse_required::<CurrencyCode>(text) == Err::<Seq<char>, _>(
                    ValueObjectError::Required,
                ),
            spec_parse_required::<CurrencyCode>(text) matches Err(ValueObjectError::InvalidInput(m))
                ==> m == Self::VALIDATION_ERROR,
    {
    }
}

impl Description {
    /// A description is accepted exactly when it has at most 3000 characters.
    pub proof fn lemma_parse(text: Seq<char>)
        ensures
            spec_parse_required::<Description>(text) is Ok
                <==> !is_blank(text) && text.len() <= 3000,
            spec_parse_required::<Description>(text) matches Ok(v) ==> v == text,
            is_blank(text)
                ==> spec_parse_required::<Description>(text) == Err::<Seq<char>, _>(
                    ValueObjectError::Required,
                ),
            spec_parse_required::<Description>(text) matches Err(ValueObjectError::InvalidInput(m))
                ==> m == Self::VALIDATION_ERROR,
    {
    }
}

impl ActivityStatus {
    /// An activity status is accepted exactly when, trimmed, it is `active` or `inactive`; the
    /// trimmed text is kept.
    pub proof fn lemma_parse(text: Seq<char>)
        ensures
            spec_parse_required::<ActivityStatus>(text) is Ok
                <==> trim(text).len() > 0 && (
                    trim(text) == "active"@ || trim(text) == "inactive"@),
            spec_parse_required::<ActivityStatus>(text) matches Ok(v) ==> v == trim(text),
            trim(text).len() == 0
                ==> spec_parse_required::<ActivityStatus>(text) == Err::<Seq<char>, _>(
                    ValueObjectError::Required,
                ),
            spec_parse_required::<ActivityStatus>(text) matches Err(ValueObjectError::InvalidInput(m))
                ==> m == Self::VALIDATION_ERROR,
    {
    }
}

} // verus!
