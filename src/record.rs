use vstd::prelude::*;
use vstd::utf8::encode_utf8;

use crate::date::DateTime;

verus! {

/// A field of an output record that validation speaks of.
#[derive(Debug, Clone, Copy, PartialEq, Eq, Structural)]
pub enum Field {
    TaxCode,
    Amount,
    Date,
}

/// Why one source record cannot become an output record.
#[derive(Debug, Clone, Copy, PartialEq, Eq, Structural)]
pub enum ValidationError {
    /// The counter-party tax identifier is empty.
    EmptyTaxCode,
    /// The counter-party tax identifier holds something other than decimal digits.
    InvalidTaxCode,
    /// The amount is not a decimal number with at most two fractional digits.
    MalformedAmount,
    /// The amount is zero or negative.
    NonPositiveAmount,
    /// The amount in minor units does not fit in 64 bits.
    AmountTooLarge,
    /// The builder was finished before this field was given.
    MissingField(Field),
}

impl ValidationError {
    pub open spec fn spec_field(&self) -> Field {
        match self {
            ValidationError::EmptyTaxCode | ValidationError::InvalidTaxCode => Field::TaxCode,
            ValidationError::MalformedAmount
            | ValidationError::NonPositiveAmount
            | ValidationError::AmountTooLarge => Field::Amount,
            ValidationError::MissingField(f) => *f,
        }
    }

    /// The field that failed.
    #[verifier::when_used_as_spec(spec_field)]
    pub fn field(&self) -> (r: Field)
        ensures
            r == self.spec_field(),
    {
        match self {
            ValidationError::EmptyTaxCode | ValidationError::InvalidTaxCode => Field::TaxCode,
            ValidationError::MalformedAmount
            | ValidationError::NonPositiveAmount
            | ValidationError::AmountTooLarge => Field::Amount,
            ValidationError::MissingField(f) => *f,
        }
    }
}

/// The UTF-8 bytes of a text.
pub open spec fn utf8_of(s: Seq<char>) -> Seq<u8> {
    encode_utf8(s)
}

pub open spec fn is_digit(c: u8) -> bool {
    48 <= c <= 57
}

pub open spec fn digit_value(c: u8) -> nat {
    (c - 48) as nat
}

pub open spec fn all_digits(s: Seq<u8>) -> bool {
    forall|i: int| 0 <= i < s.len() ==> #[trigger] is_digit(s[i])
}

/// The number that a string of decimal digits writes.
pub open spec fn digits_value(s: Seq<u8>) -> nat
    decreases s.len(),
{
    if s.len() == 0 {
        0
    } else {
        digits_value(s.drop_last()) * 10 + digit_value(s.last())
    }
}

/// A tax identifier is a non-empty string of decimal digits.
pub open spec fn tax_code_check(s: Seq<u8>) -> Result<(), ValidationError> {
    if s.len() == 0 {
        Err(ValidationError::EmptyTaxCode)
    } else if !all_digits(s) {
        Err(ValidationError::InvalidTaxCode)
    } else {
        Ok(())
    }
}

/// The amount, in hundredths, that an unsigned decimal writes: digits,
/// optionally followed by a point and one or two digits.
pub open spec fn unsigned_amount(s: Seq<u8>) -> Option<nat> {
    let k = s.len() as int;
    if k > 0 && all_digits(s) {
        Some(digits_value(s) * 100)
    } else if k >= 3 && s[k - 2] == 46 && all_digits(s.take(k - 2)) && is_digit(s[k - 1]) {
        Some(digits_value(s.take(k - 2)) * 100 + digit_value(s[k - 1]) * 10)
    } else if k >= 4 && s[k - 3] == 46 && all_digits(s.take(k - 3)) && is_digit(s[k - 2])
        && is_digit(s[k - 1]) {
        Some(digits_value(s.take(k - 3)) * 100 + digit_value(s[k - 2]) * 10 + digit_value(
            s[k - 1],
        ))
    } else {
        None
    }
}

/// What an amount text reads as: a positive number of hundredths, or the reason it is refused.
pub open spec fn amount_reading(s: Seq<u8>) -> Result<u64, ValidationError> {
    if s.len() > 0 && s[0] == 45 {
        if unsigned_amount(s.drop_first()) is Some {
            Err(ValidationError::NonPositiveAmount)
        } else {
            Err(ValidationError::MalformedAmount)
        }
    } else {
        match unsigned_amount(s) {
            None => Err(ValidationError::MalformedAmount),
            Some(c) => if c == 0 {
                Err(ValidationError::NonPositiveAmount)
            } else if c > u64::MAX {
                Err(ValidationError::AmountTooLarge)
            } else {
                Ok(c as u64)
            },
        }
    }
}

proof fn lemma_all_digits_drop_last(s: Seq<u8>)
    requires
        all_digits(s),
        s.len() > 0,
    ensures
        all_digits(s.drop_last()),
{
    assert forall|i: int| 0 <= i < s.drop_last().len() implies is_digit(s.drop_last()[i]) by {
        assert(is_digit(s[i]));
    }
}

/// A prefix of a digit string never writes a larger number than the whole.
proof fn lemma_digits_prefix_le(s: Seq<u8>, j: int)
    requires
        all_digits(s),
        0 <= j <= s.len(),
    ensures
        digits_value(s.take(j)) <= digits_value(s),
    decreases s.len(),
{
    if j == s.len() {
        assert(s.take(j) =~= s);
    } else {
        lemma_all_digits_drop_last(s);
        lemma_digits_prefix_le(s.drop_last(), j);
        assert(s.drop_last().take(j) =~= s.take(j));
    }
}

fn all_digits_in(b: &[u8], lo: usize, hi: usize) -> (r: bool)
    requires
        lo <= hi <= b@.len(),
    ensures
        r == all_digits(b@.subrange(lo as int, hi as int)),
{
    let mut i: usize = lo;
    while i < hi
        invariant
            lo <= i <= hi,
            hi <= b@.len(),
            all_digits(b@.subrange(lo as int, i as int)),
        decreases hi - i,
    {
        if !(48 <= b[i] && b[i] <= 57) {
            assert(b@.subrange(lo as int, hi as int)[i - lo] == b@[i as int]);
            assert(!is_digit(b@.subrange(lo as int, hi as int)[i - lo]));
            return false;
        }
        let ghost prev = b@.subrange(lo as int, i as int);
        assert forall|k: int| 0 <= k < i + 1 - lo implies is_digit(
            #[trigger] b@.subrange(lo as int, i + 1)[k],
        ) by {
            if k < i - lo {
                assert(is_digit(prev[k]));
            }
        }
        i = i + 1;
    }
    true
}

fn digits_value_in(b: &[u8], lo: usize, hi: usize) -> (r: Option<u64>)
    requires
        lo <= hi <= b@.len(),
        all_digits(b@.subrange(lo as int, hi as int)),
    ensures
        r is Some <==> digits_value(b@.subrange(lo as int, hi as int)) <= u64::MAX,
        r matches Some(v) ==> v == digits_value(b@.subrange(lo as int, hi as int)),
{
    let ghost whole = b@.subrange(lo as int, hi as int);
    let mut v: u64 = 0;
    let mut i: usize = lo;
    assert(b@.subrange(lo as int, lo as int) =~= Seq::<u8>::empty());
    while i < hi
        invariant
            lo <= i <= hi,
            hi <= b@.len(),
            whole == b@.subrange(lo as int, hi as int),
            all_digits(whole),
            v == digits_value(b@.subrange(lo as int, i as int)),
        decreases hi - i,
    {
        assert(whole[i - lo] == b@[i as int]);
        assert(is_digit(whole[i - lo]));
        let d = (b[i] - 48) as u64;
        let ghost next = b@.subrange(lo as int, i + 1);
        assert(next.drop_last() =~= b@.subrange(lo as int, i as int));
        assert(whole.take(i + 1 - lo) =~= next);
        assert(digits_value(next) == v * 10 + d);
        match v.checked_mul(10) {
            None => {
                proof {
                    lemma_digits_prefix_le(whole, i + 1 - lo);
                }
                return None;
            },
            Some(t) => match t.checked_add(d) {
                None => {
                    proof {
                        lemma_digits_prefix_le(whole, i + 1 - lo);
                    }
                    return None;
                },
                Some(n) => {
                    v = n;
                },
            },
        }
        i = i + 1;
    }
    assert(b@.subrange(lo as int, i as int) =~= whole);
    Some(v)
}

/// Reads an unsigned amount from `b[lo..hi]`, in hundredths.
fn read_unsigned(b: &[u8], lo: usize, hi: usize) -> (r: Result<u64, ValidationError>)
    requires
        lo <= hi <= b@.len(),
    ensures
        ({
            let s = b@.subrange(lo as int, hi as int);
            match unsigned_amount(s) {
                None => r == Err::<u64, ValidationError>(ValidationError::MalformedAmount),
                Some(c) => if c <= u64::MAX {
                    r == Ok::<u64, ValidationError>(c as u64)
                } else {
                    r == Err::<u64, ValidationError>(ValidationError::AmountTooLarge)
                },
            }
        }),
{
    let ghost s = b@.subrange(lo as int, hi as int);
    let k = hi - lo;
    let mut end: usize = hi;
    let mut frac: u64 = 0;
    if k > 0 && all_digits_in(b, lo, hi) {
    } else if k >= 3 && b[hi - 2] == 46 && all_digits_in(b, lo, hi - 2) && 48 <= b[hi - 1]
        && b[hi - 1] <= 57 {
        assert(s.take(k - 2) =~= b@.subrange(lo as int, hi - 2));
        end = hi - 2;
        frac = ((b[hi - 1] - 48) as u64) * 10;
    } else if k >= 4 && b[hi - 3] == 46 && all_digits_in(b, lo, hi - 3) && 48 <= b[hi - 2]
        && b[hi - 2] <= 57 && 48 <= b[hi - 1] && b[hi - 1] <= 57 {
        assert(s.take(k - 3) =~= b@.subrange(lo as int, hi - 3));
        end = hi - 3;
        frac = ((b[hi - 2] - 48) as u64) * 10 + (b[hi - 1] - 48) as u64;
    } else {
        proof {
            if k >= 3 {
                assert(s.take(k - 2) =~= b@.subrange(lo as int, hi - 2));
            }
            if k >= 4 {
                assert(s.take(k - 3) =~= b@.subrange(lo as int, hi - 3));
            }
        }
        return Err(ValidationError::MalformedAmount);
    }
    let units = match digits_value_in(b, lo, end) {
        Some(u) => u,
        None => {
            return Err(ValidationError::AmountTooLarge);
        },
    };
    match units.checked_mul(100) {
        None => Err(ValidationError::AmountTooLarge),
        Some(c) => match c.checked_add(frac) {
            None => Err(ValidationError::AmountTooLarge),
            Some(total) => Ok(total),
        },
    }
}

/// Checks a counter-party tax identifier.
pub fn check_tax_code(raw: &str) -> (r: Result<(), ValidationError>)
    ensures
        r == tax_code_check(utf8_of(raw@)),
{
    let b = raw.as_bytes();
    if b.len() == 0 {
        Err(ValidationError::EmptyTaxCode)
    } else if !all_digits_in(b, 0, b.len()) {
        assert(b@.subrange(0, b@.len() as int) =~= b@);
        Err(ValidationError::InvalidTaxCode)
    } else {
        assert(b@.subrange(0, b@.len() as int) =~= b@);
        Ok(())
    }
}

/// Reads a monetary amount as a positive number of hundredths.
pub fn parse_amount(raw: &str) -> (r: Result<u64, ValidationError>)
    ensures
        r == amount_reading(utf8_of(raw@)),
{
    let b = raw.as_bytes();
    let n = b.len();
    if n > 0 && b[0] == 45 {
        assert(b@.subrange(1, n as int) =~= b@.drop_first());
        match read_unsigned(b, 1, n) {
            Err(ValidationError::MalformedAmount) => Err(ValidationError::MalformedAmount),
            _ => Err(ValidationError::NonPositiveAmount),
        }
    } else {
        assert(b@.subrange(0, n as int) =~= b@);
        match read_unsigned(b, 0, n) {
            Ok(c) => if c == 0 {
                Err(ValidationError::NonPositiveAmount)
            } else {
                Ok(c)
            },
            Err(e) => Err(e),
        }
    }
}

/// The amount of a source record, in the shape of its statement format.
#[derive(Debug, Clone)]
pub enum SourceAmount {
    /// A credit column, empty for transactions that bring no funds in.
    Credit(Option<String>),
    /// A coverage column, filled for every transaction.
    Coverage(String),
}

/// One row of a bank statement.
#[derive(Debug, Clone)]
pub struct SourceRecord {
    pub party_tax_id: String,
    pub operation_date: DateTime,
    pub payment_purpose: String,
    pub currency: String,
    pub amount: SourceAmount,
}

impl SourceRecord {
    pub open spec fn spec_amount_text(&self) -> Option<Seq<char>> {
        match self.amount {
            SourceAmount::Credit(Some(t)) => Some(t@),
            SourceAmount::Credit(None) => None,
            SourceAmount::Coverage(t) => Some(t@),
        }
    }

    /// The text of the amount, or `None` when the record carries none.
    pub fn amount_text(&self) -> (r: Option<&String>)
        ensures
            r matches Some(t) ==> self.spec_amount_text() == Some(t@),
            r is None ==> self.spec_amount_text() is None,
    {
        match &self.amount {
            SourceAmount::Credit(Some(t)) => Some(t),
            SourceAmount::Credit(None) => None,
            SourceAmount::Coverage(t) => Some(t),
        }
    }
}

/// One row for the tax-reporting format, with the amount in hundredths.
#[derive(Debug, Clone)]
pub struct OutputRecord {
    pub tax_code: String,
    pub amount: u64,
    pub date: DateTime,
    pub comment: String,
    pub operation: String,
    pub income_type: String,
    pub account_name: String,
    pub currency_code: String,
}

impl OutputRecord {
    /// The tax code is valid and the amount positive.
    pub open spec fn wf(&self) -> bool {
        &&& tax_code_check(utf8_of(self.tax_code@)) is Ok
        &&& self.amount > 0
    }

    /// The amount split into whole units and hundredths.
    pub fn amount_parts(&self) -> (r: (u64, u64))
        ensures
            r.0 * 100 + r.1 == self.amount,
            r.1 < 100,
    {
        (self.amount / 100, self.amount % 100)
    }
}

/// An output record under construction: the tax code, the amount and the
/// date must be given before it can be finished.
#[derive(Debug, Clone)]
pub struct RecordBuilder {
    pub tax_code: Option<String>,
    pub amount: Option<u64>,
    pub date: Option<DateTime>,
    pub comment: String,
    pub operation: String,
    pub income_type: String,
    pub account_name: String,
    pub currency_code: String,
}

impl RecordBuilder {
    /// Every field given so far is valid.
    pub open spec fn wf(&self) -> bool {
        &&& (self.tax_code matches Some(t) ==> tax_code_check(utf8_of(t@)) is Ok)
        &&& (self.amount matches Some(a) ==> a > 0)
    }

    /// A builder with no field given and empty texts.
    pub fn new() -> (r: Self)
        ensures
            r.wf(),
            r.tax_code is None,
            r.amount is None,
            r.date is None,
            r.comment@.len() == 0,
            r.operation@.len() == 0,
            r.income_type@.len() == 0,
            r.account_name@.len() == 0,
            r.currency_code@.len() == 0,
    {
        RecordBuilder {
            tax_code: None,
            amount: None,
            date: None,
            comment: String::new(),
            operation: String::new(),
            income_type: String::new(),
            account_name: String::new(),
            currency_code: String::new(),
        }
    }

    /// Gives the tax code, refused unless it is a valid tax identifier.
    pub fn tax_code_raw(self, raw: String) -> (r: Result<Self, ValidationError>)
        ensures
            match tax_code_check(utf8_of(raw@)) {
                Err(e) => r == Err::<Self, ValidationError>(e),
                Ok(_) => r == Ok::<Self, ValidationError>(RecordBuilder { tax_code: Some(raw), ..self }),
            },
    {
        match check_tax_code(raw.as_str()) {
            Err(e) => Err(e),
            Ok(()) => Ok(RecordBuilder { tax_code: Some(raw), ..self }),
        }
    }

    /// Gives the amount from its text, refused unless it reads as a positive amount.
    pub fn amount_raw(self, raw: &str) -> (r: Result<Self, ValidationError>)
        ensures
            match amount_reading(utf8_of(raw@)) {
                Err(e) => r == Err::<Self, ValidationError>(e),
                Ok(c) => r == Ok::<Self, ValidationError>(RecordBuilder { amount: Some(c), ..self }),
            },
    {
        match parse_amount(raw) {
            Err(e) => Err(e),
            Ok(c) => Ok(RecordBuilder { amount: Some(c), ..self }),
        }
    }

    pub fn date(self, date: DateTime) -> (r: Self)
        ensures
            r == (RecordBuilder { date: Some(date), ..self }),
    {
        RecordBuilder { date: Some(date), ..self }
    }

    pub fn comment(self, comment: String) -> (r: Self)
        ensures
            r == (RecordBuilder { comment, ..self }),
    {
        RecordBuilder { comment, ..self }
    }

    pub fn operation(self, operation: String) -> (r: Self)
        ensures
            r == (RecordBuilder { operation, ..self }),
    {
        RecordBuilder { operation, ..self }
    }

    pub fn income_type(self, income_type: String) -> (r: Self)
        ensures
            r == (RecordBuilder { income_type, ..self }),
    {
        RecordBuilder { income_type, ..self }
    }

    pub fn account_name(self, account_name: String) -> (r: Self)
        ensures
            r == (RecordBuilder { account_name, ..self }),
    {
        RecordBuilder { account_name, ..self }
    }

    pub fn currency_code(self, currency_code: String) -> (r: Self)
        ensures
            r == (RecordBuilder { currency_code, ..self }),
    {
        RecordBuilder { currency_code, ..self }
    }

    /// Finishes the record; the first of tax code, amount and date that was
    /// not given is reported missing.
    pub fn build(self) -> (r: Result<OutputRecord, ValidationError>)
        ensures
            self.tax_code is None ==> r == Err::<OutputRecord, ValidationError>(
                ValidationError::MissingField(Field::TaxCode),
            ),
            self.tax_code is Some && self.amount is None ==> r == Err::<
                OutputRecord,
                ValidationError,
            >(ValidationError::MissingField(Field::Amount)),
            self.tax_code is Some && self.amount is Some && self.date is None ==> r == Err::<
                OutputRecord,
                ValidationError,
            >(ValidationError::MissingField(Field::Date)),
            self.tax_code is Some && self.amount is Some && self.date is Some ==> r is Ok,
            r matches Ok(rec) ==> {
                &&& self.tax_code == Some(rec.tax_code)
                &&& self.amount == Some(rec.amount)
                &&& self.date == Some(rec.date)
                &&& rec.comment == self.comment
                &&& rec.operation == self.operation
                &&& rec.income_type == self.income_type
                &&& rec.account_name == self.account_name
                &&& rec.currency_code == self.currency_code
                &&& (self.wf() ==> rec.wf())
            },
    {
        match (self.tax_code, self.amount, self.date) {
            (None, _, _) => Err(ValidationError::MissingField(Field::TaxCode)),
            (Some(_), None, _) => Err(ValidationError::MissingField(Field::Amount)),
            (Some(_), Some(_), None) => Err(ValidationError::MissingField(Field::Date)),
            (Some(tax_code), Some(amount), Some(date)) => Ok(
                OutputRecord {
                    tax_code,
                    amount,
                    date,
                    comment: self.comment,
                    operation: self.operation,
                    income_type: self.income_type,
                    account_name: self.account_name,
                    currency_code: self.currency_code,
                },
            ),
        }
    }
}

} // verus!
