use vstd::prelude::*;

use crate::config::{CurrencySource, TaxerConfig};
use crate::filter::DateFilter;
use crate::record::{
    amount_reading, Field, SourceAmount, tax_code_check, utf8_of, OutputRecord, RecordBuilder, SourceRecord,
    ValidationError,
};

verus! {

/// A record that failed validation, and its position in the statement.
#[derive(Debug, Clone, Copy, PartialEq, Eq, Structural)]
pub struct ConversionError {
    pub index: usize,
    pub error: ValidationError,
}

/// The currency code that a record converted under `cfg` carries.
pub open spec fn currency_for(src: SourceRecord, cfg: TaxerConfig) -> Seq<char> {
    if cfg.currency_source == CurrencySource::Record && src.currency@.len() > 0 {
        src.currency@
    } else {
        cfg.currency_code@
    }
}

/// What becomes of one source record: `None` when it carries no amount and
/// is skipped, else the amount in hundredths or the first field that fails.
pub open spec fn conversion_outcome(src: SourceRecord) -> Option<Result<u64, ValidationError>> {
    match src.spec_amount_text() {
        None => None,
        Some(t) => Some(
            match tax_code_check(utf8_of(src.party_tax_id@)) {
                Err(e) => Err(e),
                Ok(_) => amount_reading(utf8_of(t)),
            },
        ),
    }
}

/// `rec` is the record that `src` becomes under `cfg`, with `amount` hundredths.
pub open spec fn converts_to(
    src: SourceRecord,
    cfg: TaxerConfig,
    amount: u64,
    rec: OutputRecord,
) -> bool {
    &&& rec.tax_code@ == src.party_tax_id@
    &&& rec.amount == amount
    &&& rec.date == src.operation_date
    &&& rec.comment@ == src.payment_purpose@
    &&& rec.operation@ == cfg.operation@
    &&& rec.income_type@ == cfg.income_type@
    &&& rec.account_name@ == cfg.account_name@
    &&& rec.currency_code@ == currency_for(src, cfg)
    &&& rec.wf()
}

/// The record converts and its date passes the filter.
pub open spec fn is_kept(src: SourceRecord, filter: DateFilter) -> bool {
    &&& conversion_outcome(src) matches Some(Ok(_))
    &&& filter.accepts(src.operation_date)
}

/// The record carries an amount and fails validation.
pub open spec fn is_failure(src: SourceRecord) -> bool {
    conversion_outcome(src) matches Some(Err(_))
}

/// Positions, in order, of the first `n` records that reach the output.
pub open spec fn kept_indices(srcs: Seq<SourceRecord>, filter: DateFilter, n: int) -> Seq<int>
    decreases n,
{
    if n <= 0 {
        Seq::empty()
    } else if is_kept(srcs[n - 1], filter) {
        kept_indices(srcs, filter, n - 1).push(n - 1)
    } else {
        kept_indices(srcs, filter, n - 1)
    }
}

/// `out` holds, in order, the records that the first `n` records of `srcs` become.
pub open spec fn output_of_prefix(
    srcs: Seq<SourceRecord>,
    cfg: TaxerConfig,
    filter: DateFilter,
    n: int,
    out: Seq<OutputRecord>,
) -> bool {
    let kept = kept_indices(srcs, filter, n);
    &&& out.len() == kept.len()
    &&& forall|j: int|
        0 <= j < kept.len() ==> {
            &&& 0 <= #[trigger] kept[j] < n
            &&& conversion_outcome(srcs[kept[j]]) matches Some(Ok(c))
            &&& converts_to(srcs[kept[j]], cfg, c, out[j])
        }
}

/// Some record of the statement fails validation.
pub open spec fn run_fails(srcs: Seq<SourceRecord>) -> bool {
    exists|i: int| 0 <= i < srcs.len() && #[trigger] is_failure(srcs[i])
}

/// Converts one record: `Ok(None)` when it carries no amount, else the
/// output record or the first validation error, tax code before amount.
pub fn convert_record(record: &SourceRecord, config: &TaxerConfig) -> (r: Result<
    Option<OutputRecord>,
    ValidationError,
>)
    ensures
        match conversion_outcome(*record) {
            None => r == Ok::<Option<OutputRecord>, ValidationError>(None),
            Some(Err(e)) => r == Err::<Option<OutputRecord>, ValidationError>(e),
            Some(Ok(c)) => r matches Ok(Some(rec)) && converts_to(*record, *config, c, rec),
        },
{
    let amount = match record.amount_text() {
        None => {
            return Ok(None);
        },
        Some(t) => t,
    };
    let currency = if config.currency_source == CurrencySource::Record
        && !record.currency.as_str().is_empty() {
        record.currency.clone()
    } else {
        config.currency_code.clone()
    };
    let builder = RecordBuilder::new();
    let builder = match builder.tax_code_raw(record.party_tax_id.clone()) {
        Ok(b) => b,
        Err(e) => {
            return Err(e);
        },
    };
    let builder = match builder.amount_raw(amount.as_str()) {
        Ok(b) => b,
        Err(e) => {
            return Err(e);
        },
    };
    let built = builder.date(record.operation_date).comment(record.payment_purpose.clone()).operation(
        config.operation.clone(),
    ).income_type(config.income_type.clone()).account_name(config.account_name.clone()).currency_code(
        currency,
    ).build();
    match built {
        Ok(rec) => Ok(Some(rec)),
        Err(e) => Err(e),
    }
}

/// Converts a statement: records without an amount are skipped, those whose
/// date the filter refuses are dropped, and the first record that fails
/// validation fails the whole run, so that no partial output is produced.
pub fn convert_records(
    statement: &Vec<SourceRecord>,
    config: &TaxerConfig,
    filter: &DateFilter,
) -> (r: Result<Vec<OutputRecord>, ConversionError>)
    ensures
        r is Err <==> run_fails(statement@),
        r matches Err(ce) ==> {
            &&& 0 <= ce.index < statement@.len()
            &&& conversion_outcome(statement@[ce.index as int]) == Some(
                Err::<u64, ValidationError>(ce.error),
            )
            &&& forall|k: int| 0 <= k < ce.index ==> !is_failure(#[trigger] statement@[k])
        },
        r matches Ok(out) ==> output_of_prefix(
            statement@,
            *config,
            *filter,
            statement@.len() as int,
            out@,
        ),
{
    let mut out: Vec<OutputRecord> = Vec::new();
    let mut i: usize = 0;
    while i < statement.len()
        invariant
            i <= statement@.len(),
            forall|k: int| 0 <= k < i ==> !is_failure(#[trigger] statement@[k]),
            output_of_prefix(statement@, *config, *filter, i as int, out@),
        decreases statement@.len() - i,
    {
        let ghost before = kept_indices(statement@, *filter, i as int);
        let ghost old_out = out@;
        match convert_record(&statement[i], config) {
            Err(e) => {
                assert(is_failure(statement@[i as int]));
                return Err(ConversionError { index: i, error: e });
            },
            Ok(None) => {},
            Ok(Some(rec)) => {
                if filter.matches(rec.date) {
                    out.push(rec);
                }
            },
        }
        proof {
            let after = kept_indices(statement@, *filter, i + 1);
            assert forall|j: int| 0 <= j < after.len() implies {
                &&& 0 <= #[trigger] after[j] < i + 1
                &&& conversion_outcome(statement@[after[j]]) matches Some(Ok(c))
                &&& converts_to(statement@[after[j]], *config, c, out@[j])
            } by {
                if j < before.len() {
                    assert(after[j] == before[j]);
                    assert(out@[j] == old_out[j]);
                    assert(0 <= before[j] < i);
                }
            }
        }
        i = i + 1;
    }
    proof {
        assert forall|i: int| 0 <= i < statement@.len() implies !is_failure(
            #[trigger] statement@[i],
        ) by {}
    }
    Ok(out)
}

/// The positions that `kept_indices` lists are exactly those of the records
/// that reach the output.
pub proof fn lemma_kept_indices_members(srcs: Seq<SourceRecord>, filter: DateFilter, n: int)
    requires
        0 <= n <= srcs.len(),
    ensures
        forall|k: int|
            #[trigger] kept_indices(srcs, filter, n).contains(k) <==> 0 <= k < n && is_kept(
                srcs[k],
                filter,
            ),
    decreases n,
{
    if n > 0 {
        lemma_kept_indices_members(srcs, filter, n - 1);
        let prev = kept_indices(srcs, filter, n - 1);
        assert forall|k: int|
            #[trigger] kept_indices(srcs, filter, n).contains(k) <==> 0 <= k < n && is_kept(
                srcs[k],
                filter,
            ) by {
            if is_kept(srcs[n - 1], filter) {
                let cur = prev.push(n - 1);
                if cur.contains(k) && k != n - 1 {
                    let w = choose|w: int| 0 <= w < cur.len() && cur[w] == k;
                    assert(prev[w] == k);
                }
                if prev.contains(k) {
                    let w = choose|w: int| 0 <= w < prev.len() && prev[w] == k;
                    assert(cur[w] == k);
                }
                if k == n - 1 {
                    assert(cur[prev.len() as int] == k);
                }
            }
        }
    }
}

/// A tax identifier that is empty fails the record, and the error names the
/// tax-code field.
pub proof fn lemma_empty_tax_code_fails(src: SourceRecord)
    requires
        src.party_tax_id@.len() == 0,
        src.spec_amount_text() is Some,
    ensures
        conversion_outcome(src) == Some(Err::<u64, ValidationError>(ValidationError::EmptyTaxCode)),
        ValidationError::EmptyTaxCode.spec_field() == Field::TaxCode,
{
}

/// A record whose credit amount is absent is skipped: it is no failure and
/// it does not reach the output.
pub proof fn lemma_absent_credit_is_skipped(srcs: Seq<SourceRecord>, filter: DateFilter, i: int)
    requires
        0 <= i < srcs.len(),
        srcs[i].amount matches SourceAmount::Credit(None),
    ensures
        !is_failure(srcs[i]),
        !kept_indices(srcs, filter, srcs.len() as int).contains(i),
{
    lemma_kept_indices_members(srcs, filter, srcs.len() as int);
}

/// One record with an amount and an invalid tax identifier fails the whole
/// run, whatever the other records hold.
pub proof fn lemma_invalid_tax_code_fails_run(srcs: Seq<SourceRecord>, i: int)
    requires
        0 <= i < srcs.len(),
        srcs[i].spec_amount_text() is Some,
        tax_code_check(utf8_of(srcs[i].party_tax_id@)) is Err,
    ensures
        run_fails(srcs),
{
    assert(is_failure(srcs[i]));
}

} // verus!
