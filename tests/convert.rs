use dbo2taxer::config::{ConfigPatch, CurrencySource, TaxerConfig};
use dbo2taxer::convert::{convert_record, convert_records, ConversionError};
use dbo2taxer::date::DateTime;
use dbo2taxer::filter::{DateFilter, Quarter};
use dbo2taxer::record::{
    check_tax_code, parse_amount, Field, RecordBuilder, SourceAmount, SourceRecord,
    ValidationError,
};

fn credit_record(tax_id: &str, amount: Option<&str>, date: DateTime) -> SourceRecord {
    SourceRecord {
        party_tax_id: tax_id.to_string(),
        operation_date: date,
        payment_purpose: "Оплата за послуги".to_string(),
        currency: "UAH".to_string(),
        amount: SourceAmount::Credit(amount.map(|a| a.to_string())),
    }
}

fn aug_15() -> DateTime {
    DateTime::new(2024, 8, 15, 10, 30, 0).unwrap()
}

fn empty_patch() -> ConfigPatch {
    ConfigPatch {
        operation: None,
        income_type: None,
        account_name: None,
        currency_code: None,
        currency_source: None,
    }
}

#[test]
fn end_to_end_third_quarter() {
    let statement = vec![credit_record("1234567890", Some("150.00"), aug_15())];
    let config = TaxerConfig::default();
    let filter = DateFilter::new(Some(Quarter::Q3), Some(2024));
    let out = convert_records(&statement, &config, &filter).unwrap();
    assert_eq!(out.len(), 1);
    let rec = &out[0];
    assert_eq!(rec.amount, 15000);
    assert_eq!(rec.date, aug_15());
    assert_eq!(rec.tax_code, "1234567890");
    assert_eq!(rec.operation, "Дохід");
    assert_eq!(rec.income_type, "Основний дохід");
    assert_eq!(rec.currency_code, "UAH");
    assert_eq!(rec.comment, "Оплата за послуги");
    assert_eq!(rec.account_name, "");
}

#[test]
fn end_to_end_first_quarter_is_empty() {
    let statement = vec![credit_record("1234567890", Some("150.00"), aug_15())];
    let config = TaxerConfig::default();
    let filter = DateFilter::new(Some(Quarter::Q1), Some(2024));
    let out = convert_records(&statement, &config, &filter).unwrap();
    assert!(out.is_empty());
}

#[test]
fn empty_tax_code_names_tax_code_field() {
    let config = TaxerConfig::default();
    let err = convert_record(&credit_record("", Some("10"), aug_15()), &config).unwrap_err();
    assert_eq!(err, ValidationError::EmptyTaxCode);
    assert_eq!(err.field(), Field::TaxCode);
    let err = RecordBuilder::new().tax_code_raw(String::new()).unwrap_err();
    assert_eq!(err.field(), Field::TaxCode);
}

#[test]
fn absent_credit_is_skipped() {
    let config = TaxerConfig::default();
    let skipped = credit_record("1234567890", None, aug_15());
    assert!(convert_record(&skipped, &config).unwrap().is_none());
    let statement = vec![
        credit_record("1234567890", None, aug_15()),
        credit_record("1111111111", Some("5"), aug_15()),
    ];
    let out = convert_records(&statement, &config, &DateFilter::new(None, None)).unwrap();
    assert_eq!(out.len(), 1);
    assert_eq!(out[0].tax_code, "1111111111");
    assert_eq!(out[0].amount, 500);
}

#[test]
fn three_records_second_invalid_fails_run() {
    let config = TaxerConfig::default();
    let statement = vec![
        credit_record("1234567890", Some("1.00"), aug_15()),
        credit_record("12AB", Some("2.00"), aug_15()),
        credit_record("2345678901", Some("3.00"), aug_15()),
    ];
    let r = convert_records(&statement, &config, &DateFilter::new(None, None));
    assert_eq!(
        r.unwrap_err(),
        ConversionError {
            index: 1,
            error: ValidationError::InvalidTaxCode
        }
    );
}

#[test]
fn invalid_record_fails_even_when_filtered_out() {
    let config = TaxerConfig::default();
    let statement = vec![credit_record("x", Some("1"), aug_15())];
    let r = convert_records(&statement, &config, &DateFilter::new(Some(Quarter::Q1), None));
    assert_eq!(r.unwrap_err().index, 0);
}

#[test]
fn order_is_kept() {
    let config = TaxerConfig::default();
    let statement = vec![
        credit_record("3", Some("3"), aug_15()),
        credit_record("1", Some("1"), DateTime::new(2024, 1, 5, 0, 0, 0).unwrap()),
        credit_record("2", Some("2"), aug_15()),
    ];
    let out = convert_records(&statement, &config, &DateFilter::new(Some(Quarter::Q3), None)).unwrap();
    let codes: Vec<&str> = out.iter().map(|r| r.tax_code.as_str()).collect();
    assert_eq!(codes, vec!["3", "2"]);
}

#[test]
fn coverage_amount_is_used() {
    let config = TaxerConfig::default();
    let mut src = credit_record("1234567890", None, aug_15());
    src.amount = SourceAmount::Coverage("0.5".to_string());
    let rec = convert_record(&src, &config).unwrap().unwrap();
    assert_eq!(rec.amount, 50);
}

#[test]
fn amount_readings() {
    assert_eq!(parse_amount("150.00"), Ok(15000));
    assert_eq!(parse_amount("150"), Ok(15000));
    assert_eq!(parse_amount("7.5"), Ok(750));
    assert_eq!(parse_amount("0.01"), Ok(1));
    assert_eq!(parse_amount("0"), Err(ValidationError::NonPositiveAmount));
    assert_eq!(parse_amount("0.00"), Err(ValidationError::NonPositiveAmount));
    assert_eq!(parse_amount("-3.10"), Err(ValidationError::NonPositiveAmount));
    assert_eq!(parse_amount("-"), Err(ValidationError::MalformedAmount));
    assert_eq!(parse_amount(""), Err(ValidationError::MalformedAmount));
    assert_eq!(parse_amount("1.234"), Err(ValidationError::MalformedAmount));
    assert_eq!(parse_amount(".5"), Err(ValidationError::MalformedAmount));
    assert_eq!(parse_amount("5."), Err(ValidationError::MalformedAmount));
    assert_eq!(parse_amount("1,5"), Err(ValidationError::MalformedAmount));
    assert_eq!(parse_amount("abc"), Err(ValidationError::MalformedAmount));
    assert_eq!(parse_amount("184467440737095516.15"), Ok(u64::MAX));
    assert_eq!(parse_amount("184467440737095516.16"), Err(ValidationError::AmountTooLarge));
    assert_eq!(parse_amount("99999999999999999999999"), Err(ValidationError::AmountTooLarge));
    assert_eq!(ValidationError::AmountTooLarge.field(), Field::Amount);
}

#[test]
fn tax_code_checks() {
    assert_eq!(check_tax_code("1234567890"), Ok(()));
    assert_eq!(check_tax_code(""), Err(ValidationError::EmptyTaxCode));
    assert_eq!(check_tax_code("12 34"), Err(ValidationError::InvalidTaxCode));
    assert_eq!(check_tax_code("ІПН"), Err(ValidationError::InvalidTaxCode));
}

#[test]
fn malformed_amount_fails_record() {
    let config = TaxerConfig::default();
    let err = convert_record(&credit_record("1234567890", Some("1.2.3"), aug_15()), &config).unwrap_err();
    assert_eq!(err, ValidationError::MalformedAmount);
    assert_eq!(err.field(), Field::Amount);
}

#[test]
fn builder_reports_missing_fields_in_order() {
    let b = RecordBuilder::new();
    assert_eq!(b.clone().build().unwrap_err(), ValidationError::MissingField(Field::TaxCode));
    let b = b.tax_code_raw("123".to_string()).unwrap();
    assert_eq!(b.clone().build().unwrap_err(), ValidationError::MissingField(Field::Amount));
    let b = b.amount_raw("1").unwrap();
    assert_eq!(b.clone().build().unwrap_err().field(), Field::Date);
    let rec = b.date(aug_15()).comment("c".to_string()).currency_code("EUR".to_string()).build().unwrap();
    assert_eq!(rec.tax_code, "123");
    assert_eq!(rec.amount, 100);
    assert_eq!(rec.currency_code, "EUR");
    assert_eq!(rec.comment, "c");
    assert_eq!(rec.operation, "");
}

#[test]
fn currency_falls_back_to_config() {
    let mut config = TaxerConfig::default();
    config.currency_code = "USD".to_string();
    let mut src = credit_record("1", Some("1"), aug_15());
    assert_eq!(convert_record(&src, &config).unwrap().unwrap().currency_code, "UAH");
    src.currency = String::new();
    assert_eq!(convert_record(&src, &config).unwrap().unwrap().currency_code, "USD");
    src.currency = "EUR".to_string();
    config.currency_source = CurrencySource::Config;
    assert_eq!(convert_record(&src, &config).unwrap().unwrap().currency_code, "USD");
}

#[test]
fn configuration_layers_override_in_order() {
    let d = TaxerConfig::layered(&vec![]);
    assert_eq!(d.operation, "Дохід");
    assert_eq!(d.income_type, "Основний дохід");
    assert_eq!(d.account_name, "");
    assert_eq!(d.currency_code, "UAH");
    assert_eq!(d.currency_source, CurrencySource::Record);

    let mut file = empty_patch();
    file.operation = Some("Файл".to_string());
    file.account_name = Some("ФОП".to_string());
    let mut env = empty_patch();
    env.operation = Some("Env".to_string());
    env.currency_source = Some(CurrencySource::Config);
    let c = TaxerConfig::layered(&vec![file, env]);
    assert_eq!(c.operation, "Env");
    assert_eq!(c.account_name, "ФОП");
    assert_eq!(c.income_type, "Основний дохід");
    assert_eq!(c.currency_source, CurrencySource::Config);
}

#[test]
fn labels_come_from_configuration() {
    let mut config = TaxerConfig::default();
    config.apply(&ConfigPatch {
        operation: Some("Op".to_string()),
        income_type: Some("Inc".to_string()),
        account_name: Some("Acc".to_string()),
        currency_code: None,
        currency_source: None,
    });
    let rec = convert_record(&credit_record("42", Some("2.50"), aug_15()), &config).unwrap().unwrap();
    assert_eq!((rec.operation.as_str(), rec.income_type.as_str(), rec.account_name.as_str()), ("Op", "Inc", "Acc"));
    assert_eq!(rec.amount, 250);
}

#[test]
fn amount_splits_into_units_and_hundredths() {
    let config = TaxerConfig::default();
    let rec = convert_record(&credit_record("42", Some("150.07"), aug_15()), &config).unwrap().unwrap();
    assert_eq!(rec.amount_parts(), (150, 7));
}
