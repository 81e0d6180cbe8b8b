use vstd::prelude::*;

verus! {

/// Where the currency code of an output record comes from.
#[derive(Debug, Clone, Copy, PartialEq, Eq, Structural)]
pub enum CurrencySource {
    /// The source record's own code, and the configured one when the record has none.
    Record,
    /// Always the configured code.
    Config,
}

/// Labels and defaults that every output record of a run receives.
#[derive(Debug, Clone)]
pub struct TaxerConfig {
    pub operation: String,
    pub income_type: String,
    pub account_name: String,
    pub currency_code: String,
    pub currency_source: CurrencySource,
}

/// One layer of configuration: the fields it sets, each overriding earlier layers.
#[derive(Debug, Clone)]
pub struct ConfigPatch {
    pub operation: Option<String>,
    pub income_type: Option<String>,
    pub account_name: Option<String>,
    pub currency_code: Option<String>,
    pub currency_source: Option<CurrencySource>,
}

/// The text that the last layer setting a field gives it, or `base` when no layer does.
pub open spec fn layered_text(
    patches: Seq<ConfigPatch>,
    pick: spec_fn(ConfigPatch) -> Option<String>,
    base: Seq<char>,
) -> Seq<char>
    decreases patches.len(),
{
    if patches.len() == 0 {
        base
    } else {
        match pick(patches.last()) {
            Some(v) => v@,
            None => layered_text(patches.drop_last(), pick, base),
        }
    }
}

/// The currency source that the last layer setting it gives, or `base`.
pub open spec fn layered_source(patches: Seq<ConfigPatch>, base: CurrencySource) -> CurrencySource
    decreases patches.len(),
{
    if patches.len() == 0 {
        base
    } else {
        match patches.last().currency_source {
            Some(v) => v,
            None => layered_source(patches.drop_last(), base),
        }
    }
}

pub open spec fn pick_operation(p: ConfigPatch) -> Option<String> {
    p.operation
}

pub open spec fn pick_income_type(p: ConfigPatch) -> Option<String> {
    p.income_type
}

pub open spec fn pick_account_name(p: ConfigPatch) -> Option<String> {
    p.account_name
}

pub open spec fn pick_currency_code(p: ConfigPatch) -> Option<String> {
    p.currency_code
}

impl TaxerConfig {
    /// The configuration before any layer: the usual labels of an income entry,
    /// no account name, the hryvnia as currency, taken from the record first.
    pub open spec fn is_default(&self) -> bool {
        &&& self.operation@ == "Дохід"@
        &&& self.income_type@ == "Основний дохід"@
        &&& self.account_name@ == Seq::<char>::empty()
        &&& self.currency_code@ == "UAH"@
        &&& self.currency_source == CurrencySource::Record
    }

    /// The configuration after `patch` is laid over `self`.
    pub open spec fn patched(&self, patch: ConfigPatch, next: TaxerConfig) -> bool {
        &&& next.operation@ == (match patch.operation {
            Some(v) => v@,
            None => self.operation@,
        })
        &&& next.income_type@ == (match patch.income_type {
            Some(v) => v@,
            None => self.income_type@,
        })
        &&& next.account_name@ == (match patch.account_name {
            Some(v) => v@,
            None => self.account_name@,
        })
        &&& next.currency_code@ == (match patch.currency_code {
            Some(v) => v@,
            None => self.currency_code@,
        })
        &&& next.currency_source == (match patch.currency_source {
            Some(v) => v,
            None => self.currency_source,
        })
    }

    /// The configuration that `patches`, in order, make of `base`.
    pub open spec fn layered_over(
        base: TaxerConfig,
        patches: Seq<ConfigPatch>,
        next: TaxerConfig,
    ) -> bool {
        &&& next.operation@ == layered_text(patches, |p| pick_operation(p), base.operation@)
        &&& next.income_type@ == layered_text(patches, |p| pick_income_type(p), base.income_type@)
        &&& next.account_name@ == layered_text(
            patches,
            |p| pick_account_name(p),
            base.account_name@,
        )
        &&& next.currency_code@ == layered_text(
            patches,
            |p| pick_currency_code(p),
            base.currency_code@,
        )
        &&& next.currency_source == layered_source(patches, base.currency_source)
    }

    /// The configuration that `patches`, in order, make of the default one.
    pub open spec fn default_layered(patches: Seq<ConfigPatch>, next: TaxerConfig) -> bool {
        &&& next.operation@ == layered_text(patches, |p| pick_operation(p), "Дохід"@)
        &&& next.income_type@ == layered_text(patches, |p| pick_income_type(p), "Основний дохід"@)
        &&& next.account_name@ == layered_text(
            patches,
            |p| pick_account_name(p),
            Seq::<char>::empty(),
        )
        &&& next.currency_code@ == layered_text(patches, |p| pick_currency_code(p), "UAH"@)
        &&& next.currency_source == layered_source(patches, CurrencySource::Record)
    }

    /// Lays one layer over this configuration.
    pub fn apply(&mut self, patch: &ConfigPatch)
        ensures
            old(self).patched(*patch, *final(self)),
    {
        if let Some(v) = &patch.operation {
            self.operation = v.clone();
        }
        if let Some(v) = &patch.income_type {
            self.income_type = v.clone();
        }
        if let Some(v) = &patch.account_name {
            self.account_name = v.clone();
        }
        if let Some(v) = &patch.currency_code {
            self.currency_code = v.clone();
        }
        if let Some(v) = patch.currency_source {
            self.currency_source = v;
        }
    }

    /// The default configuration with `patches` laid over it in order, later
    /// layers overriding earlier ones field by field.
    pub fn layered(patches: &Vec<ConfigPatch>) -> (r: TaxerConfig)
        ensures
            Self::default_layered(patches@, r),
    {
        let base = TaxerConfig::default();
        let mut cfg = TaxerConfig::default();
        let mut i: usize = 0;
        while i < patches.len()
            invariant
                i <= patches@.len(),
                base.is_default(),
                Self::layered_over(base, patches@.take(i as int), cfg),
            decreases patches@.len() - i,
        {
            let ghost prev = cfg;
            cfg.apply(&patches[i]);
            assert(patches@.take(i + 1).drop_last() =~= patches@.take(i as int));
            assert(patches@.take(i + 1).last() == patches@[i as int]);
            i = i + 1;
        }
        assert(patches@.take(patches@.len() as int) =~= patches@);
        cfg
    }
}

impl Default for TaxerConfig {
    fn default() -> (r: TaxerConfig)
        ensures
            r.is_default(),
    {
        TaxerConfig {
            operation: String::from_str("Дохід"),
            income_type: String::from_str("Основний дохід"),
            account_name: String::new(),
            currency_code: String::from_str("UAH"),
            currency_source: CurrencySource::Record,
        }
    }
}

} // verus!
