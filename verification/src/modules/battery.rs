//! The battery module.

use crate::error::Result;
use crate::template::{fill, strfmt_text};
use vstd::prelude::*;

verus! {

broadcast use vstd::string::group_string_axioms;

/// The battery module.
pub struct Mod {}

/// The charge level that a battery reading falls in.
#[derive(Clone, Copy, Debug, PartialEq, Eq)]
pub enum BatteryLevel {
    Critical,
    Low,
    Normal,
    High,
    Full,
    /// Above the full threshold, or a reading that compares with nothing.
    Unknown,
}

/// The name of a level as the status reports it.
pub open spec fn level_name(level: BatteryLevel) -> Seq<char> {
    match level {
        BatteryLevel::Critical => "critical"@,
        BatteryLevel::Low => "low"@,
        BatteryLevel::Normal => "normal"@,
        BatteryLevel::High => "high"@,
        BatteryLevel::Full => "full"@,
        BatteryLevel::Unknown => "NaN"@,
    }
}

/// The level of the first threshold that the charge passes: below the
/// critical, low, normal or high threshold, or at most the full one.
pub open spec fn spec_battery_level(
    below_critical: bool,
    below_low: bool,
    below_normal: bool,
    below_high: bool,
    at_most_full: bool,
) -> BatteryLevel {
    if below_critical {
        BatteryLevel::Critical
    } else if below_low {
        BatteryLevel::Low
    } else if below_normal {
        BatteryLevel::Normal
    } else if below_high {
        BatteryLevel::High
    } else if at_most_full {
        BatteryLevel::Full
    } else {
        BatteryLevel::Unknown
    }
}

impl BatteryLevel {
    /// The name of the level: `critical`, `low`, `normal`, `high`, `full`, or
    /// `NaN` for a charge above every threshold.
    pub fn name(&self) -> (s: &'static str)
        ensures
            s@ == level_name(*self),
    {
        match self {
            BatteryLevel::Critical => "critical",
            BatteryLevel::Low => "low",
            BatteryLevel::Normal => "normal",
            BatteryLevel::High => "high",
            BatteryLevel::Full => "full",
            BatteryLevel::Unknown => "NaN",
        }
    }
}

/// Picks the level of a charge from how it compares with the configured
/// thresholds, trying them from critical up to full.
pub fn battery_level(
    below_critical: bool,
    below_low: bool,
    below_normal: bool,
    below_high: bool,
    at_most_full: bool,
) -> (level: BatteryLevel)
    ensures
        level == spec_battery_level(below_critical, below_low, below_normal, below_high, at_most_full),
{
    if below_critical {
        BatteryLevel::Critical
    } else if below_low {
        BatteryLevel::Low
    } else if below_normal {
        BatteryLevel::Normal
    } else if below_high {
        BatteryLevel::High
    } else if at_most_full {
        BatteryLevel::Full
    } else {
        BatteryLevel::Unknown
    }
}

/// The variables of the battery template.
pub open spec fn battery_vars(label: Seq<char>, value: Seq<char>, separator: Seq<char>) -> Map<
    Seq<char>,
    Seq<char>,
> {
    Map::empty().insert("label"@, label).insert("value"@, value).insert("separator"@, separator)
}

/// The separator that is used: the configured one, or none.
pub open spec fn separator_text(separator: Option<String>) -> Seq<char> {
    match separator {
        Some(s) => s@,
        None => Seq::empty(),
    }
}

/// The battery template gets exactly three variables: `label`, `value` and
/// `separator`, each holding the text it was given, whatever characters it has.
pub proof fn lemma_battery_vars_hold_inputs(label: Seq<char>, value: Seq<char>, separator: Seq<char>)
    ensures
        battery_vars(label, value, separator).dom() =~= set!["label"@, "value"@, "separator"@],
        battery_vars(label, value, separator)["label"@] == label,
        battery_vars(label, value, separator)["value"@] == value,
        battery_vars(label, value, separator)["separator"@] == separator,
{
    reveal_strlit("label");
    reveal_strlit("value");
    reveal_strlit("separator");
    assert("label"@ != "value"@ && "label"@ != "separator"@ && "value"@ != "separator"@) by {
        assert("label"@.len() != "separator"@.len());
        assert("value"@.len() != "separator"@.len());
        assert("label"@[0] != "value"@[0]);
    }
}

/// A configured separator is used whole; with none, the separator is empty.
pub proof fn lemma_separator_used_whole(separator: Option<String>)
    ensures
        separator matches Some(s) ==> separator_text(separator) == s@,
        separator is None ==> separator_text(separator).len() == 0,
{
}

impl Mod {
    /// The text of the battery status: `format` filled with `label` (or
    /// `charging_label` while the battery charges) as `label`, the charge
    /// `value` as `value` and the separator as `separator`. Returns the text
    /// and the separator used, which is empty when none is configured.
    pub fn status_text(
        &self,
        format: &str,
        label: &str,
        charging_label: &str,
        charging: bool,
        value: &str,
        separator: Option<String>,
    ) -> (r: Result<(String, String)>)
        ensures
            ({
                let vars = battery_vars(
                    if charging {
                        charging_label@
                    } else {
                        label@
                    },
                    value@,
                    separator_text(separator),
                );
                match r {
                    Ok((text, sep)) => sep@ == separator_text(separator) && strfmt_text(
                        format@,
                        vars,
                    ) == Some(text@),
                    Err(e) => strfmt_text(format@, vars) is None && e is DynamicFormat,
                }
            }),
            // The configured separator is used whole, and the template gets the
            // chosen label, the value and the separator exactly as given.
            r matches Ok((text, sep)) ==> {
                &&& (separator matches Some(s) ==> sep@ == s@)
                &&& (separator is None ==> sep@ == Seq::<char>::empty())
                &&& strfmt_text(
                    format@,
                    Map::empty().insert(
                        "label"@,
                        if charging {
                            charging_label@
                        } else {
                            label@
                        },
                    ).insert("value"@, value@).insert("separator"@, sep@),
                ) == Some(text@)
            },
            r is Err ==> strfmt_text(
                format@,
                Map::empty().insert(
                    "label"@,
                    if charging {
                        charging_label@
                    } else {
                        label@
                    },
                ).insert("value"@, value@).insert(
                    "separator"@,
                    match separator {
                        Some(s) => s@,
                        None => Seq::<char>::empty(),
                    },
                ),
            ) is None,
    {
        let chosen: &str = if charging {
            charging_label
        } else {
            label
        };
        let sep: String = match separator {
            Some(s) => s,
            None => String::new(),
        };
        let vars: Vec<(String, String)> = vec![
            ("label".to_string(), chosen.to_string()),
            ("value".to_string(), value.to_string()),
            ("separator".to_string(), sep.clone()),
        ];
        proof {
            reveal_with_fuel(crate::template::vars_map, 4);
            assert(vars@.drop_last().drop_last().drop_last() =~= Seq::<(String, String)>::empty());
        }
        let text = fill(format, vars)?;
        Ok((text, sep))
    }
}

} // verus!
