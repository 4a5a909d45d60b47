//! The CPU module.

use crate::error::Result;
use crate::template::{fill, strfmt_text};
use vstd::prelude::*;

verus! {

broadcast use vstd::string::group_string_axioms;

/// The CPU module.
pub struct Mod {}

/// The load level that a CPU reading falls in.
#[derive(Clone, Copy, Debug, PartialEq, Eq)]
pub enum CpuLevel {
    Low,
    Mid,
    High,
}

/// The name of a level as the status reports it.
pub open spec fn level_name(level: CpuLevel) -> Seq<char> {
    match level {
        CpuLevel::Low => "low"@,
        CpuLevel::Mid => "mid"@,
        CpuLevel::High => "high"@,
    }
}

impl CpuLevel {
    /// The name of the level: `low`, `mid` or `high`.
    pub fn name(&self) -> (s: &'static str)
        ensures
            s@ == level_name(*self),
    {
        match self {
            CpuLevel::Low => "low",
            CpuLevel::Mid => "mid",
            CpuLevel::High => "high",
        }
    }
}

/// Picks the level of a load: low when it is below the low threshold (where
/// one is configured), else mid when it is below the mid threshold (where one
/// is configured), else high.
pub fn cpu_level(below_low: bool, below_mid: bool) -> (level: CpuLevel)
    ensures
        level == if below_low {
            CpuLevel::Low
        } else if below_mid {
            CpuLevel::Mid
        } else {
            CpuLevel::High
        },
{
    if below_low {
        CpuLevel::Low
    } else if below_mid {
        CpuLevel::Mid
    } else {
        CpuLevel::High
    }
}

/// The variables of the CPU template.
pub open spec fn cpu_vars(
    load_label: Seq<char>,
    load: Seq<char>,
    temp_label: Seq<char>,
    temp: Seq<char>,
    separator: Seq<char>,
) -> Map<Seq<char>, Seq<char>> {
    Map::empty().insert("load_label"@, load_label).insert("load"@, load).insert(
        "temp_label"@,
        temp_label,
    ).insert("temp"@, temp).insert("separator"@, separator)
}

/// The CPU template gets exactly five variables, each holding the text it was
/// given, whatever characters it has.
pub proof fn lemma_cpu_vars_hold_inputs(
    load_label: Seq<char>,
    load: Seq<char>,
    temp_label: Seq<char>,
    temp: Seq<char>,
    separator: Seq<char>,
)
    ensures
        cpu_vars(load_label, load, temp_label, temp, separator).dom() =~= set![
            "load_label"@,
            "load"@,
            "temp_label"@,
            "temp"@,
            "separator"@,
        ],
        cpu_vars(load_label, load, temp_label, temp, separator)["load_label"@] == load_label,
        cpu_vars(load_label, load, temp_label, temp, separator)["load"@] == load,
        cpu_vars(load_label, load, temp_label, temp, separator)["temp_label"@] == temp_label,
        cpu_vars(load_label, load, temp_label, temp, separator)["temp"@] == temp,
        cpu_vars(load_label, load, temp_label, temp, separator)["separator"@] == separator,
{
    reveal_strlit("load_label");
    reveal_strlit("load");
    reveal_strlit("temp_label");
    reveal_strlit("temp");
    reveal_strlit("separator");
    assert("load_label"@ != "load"@ && "load_label"@ != "temp_label"@ && "load_label"@ != "temp"@
        && "load_label"@ != "separator"@ && "load"@ != "temp_label"@ && "load"@ != "temp"@
        && "load"@ != "separator"@ && "temp_label"@ != "temp"@ && "temp_label"@ != "separator"@
        && "temp"@ != "separator"@) by {
        assert("load_label"@.len() == 10 && "load"@.len() == 4 && "temp_label"@.len() == 10);
        assert("temp"@.len() == 4 && "separator"@.len() == 9);
        assert("load_label"@[0] != "temp_label"@[0]);
        assert("load"@[0] != "temp"@[0]);
    }
}

impl Mod {
    /// The text of the CPU status: `format` filled with the level's labels as
    /// `load_label` and `temp_label`, the readings as `load` and `temp`, and the
    /// separator as `separator`. Returns the text and the separator used, which
    /// is empty when none is configured.
    pub fn status_text(
        &self,
        format: &str,
        load_label: &str,
        temp_label: &str,
        load: &str,
        temp: &str,
        separator: Option<String>,
    ) -> (r: Result<(String, String)>)
        ensures
            ({
                let vars = cpu_vars(
                    load_label@,
                    load@,
                    temp_label@,
                    temp@,
                    crate::modules::battery::separator_text(separator),
                );
                match r {
                    Ok((text, sep)) => sep@ == crate::modules::battery::separator_text(separator)
                        && strfmt_text(format@, vars) == Some(text@),
                    Err(e) => strfmt_text(format@, vars) is None && e is DynamicFormat,
                }
            }),
            // The configured separator is used whole, and the template gets the
            // labels, readings and separator exactly as given.
            r matches Ok((text, sep)) ==> {
                &&& (separator matches Some(s) ==> sep@ == s@)
                &&& (separator is None ==> sep@ == Seq::<char>::empty())
                &&& strfmt_text(
                    format@,
                    Map::empty().insert("load_label"@, load_label@).insert("load"@, load@).insert(
                        "temp_label"@,
                        temp_label@,
                    ).insert("temp"@, temp@).insert("separator"@, sep@),
                ) == Some(text@)
            },
            r is Err ==> strfmt_text(
                format@,
                Map::empty().insert("load_label"@, load_label@).insert("load"@, load@).insert(
                    "temp_label"@,
                    temp_label@,
                ).insert("temp"@, temp@).insert(
                    "separator"@,
                    match separator {
                        Some(s) => s@,
                        None => Seq::<char>::empty(),
                    },
                ),
            ) is None,
    {
        let sep: String = match separator {
            Some(s) => s,
            None => String::new(),
        };
        let vars: Vec<(String, String)> = vec![
            ("load_label".to_string(), load_label.to_string()),
            ("load".to_string(), load.to_string()),
            ("temp_label".to_string(), temp_label.to_string()),
            ("temp".to_string(), temp.to_string()),
            ("separator".to_string(), sep.clone()),
        ];
        proof {
            reveal_with_fuel(crate::template::vars_map, 6);
            assert(vars@.drop_last().drop_last().drop_last().drop_last().drop_last()
                =~= Seq::<(String, String)>::empty());
        }
        let text = fill(format, vars)?;
        Ok((text, sep))
    }
}

} // verus!
