use vstd::prelude::*;

use crate::ids::text_equals;

verus! {

/// Settings of a browser automation session: the isolated database it runs against.
#[derive(Clone, Debug, PartialEq, Eq)]
pub struct AutomationConfiguration {
    pub database_name: String,
}

/// Length of both isolated-database prefixes.
pub const DATABASE_PREFIX_LEN: usize = 23;

/// Longest accepted automation database name.
pub const MAX_DATABASE_NAME_LEN: usize = 96;

/// A character allowed in an automation database name: a lowercase ASCII letter, a digit or `-`.
pub open spec fn database_char(c: char) -> bool {
    ('a' <= c <= 'z') || ('0' <= c <= '9') || c == '-'
}

/// Whether `value` starts with one of the isolated-database prefixes.
pub open spec fn has_isolated_prefix(value: Seq<char>) -> bool {
    value.len() >= 23 && (value.subrange(0, 23) =~= "mirabile-workbench-e2e-"@ || value.subrange(0, 23)
        =~= "mirabile-workbench-dev-"@)
}

/// An isolated database name: a prefix, then at least one more character, at most 96 in all,
/// every one a lowercase ASCII letter, a digit or `-`.
pub open spec fn spec_valid_database_name(value: Seq<char>) -> bool {
    &&& has_isolated_prefix(value)
    &&& 23 < value.len() <= 96
    &&& forall|i: int| 0 <= i < value.len() ==> database_char(#[trigger] value[i])
}

fn starts_with(value: &str, prefix: &str) -> (r: bool)
    ensures
        r == (prefix@.len() <= value@.len() && value@.subrange(0, prefix@.len() as int) =~= prefix@),
{
    let n = prefix.unicode_len();
    if n > value.unicode_len() {
        return false;
    }
    let mut i: usize = 0;
    while i < n
        invariant
            n == prefix@.len(),
            n <= value@.len(),
            i <= n,
            forall|j: int| 0 <= j < i ==> value@[j] == prefix@[j],
        decreases n - i,
    {
        if value.get_char(i) != prefix.get_char(i) {
            return false;
        }
        i += 1;
    }
    true
}

/// Whether `value` names an isolated automation database.
pub fn valid_database_name(value: &str) -> (r: bool)
    ensures
        r == spec_valid_database_name(value@),
{
    proof {
        reveal_strlit("mirabile-workbench-e2e-");
        reveal_strlit("mirabile-workbench-dev-");
    }
    if !(starts_with(value, "mirabile-workbench-e2e-") || starts_with(value, "mirabile-workbench-dev-")) {
        return false;
    }
    let n = value.unicode_len();
    if n <= DATABASE_PREFIX_LEN || n > MAX_DATABASE_NAME_LEN {
        return false;
    }
    let mut i: usize = 0;
    while i < n
        invariant
            n == value@.len(),
            i <= n,
            forall|j: int| 0 <= j < i ==> database_char(#[trigger] value@[j]),
        decreases n - i,
    {
        let c = value.get_char(i);
        if !(('a' <= c && c <= 'z') || ('0' <= c && c <= '9') || c == '-') {
            return false;
        }
        i += 1;
    }
    true
}

/// Automation runs only when explicitly enabled with `"1"`, and then only against an isolated
/// database: a missing or non-isolated database name is refused with an explanation.
pub fn parse_configuration(enabled: Option<&str>, database_name: Option<&str>) -> (r: Result<Option<AutomationConfiguration>, String>)
    ensures
        !(enabled matches Some(e) && e@ == "1"@) ==> r == Ok::<Option<AutomationConfiguration>, String>(None),
        (enabled matches Some(e) && e@ == "1"@) ==> match database_name {
            None => r matches Err(message) && message@ == "automation mode requires an isolated database name"@,
            Some(name) => if spec_valid_database_name(name@) {
                r matches Ok(Some(configuration)) && configuration.database_name@ == name@
            } else {
                r matches Err(message) && message@ == "automation database names must start with mirabile-workbench-e2e- or mirabile-workbench-dev- and contain only lowercase ASCII letters, digits, and hyphens"@
            },
        },
{
    let is_enabled = match enabled {
        Some(value) => text_equals(value, "1"),
        None => false,
    };
    if !is_enabled {
        return Ok(None);
    }
    let database_name = match database_name {
        Some(name) => name,
        None => return Err("automation mode requires an isolated database name".to_owned()),
    };
    if valid_database_name(database_name) {
        Ok(Some(AutomationConfiguration { database_name: database_name.to_owned() }))
    } else {
        Err("automation database names must start with mirabile-workbench-e2e- or mirabile-workbench-dev- and contain only lowercase ASCII letters, digits, and hyphens".to_owned())
    }
}

} // verus!
