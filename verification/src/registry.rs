//! The contract-name registry: an ordered list of name/address pairs,
//! looked up forward (name to address) and in reverse (address to
//! name). Lookups scan the entries in order and the first match wins,
//! which keeps duplicate names or addresses deterministic.

use vstd::prelude::*;
use vstd::string::StringExecFns;

use crate::errors::CliError;
use crate::jsonval::{entries_of, json_err_text, json_from_str, json_parsed_of, str_of,
    value_as_str, value_entries};

verus! {

/// One registry entry: a human contract name and its on-chain address.
pub struct RegistryEntry {
    pub name: String,
    pub address: String,
}

/// The name/address mapping, in a fixed order. Uniqueness of names or
/// addresses is not enforced; the first entry in order wins a lookup.
pub struct Registry {
    pub entries: Vec<RegistryEntry>,
}

/// The name of the first entry in order whose address is `address`, if
/// any entry matches.
pub open spec fn first_name_for(entries: Seq<RegistryEntry>, address: Seq<char>) -> Option<
    Seq<char>,
>
    decreases entries.len(),
{
    if entries.len() == 0 {
        None
    } else if entries[0].address@ == address {
        Some(entries[0].name@)
    } else {
        first_name_for(entries.drop_first(), address)
    }
}

/// The address of the first entry in order whose name is `name`, if
/// any entry matches.
pub open spec fn first_address_for(entries: Seq<RegistryEntry>, name: Seq<char>) -> Option<
    Seq<char>,
>
    decreases entries.len(),
{
    if entries.len() == 0 {
        None
    } else if entries[0].name@ == name {
        Some(entries[0].address@)
    } else {
        first_address_for(entries.drop_first(), name)
    }
}

/// The text is one well-formed JSON document whose root is an object.
pub open spec fn registry_ok(s: Seq<char>) -> bool {
    &&& json_parsed_of(s) is Some
    &&& entries_of(json_parsed_of(s)->Some_0) is Some
}

/// The registry entries are exactly the string-valued members of the
/// document's pairs, in the document's order; members whose value is
/// not a string contribute nothing.
pub open spec fn entries_match(
    pairs: Seq<(Seq<char>, serde_json::Value)>,
    entries: Seq<RegistryEntry>,
) -> bool
    decreases pairs.len(),
{
    if pairs.len() == 0 {
        entries.len() == 0
    } else if str_of(pairs.last().1) is Some {
        &&& entries.len() > 0
        &&& entries.last().name@ == pairs.last().0
        &&& entries.last().address@ == str_of(pairs.last().1)->Some_0
        &&& entries_match(pairs.drop_last(), entries.drop_last())
    } else {
        entries_match(pairs.drop_last(), entries)
    }
}

/// The registry is built from the document the text parses to.
pub open spec fn registry_matches(s: Seq<char>, entries: Seq<RegistryEntry>) -> bool {
    &&& json_parsed_of(s) is Some
    &&& entries_of(json_parsed_of(s)->Some_0) matches Some(pairs) && entries_match(pairs, entries)
}

impl Registry {
    /// Build the registry from its JSON document: an object mapping
    /// contract names to address strings. Succeeds exactly when the
    /// text is a JSON object; members whose value is not a string are
    /// skipped; entries keep the document's iteration order, so
    /// lookups are deterministic.
    #[verifier::loop_isolation(false)]
    pub fn from_json(text: &str) -> (r: Result<Registry, CliError>)
        ensures
            r is Ok <==> registry_ok(text@),
            r matches Ok(reg) ==> registry_matches(text@, reg.entries@),
            r matches Err(e) ==> e matches CliError::ParseError(_),
    {
        let parsed = match json_from_str(text) {
            Ok(v) => v,
            Err(e) => {
                return Err(CliError::ParseError(json_err_text(&e)));
            },
        };
        let pairs = match value_entries(&parsed) {
            Some(p) => p,
            None => {
                return Err(
                    CliError::ParseError(
                        String::from_str("registry document is not a JSON object"),
                    ),
                );
            },
        };
        let ghost spairs: Seq<(Seq<char>, serde_json::Value)> = Seq::new(
            pairs@.len(),
            |k: int| (pairs@[k].0@, pairs@[k].1),
        );
        proof {
            assert(spairs =~= entries_of(json_parsed_of(text@)->Some_0)->Some_0);
            assert(spairs.take(0) =~= Seq::<(Seq<char>, serde_json::Value)>::empty());
        }
        let mut entries: Vec<RegistryEntry> = Vec::new();
        let mut i: usize = 0;
        while i < pairs.len()
            invariant
                i <= pairs@.len(),
                entries_match(spairs.take(i as int), entries@),
            decreases pairs@.len() - i,
        {
            let p = &pairs[i];
            let ghost entries_before = entries@;
            if let Some(addr) = value_as_str(&p.1) {
                entries.push(
                    RegistryEntry { name: p.0.clone(), address: String::from_str(addr) },
                );
            }
            proof {
                let ghost ii: int = i as int;
                assert(spairs.take(ii + 1).drop_last() =~= spairs.take(ii));
                assert(spairs.take(ii + 1).last() == spairs[ii]);
                if str_of(pairs@[ii].1) is Some {
                    assert(entries@.drop_last() =~= entries_before);
                }
                assert(entries_match(spairs.take(ii + 1), entries@));
            }
            i = i + 1;
        }
        proof {
            assert(spairs.take(pairs@.len() as int) =~= spairs);
        }
        Ok(Registry { entries })
    }

    /// Reverse lookup: the name registered for an address, or no match
    /// when the address is not in the registry. Callers treat "no
    /// match" as "show the raw address".
    pub fn resolve_name(&self, address: &str) -> (r: Option<String>)
        ensures
            match r {
                Some(n) => first_name_for(self.entries@, address@) == Some(n@),
                None => first_name_for(self.entries@, address@) is None,
            },
    {
        let addr = String::from_str(address);
        proof {
            assert(self.entries@.skip(0) =~= self.entries@);
        }
        let mut i: usize = 0;
        while i < self.entries.len()
            invariant
                i <= self.entries@.len(),
                addr@ == address@,
                first_name_for(self.entries@, address@) == first_name_for(
                    self.entries@.skip(i as int),
                    address@,
                ),
            decreases self.entries@.len() - i,
        {
            let e = &self.entries[i];
            if e.address == addr {
                return Some(e.name.clone());
            }
            proof {
                assert(self.entries@.skip(i as int).drop_first() =~= self.entries@.skip(
                    i as int + 1,
                ));
            }
            i = i + 1;
        }
        None
    }

    /// Forward lookup: the address registered for a contract name, or
    /// `NotFoundError` when the name is not in the registry.
    pub fn resolve_address(&self, name: &str) -> (r: Result<String, CliError>)
        ensures
            match r {
                Ok(a) => first_address_for(self.entries@, name@) == Some(a@),
                Err(e) => first_address_for(self.entries@, name@) is None && e
                    == CliError::NotFoundError,
            },
    {
        let wanted = String::from_str(name);
        proof {
            assert(self.entries@.skip(0) =~= self.entries@);
        }
        let mut i: usize = 0;
        while i < self.entries.len()
            invariant
                i <= self.entries@.len(),
                wanted@ == name@,
                first_address_for(self.entries@, name@) == first_address_for(
                    self.entries@.skip(i as int),
                    name@,
                ),
            decreases self.entries@.len() - i,
        {
            let e = &self.entries[i];
            if e.name == wanted {
                return Ok(e.address.clone());
            }
            proof {
                assert(self.entries@.skip(i as int).drop_first() =~= self.entries@.skip(
                    i as int + 1,
                ));
            }
            i = i + 1;
        }
        Err(CliError::NotFoundError)
    }
}

} // verus!
