//! Assembly of a resource description from the plain values of a
//! describe response: the key schema is resolved against the attribute
//! definitions, the billing mode and capacities follow the response's
//! defaulting rules, and a response without a hash key is rejected.

use vstd::prelude::*;

use crate::models::{type_of_code, AttributeType, BillingMode, DynamoTable, KeySchema};
use crate::strutil::str_eq;

verus! {

/// The role a key element plays in the primary key; anything the wire
/// format leaves unrecognised is `Other`.
#[derive(Clone, Copy, Debug, PartialEq)]
pub enum KeyRole {
    Hash,
    Range,
    Other,
}

/// The index of the last hash (or range) element, which is the one that
/// ends up in the assembled description.
pub open spec fn last_with_role(keys: Seq<(String, KeyRole)>, role: KeyRole) -> Option<int>
    decreases keys.len(),
{
    if keys.len() == 0 {
        None
    } else if keys.last().1 == role {
        Some(keys.len() - 1)
    } else {
        last_with_role(keys.drop_last(), role)
    }
}

/// The wire code recorded for an attribute name, taking the first
/// definition that carries the name.
pub open spec fn code_for(attr_codes: Seq<(String, String)>, name: Seq<char>) -> Option<
    Seq<char>,
>
    decreases attr_codes.len(),
{
    if attr_codes.len() == 0 {
        None
    } else if attr_codes.first().0@ == name {
        Some(attr_codes.first().1@)
    } else {
        code_for(attr_codes.drop_first(), name)
    }
}

/// The attribute type a key element resolves to: its recorded wire code,
/// read as text when absent or unrecognised.
pub open spec fn resolved_type(attr_codes: Seq<(String, String)>, name: Seq<char>)
    -> AttributeType {
    match code_for(attr_codes, name) {
        Some(c) => type_of_code(c),
        None => AttributeType::Text,
    }
}

/// The billing mode a describe response reads as: an absent summary means
/// provisioned (older resources); a summary reporting pay-per-request
/// means on-demand; a summary reporting provisioned means provisioned;
/// anything else reads as on-demand.
pub open spec fn billing_of(summary: Option<Option<Seq<char>>>) -> BillingMode {
    match summary {
        None => BillingMode::Provisioned,
        Some(code) => match code {
            Some(c) => if c == "PROVISIONED"@ {
                BillingMode::Provisioned
            } else {
                BillingMode::OnDemand
            },
            None => BillingMode::OnDemand,
        },
    }
}

fn find_last_with_role(keys: &Vec<(String, KeyRole)>, role: KeyRole) -> (r: Option<usize>)
    ensures
        (match r {
            Some(i) => last_with_role(keys@, role) == Some(i as int) && i < keys@.len(),
            None => last_with_role(keys@, role) is None,
        }),
{
    let n: usize = keys.len();
    let mut i: usize = n;
    proof {
        assert(keys@.take(n as int) =~= keys@);
    }
    while i > 0
        invariant
            i <= n,
            n == keys@.len(),
            last_with_role(keys@, role) == last_with_role(keys@.take(i as int), role),
        decreases i,
    {
        proof {
            assert(keys@.take(i as int).last() == keys@[i - 1]);
            assert(keys@.take(i as int).drop_last() =~= keys@.take(i - 1));
        }
        let here = matches!(keys[i - 1].1, KeyRole::Hash) && matches!(role, KeyRole::Hash)
            || matches!(keys[i - 1].1, KeyRole::Range) && matches!(role, KeyRole::Range)
            || matches!(keys[i - 1].1, KeyRole::Other) && matches!(role, KeyRole::Other);
        proof {
            assert(here == (keys@[i - 1].1 == role));
        }
        if here {
            return Some(i - 1);
        }
        i = i - 1;
    }
    proof {
        assert(keys@.take(0) =~= Seq::<(String, KeyRole)>::empty());
    }
    None
}

fn lookup_code(attr_codes: &Vec<(String, String)>, name: &String) -> (r: AttributeType)
    ensures
        r == resolved_type(attr_codes@, name@),
{
    let n: usize = attr_codes.len();
    let mut i: usize = 0;
    proof {
        assert(attr_codes@.skip(0) =~= attr_codes@);
    }
    while i < n
        invariant
            i <= n,
            n == attr_codes@.len(),
            resolved_type(attr_codes@, name@) == resolved_type(
                attr_codes@.skip(i as int),
                name@,
            ),
        decreases n - i,
    {
        proof {
            assert(attr_codes@.skip(i as int).first() == attr_codes@[i as int]);
            assert(attr_codes@.skip(i as int).drop_first() =~= attr_codes@.skip(i + 1));
        }
        if str_eq(attr_codes[i].0.as_str(), name.as_str()) {
            return AttributeType::from_aws_type(attr_codes[i].1.as_str());
        }
        i = i + 1;
    }
    AttributeType::Text
}

/// Builds the description of one resource from the plain values of a
/// describe response.  Fails exactly when the key schema names no hash
/// element.
pub fn assemble_table(
    name: String,
    keys: &Vec<(String, KeyRole)>,
    attr_codes: &Vec<(String, String)>,
    billing_summary: Option<Option<String>>,
    throughput: Option<(Option<i64>, Option<i64>)>,
    table_status: Option<String>,
    item_count: Option<i64>,
    table_size_bytes: Option<i64>,
    region: String,
) -> (r: Result<DynamoTable, String>)
    ensures
        r is Ok <==> last_with_role(keys@, KeyRole::Hash) is Some,
        r matches Ok(t) ==> {
            &&& t.name == name
            &&& t.region == region
            &&& (match last_with_role(keys@, KeyRole::Hash) {
                Some(i) => t.hash_key.name@ == keys@[i].0@ && t.hash_key.key_type
                    == resolved_type(attr_codes@, keys@[i].0@),
                None => false,
            })
            &&& (match last_with_role(keys@, KeyRole::Range) {
                Some(i) => t.range_key matches Some(rk) && rk.name@ == keys@[i].0@
                    && rk.key_type == resolved_type(attr_codes@, keys@[i].0@),
                None => t.range_key is None,
            })
            &&& t.billing_mode == billing_of(
                match billing_summary {
                    Some(code) => Some(
                        match code {
                            Some(c) => Some(c@),
                            None => None,
                        },
                    ),
                    None => None,
                },
            )
            &&& (match throughput {
                Some(pt) => t.read_capacity == Some(
                    match pt.0 {
                        Some(v) => v,
                        None => 0i64,
                    },
                ) && t.write_capacity == Some(
                    match pt.1 {
                        Some(v) => v,
                        None => 0i64,
                    },
                ),
                None => t.read_capacity is None && t.write_capacity is None,
            })
            &&& t.table_status@ == (match table_status {
                Some(s) => s@,
                None => "Unknown"@,
            })
            &&& t.item_count == item_count
            &&& t.table_size_bytes == table_size_bytes
        },
        r matches Err(m) ==> m@ == "Table "@ + name@ + " has no hash key"@,
{
    let hash_idx = find_last_with_role(keys, KeyRole::Hash);
    let range_idx = find_last_with_role(keys, KeyRole::Range);
    let hash_key: KeySchema = match hash_idx {
        Some(i) => {
            let key_name = keys[i].0.clone();
            let key_type = lookup_code(attr_codes, &key_name);
            KeySchema { name: key_name, key_type }
        },
        None => {
            let mut message = "Table ".to_owned();
            message.append(name.as_str());
            message.append(" has no hash key");
            return Err(message);
        },
    };
    let range_key: Option<KeySchema> = match range_idx {
        Some(i) => {
            let key_name = keys[i].0.clone();
            let key_type = lookup_code(attr_codes, &key_name);
            Some(KeySchema { name: key_name, key_type })
        },
        None => None,
    };
    let billing_mode: BillingMode = match &billing_summary {
        None => BillingMode::Provisioned,
        Some(code) => match code {
            Some(c) => {
                if str_eq(c.as_str(), "PROVISIONED") {
                    proof {
                        reveal_strlit("PROVISIONED");
                    }
                    BillingMode::Provisioned
                } else {
                    proof {
                        reveal_strlit("PROVISIONED");
                    }
                    BillingMode::OnDemand
                }
            },
            None => BillingMode::OnDemand,
        },
    };
    let (read_capacity, write_capacity): (Option<i64>, Option<i64>) = match throughput {
        Some(pt) => {
            let read: i64 = match pt.0 {
                Some(v) => v,
                None => 0,
            };
            let write: i64 = match pt.1 {
                Some(v) => v,
                None => 0,
            };
            (Some(read), Some(write))
        },
        None => (None, None),
    };
    let table_status: String = match table_status {
        Some(s) => s,
        None => "Unknown".to_owned(),
    };
    Ok(
        DynamoTable {
            name,
            hash_key,
            range_key,
            billing_mode,
            read_capacity,
            write_capacity,
            table_status,
            item_count,
            table_size_bytes,
            region,
        },
    )
}

} // verus!
