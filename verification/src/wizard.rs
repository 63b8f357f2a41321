//! The three-step resource-creation wizard: its form state, per-step
//! validation, field focus cycling, character input, and the assembly of
//! the committed configuration.

use vstd::prelude::*;

use crate::models::{AttributeType, BillingMode, KeySchema, TableConfig};
use crate::strutil::{dec_value, is_dec_digits, parse_u63};

verus! {

/// The wizard's step, in fixed order.
#[derive(Clone, Copy, Debug, PartialEq)]
pub enum WizardStep {
    BasicConfig,
    BillingConfig,
    Review,
}

/// The form field that currently has focus.
#[derive(Clone, Copy, Debug, PartialEq)]
pub enum WizardField {
    TableName,
    HashKeyName,
    HashKeyType,
    HasRangeKey,
    RangeKeyName,
    RangeKeyType,
    BillingMode,
    ReadCapacity,
    WriteCapacity,
}

/// The creation wizard's form: the collected schema and capacity
/// configuration, with capacity kept as editable text until commit.
#[derive(Clone, Debug)]
pub struct WizardState {
    pub step: WizardStep,
    pub table_name: String,
    pub hash_key_name: String,
    pub hash_key_type: AttributeType,
    pub has_range_key: bool,
    pub range_key_name: String,
    pub range_key_type: AttributeType,
    pub billing_mode: BillingMode,
    pub read_capacity: String,
    pub write_capacity: String,
    pub current_field: WizardField,
}

/// The basic-configuration step is valid: name length within bounds, a
/// hash key name, and a range key name whenever the range key is enabled.
pub open spec fn basic_config_ok(w: WizardState) -> bool {
    &&& 3 <= w.table_name@.len() <= 255
    &&& w.hash_key_name@.len() > 0
    &&& (w.has_range_key ==> w.range_key_name@.len() > 0)
}

/// A capacity text parses as a positive integer.
pub open spec fn capacity_ok(s: Seq<char>) -> bool {
    is_dec_digits(s) && 1 <= dec_value(s) <= i64::MAX
}

/// The billing step is valid: nothing is asked of on-demand billing, and
/// provisioned billing needs both capacities to be positive integers.
pub open spec fn billing_config_ok(w: WizardState) -> bool {
    w.billing_mode is Provisioned ==> capacity_ok(w.read_capacity@) && capacity_ok(
        w.write_capacity@,
    )
}

/// What a capacity text contributes to the committed configuration: its
/// value when it parses, nothing otherwise.
pub open spec fn parsed_capacity(s: Seq<char>) -> Option<i64> {
    if is_dec_digits(s) && dec_value(s) <= i64::MAX {
        Some(dec_value(s) as i64)
    } else {
        None
    }
}

/// How a committed configuration reflects the form: the names and types
/// are carried over, the range key only when enabled, and the capacity
/// texts are parsed only under provisioned billing.
pub open spec fn config_of(w: WizardState, r: TableConfig) -> bool {
    &&& r.name == w.table_name
    &&& r.hash_key.name == w.hash_key_name
    &&& r.hash_key.key_type == w.hash_key_type
    &&& (w.has_range_key ==> (r.range_key matches Some(k) && k.name == w.range_key_name
        && k.key_type == w.range_key_type))
    &&& (!w.has_range_key ==> r.range_key is None)
    &&& r.billing_mode == w.billing_mode
    &&& (w.billing_mode is Provisioned ==> r.read_capacity == parsed_capacity(w.read_capacity@)
        && r.write_capacity == parsed_capacity(w.write_capacity@))
    &&& (w.billing_mode is OnDemand ==> r.read_capacity is None && r.write_capacity is None)
}

/// Where focus moves on an explicit "next field" command, in the fixed
/// per-step order.
pub open spec fn next_field(
    step: WizardStep,
    f: WizardField,
    has_range: bool,
    billing: BillingMode,
) -> WizardField {
    match step {
        WizardStep::BasicConfig => match f {
            WizardField::TableName => WizardField::HashKeyName,
            WizardField::HashKeyName => WizardField::HashKeyType,
            WizardField::HashKeyType => WizardField::HasRangeKey,
            WizardField::HasRangeKey => if has_range {
                WizardField::RangeKeyName
            } else {
                WizardField::TableName
            },
            WizardField::RangeKeyName => WizardField::RangeKeyType,
            WizardField::RangeKeyType => WizardField::TableName,
            _ => WizardField::TableName,
        },
        WizardStep::BillingConfig => match f {
            WizardField::BillingMode => if billing is Provisioned {
                WizardField::ReadCapacity
            } else {
                WizardField::BillingMode
            },
            WizardField::ReadCapacity => WizardField::WriteCapacity,
            WizardField::WriteCapacity => WizardField::BillingMode,
            _ => WizardField::BillingMode,
        },
        WizardStep::Review => f,
    }
}

/// The attribute type selected by a single key, if any.
pub open spec fn type_for_key(c: char, cur: AttributeType) -> AttributeType {
    if c == 's' || c == 'S' {
        AttributeType::Text
    } else if c == 'n' || c == 'N' {
        AttributeType::Number
    } else if c == 'b' || c == 'B' {
        AttributeType::Binary
    } else {
        cur
    }
}

/// The billing mode selected by a single key, if any.
pub open spec fn billing_for_key(c: char, cur: BillingMode) -> BillingMode {
    if c == 'o' || c == 'O' || c == '1' {
        BillingMode::OnDemand
    } else if c == 'p' || c == 'P' || c == '2' {
        BillingMode::Provisioned
    } else {
        cur
    }
}

/// A key that toggles the has-range-key flag.
pub open spec fn is_toggle_key(c: char) -> bool {
    c == ' ' || c == 'x' || c == 'X'
}

/// A buffer with its last character removed; an empty buffer stays empty.
pub open spec fn popped(s: Seq<char>) -> Seq<char> {
    if s.len() == 0 {
        s
    } else {
        s.drop_last()
    }
}

/// The field in focus is one that takes free text.
pub open spec fn is_text_field(f: WizardField) -> bool {
    f is TableName || f is HashKeyName || f is RangeKeyName || f is ReadCapacity
        || f is WriteCapacity
}

/// The wizard's initial form: first step, empty names, text key types, no
/// range key, on-demand billing, both capacities preset to `5`, focus on
/// the table name.
pub open spec fn wizard_initial(w: WizardState) -> bool {
    &&& w.step is BasicConfig
    &&& w.table_name@ == Seq::<char>::empty()
    &&& w.hash_key_name@ == Seq::<char>::empty()
    &&& w.hash_key_type is Text
    &&& !w.has_range_key
    &&& w.range_key_name@ == Seq::<char>::empty()
    &&& w.range_key_type is Text
    &&& w.billing_mode is OnDemand
    &&& w.read_capacity@ == seq!['5']
    &&& w.write_capacity@ == seq!['5']
    &&& w.current_field is TableName
}

/// Everything of the form except the step tag is unchanged.
pub open spec fn same_wizard_but_step(a: WizardState, b: WizardState) -> bool {
    &&& a.table_name == b.table_name
    &&& a.hash_key_name == b.hash_key_name
    &&& a.hash_key_type == b.hash_key_type
    &&& a.has_range_key == b.has_range_key
    &&& a.range_key_name == b.range_key_name
    &&& a.range_key_type == b.range_key_type
    &&& a.billing_mode == b.billing_mode
    &&& a.read_capacity == b.read_capacity
    &&& a.write_capacity == b.write_capacity
    &&& a.current_field == b.current_field
}

/// The status message reported when the basic-configuration step fails,
/// by the first failing rule.
pub open spec fn basic_error(w: WizardState) -> Seq<char> {
    if w.table_name@.len() == 0 {
        "Table name is required"@
    } else if !(3 <= w.table_name@.len() <= 255) {
        "Table name must be 3-255 characters"@
    } else if w.hash_key_name@.len() == 0 {
        "Hash key name is required"@
    } else {
        "Range key name is required when enabled"@
    }
}

/// The status message reported when the billing step fails.
pub open spec fn billing_error(w: WizardState) -> Seq<char> {
    if !capacity_ok(w.read_capacity@) {
        "Read capacity must be a positive integer"@
    } else {
        "Write capacity must be a positive integer"@
    }
}

/// How one typed character transforms the form, field by field.
pub open spec fn char_applied(pre: WizardState, post: WizardState, c: char) -> bool {
    &&& post.step == pre.step
    &&& post.current_field == pre.current_field
    &&& post.table_name@ == (if pre.current_field is TableName {
        pre.table_name@.push(c)
    } else {
        pre.table_name@
    })
    &&& post.hash_key_name@ == (if pre.current_field is HashKeyName {
        pre.hash_key_name@.push(c)
    } else {
        pre.hash_key_name@
    })
    &&& post.range_key_name@ == (if pre.current_field is RangeKeyName {
        pre.range_key_name@.push(c)
    } else {
        pre.range_key_name@
    })
    &&& post.hash_key_type == (if pre.current_field is HashKeyType {
        type_for_key(c, pre.hash_key_type)
    } else {
        pre.hash_key_type
    })
    &&& post.range_key_type == (if pre.current_field is RangeKeyType {
        type_for_key(c, pre.range_key_type)
    } else {
        pre.range_key_type
    })
    &&& post.has_range_key == (if pre.current_field is HasRangeKey && is_toggle_key(c) {
        !pre.has_range_key
    } else {
        pre.has_range_key
    })
    &&& post.billing_mode == (if pre.current_field is BillingMode {
        billing_for_key(c, pre.billing_mode)
    } else {
        pre.billing_mode
    })
    &&& post.read_capacity@ == (if pre.current_field is ReadCapacity && '0' <= c <= '9' {
        pre.read_capacity@.push(c)
    } else {
        pre.read_capacity@
    })
    &&& post.write_capacity@ == (if pre.current_field is WriteCapacity && '0' <= c <= '9' {
        pre.write_capacity@.push(c)
    } else {
        pre.write_capacity@
    })
}

/// How the "next field" command transforms the form: only the focus moves.
pub open spec fn tab_applied(pre: WizardState, post: WizardState) -> bool {
    &&& post.current_field == next_field(pre.step, pre.current_field, pre.has_range_key, pre.billing_mode)
    &&& post.step == pre.step
    &&& post.table_name == pre.table_name
    &&& post.hash_key_name == pre.hash_key_name
    &&& post.hash_key_type == pre.hash_key_type
    &&& post.has_range_key == pre.has_range_key
    &&& post.range_key_name == pre.range_key_name
    &&& post.range_key_type == pre.range_key_type
    &&& post.billing_mode == pre.billing_mode
    &&& post.read_capacity == pre.read_capacity
    &&& post.write_capacity == pre.write_capacity
}

/// How a deletion on a free-text field transforms the form: the focused
/// field loses its last character.
pub open spec fn backspace_applied(pre: WizardState, post: WizardState) -> bool {
    &&& post.step == pre.step
    &&& post.current_field == pre.current_field
    &&& post.hash_key_type == pre.hash_key_type
    &&& post.range_key_type == pre.range_key_type
    &&& post.has_range_key == pre.has_range_key
    &&& post.billing_mode == pre.billing_mode
    &&& post.table_name@ == (if pre.current_field is TableName {
        popped(pre.table_name@)
    } else {
        pre.table_name@
    })
    &&& post.hash_key_name@ == (if pre.current_field is HashKeyName {
        popped(pre.hash_key_name@)
    } else {
        pre.hash_key_name@
    })
    &&& post.range_key_name@ == (if pre.current_field is RangeKeyName {
        popped(pre.range_key_name@)
    } else {
        pre.range_key_name@
    })
    &&& post.read_capacity@ == (if pre.current_field is ReadCapacity {
        popped(pre.read_capacity@)
    } else {
        pre.read_capacity@
    })
    &&& post.write_capacity@ == (if pre.current_field is WriteCapacity {
        popped(pre.write_capacity@)
    } else {
        pre.write_capacity@
    })
}

impl WizardState {
    /// The wizard's initial form, as entering the creation view resets it.
    pub fn new() -> (r: Self)
        ensures
            wizard_initial(r),
    {
        let read = "5".to_owned();
        let write = "5".to_owned();
        proof {
            reveal_strlit("5");
            assert(read@ =~= seq!['5']);
        }
        WizardState {
            step: WizardStep::BasicConfig,
            table_name: String::new(),
            hash_key_name: String::new(),
            hash_key_type: AttributeType::Text,
            has_range_key: false,
            range_key_name: String::new(),
            range_key_type: AttributeType::Text,
            billing_mode: BillingMode::OnDemand,
            read_capacity: read,
            write_capacity: write,
            current_field: WizardField::TableName,
        }
    }

    /// Checks the basic-configuration step, reporting the first failing
    /// rule as a status message.
    pub fn validate_basic_config(&self) -> (r: Result<(), String>)
        ensures
            r is Ok <==> basic_config_ok(*self),
            r matches Err(m) ==> m@ == basic_error(*self),
    {
        if self.table_name.as_str().unicode_len() == 0 {
            return Err("Table name is required".to_owned());
        }
        let name_len: usize = self.table_name.as_str().unicode_len();
        if name_len < 3 || name_len > 255 {
            return Err("Table name must be 3-255 characters".to_owned());
        }
        if self.hash_key_name.as_str().unicode_len() == 0 {
            return Err("Hash key name is required".to_owned());
        }
        if self.has_range_key && self.range_key_name.as_str().unicode_len() == 0 {
            return Err("Range key name is required when enabled".to_owned());
        }
        Ok(())
    }

    /// Checks the billing step: only provisioned billing is constrained,
    /// and both capacities must read as positive integers.
    pub fn validate_billing_config(&self) -> (r: Result<(), String>)
        ensures
            r is Ok <==> billing_config_ok(*self),
            r matches Err(m) ==> m@ == billing_error(*self),
    {
        if matches!(self.billing_mode, BillingMode::Provisioned) {
            let read = parse_u63(self.read_capacity.as_str());
            let read_ok = match read {
                Some(v) => v >= 1,
                None => false,
            };
            if !read_ok {
                return Err("Read capacity must be a positive integer".to_owned());
            }
            let write = parse_u63(self.write_capacity.as_str());
            let write_ok = match write {
                Some(v) => v >= 1,
                None => false,
            };
            if !write_ok {
                return Err("Write capacity must be a positive integer".to_owned());
            }
        }
        Ok(())
    }

    /// Assembles the configuration committed at the review step.  The
    /// capacity texts are parsed here; on-demand billing carries none.
    pub fn to_table_config(&self) -> (r: TableConfig)
        ensures
            config_of(*self, r),
    {
        let range_key = if self.has_range_key {
            Some(KeySchema { name: self.range_key_name.clone(), key_type: self.range_key_type })
        } else {
            None
        };
        let (read_capacity, write_capacity) = if matches!(
            self.billing_mode,
            BillingMode::Provisioned,
        ) {
            (parse_u63(self.read_capacity.as_str()), parse_u63(self.write_capacity.as_str()))
        } else {
            (None, None)
        };
        TableConfig {
            name: self.table_name.clone(),
            hash_key: KeySchema { name: self.hash_key_name.clone(), key_type: self.hash_key_type },
            range_key,
            billing_mode: self.billing_mode,
            read_capacity,
            write_capacity,
        }
    }
}

/// Moves field focus forward in the fixed per-step order.
pub fn handle_wizard_tab(ws: &mut WizardState)
    ensures
        tab_applied(*old(ws), *final(ws)),
{
    match ws.step {
        WizardStep::BasicConfig => {
            ws.current_field = match ws.current_field {
                WizardField::TableName => WizardField::HashKeyName,
                WizardField::HashKeyName => WizardField::HashKeyType,
                WizardField::HashKeyType => WizardField::HasRangeKey,
                WizardField::HasRangeKey => {
                    if ws.has_range_key {
                        WizardField::RangeKeyName
                    } else {
                        WizardField::TableName
                    }
                },
                WizardField::RangeKeyName => WizardField::RangeKeyType,
                WizardField::RangeKeyType => WizardField::TableName,
                _ => WizardField::TableName,
            };
        },
        WizardStep::BillingConfig => {
            ws.current_field = match ws.current_field {
                WizardField::BillingMode => {
                    if matches!(ws.billing_mode, BillingMode::Provisioned) {
                        WizardField::ReadCapacity
                    } else {
                        WizardField::BillingMode
                    }
                },
                WizardField::ReadCapacity => WizardField::WriteCapacity,
                WizardField::WriteCapacity => WizardField::BillingMode,
                _ => WizardField::BillingMode,
            };
        },
        WizardStep::Review => {},
    }
}

/// Routes one typed character to the focused field: free-text fields
/// append, the type and billing fields are single-key selectors, the
/// range-key field toggles, and capacity fields take digits only.
pub fn handle_wizard_char_input(ws: &mut WizardState, c: char)
    ensures
        char_applied(*old(ws), *final(ws), c),
{
    match ws.current_field {
        WizardField::TableName => ws.table_name.push(c),
        WizardField::HashKeyName => ws.hash_key_name.push(c),
        WizardField::HashKeyType => {
            ws.hash_key_type = select_type(c, ws.hash_key_type);
        },
        WizardField::HasRangeKey => {
            if c == ' ' || c == 'x' || c == 'X' {
                ws.has_range_key = !ws.has_range_key;
            }
        },
        WizardField::RangeKeyName => ws.range_key_name.push(c),
        WizardField::RangeKeyType => {
            ws.range_key_type = select_type(c, ws.range_key_type);
        },
        WizardField::BillingMode => {
            if c == 'o' || c == 'O' || c == '1' {
                ws.billing_mode = BillingMode::OnDemand;
            } else if c == 'p' || c == 'P' || c == '2' {
                ws.billing_mode = BillingMode::Provisioned;
            }
        },
        WizardField::ReadCapacity => {
            if '0' <= c && c <= '9' {
                ws.read_capacity.push(c);
            }
        },
        WizardField::WriteCapacity => {
            if '0' <= c && c <= '9' {
                ws.write_capacity.push(c);
            }
        },
    }
}

fn select_type(c: char, cur: AttributeType) -> (r: AttributeType)
    ensures
        r == type_for_key(c, cur),
{
    if c == 's' || c == 'S' {
        AttributeType::Text
    } else if c == 'n' || c == 'N' {
        AttributeType::Number
    } else if c == 'b' || c == 'B' {
        AttributeType::Binary
    } else {
        cur
    }
}

/// Deletes the last character of the focused free-text field; other
/// fields are untouched.
pub fn handle_wizard_backspace(ws: &mut WizardState)
    ensures
        backspace_applied(*old(ws), *final(ws)),
{
    match ws.current_field {
        WizardField::TableName => {
            ws.table_name.pop();
        },
        WizardField::HashKeyName => {
            ws.hash_key_name.pop();
        },
        WizardField::RangeKeyName => {
            ws.range_key_name.pop();
        },
        WizardField::ReadCapacity => {
            ws.read_capacity.pop();
        },
        WizardField::WriteCapacity => {
            ws.write_capacity.pop();
        },
        _ => {},
    }
}

} // verus!
