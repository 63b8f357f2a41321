//! The data model: resources, records, attribute values and their rendered
//! forms, log entries, and pagination bookkeeping.

use vstd::prelude::*;

use crate::hex::{hex_encode, push_hex};
use crate::strutil::{dec_rep, push_dec_u64};

verus! {

/// The scalar type tag of a key attribute.
#[derive(Clone, Copy, Debug, PartialEq)]
pub enum AttributeType {
    Text,
    Number,
    Binary,
}

/// The wire code of an attribute type, as the remote service spells it.
pub open spec fn type_code(t: AttributeType) -> Seq<char> {
    match t {
        AttributeType::Text => seq!['S'],
        AttributeType::Number => seq!['N'],
        AttributeType::Binary => seq!['B'],
    }
}

/// The attribute type named by a wire code; anything unrecognised is read
/// as text.
pub open spec fn type_of_code(s: Seq<char>) -> AttributeType {
    if s == seq!['N'] {
        AttributeType::Number
    } else if s == seq!['B'] {
        AttributeType::Binary
    } else {
        AttributeType::Text
    }
}

impl AttributeType {
    pub fn to_aws_type(&self) -> (r: String)
        ensures
            r@ == type_code(*self),
    {
        match self {
            AttributeType::Text => {
                let r = "S".to_owned();
                proof {
                    reveal_strlit("S");
                    assert(r@ =~= seq!['S']);
                }
                r
            },
            AttributeType::Number => {
                let r = "N".to_owned();
                proof {
                    reveal_strlit("N");
                    assert(r@ =~= seq!['N']);
                }
                r
            },
            AttributeType::Binary => {
                let r = "B".to_owned();
                proof {
                    reveal_strlit("B");
                    assert(r@ =~= seq!['B']);
                }
                r
            },
        }
    }

    pub fn from_aws_type(s: &str) -> (r: Self)
        ensures
            r == type_of_code(s@),
    {
        let n: usize = s.unicode_len();
        if n == 1 {
            let c = s.get_char(0);
            proof {
                assert(s@ =~= seq![s@[0]]);
            }
            if c == 'N' {
                AttributeType::Number
            } else if c == 'B' {
                AttributeType::Binary
            } else {
                proof {
                    assert(s@ != seq!['N'] && s@ != seq!['B']) by {
                        assert(seq!['N'][0] == 'N' && seq!['B'][0] == 'B');
                    }
                }
                AttributeType::Text
            }
        } else {
            proof {
                assert(s@ != seq!['N'] && s@ != seq!['B']) by {
                    assert(seq!['N'].len() == 1 && seq!['B'].len() == 1);
                }
            }
            AttributeType::Text
        }
    }
}

/// One component of a resource's primary key.
#[derive(Debug)]
pub struct KeySchema {
    pub name: String,
    pub key_type: AttributeType,
}

impl Clone for KeySchema {
    /// A copy; the result is the same value.
    fn clone(&self) -> (r: Self)
        ensures
            r == *self,
    {
        KeySchema { name: self.name.clone(), key_type: self.key_type }
    }
}

/// How a resource is billed.
#[derive(Clone, Copy, Debug, PartialEq)]
pub enum BillingMode {
    OnDemand,
    Provisioned,
}

/// A resource's description, as far as the console shows it.
#[derive(Debug)]
pub struct DynamoTable {
    pub name: String,
    pub hash_key: KeySchema,
    pub range_key: Option<KeySchema>,
    pub billing_mode: BillingMode,
    pub read_capacity: Option<i64>,
    pub write_capacity: Option<i64>,
    pub table_status: String,
    pub item_count: Option<i64>,
    pub table_size_bytes: Option<i64>,
    pub region: String,
}

impl Clone for DynamoTable {
    /// A copy; the result is the same value.
    fn clone(&self) -> (r: Self)
        ensures
            r == *self,
    {
        DynamoTable {
            name: self.name.clone(),
            hash_key: self.hash_key.clone(),
            range_key: match &self.range_key {
                Some(k) => Some(k.clone()),
                None => None,
            },
            billing_mode: self.billing_mode,
            read_capacity: self.read_capacity,
            write_capacity: self.write_capacity,
            table_status: self.table_status.clone(),
            item_count: self.item_count,
            table_size_bytes: self.table_size_bytes,
            region: self.region.clone(),
        }
    }
}

/// One typed attribute value of a record.  Numbers are kept as decimal
/// text so that no precision is lost.  The mapping variant keeps its
/// entries as an ordered list of pairs with distinct names.
#[derive(Debug, PartialEq)]
pub enum AttributeValue {
    Text(String),
    Number(String),
    Binary(Vec<u8>),
    Boolean(bool),
    Null,
    TextSet(Vec<String>),
    NumberSet(Vec<String>),
    BinarySet(Vec<Vec<u8>>),
    List(Vec<AttributeValue>),
    Mapping(Vec<(String, AttributeValue)>),
}

/// What one round of copying preserves of an attribute value: scalar
/// content exactly, set elements exactly, and for nested lists and
/// mappings the length and the entry names.  The copy functions recurse
/// all the way down; this predicate is what the editor's behaviour
/// depends on.
pub open spec fn faithful_copy(a: AttributeValue, b: AttributeValue) -> bool {
    match (a, b) {
        (AttributeValue::Binary(x), AttributeValue::Binary(y)) => x@ == y@,
        (AttributeValue::TextSet(x), AttributeValue::TextSet(y)) => x@ == y@,
        (AttributeValue::NumberSet(x), AttributeValue::NumberSet(y)) => x@ == y@,
        (AttributeValue::BinarySet(x), AttributeValue::BinarySet(y)) => x@.len() == y@.len()
            && forall|i: int| 0 <= i < x@.len() ==> (#[trigger] x@[i])@ == y@[i]@,
        (AttributeValue::List(x), AttributeValue::List(y)) => x@.len() == y@.len(),
        (AttributeValue::Mapping(x), AttributeValue::Mapping(y)) => x@.len() == y@.len()
            && forall|i: int| 0 <= i < x@.len() ==> (#[trigger] x@[i]).0@ == y@[i].0@,
        _ => a == b,
    }
}

impl Clone for AttributeValue {
    /// A deep copy; see `faithful_copy` for what is tracked of it.
    fn clone(&self) -> (r: Self)
        ensures
            faithful_copy(r, *self),
    {
        clone_value(self)
    }
}

/// A deep copy of an attribute value.
pub fn clone_value(v: &AttributeValue) -> (r: AttributeValue)
    ensures
        faithful_copy(r, *v),
    decreases *v,
{
    match v {
        AttributeValue::Text(s) => AttributeValue::Text(s.clone()),
        AttributeValue::Number(s) => AttributeValue::Number(s.clone()),
        AttributeValue::Binary(b) => AttributeValue::Binary(clone_bytes(b)),
        AttributeValue::Boolean(b) => AttributeValue::Boolean(*b),
        AttributeValue::Null => AttributeValue::Null,
        AttributeValue::TextSet(ss) => AttributeValue::TextSet(clone_strings(ss)),
        AttributeValue::NumberSet(ns) => AttributeValue::NumberSet(clone_strings(ns)),
        AttributeValue::BinarySet(bs) => AttributeValue::BinarySet(clone_byte_lists(bs)),
        AttributeValue::List(l) => AttributeValue::List(clone_values(l)),
        AttributeValue::Mapping(m) => AttributeValue::Mapping(clone_pairs(m)),
    }
}

fn clone_bytes(b: &Vec<u8>) -> (r: Vec<u8>)
    ensures
        r@ == b@,
{
    let mut out: Vec<u8> = Vec::new();
    let mut i: usize = 0;
    while i < b.len()
        invariant
            i <= b@.len(),
            out@ == b@.take(i as int),
        decreases b@.len() - i,
    {
        out.push(b[i]);
        proof {
            assert(out@ =~= b@.take(i + 1));
        }
        i = i + 1;
    }
    proof {
        assert(b@.take(b@.len() as int) =~= b@);
    }
    out
}

fn clone_strings(ss: &Vec<String>) -> (r: Vec<String>)
    ensures
        r@ == ss@,
{
    let mut out: Vec<String> = Vec::new();
    let mut i: usize = 0;
    while i < ss.len()
        invariant
            i <= ss@.len(),
            out@ == ss@.take(i as int),
        decreases ss@.len() - i,
    {
        out.push(ss[i].clone());
        proof {
            assert(out@ =~= ss@.take(i + 1));
        }
        i = i + 1;
    }
    proof {
        assert(ss@.take(ss@.len() as int) =~= ss@);
    }
    out
}

fn clone_byte_lists(bs: &Vec<Vec<u8>>) -> (r: Vec<Vec<u8>>)
    ensures
        r@.len() == bs@.len(),
        forall|i: int| 0 <= i < bs@.len() ==> (#[trigger] r@[i])@ == bs@[i]@,
{
    let mut out: Vec<Vec<u8>> = Vec::new();
    let mut i: usize = 0;
    while i < bs.len()
        invariant
            i <= bs@.len(),
            out@.len() == i,
            forall|k: int| 0 <= k < i ==> (#[trigger] out@[k])@ == bs@[k]@,
        decreases bs@.len() - i,
    {
        out.push(clone_bytes(&bs[i]));
        i = i + 1;
    }
    out
}

fn clone_values(l: &Vec<AttributeValue>) -> (r: Vec<AttributeValue>)
    ensures
        r@.len() == l@.len(),
        forall|i: int| 0 <= i < l@.len() ==> faithful_copy(#[trigger] r@[i], l@[i]),
    decreases *l,
{
    let mut out: Vec<AttributeValue> = Vec::new();
    let mut i: usize = 0;
    while i < l.len()
        invariant
            i <= l@.len(),
            out@.len() == i,
            forall|k: int| 0 <= k < i ==> faithful_copy(#[trigger] out@[k], l@[k]),
        decreases l@.len() - i,
    {
        out.push(clone_value(&l[i]));
        i = i + 1;
    }
    out
}

/// A copy of a list of named attribute values keeps the names as the same
/// string values and the values as faithful copies, entry by entry.
pub open spec fn pairs_copy(a: Seq<(String, AttributeValue)>, b: Seq<(
    String,
    AttributeValue,
)>) -> bool {
    &&& a.len() == b.len()
    &&& forall|i: int|
        0 <= i < a.len() ==> (#[trigger] a[i]).0 == b[i].0 && faithful_copy(a[i].1, b[i].1)
}

/// A deep copy of a list of named attribute values.  The names of the copy
/// are the same string values; the values are faithful copies.
pub fn clone_pairs(m: &Vec<(String, AttributeValue)>) -> (r: Vec<(String, AttributeValue)>)
    ensures
        pairs_copy(r@, m@),
    decreases *m,
{
    let mut out: Vec<(String, AttributeValue)> = Vec::new();
    let mut i: usize = 0;
    while i < m.len()
        invariant
            i <= m@.len(),
            out@.len() == i,
            forall|k: int| 0 <= k < i ==> (#[trigger] out@[k]).0 == m@[k].0,
            forall|k: int| 0 <= k < i ==> faithful_copy((#[trigger] out@[k]).1, m@[k].1),
        decreases m@.len() - i,
    {
        let name = m[i].0.clone();
        let value = clone_value(&m[i].1);
        out.push((name, value));
        i = i + 1;
    }
    out
}

/// A string in quotation marks.
pub open spec fn quoted(s: Seq<char>) -> Seq<char> {
    seq!['"'] + s + seq!['"']
}

/// The comma-separated quoted elements of a list of strings.
pub open spec fn rendered_items(ss: Seq<String>) -> Seq<char>
    decreases ss.len(),
{
    if ss.len() == 0 {
        Seq::<char>::empty()
    } else if ss.len() == 1 {
        quoted(ss[0]@)
    } else {
        quoted(ss[0]@) + seq![',', ' '] + rendered_items(ss.skip(1))
    }
}

/// A bracketed list of quoted strings, the way a set of strings is shown.
pub open spec fn rendered_string_list(ss: Seq<String>) -> Seq<char> {
    seq!['['] + rendered_items(ss) + seq![']']
}

/// The full display form of an attribute value.
pub open spec fn display_full_spec(v: AttributeValue) -> Seq<char> {
    match v {
        AttributeValue::Text(s) => quoted(s@),
        AttributeValue::Number(n) => n@,
        AttributeValue::Binary(b) => if b@.len() == 0 {
            "<empty binary>"@
        } else if b@.len() <= 16 {
            seq!['0', 'x'] + crate::hex::hex_encode(b@)
        } else {
            "<binary "@ + dec_rep(b@.len()) + " bytes>"@
        },
        AttributeValue::Boolean(b) => if b {
            "true"@
        } else {
            "false"@
        },
        AttributeValue::Null => "null"@,
        AttributeValue::TextSet(ss) => rendered_string_list(ss@),
        AttributeValue::NumberSet(ns) => rendered_string_list(ns@),
        AttributeValue::BinarySet(bs) => "<binary set "@ + dec_rep(bs@.len()) + " items>"@,
        AttributeValue::List(l) => seq!['['] + dec_rep(l@.len()) + " items]"@,
        AttributeValue::Mapping(m) => seq!['{'] + dec_rep(m@.len()) + "  fields}"@,
    }
}

/// The abbreviated display form: the full form, cut to `max_len`
/// characters with an ellipsis when it is longer.
pub open spec fn display_short_spec(v: AttributeValue, max_len: nat) -> Seq<char> {
    let f = display_full_spec(v);
    if f.len() > max_len {
        f.take(max_len as int) + "..."@
    } else {
        f
    }
}

proof fn lemma_rendered_items_push(ss: Seq<String>, e: String)
    ensures
        ss.len() == 0 ==> rendered_items(ss.push(e)) == quoted(e@),
        ss.len() > 0 ==> rendered_items(ss.push(e)) == rendered_items(ss) + seq![',', ' ']
            + quoted(e@),
    decreases ss.len(),
{
    let t = ss.push(e);
    if ss.len() == 0 {
        assert(t.len() == 1);
        assert(t[0] == e);
    } else if ss.len() == 1 {
        assert(t.len() == 2);
        assert(t[0] == ss[0]);
        assert(t.skip(1) =~= seq![e]);
        assert(rendered_items(seq![e]) == quoted(seq![e][0]@));
        assert(seq![e][0] == e);
    } else {
        assert(t[0] == ss[0]);
        assert(t.skip(1) =~= ss.skip(1).push(e));
        lemma_rendered_items_push(ss.skip(1), e);
        assert(rendered_items(t) == quoted(ss[0]@) + seq![',', ' '] + (rendered_items(ss.skip(1))
            + seq![',', ' '] + quoted(e@)));
        assert(quoted(ss[0]@) + seq![',', ' '] + (rendered_items(ss.skip(1)) + seq![',', ' ']
            + quoted(e@)) =~= (quoted(ss[0]@) + seq![',', ' '] + rendered_items(ss.skip(1)))
            + seq![',', ' '] + quoted(e@));
    }
}

fn render_string_list(ss: &Vec<String>) -> (r: String)
    ensures
        r@ == rendered_string_list(ss@),
{
    let mut out = String::new();
    out.push('[');
    proof {
        assert(ss@.take(0) =~= Seq::<String>::empty());
        assert(out@ =~= seq!['['] + rendered_items(ss@.take(0)));
    }
    let n: usize = ss.len();
    let mut i: usize = 0;
    while i < n
        invariant
            i <= n,
            n == ss@.len(),
            out@ == seq!['['] + rendered_items(ss@.take(i as int)),
        decreases n - i,
    {
        if i > 0 {
            out.push(',');
            out.push(' ');
        }
        out.push('"');
        out.append(ss[i].as_str());
        out.push('"');
        proof {
            assert(ss@.take(i + 1) =~= ss@.take(i as int).push(ss@[i as int]));
            lemma_rendered_items_push(ss@.take(i as int), ss@[i as int]);
            if i == 0 {
                assert(out@ =~= seq!['['] + rendered_items(ss@.take(i + 1)));
            } else {
                assert(out@ =~= seq!['['] + rendered_items(ss@.take(i + 1)));
            }
        }
        i = i + 1;
    }
    out.push(']');
    proof {
        assert(ss@.take(n as int) =~= ss@);
        assert(out@ =~= rendered_string_list(ss@));
    }
    out
}

impl AttributeValue {
    /// The full display form of this value.
    pub fn display_full(&self) -> (r: String)
        ensures
            r@ == display_full_spec(*self),
    {
        match self {
            AttributeValue::Text(s) => {
                let mut out = String::new();
                out.push('"');
                out.append(s.as_str());
                out.push('"');
                proof {
                    assert(out@ =~= quoted(s@));
                }
                out
            },
            AttributeValue::Number(n) => n.clone(),
            AttributeValue::Binary(b) => {
                if b.len() == 0 {
                    "<empty binary>".to_owned()
                } else if b.len() <= 16 {
                    let mut out = String::new();
                    out.push('0');
                    out.push('x');
                    let ghost pre = out@;
                    push_hex(b, &mut out);
                    proof {
                        assert(pre =~= seq!['0', 'x']);
                    }
                    out
                } else {
                    let mut out = "<binary ".to_owned();
                    push_dec_u64(b.len() as u64, &mut out);
                    out.append(" bytes>");
                    proof {
                        assert(("<binary "@ + dec_rep(b@.len())) + " bytes>"@ =~= "<binary "@
                            + dec_rep(b@.len()) + " bytes>"@);
                    }
                    out
                }
            },
            AttributeValue::Boolean(b) => {
                if *b {
                    "true".to_owned()
                } else {
                    "false".to_owned()
                }
            },
            AttributeValue::Null => "null".to_owned(),
            AttributeValue::TextSet(ss) => render_string_list(ss),
            AttributeValue::NumberSet(ns) => render_string_list(ns),
            AttributeValue::BinarySet(bs) => {
                let mut out = "<binary set ".to_owned();
                push_dec_u64(bs.len() as u64, &mut out);
                out.append(" items>");
                proof {
                    assert(("<binary set "@ + dec_rep(bs@.len())) + " items>"@ =~= "<binary set "@
                        + dec_rep(bs@.len()) + " items>"@);
                }
                out
            },
            AttributeValue::List(l) => {
                let mut out = String::new();
                out.push('[');
                let ghost pre = out@;
                push_dec_u64(l.len() as u64, &mut out);
                out.append(" items]");
                proof {
                    assert(pre =~= seq!['[']);
                    assert((seq!['['] + dec_rep(l@.len())) + " items]"@ =~= seq!['['] + dec_rep(
                        l@.len(),
                    ) + " items]"@);
                }
                out
            },
            AttributeValue::Mapping(m) => {
                let mut out = String::new();
                out.push('{');
                let ghost pre = out@;
                push_dec_u64(m.len() as u64, &mut out);
                out.append("  fields}");
                proof {
                    assert(pre =~= seq!['{']);
                    assert((seq!['{'] + dec_rep(m@.len())) + "  fields}"@ =~= seq!['{'] + dec_rep(
                        m@.len(),
                    ) + "  fields}"@);
                }
                out
            },
        }
    }

    /// The display form cut to `max_len` characters, with an ellipsis when
    /// the full form is longer.
    pub fn display_short(&self, max_len: usize) -> (r: String)
        ensures
            r@ == display_short_spec(*self, max_len as nat),
    {
        let full = self.display_full();
        let n: usize = full.as_str().unicode_len();
        if n > max_len {
            let mut out = full.as_str().substring_char(0, max_len).to_owned();
            out.append("...");
            out
        } else {
            full
        }
    }
}

/// One record of a resource: its attribute mapping as an ordered list of
/// pairs, plus the denormalised key values.
#[derive(Clone, Debug)]
pub struct DynamoItem {
    pub attributes: Vec<(String, AttributeValue)>,
    pub hash_key_value: AttributeValue,
    pub range_key_value: Option<AttributeValue>,
}

/// A location identifier.
#[derive(Clone, Debug)]
pub struct Region {
    pub name: String,
}

#[derive(Clone, Copy, Debug)]
pub enum LogLevel {
    Info,
    Warning,
    Error,
}

/// One entry of the append-only log.
#[derive(Clone, Debug)]
pub struct LogEntry {
    pub timestamp: String,
    pub level: LogLevel,
    pub message: String,
}

/// Relies on chrono's `Utc::now` and its formatter: the current UTC time
/// rendered as `YYYY-MM-DD HH:MM:SS`.  The result depends on the clock, so
/// nothing is promised of it.
#[verifier::external_body]
fn current_timestamp() -> String {
    chrono::Utc::now().format("%Y-%m-%d %H:%M:%S").to_string()
}

impl LogEntry {
    pub fn new(level: LogLevel, message: String) -> (r: Self)
        ensures
            r.level == level,
            r.message == message,
    {
        LogEntry { timestamp: current_timestamp(), level, message }
    }
}

/// The fields shared with an editor sub-state while one attribute is being
/// edited.
#[derive(Clone, Copy, Debug, PartialEq)]
pub enum EditorMode {
    Create,
    Edit,
}

/// Which part of the selected attribute a sub-edit addresses.
#[derive(Clone, Copy, Debug, PartialEq)]
pub enum EditingField {
    Key,
    Value,
    Type,
}

/// The per-record attribute editor: an ordered list of named values, a
/// selection that may also rest on the virtual "add attribute" row at index
/// `attributes.len()`, and an optional sub-edit with its input buffer.
#[derive(Clone, Debug)]
pub struct ItemEditorState {
    pub mode: EditorMode,
    pub table_name: String,
    pub hash_key_schema: KeySchema,
    pub range_key_schema: Option<KeySchema>,
    pub attributes: Vec<(String, AttributeValue)>,
    pub selected_attribute_index: usize,
    pub editing_field: Option<EditingField>,
    pub input_buffer: String,
}

/// The fully assembled configuration a creation wizard commits.
#[derive(Clone, Debug)]
pub struct TableConfig {
    pub name: String,
    pub hash_key: KeySchema,
    pub range_key: Option<KeySchema>,
    pub billing_mode: BillingMode,
    pub read_capacity: Option<i64>,
    pub write_capacity: Option<i64>,
}

/// Continuation bookkeeping for paged listing.  The key of the last record
/// of the previous page doubles as the continuation token; `None` means no
/// page boundary has been consumed yet.
#[derive(Clone, Debug)]
pub struct PaginationState {
    pub current_page: usize,
    pub last_evaluated_key: Option<Vec<(String, AttributeValue)>>,
    pub has_more_pages: bool,
    pub items_per_page: usize,
}

impl PaginationState {
    pub fn new() -> (r: Self)
        ensures
            r.current_page == 1,
            r.last_evaluated_key is None,
            !r.has_more_pages,
            r.items_per_page == 50,
    {
        PaginationState {
            current_page: 1,
            last_evaluated_key: None,
            has_more_pages: false,
            items_per_page: 50,
        }
    }
}

} // verus!
