//! The per-record attribute editor: bounded navigation over the attribute
//! rows plus a virtual "add attribute" row, primary-key protection for
//! rename, retype and delete, type cycling with its value-reset rules, and
//! type-aware commitment of an edited text buffer.

use vstd::prelude::*;

use crate::hex::{hex_decode_chars, hex_decode_lenient, hex_encode, hex_string};
use crate::models::{AttributeValue, EditingField, ItemEditorState};
use crate::strutil::{chars_of, lemma_lex_lt_irrefl, lemma_lex_lt_trans, lex_lt, lower_chars_of, lower_seq, str_lt, trim_chars, trim_seq};

verus! {

/// Some row of the list carries this attribute name.
pub open spec fn contains_name(attrs: Seq<(String, AttributeValue)>, n: Seq<char>) -> bool {
    exists|i: int| 0 <= i < attrs.len() && attrs[i].0@ == n
}

impl ItemEditorState {
    /// The name is one of the record's primary-key components.
    pub open spec fn is_key_name(self, n: Seq<char>) -> bool {
        n == self.hash_key_schema.name@ || (self.range_key_schema matches Some(k) && n == k.name@)
    }

    /// Well-formedness: the selection stays within the rows plus the
    /// virtual add row; the key attributes are present; and an active
    /// sub-edit addresses a real row, never a key row when renaming.
    pub open spec fn wf(self) -> bool {
        &&& self.selected_attribute_index <= self.attributes@.len()
        &&& contains_name(self.attributes@, self.hash_key_schema.name@)
        &&& (self.range_key_schema matches Some(k) ==> contains_name(self.attributes@, k.name@))
        &&& (self.editing_field is Some ==> self.selected_attribute_index
            < self.attributes@.len())
        &&& (self.editing_field == Some(EditingField::Key) ==> !self.is_key_name(
            self.attributes@[self.selected_attribute_index as int].0@,
        ))
    }

    /// Everything but the attribute rows, the selection and the sub-edit
    /// state is the same.
    pub open spec fn same_frame(self, other: Self) -> bool {
        &&& self.mode == other.mode
        &&& self.table_name == other.table_name
        &&& self.hash_key_schema == other.hash_key_schema
        &&& self.range_key_schema == other.range_key_schema
    }

    /// How one selection-up step relates editor states: the selection
    /// moves up by one row, stopping at the first row.
    pub open spec fn nav_prev_applied(pre: Self, post: Self) -> bool {
        &&& post.same_frame(pre)
        &&& post.attributes == pre.attributes
        &&& post.editing_field == pre.editing_field
        &&& post.input_buffer == pre.input_buffer
        &&& post.selected_attribute_index == (if pre.selected_attribute_index > 0 {
            pre.selected_attribute_index - 1
        } else {
            0int
        })
    }

    /// How one selection-down step relates editor states: the selection
    /// moves down by one row, stopping at the virtual add row.
    pub open spec fn nav_next_applied(pre: Self, post: Self) -> bool {
        &&& post.same_frame(pre)
        &&& post.attributes == pre.attributes
        &&& post.editing_field == pre.editing_field
        &&& post.input_buffer == pre.input_buffer
        &&& post.selected_attribute_index == (if pre.selected_attribute_index
            < pre.attributes@.len() {
            pre.selected_attribute_index + 1
        } else {
            pre.selected_attribute_index as int
        })
    }

    /// How adding an attribute relates editor states: a fresh
    /// `new_attribute` row with an empty text value is appended and
    /// selected.
    pub open spec fn add_applied(pre: Self, post: Self) -> bool {
        &&& post.same_frame(pre)
        &&& post.editing_field == pre.editing_field
        &&& post.input_buffer == pre.input_buffer
        &&& post.attributes@.len() == pre.attributes@.len() + 1
        &&& post.attributes@.drop_last() == pre.attributes@
        &&& post.attributes@.last().0@ == "new_attribute"@
        &&& (post.attributes@.last().1 matches AttributeValue::Text(t) && t@
            == Seq::<char>::empty())
        &&& post.selected_attribute_index == pre.attributes@.len()
    }

    /// How cycling the selected row's type relates editor states: key
    /// rows and the virtual add row are untouched; any other row keeps
    /// its name and its value follows `cycle_rel`.
    pub open spec fn cycle_applied(pre: Self, post: Self) -> bool {
        &&& post.same_frame(pre)
        &&& post.editing_field == pre.editing_field
        &&& post.input_buffer == pre.input_buffer
        &&& post.selected_attribute_index == pre.selected_attribute_index
        &&& (pre.selected_attribute_index >= pre.attributes@.len() ==> post.attributes
            == pre.attributes)
        &&& (pre.selected_attribute_index < pre.attributes@.len() && pre.is_key_name(
            pre.attributes@[pre.selected_attribute_index as int].0@,
        ) ==> post.attributes == pre.attributes)
        &&& (pre.selected_attribute_index < pre.attributes@.len() && !pre.is_key_name(
            pre.attributes@[pre.selected_attribute_index as int].0@,
        ) ==> {
            let idx = pre.selected_attribute_index as int;
            &&& post.attributes@.len() == pre.attributes@.len()
            &&& (forall|k: int|
                0 <= k < pre.attributes@.len() && k != idx ==> post.attributes@[k]
                    == pre.attributes@[k])
            &&& post.attributes@[idx].0 == pre.attributes@[idx].0
            &&& Self::cycle_rel(pre.attributes@[idx].1, post.attributes@[idx].1)
        })
    }

    /// How deleting the selected row relates editor states: key rows and
    /// the virtual add row are untouched; any other row is removed and
    /// the selection clamped to the new last row.
    pub open spec fn delete_applied(pre: Self, post: Self) -> bool {
        &&& post.same_frame(pre)
        &&& post.editing_field == pre.editing_field
        &&& post.input_buffer == pre.input_buffer
        &&& (pre.selected_attribute_index >= pre.attributes@.len() ==> post.attributes
            == pre.attributes && post.selected_attribute_index
            == pre.selected_attribute_index)
        &&& (pre.selected_attribute_index < pre.attributes@.len() && pre.is_key_name(
            pre.attributes@[pre.selected_attribute_index as int].0@,
        ) ==> post.attributes == pre.attributes && post.selected_attribute_index
            == pre.selected_attribute_index)
        &&& (pre.selected_attribute_index < pre.attributes@.len() && !pre.is_key_name(
            pre.attributes@[pre.selected_attribute_index as int].0@,
        ) ==> {
            &&& post.attributes@ == pre.attributes@.remove(
                pre.selected_attribute_index as int,
            )
            &&& post.selected_attribute_index == (if pre.selected_attribute_index
                >= post.attributes@.len() && post.attributes@.len() > 0 {
                post.attributes@.len() - 1
            } else {
                pre.selected_attribute_index as int
            })
        })
    }

    /// How beginning a value edit relates editor states: on a real row
    /// the buffer is seeded with the value's display representation and a
    /// value sub-edit begins; the virtual add row is untouched.
    pub open spec fn value_edit_started(pre: Self, post: Self) -> bool {
        &&& post.same_frame(pre)
        &&& post.attributes == pre.attributes
        &&& post.selected_attribute_index == pre.selected_attribute_index
        &&& (pre.selected_attribute_index >= pre.attributes@.len() ==> post.editing_field is None
            && post.input_buffer == pre.input_buffer)
        &&& (pre.selected_attribute_index < pre.attributes@.len() ==> post.editing_field == Some(
            EditingField::Value,
        ) && post.input_buffer@ == Self::edit_buffer_rep(
            pre.attributes@[pre.selected_attribute_index as int].1,
        ))
    }

    /// How beginning a rename relates editor states: blocked on key rows
    /// and the virtual add row; otherwise the buffer is seeded with the
    /// current name and a key sub-edit begins.
    pub open spec fn key_edit_started(pre: Self, post: Self) -> bool {
        &&& post.same_frame(pre)
        &&& post.attributes == pre.attributes
        &&& post.selected_attribute_index == pre.selected_attribute_index
        &&& (pre.selected_attribute_index >= pre.attributes@.len() || pre.is_key_name(
            pre.attributes@[pre.selected_attribute_index as int].0@,
        ) ==> post.editing_field is None && post.input_buffer == pre.input_buffer)
        &&& (pre.selected_attribute_index < pre.attributes@.len() && !pre.is_key_name(
            pre.attributes@[pre.selected_attribute_index as int].0@,
        ) ==> post.editing_field == Some(EditingField::Key) && post.input_buffer@
            == pre.attributes@[pre.selected_attribute_index as int].0@)
    }

    /// How typing into the buffer relates editor states.
    pub open spec fn input_pushed(pre: Self, post: Self, c: char) -> bool {
        &&& post.same_frame(pre)
        &&& post.attributes == pre.attributes
        &&& post.selected_attribute_index == pre.selected_attribute_index
        &&& post.editing_field == pre.editing_field
        &&& post.input_buffer@ == pre.input_buffer@.push(c)
    }

    /// How deleting from the buffer relates editor states.
    pub open spec fn input_popped(pre: Self, post: Self) -> bool {
        &&& post.same_frame(pre)
        &&& post.attributes == pre.attributes
        &&& post.selected_attribute_index == pre.selected_attribute_index
        &&& post.editing_field == pre.editing_field
        &&& (pre.input_buffer@.len() == 0 ==> post.input_buffer@ == pre.input_buffer@)
        &&& (pre.input_buffer@.len() > 0 ==> post.input_buffer@
            == pre.input_buffer@.drop_last())
    }

    /// How cancelling a sub-edit relates editor states: the buffer is
    /// discarded and nothing else changes.
    pub open spec fn edit_cancelled(pre: Self, post: Self) -> bool {
        &&& post.same_frame(pre)
        &&& post.attributes == pre.attributes
        &&& post.selected_attribute_index == pre.selected_attribute_index
        &&& post.editing_field is None
        &&& post.input_buffer@ == Seq::<char>::empty()
    }

    /// How committing a sub-edit relates editor states: a value edit
    /// reinterprets the buffer by the row's current type, a rename
    /// replaces the row's name keeping its value, and the sub-edit ends.
    pub open spec fn edit_committed(pre: Self, post: Self) -> bool {
        &&& post.same_frame(pre)
        &&& post.selected_attribute_index == pre.selected_attribute_index
        &&& post.editing_field is None
        &&& post.input_buffer@ == Seq::<char>::empty()
        &&& post.attributes@.len() == pre.attributes@.len()
        &&& (forall|k: int|
            0 <= k < pre.attributes@.len() && k != pre.selected_attribute_index
                ==> post.attributes@[k] == pre.attributes@[k])
        &&& (pre.editing_field == Some(EditingField::Value) ==> {
            let idx = pre.selected_attribute_index as int;
            &&& post.attributes@[idx].0 == pre.attributes@[idx].0
            &&& Self::committed_value(
                pre.attributes@[idx].1,
                pre.input_buffer@,
                post.attributes@[idx].1,
            )
        })
        &&& (pre.editing_field == Some(EditingField::Key) ==> {
            let idx = pre.selected_attribute_index as int;
            &&& post.attributes@[idx].0@ == pre.input_buffer@
            &&& post.attributes@[idx].1 == pre.attributes@[idx].1
        })
        &&& (pre.editing_field == Some(EditingField::Type) ==> post.attributes
            == pre.attributes)
    }

    /// Moves the selection up by one row, stopping at the first row.
    pub fn select_previous(&mut self)
        requires
            old(self).wf(),
            old(self).editing_field is None,
        ensures
            final(self).wf(),
            Self::nav_prev_applied(*old(self), *final(self)),
    {
        if self.selected_attribute_index > 0 {
            self.selected_attribute_index = self.selected_attribute_index - 1;
        }
    }

    /// Moves the selection down by one row, stopping at the virtual add
    /// row at `attributes.len()`.
    pub fn select_next(&mut self)
        requires
            old(self).wf(),
            old(self).editing_field is None,
        ensures
            final(self).wf(),
            Self::nav_next_applied(*old(self), *final(self)),
    {
        if self.selected_attribute_index < self.attributes.len() {
            self.selected_attribute_index = self.selected_attribute_index + 1;
        }
    }

    /// Appends a fresh attribute named `new_attribute` with an empty text
    /// value, and selects the new row.
    pub fn add_attribute(&mut self)
        requires
            old(self).wf(),
            old(self).editing_field is None,
        ensures
            final(self).wf(),
            Self::add_applied(*old(self), *final(self)),
    {
        let name = "new_attribute".to_owned();
        self.attributes.push((name, AttributeValue::Text(String::new())));
        self.selected_attribute_index = self.attributes.len() - 1;
        proof {
            assert(self.attributes@.drop_last() =~= old(self).attributes@);
            let h = old(self).hash_key_schema.name@;
            let j = choose|j: int|
                0 <= j < old(self).attributes@.len() && old(self).attributes@[j].0@ == h;
            assert(self.attributes@[j].0@ == h);
            if old(self).range_key_schema is Some {
                let rn = old(self).range_key_schema->Some_0.name@;
                let k = choose|k: int|
                    0 <= k < old(self).attributes@.len() && old(self).attributes@[k].0@ == rn;
                assert(self.attributes@[k].0@ == rn);
            }
        }
    }

    /// How a cycled value relates to the one it replaces: text keeps its
    /// characters as a number, a number becomes empty binary, binary
    /// becomes empty text, and every other type resets to empty text.
    pub open spec fn cycle_rel(v: AttributeValue, r: AttributeValue) -> bool {
        match v {
            AttributeValue::Text(s) => r == AttributeValue::Number(s),
            AttributeValue::Number(_) => r matches AttributeValue::Binary(b) && b@
                == Seq::<u8>::empty(),
            AttributeValue::Binary(_) => r matches AttributeValue::Text(t) && t@
                == Seq::<char>::empty(),
            _ => r matches AttributeValue::Text(t) && t@ == Seq::<char>::empty(),
        }
    }

    /// Cycles the type of the selected attribute; key rows and the
    /// virtual add row are left untouched.
    pub fn cycle_selected_type(&mut self)
        requires
            old(self).wf(),
            old(self).editing_field is None,
        ensures
            final(self).wf(),
            Self::cycle_applied(*old(self), *final(self)),
    {
        let idx = self.selected_attribute_index;
        if idx < self.attributes.len() {
            let is_key = self.row_is_key(idx);
            if !is_key {
                let pair = self.attributes.remove(idx);
                let (name, value) = pair;
                let new_value = match value {
                    AttributeValue::Text(s) => AttributeValue::Number(s),
                    AttributeValue::Number(_) => AttributeValue::Binary(Vec::new()),
                    AttributeValue::Binary(_) => AttributeValue::Text(String::new()),
                    _ => AttributeValue::Text(String::new()),
                };
                self.attributes.insert(idx, (name, new_value));
                proof {
                    assert(self.attributes@ =~= old(self).attributes@.update(
                        idx as int,
                        self.attributes@[idx as int],
                    ));
                    lemma_update_keeps_names(old(self).attributes@, self.attributes@);
                }
            }
        }
    }

    /// Removes the selected attribute and clamps the selection to the new
    /// last row; key rows and the virtual add row are left untouched.
    pub fn delete_selected(&mut self)
        requires
            old(self).wf(),
            old(self).editing_field is None,
        ensures
            final(self).wf(),
            Self::delete_applied(*old(self), *final(self)),
    {
        let idx = self.selected_attribute_index;
        if idx < self.attributes.len() {
            let is_key = self.row_is_key(idx);
            if !is_key {
                proof {
                    lemma_remove_keeps_other_names(
                        self.attributes@,
                        idx as int,
                        old(self).hash_key_schema.name@,
                    );
                    if old(self).range_key_schema is Some {
                        lemma_remove_keeps_other_names(
                            self.attributes@,
                            idx as int,
                            old(self).range_key_schema->Some_0.name@,
                        );
                    }
                }
                self.attributes.remove(idx);
                if self.selected_attribute_index >= self.attributes.len()
                    && self.attributes.len() > 0 {
                    self.selected_attribute_index = self.attributes.len() - 1;
                }
            }
        }
    }

    /// The text a value is presented as when its edit begins: text and
    /// numbers verbatim, booleans as `true`/`false`, binary as its
    /// hexadecimal rendering, anything else empty.
    pub open spec fn edit_buffer_rep(v: AttributeValue) -> Seq<char> {
        match v {
            AttributeValue::Text(s) => s@,
            AttributeValue::Number(n) => n@,
            AttributeValue::Boolean(b) => if b {
                "true"@
            } else {
                "false"@
            },
            AttributeValue::Binary(b) => hex_encode(b@),
            _ => Seq::<char>::empty(),
        }
    }

    /// Begins editing the selected attribute's value, seeding the buffer
    /// with the value's display representation; a no-op on the virtual
    /// add row.
    pub fn start_value_edit(&mut self)
        requires
            old(self).wf(),
            old(self).editing_field is None,
        ensures
            final(self).wf(),
            Self::value_edit_started(*old(self), *final(self)),
    {
        let idx = self.selected_attribute_index;
        if idx < self.attributes.len() {
            self.input_buffer = match &self.attributes[idx].1 {
                AttributeValue::Text(s) => s.clone(),
                AttributeValue::Number(n) => n.clone(),
                AttributeValue::Boolean(b) => {
                    if *b {
                        let t = "true".to_owned();
                        t
                    } else {
                        let t = "false".to_owned();
                        t
                    }
                },
                AttributeValue::Binary(b) => hex_string(b),
                _ => String::new(),
            };
            self.editing_field = Some(EditingField::Value);
        }
    }

    /// Begins renaming the selected attribute, seeding the buffer with
    /// the current name; blocked on key rows and the virtual add row.
    pub fn start_key_edit(&mut self)
        requires
            old(self).wf(),
            old(self).editing_field is None,
        ensures
            final(self).wf(),
            Self::key_edit_started(*old(self), *final(self)),
    {
        let idx = self.selected_attribute_index;
        if idx < self.attributes.len() {
            let is_key = self.row_is_key(idx);
            if !is_key {
                self.input_buffer = self.attributes[idx].0.clone();
                self.editing_field = Some(EditingField::Key);
            }
        }
    }

    /// Appends one character to the active input buffer.
    pub fn push_input(&mut self, c: char)
        requires
            old(self).wf(),
        ensures
            final(self).wf(),
            Self::input_pushed(*old(self), *final(self), c),
    {
        self.input_buffer.push(c);
    }

    /// Removes the last character of the active input buffer.
    pub fn pop_input(&mut self)
        requires
            old(self).wf(),
        ensures
            final(self).wf(),
            Self::input_popped(*old(self), *final(self)),
    {
        self.input_buffer.pop();
    }

    /// Discards the buffer and leaves the sub-edit without changes.
    pub fn cancel_edit(&mut self)
        requires
            old(self).wf(),
        ensures
            final(self).wf(),
            Self::edit_cancelled(*old(self), *final(self)),
    {
        self.editing_field = None;
        self.input_buffer.clear();
    }

    /// The buffer reads as true: its lower-cased form is `true`, `1` or
    /// `yes`.
    pub open spec fn is_truthy(buf: Seq<char>) -> bool {
        lower_seq(buf) == "true"@ || lower_seq(buf) == "1"@ || lower_seq(buf) == "yes"@
    }

    /// How a committed value relates to the buffer, by the attribute's
    /// current type: text and numbers take the buffer verbatim, booleans
    /// read the buffer leniently, binary decodes it as hexadecimal digit
    /// pairs, and every other type falls back to text.
    pub open spec fn committed_value(
        cur: AttributeValue,
        buf: Seq<char>,
        r: AttributeValue,
    ) -> bool {
        match cur {
            AttributeValue::Text(_) => r matches AttributeValue::Text(t) && t@ == buf,
            AttributeValue::Number(_) => r matches AttributeValue::Number(t) && t@ == buf,
            AttributeValue::Boolean(_) => r == AttributeValue::Boolean(Self::is_truthy(buf)),
            AttributeValue::Binary(_) => r matches AttributeValue::Binary(b) && b@
                == hex_decode_lenient(trim_seq(buf)),
            _ => r matches AttributeValue::Text(t) && t@ == buf,
        }
    }

    /// Commits the active sub-edit: a value edit reinterprets the buffer
    /// by the attribute's current type; a rename replaces the attribute's
    /// name, keeping its value and position.  The sub-edit ends and the
    /// buffer is cleared.
    pub fn commit_edit(&mut self)
        requires
            old(self).wf(),
            old(self).editing_field is Some,
        ensures
            final(self).wf(),
            Self::edit_committed(*old(self), *final(self)),
    {
        let idx = self.selected_attribute_index;
        match self.editing_field {
            Some(EditingField::Value) => {
                let pair = self.attributes.remove(idx);
                let (name, value) = pair;
                let new_value = match value {
                    AttributeValue::Text(_) => AttributeValue::Text(self.input_buffer.clone()),
                    AttributeValue::Number(_) => AttributeValue::Number(self.input_buffer.clone()),
                    AttributeValue::Boolean(_) => AttributeValue::Boolean(
                        is_truthy_buffer(self.input_buffer.as_str()),
                    ),
                    AttributeValue::Binary(_) => {
                        let cs = chars_of(self.input_buffer.as_str());
                        let trimmed = trim_chars(&cs);
                        AttributeValue::Binary(hex_decode_chars(&trimmed))
                    },
                    _ => AttributeValue::Text(self.input_buffer.clone()),
                };
                self.attributes.insert(idx, (name, new_value));
                proof {
                    assert(self.attributes@ =~= old(self).attributes@.update(
                        idx as int,
                        self.attributes@[idx as int],
                    ));
                    lemma_update_keeps_names(old(self).attributes@, self.attributes@);
                }
            },
            Some(EditingField::Key) => {
                let pair = self.attributes.remove(idx);
                let new_name = self.input_buffer.clone();
                self.attributes.insert(idx, (new_name, pair.1));
                proof {
                    assert(self.attributes@ =~= old(self).attributes@.update(
                        idx as int,
                        self.attributes@[idx as int],
                    ));
                    let h = old(self).hash_key_schema.name@;
                    let j = choose|j: int|
                        0 <= j < old(self).attributes@.len() && old(self).attributes@[j].0@ == h;
                    assert(j != idx);
                    assert(self.attributes@[j].0@ == h);
                    if old(self).range_key_schema is Some {
                        let rn = old(self).range_key_schema->Some_0.name@;
                        let k = choose|k: int|
                            0 <= k < old(self).attributes@.len() && old(self).attributes@[k].0@
                                == rn;
                        assert(k != idx);
                        assert(self.attributes@[k].0@ == rn);
                    }
                }
            },
            _ => {},
        }
        self.editing_field = None;
        self.input_buffer.clear();
    }

    fn row_is_key(&self, idx: usize) -> (r: bool)
        requires
            idx < self.attributes@.len(),
        ensures
            r == self.is_key_name(self.attributes@[idx as int].0@),
    {
        let name = &self.attributes[idx].0;
        if name.eq(&self.hash_key_schema.name) {
            return true;
        }
        match &self.range_key_schema {
            Some(k) => name.eq(&k.name),
            None => false,
        }
    }
}

fn is_truthy_buffer(buf: &str) -> (r: bool)
    ensures
        r == ItemEditorState::is_truthy(buf@),
{
    let lv = lower_chars_of(buf);
    proof {
        reveal_strlit("true");
        reveal_strlit("1");
        reveal_strlit("yes");
    }
    if lv.len() == 4 && lv[0] == 't' && lv[1] == 'r' && lv[2] == 'u' && lv[3] == 'e' {
        proof {
            assert(lower_seq(buf@) =~= "true"@);
        }
        true
    } else if lv.len() == 1 && lv[0] == '1' {
        proof {
            assert(lower_seq(buf@) =~= "1"@);
        }
        true
    } else if lv.len() == 3 && lv[0] == 'y' && lv[1] == 'e' && lv[2] == 's' {
        proof {
            assert(lower_seq(buf@) =~= "yes"@);
        }
        true
    } else {
        proof {
            let l = lower_seq(buf@);
            assert(l != "true"@ && l != "1"@ && l != "yes"@) by {
                if l == "true"@ {
                    assert(l.len() == 4 && l[0] == 't' && l[1] == 'r' && l[2] == 'u' && l[3]
                        == 'e');
                }
                if l == "1"@ {
                    assert(l.len() == 1 && l[0] == '1');
                }
                if l == "yes"@ {
                    assert(l.len() == 3 && l[0] == 'y' && l[1] == 'e' && l[2] == 's');
                }
            }
        }
        false
    }
}

proof fn lemma_update_keeps_names(pre: Seq<(String, AttributeValue)>, post: Seq<(
    String,
    AttributeValue,
)>)
    requires
        post.len() == pre.len(),
        forall|k: int| 0 <= k < pre.len() ==> post[k].0@ == pre[k].0@,
    ensures
        forall|n: Seq<char>| contains_name(pre, n) ==> contains_name(post, n),
{
    assert forall|n: Seq<char>| contains_name(pre, n) implies contains_name(post, n) by {
        let j = choose|j: int| 0 <= j < pre.len() && pre[j].0@ == n;
        assert(post[j].0@ == n);
    }
}

proof fn lemma_remove_keeps_other_names(attrs: Seq<(String, AttributeValue)>, idx: int, n: Seq<
    char,
>)
    requires
        0 <= idx < attrs.len(),
        attrs[idx].0@ != n,
        contains_name(attrs, n),
    ensures
        contains_name(attrs.remove(idx), n),
{
    let j = choose|j: int| 0 <= j < attrs.len() && attrs[j].0@ == n;
    if j < idx {
        assert(attrs.remove(idx)[j].0@ == n);
    } else {
        assert(j > idx);
        assert(attrs.remove(idx)[j - 1].0@ == n);
    }
}

/// Whether some row of the list carries this attribute name.
pub fn has_name(attrs: &Vec<(String, AttributeValue)>, name: &String) -> (r: bool)
    ensures
        r == contains_name(attrs@, name@),
{
    let n: usize = attrs.len();
    let mut i: usize = 0;
    while i < n
        invariant
            i <= n,
            n == attrs@.len(),
            forall|k: int| 0 <= k < i ==> (#[trigger] attrs@[k]).0@ != name@,
        decreases n - i,
    {
        if attrs[i].0.eq(name) {
            return true;
        }
        i = i + 1;
    }
    false
}

/// The sort rank of an attribute row: key attributes come first.
pub open spec fn attr_rank(hash: Seq<char>, range: Option<Seq<char>>, name: Seq<char>) -> int {
    if name == hash || (range matches Some(r) && name == r) {
        0
    } else {
        1
    }
}

/// The strict order the editor presents rows in: key rows before the
/// rest, ties broken by name.
pub open spec fn attr_lt(
    hash: Seq<char>,
    range: Option<Seq<char>>,
    a: (String, AttributeValue),
    b: (String, AttributeValue),
) -> bool {
    attr_rank(hash, range, a.0@) < attr_rank(hash, range, b.0@) || (attr_rank(hash, range, a.0@)
        == attr_rank(hash, range, b.0@) && lex_lt(a.0@, b.0@))
}

/// No row is strictly below an earlier row.
pub open spec fn sorted_attrs(
    hash: Seq<char>,
    range: Option<Seq<char>>,
    s: Seq<(String, AttributeValue)>,
) -> bool {
    forall|i: int, j: int|
        0 <= i < j < s.len() ==> !attr_lt(hash, range, #[trigger] s[j], #[trigger] s[i])
}

proof fn lemma_attr_lt_trans(
    hash: Seq<char>,
    range: Option<Seq<char>>,
    a: (String, AttributeValue),
    b: (String, AttributeValue),
    c: (String, AttributeValue),
)
    requires
        attr_lt(hash, range, a, b),
        attr_lt(hash, range, b, c),
    ensures
        attr_lt(hash, range, a, c),
{
    if attr_rank(hash, range, a.0@) == attr_rank(hash, range, b.0@) && attr_rank(hash, range, b.0@)
        == attr_rank(hash, range, c.0@) {
        lemma_lex_lt_trans(a.0@, b.0@, c.0@);
    }
}

fn rank_of(hash: &String, range: &Option<String>, name: &String) -> (r: usize)
    ensures
        r as int == attr_rank(
            hash@,
            match *range {
                Some(rn) => Some(rn@),
                None => None,
            },
            name@,
        ),
{
    if name.eq(hash) {
        return 0;
    }
    match range {
        Some(rn) => {
            if name.eq(rn) {
                0
            } else {
                1
            }
        },
        None => 1,
    }
}

fn attr_lt_exec(
    hash: &String,
    range: &Option<String>,
    a: &(String, AttributeValue),
    b: &(String, AttributeValue),
) -> (r: bool)
    ensures
        r == attr_lt(
            hash@,
            match *range {
                Some(rn) => Some(rn@),
                None => None,
            },
            *a,
            *b,
        ),
{
    let ra = rank_of(hash, range, &a.0);
    let rb = rank_of(hash, range, &b.0);
    if ra < rb {
        true
    } else if ra == rb {
        str_lt(a.0.as_str(), b.0.as_str())
    } else {
        false
    }
}

/// Sorts attribute rows with the key rows first and names in ascending
/// order within each group; the rows themselves are exactly preserved.
pub fn sort_attributes(
    attrs: Vec<(String, AttributeValue)>,
    hash: &String,
    range: &Option<String>,
) -> (r: Vec<(String, AttributeValue)>)
    ensures
        r@.to_multiset() == attrs@.to_multiset(),
        sorted_attrs(
            hash@,
            match *range {
                Some(rn) => Some(rn@),
                None => None,
            },
            r@,
        ),
{
    let ghost gh = hash@;
    let ghost gr: Option<Seq<char>> = match range {
        Some(rn) => Some(rn@),
        None => None,
    };
    let mut rest = attrs;
    let mut out: Vec<(String, AttributeValue)> = Vec::new();
    proof {
        broadcast use vstd::seq_lib::group_to_multiset_ensures;

        assert(out@.to_multiset().add(rest@.to_multiset()) =~= attrs@.to_multiset());
    }
    while rest.len() > 0
        invariant
            out@.to_multiset().add(rest@.to_multiset()) == attrs@.to_multiset(),
            sorted_attrs(gh, gr, out@),
            forall|x: int, y: int|
                0 <= x < out@.len() && 0 <= y < rest@.len() ==> !attr_lt(
                    gh,
                    gr,
                    #[trigger] rest@[y],
                    #[trigger] out@[x],
                ),
            gh == hash@,
            gr == (match *range {
                Some(rn) => Some(rn@),
                None => None,
            }),
        decreases rest@.len(),
    {
        let mut m: usize = 0;
        let mut j: usize = 1;
        proof {
            lemma_lex_lt_irrefl(rest@[0].0@);
        }
        while j < rest.len()
            invariant
                m < j <= rest@.len(),
                rest@.len() > 0,
                forall|l: int| 0 <= l < j ==> !attr_lt(gh, gr, #[trigger] rest@[l], rest@[m as int]),
                gh == hash@,
                gr == (match *range {
                    Some(rn) => Some(rn@),
                    None => None,
                }),
            decreases rest@.len() - j,
        {
            if attr_lt_exec(hash, range, &rest[j], &rest[m]) {
                proof {
                    assert forall|l: int| 0 <= l < j implies !attr_lt(
                        gh,
                        gr,
                        #[trigger] rest@[l],
                        rest@[j as int],
                    ) by {
                        if attr_lt(gh, gr, rest@[l], rest@[j as int]) {
                            lemma_attr_lt_trans(gh, gr, rest@[l], rest@[j as int], rest@[m as int]);
                        }
                    }
                }
                proof {
                    lemma_lex_lt_irrefl(rest@[j as int].0@);
                }
                m = j;
            }
            j = j + 1;
        }
        let ghost pre_rest = rest@;
        let ghost pre_out = out@;
        let picked = rest.remove(m);
        out.push(picked);
        proof {
            broadcast use vstd::seq_lib::group_to_multiset_ensures;

            assert(pre_rest.to_multiset().count(picked) > 0) by {
                assert(pre_rest.contains(picked));
            }
            assert(out@.to_multiset() =~= pre_out.to_multiset().insert(picked));
            assert(rest@.to_multiset() =~= pre_rest.to_multiset().remove(picked));
            assert(out@.to_multiset().add(rest@.to_multiset()) =~= pre_out.to_multiset().add(
                pre_rest.to_multiset(),
            ));
            assert forall|y: int| 0 <= y < rest@.len() implies !attr_lt(
                gh,
                gr,
                #[trigger] rest@[y],
                picked,
            ) by {
                if y < m {
                    assert(rest@[y] == pre_rest[y]);
                } else {
                    assert(rest@[y] == pre_rest[y + 1]);
                }
            }
            assert forall|i: int, jj: int| 0 <= i < jj < out@.len() implies !attr_lt(
                gh,
                gr,
                #[trigger] out@[jj],
                #[trigger] out@[i],
            ) by {
                if jj < out@.len() - 1 {
                    assert(!attr_lt(gh, gr, pre_out[jj], pre_out[i]));
                } else {
                    assert(out@[jj] == pre_rest[m as int]);
                    assert(!attr_lt(gh, gr, pre_rest[m as int], pre_out[i]));
                }
            }
            assert forall|x: int, y: int|
                0 <= x < out@.len() && 0 <= y < rest@.len() implies !attr_lt(
                gh,
                gr,
                #[trigger] rest@[y],
                #[trigger] out@[x],
            ) by {
                let row = if y < m { pre_rest[y] } else { pre_rest[y + 1] };
                assert(rest@[y] == row);
                if x < out@.len() - 1 {
                    assert(!attr_lt(gh, gr, row, pre_out[x]));
                }
            }
        }
    }
    proof {
        broadcast use vstd::seq_lib::group_to_multiset_ensures;

        assert(rest@.to_multiset().len() == 0);
        assert(out@.to_multiset().add(rest@.to_multiset()) =~= out@.to_multiset());
    }
    out
}

/// Adding an attribute and immediately deleting the freshly added row
/// restores the attribute list to its prior content and length.  The
/// premises are what `add_attribute` and `delete_selected` guarantee of
/// the two steps.
pub proof fn lemma_add_then_delete(
    pre: Seq<(String, AttributeValue)>,
    mid: Seq<(String, AttributeValue)>,
    post: Seq<(String, AttributeValue)>,
)
    requires
        mid.len() == pre.len() + 1,
        mid.drop_last() == pre,
        post == mid.remove(mid.len() - 1),
    ensures
        post == pre,
{
    assert(post =~= pre);
}

} // verus!
