//! The tag table: the elements of an object as rows of text, for a viewer.
//!
//! The table is made from a tree of [`TagNode`]s, in which every number,
//! date or tag has already been written out as text.

use vstd::prelude::*;
use vstd::string::{StrSliceExecFns, StringExecFns, StringSliceAdditionalSpecFns};
use vstd::utf8::{
    decode_utf8, decode_utf8_encode_utf8, decode_utf8_split, encode_utf8,
    encode_utf8_decode_utf8, encode_utf8_valid_utf8, is_char_boundary, valid_utf8,
    valid_utf8_split,
};
use crate::text::{trim_trailing_nuls, without_trailing_nuls};

verus! {

/// The number of bytes of a value, in UTF-8, that its short form keeps at
/// most.
pub const MAX_STRING_DISPLAY_LEN: usize = 60;

/// The number of items of a multi-valued element that are shown.
pub const MAX_ARRAY_DISPLAY_LEN: usize = 5;

/// One row of the tag table.
#[derive(Debug, Clone, PartialEq, Eq)]
pub struct TableEntry {
    /// The tag, indented by the depth of nesting.
    pub tag_key: String,
    /// The name of the tag in the data dictionary.
    pub tag_name: String,
    /// The value in full, where the element has one to show.
    pub value: Option<String>,
    /// The value cut down to fit a cell.
    pub short_value: String,
}

/// The mathematical value of a [`TableEntry`].
pub struct TableEntryView {
    pub tag_key: Seq<char>,
    pub tag_name: Seq<char>,
    pub value: Option<Seq<char>>,
    pub short_value: Seq<char>,
}

impl View for TableEntry {
    type V = TableEntryView;

    open spec fn view(&self) -> TableEntryView {
        TableEntryView {
            tag_key: self.tag_key@,
            tag_name: self.tag_name@,
            value: match self.value {
                Some(value) => Some(value@),
                None => None,
            },
            short_value: self.short_value@,
        }
    }
}

/// The last position at or below `limit` at which a character of the
/// UTF-8 text `bytes` begins or the text ends.
pub open spec fn boundary_at_or_below(bytes: Seq<u8>, limit: int) -> int
    decreases limit,
{
    if limit <= 0 {
        0
    } else if is_char_boundary(bytes, limit) {
        limit
    } else {
        boundary_at_or_below(bytes, limit - 1)
    }
}

/// The short form of a value. A value of up to 60 bytes in UTF-8 is its own
/// short form. A longer one is cut to its first 60 bytes, or to fewer where
/// byte 60 lies inside a character, so that no character is cut; the cut
/// value is followed by ` <...>`.
pub open spec fn shortened(value: Seq<char>) -> Seq<char> {
    let bytes = encode_utf8(value);
    if bytes.len() > MAX_STRING_DISPLAY_LEN {
        decode_utf8(bytes.subrange(0, boundary_at_or_below(bytes, MAX_STRING_DISPLAY_LEN as int)))
            + " <...>"@
    } else {
        value
    }
}

/// The position that [`boundary_at_or_below`] gives lies between 0 and the
/// limit, no character is cut there, and none begins or ends between it and
/// the limit.
pub proof fn boundary_is_the_last(bytes: Seq<u8>, limit: int)
    requires
        valid_utf8(bytes),
        0 <= limit,
    ensures
        0 <= boundary_at_or_below(bytes, limit) <= limit,
        is_char_boundary(bytes, boundary_at_or_below(bytes, limit)),
        forall|at: int|
            boundary_at_or_below(bytes, limit) < at <= limit ==> !is_char_boundary(bytes, at),
    decreases limit,
{
    assert(is_char_boundary(bytes, 0));
    if limit > 0 && !is_char_boundary(bytes, limit) {
        boundary_is_the_last(bytes, limit - 1);
    }
}

/// What the short form keeps of a value of more than 60 bytes is a part of
/// it from its start: the characters that the first bytes of the value hold,
/// up to the last position at or below 60 where no character is cut.
pub proof fn short_form_keeps_the_start(value: Seq<char>)
    requires
        encode_utf8(value).len() > MAX_STRING_DISPLAY_LEN,
    ensures
        ({
            let cut = boundary_at_or_below(encode_utf8(value), MAX_STRING_DISPLAY_LEN as int);
            let kept = decode_utf8(encode_utf8(value).subrange(0, cut));
            &&& shortened(value) == kept + " <...>"@
            &&& kept.len() <= value.len()
            &&& kept == value.take(kept.len() as int)
            &&& encode_utf8(kept) == encode_utf8(value).subrange(0, cut)
            &&& encode_utf8(kept).len() <= MAX_STRING_DISPLAY_LEN
        }),
{
    let bytes = encode_utf8(value);
    encode_utf8_valid_utf8(value);
    encode_utf8_decode_utf8(value);
    boundary_is_the_last(bytes, MAX_STRING_DISPLAY_LEN as int);
    let cut = boundary_at_or_below(bytes, MAX_STRING_DISPLAY_LEN as int);
    let kept = decode_utf8(bytes.subrange(0, cut));
    let rest = decode_utf8(bytes.subrange(cut, bytes.len() as int));
    decode_utf8_split(bytes, cut);
    valid_utf8_split(bytes, cut);
    decode_utf8_encode_utf8(bytes.subrange(0, cut));
    assert(value == kept + rest);
    assert(kept == value.take(kept.len() as int));
}

/// Cuts a value down to its short form.
pub fn shorten(value: &str) -> (r: String)
    ensures
        r@ == shortened(value@),
{
    if value.as_bytes().len() > MAX_STRING_DISPLAY_LEN {
        let ghost bytes = value.spec_bytes();
        proof {
            encode_utf8_valid_utf8(value@);
        }
        let mut cut: usize = MAX_STRING_DISPLAY_LEN;
        while !value.is_char_boundary(cut)
            invariant
                cut <= MAX_STRING_DISPLAY_LEN < bytes.len(),
                bytes == value.spec_bytes(),
                bytes == encode_utf8(value@),
                valid_utf8(bytes),
                boundary_at_or_below(bytes, MAX_STRING_DISPLAY_LEN as int) == boundary_at_or_below(
                    bytes,
                    cut as int,
                ),
            decreases cut,
        {
            assert(cut > 0) by {
                assert(is_char_boundary(bytes, 0));
            }
            cut = cut - 1;
        }
        assert(boundary_at_or_below(bytes, cut as int) == cut);
        let parts = value.split_at(cut);
        proof {
            encode_utf8_decode_utf8(parts.0@);
            assert(parts.0.spec_bytes() == bytes.subrange(0, cut as int));
        }
        let mut short = String::from_str(parts.0);
        short.append(" <...>");
        short
    } else {
        String::from_str(value)
    }
}

/// The first `n` of `items`, with a comma between one and the next.
pub open spec fn joined(items: Seq<Seq<char>>, n: nat) -> Seq<char>
    decreases n,
{
    if n == 0 {
        Seq::empty()
    } else if n == 1 {
        items[0]
    } else {
        joined(items, (n - 1) as nat) + ","@ + items[n - 1]
    }
}

/// The number of items of a multi-valued element that are shown: all of
/// them, but no more than 5.
pub open spec fn shown_count(items: Seq<Seq<char>>) -> nat {
    if items.len() > MAX_ARRAY_DISPLAY_LEN {
        MAX_ARRAY_DISPLAY_LEN as nat
    } else {
        items.len()
    }
}

/// The text for the items of a multi-valued element: `[]` without items,
/// else the items that are shown, joined by commas. NUL characters at the end
/// of the text are dropped.
pub open spec fn array_text(items: Seq<Seq<char>>) -> Seq<char> {
    if items.len() == 0 {
        "[]"@
    } else {
        without_trailing_nuls(joined(items, shown_count(items)))
    }
}

/// The texts of the given strings.
pub open spec fn texts(items: Seq<String>) -> Seq<Seq<char>> {
    items.map_values(|item: String| item@)
}

/// Writes the items of a multi-valued element as one text.
pub fn format_array(items: &Vec<String>) -> (r: String)
    ensures
        r@ == array_text(texts(items@)),
{
    if items.len() == 0 {
        return String::from_str("[]");
    }
    let shown: usize = if items.len() > MAX_ARRAY_DISPLAY_LEN {
        MAX_ARRAY_DISPLAY_LEN
    } else {
        items.len()
    };
    let mut text = String::from_str(items[0].as_str());
    let mut i: usize = 1;
    while i < shown
        invariant
            1 <= i <= shown <= items@.len(),
            text@ == joined(texts(items@), i as nat),
        decreases shown - i,
    {
        text.append(",");
        text.append(items[i].as_str());
        i = i + 1;
    }
    String::from_str(trim_trailing_nuls(text.as_str()))
}

/// What the table shows of the value of an element.
#[derive(Debug)]
pub enum TagValue {
    /// No data.
    Empty,
    /// A single text.
    Text(String),
    /// The items of a multi-valued element, each written out.
    Items(Vec<String>),
    /// A sequence of nested objects, each with its elements.
    Sequence(Vec<Vec<TagNode>>),
    /// Encapsulated pixel data.
    PixelSequence,
}

/// An element of an object, as the table shows it.
#[derive(Debug)]
pub struct TagNode {
    /// The tag, written out.
    pub key: String,
    /// The name of the tag in the data dictionary, where it has one.
    pub name: Option<String>,
    pub value: TagValue,
}

/// The value of an element in full: none for sequences.
pub open spec fn value_text(value: TagValue) -> Option<Seq<char>> {
    match value {
        TagValue::Empty => Some("<empty>"@),
        TagValue::Text(text) => Some(text@),
        TagValue::Items(items) => Some(array_text(texts(items@))),
        TagValue::Sequence(_) => None,
        TagValue::PixelSequence => None,
    }
}

/// The value of an element as it stands in a cell: the short form of the
/// full value, or a word for the kind of sequence.
pub open spec fn short_text(value: TagValue) -> Seq<char> {
    match value {
        TagValue::Empty => shortened("<empty>"@),
        TagValue::Text(text) => shortened(text@),
        TagValue::Items(items) => shortened(array_text(texts(items@))),
        TagValue::Sequence(_) => "<sequence>"@,
        TagValue::PixelSequence => "<pixel sequence>"@,
    }
}

/// The row that sets the items of a sequence apart.
pub open spec fn separator_row() -> TableEntryView {
    TableEntryView { tag_key: "-"@, tag_name: "-"@, value: None, short_value: "-"@ }
}

/// The row of one element, its key behind `indent`. An element without a
/// name in the dictionary is called `Unknown`.
pub open spec fn entry_of(node: TagNode, indent: Seq<char>) -> TableEntryView {
    TableEntryView {
        tag_key: indent + node.key@,
        tag_name: match node.name {
            Some(name) => name@,
            None => "Unknown"@,
        },
        value: value_text(node.value),
        short_value: short_text(node.value),
    }
}

/// The rows of one element: its own row and, for a sequence, the rows of its
/// items, four spaces deeper, followed by a separator.
pub open spec fn node_rows(node: TagNode, indent: Seq<char>) -> Seq<TableEntryView>
    decreases node, 0nat,
{
    match node.value {
        TagValue::Sequence(items) => {
            seq![entry_of(node, indent)] + items_rows(items@, items@.len(), indent + "    "@)
                + seq![separator_row()]
        },
        _ => seq![entry_of(node, indent)],
    }
}

/// The rows of the first `n` items of a sequence: before each item a
/// separator, then the rows of its elements.
pub open spec fn items_rows(items: Seq<Vec<TagNode>>, n: nat, indent: Seq<char>) -> Seq<
    TableEntryView,
>
    decreases items, n,
{
    if n == 0 || n > items.len() {
        Seq::empty()
    } else {
        items_rows(items, (n - 1) as nat, indent) + seq![separator_row()] + nodes_rows(
            items[n - 1]@,
            items[n - 1]@.len(),
            indent,
        )
    }
}

/// The rows of the first `n` of `nodes`, in their order.
pub open spec fn nodes_rows(nodes: Seq<TagNode>, n: nat, indent: Seq<char>) -> Seq<TableEntryView>
    decreases nodes, n,
{
    if n == 0 || n > nodes.len() {
        Seq::empty()
    } else {
        nodes_rows(nodes, (n - 1) as nat, indent) + node_rows(nodes[n - 1], indent)
    }
}

/// The table of an object with the given elements.
pub open spec fn table_of(nodes: Seq<TagNode>) -> Seq<TableEntryView> {
    nodes_rows(nodes, nodes.len(), Seq::empty())
}

/// The mathematical values of the given rows.
pub open spec fn rows(entries: Seq<TableEntry>) -> Seq<TableEntryView> {
    entries.map_values(|entry: TableEntry| entry@)
}

/// Writes out the value of an element: first its short form for a cell, then
/// the value in full, where there is one.
pub fn format_value(value: &TagValue) -> (r: (String, Option<String>))
    ensures
        r.0@ == short_text(*value),
        match r.1 {
            Some(full) => value_text(*value) == Some(full@),
            None => value_text(*value) is None,
        },
{
    let full = match value {
        TagValue::Empty => String::from_str("<empty>"),
        TagValue::Text(text) => String::from_str(text.as_str()),
        TagValue::Items(items) => format_array(items),
        TagValue::Sequence(_) => {
            return (String::from_str("<sequence>"), None);
        },
        TagValue::PixelSequence => {
            return (String::from_str("<pixel sequence>"), None);
        },
    };
    (shorten(full.as_str()), Some(full))
}

/// Makes the row that sets the items of a sequence apart.
fn separator() -> (r: TableEntry)
    ensures
        r@ == separator_row(),
{
    TableEntry {
        tag_key: String::from_str("-"),
        tag_name: String::from_str("-"),
        value: None,
        short_value: String::from_str("-"),
    }
}

/// Makes the row of one element.
fn entry(node: &TagNode, indent: &str) -> (r: TableEntry)
    ensures
        r@ == entry_of(*node, indent@),
{
    let (short_value, value) = format_value(&node.value);
    let tag_name = match &node.name {
        Some(name) => String::from_str(name.as_str()),
        None => String::from_str("Unknown"),
    };
    TableEntry {
        tag_key: String::from_str(indent).concat(node.key.as_str()),
        tag_name,
        value,
        short_value,
    }
}

/// Makes the rows of the given elements, their keys behind `indent`.
fn formatted_list(indent: &str, nodes: &Vec<TagNode>) -> (table: Vec<TableEntry>)
    ensures
        rows(table@) == nodes_rows(nodes@, nodes@.len(), indent@),
    decreases nodes,
{
    let mut table: Vec<TableEntry> = Vec::new();
    let mut i: usize = 0;
    assert(rows(table@) =~= Seq::empty());
    while i < nodes.len()
        invariant
            i <= nodes@.len(),
            rows(table@) == nodes_rows(nodes@, i as nat, indent@),
        decreases nodes@.len() - i,
    {
        let node = &nodes[i];
        let ghost before = rows(table@);
        table.push(entry(node, indent));
        assert(rows(table@) =~= before + seq![entry_of(*node, indent@)]);
        if let TagValue::Sequence(items) = &node.value {
            let deeper = String::from_str(indent).concat("    ");
            let ghost head = rows(table@);
            let mut j: usize = 0;
            assert(head + items_rows(items@, 0, deeper@) =~= head);
            while j < items.len()
                invariant
                    j <= items@.len(),
                    i < nodes@.len(),
                    nodes@[i as int].value == TagValue::Sequence(*items),
                    rows(table@) == head + items_rows(items@, j as nat, deeper@),
                decreases items@.len() - j,
            {
                let ghost so_far = rows(table@);
                table.push(separator());
                proof {
                    assert(decreases_to!(nodes => nodes[i as int]));
                    assert(decreases_to!(nodes[i as int] => nodes[i as int].value));
                    assert(nodes[i as int].value->Sequence_0 == *items);
                    assert(decreases_to!(nodes[i as int].value => nodes[i as int].value->Sequence_0));
                    assert(decreases_to!(*items => items[j as int]));
                }
                let mut sub_table = formatted_list(deeper.as_str(), &items[j]);
                let ghost sub_rows = rows(sub_table@);
                table.append(&mut sub_table);
                assert(rows(table@) =~= so_far + seq![separator_row()] + sub_rows);
                assert(items_rows(items@, (j + 1) as nat, deeper@) == items_rows(
                    items@,
                    j as nat,
                    deeper@,
                ) + seq![separator_row()] + sub_rows);
                j = j + 1;
            }
            let ghost filled = rows(table@);
            table.push(separator());
            assert(rows(table@) =~= filled + seq![separator_row()]);
            assert(rows(table@) =~= before + node_rows(*node, indent@));
        } else {
            assert(node_rows(*node, indent@) == seq![entry_of(*node, indent@)]);
        }
        i = i + 1;
    }
    table
}

/// Makes the tag table of an object from its elements.
///
/// Every element gives a row, in the order of the elements. The rows of a
/// sequence follow the row of its element: for each item a separator and the
/// rows of the item's elements, their keys four spaces deeper, and behind the
/// last item one more separator. See [`table_of`].
pub fn get_dicom_table(nodes: &Vec<TagNode>) -> (table: Vec<TableEntry>)
    ensures
        rows(table@) == table_of(nodes@),
{
    proof {
        reveal_strlit("");
        assert(""@ =~= Seq::<char>::empty());
    }
    formatted_list("", nodes)
}

} // verus!
