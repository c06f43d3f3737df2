//! A parsed DICOM object, as far as the pipeline reads it: a store of
//! elements by tag, and the transfer syntax from the file meta header.

use vstd::prelude::*;

verus! {

/// The identifier of a data element: the group number in the high 16 bits,
/// the element number in the low 16 bits, as in `(gggg,eeee)`.
pub type Tag = u32;

/// Samples per Pixel, `(0028,0002)`.
pub const SAMPLES_PER_PIXEL: Tag = 0x0028_0002;

/// Photometric Interpretation, `(0028,0004)`.
pub const PHOTOMETRIC_INTERPRETATION: Tag = 0x0028_0004;

/// Rows, `(0028,0010)`.
pub const ROWS: Tag = 0x0028_0010;

/// Columns, `(0028,0011)`.
pub const COLUMNS: Tag = 0x0028_0011;

/// Bits Allocated, `(0028,0100)`.
pub const BITS_ALLOCATED: Tag = 0x0028_0100;

/// Red Palette Color Lookup Table Data, `(0028,1201)`.
pub const RED_PALETTE: Tag = 0x0028_1201;

/// Green Palette Color Lookup Table Data, `(0028,1202)`.
pub const GREEN_PALETTE: Tag = 0x0028_1202;

/// Blue Palette Color Lookup Table Data, `(0028,1203)`.
pub const BLUE_PALETTE: Tag = 0x0028_1203;

/// Pixel Data, `(7FE0,0010)`.
pub const PIXEL_DATA: Tag = 0x7FE0_0010;

/// The value of a data element, by the kind of data it holds.
#[derive(Debug, Clone, PartialEq, Eq)]
pub enum Value {
    /// No data.
    Empty,
    /// A sequence of 8-bit bytes.
    Bytes(Vec<u8>),
    /// A sequence of 16-bit words.
    Words(Vec<u16>),
    /// A sequence of integers of any other width.
    Integers(Vec<i64>),
    /// A text.
    Text(String),
    /// Pixel data in encapsulated form: a sequence of fragments.
    Fragments(Vec<Vec<u8>>),
    /// Anything else.
    Other,
}

/// The mathematical value of a [`Value`].
pub enum ValueView {
    Empty,
    Bytes(Seq<u8>),
    Words(Seq<u16>),
    Integers(Seq<i64>),
    Text(Seq<char>),
    Fragments(Seq<Seq<u8>>),
    Other,
}

impl View for Value {
    type V = ValueView;

    open spec fn view(&self) -> ValueView {
        match *self {
            Value::Empty => ValueView::Empty,
            Value::Bytes(bytes) => ValueView::Bytes(bytes@),
            Value::Words(words) => ValueView::Words(words@),
            Value::Integers(integers) => ValueView::Integers(integers@),
            Value::Text(text) => ValueView::Text(text@),
            Value::Fragments(fragments) => ValueView::Fragments(
                fragments@.map_values(|f: Vec<u8>| f@),
            ),
            Value::Other => ValueView::Other,
        }
    }
}

/// A data element: a tag and its value.
#[derive(Debug, Clone, PartialEq, Eq)]
pub struct Element {
    pub tag: Tag,
    pub value: Value,
}

/// A parsed DICOM object.
///
/// Where several elements carry the same tag, the first of them is the one
/// that is found.
#[derive(Debug, Clone, PartialEq, Eq)]
pub struct Dicom {
    /// The transfer syntax identifier of the file meta header, with whatever
    /// padding it has in the file.
    pub transfer_syntax: String,
    pub elements: Vec<Element>,
}

/// The mathematical value of a [`Dicom`] object: its elements as a map from
/// tags to values.
pub struct DicomView {
    pub transfer_syntax: Seq<char>,
    pub elements: Map<Tag, ValueView>,
}

/// The map that a sequence of elements stands for. An element hides those
/// with the same tag that come after it.
pub open spec fn elements_map(elements: Seq<Element>) -> Map<Tag, ValueView>
    decreases elements.len(),
{
    if elements.len() == 0 {
        Map::empty()
    } else {
        elements_map(elements.drop_first()).insert(elements[0].tag, elements[0].value@)
    }
}

impl View for Dicom {
    type V = DicomView;

    open spec fn view(&self) -> DicomView {
        DicomView {
            transfer_syntax: self.transfer_syntax@,
            elements: elements_map(self.elements@),
        }
    }
}

/// A tag that no element carries is not in the map of the elements.
pub proof fn absent_tag_is_not_in_map(elements: Seq<Element>, tag: Tag)
    requires
        forall|j: int| 0 <= j < elements.len() ==> (#[trigger] elements[j]).tag != tag,
    ensures
        !elements_map(elements).contains_key(tag),
    decreases elements.len(),
{
    if elements.len() > 0 {
        let rest = elements.drop_first();
        assert forall|j: int| 0 <= j < rest.len() implies (#[trigger] rest[j]).tag != tag by {
            assert(rest[j] == elements[j + 1]);
        }
        absent_tag_is_not_in_map(rest, tag);
        assert(elements[0].tag != tag);
    }
}

/// The map of the elements holds, for a tag, the value of the first element
/// that carries it.
pub proof fn first_match_is_in_map(elements: Seq<Element>, tag: Tag, i: int)
    requires
        0 <= i < elements.len(),
        elements[i].tag == tag,
        forall|j: int| 0 <= j < i ==> (#[trigger] elements[j]).tag != tag,
    ensures
        elements_map(elements).contains_key(tag),
        elements_map(elements)[tag] == elements[i].value@,
    decreases elements.len(),
{
    if i > 0 {
        let rest = elements.drop_first();
        assert(rest[i - 1] == elements[i]);
        assert forall|j: int| 0 <= j < i - 1 implies (#[trigger] rest[j]).tag != tag by {
            assert(rest[j] == elements[j + 1]);
        }
        first_match_is_in_map(rest, tag, i - 1);
        assert(elements[0].tag != tag);
    }
}

impl Dicom {
    /// Looks an element up by its tag.
    pub fn find(&self, tag: Tag) -> (r: Option<&Value>)
        ensures
            match r {
                Some(value) => self@.elements.contains_key(tag) && self@.elements[tag] == value@,
                None => !self@.elements.contains_key(tag),
            },
    {
        let mut i: usize = 0;
        while i < self.elements.len()
            invariant
                i <= self.elements@.len(),
                forall|j: int| 0 <= j < i ==> (#[trigger] self.elements@[j]).tag != tag,
            decreases self.elements@.len() - i,
        {
            if self.elements[i].tag == tag {
                proof {
                    first_match_is_in_map(self.elements@, tag, i as int);
                }
                return Some(&self.elements[i].value);
            }
            i = i + 1;
        }
        proof {
            absent_tag_is_not_in_map(self.elements@, tag);
        }
        None
    }
}

} // verus!
