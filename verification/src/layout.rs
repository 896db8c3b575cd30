//! How vertex data lies in a buffer.
//!
//! A layout says how far apart the records of a buffer are and where in a
//! record each attribute of the vertex shader is found.

use vstd::prelude::*;

verus! {

/// The shape of one attribute: one to four 32-bit floating-point numbers.
#[derive(Clone, Copy, Debug, PartialEq, Eq, Structural)]
pub enum VertexFormat {
    Float32,
    Float32x2,
    Float32x3,
    Float32x4,
}

/// Whether a buffer is stepped once per vertex or once per instance.
#[derive(Clone, Copy, Debug, PartialEq, Eq, Structural)]
pub enum VertexStepMode {
    Vertex,
    Instance,
}

/// One attribute of a record.
#[derive(Clone, Copy, Debug, PartialEq, Eq, Structural)]
pub struct VertexAttribute {
    /// Its shape.
    pub format: VertexFormat,
    /// Where it starts in the record, in bytes.
    pub offset: u64,
    /// The location under which the vertex shader reads it.
    pub shader_location: u32,
}

/// The layout of one buffer.
#[derive(Clone, Debug, PartialEq, Eq)]
pub struct VertexBufferLayout {
    /// The distance from one record to the next, in bytes.
    pub array_stride: u64,
    pub step_mode: VertexStepMode,
    /// The attributes, in the order of their offsets.
    pub attributes: Vec<VertexAttribute>,
}

/// A layout as a value.
pub struct VertexBufferLayoutView {
    pub array_stride: u64,
    pub step_mode: VertexStepMode,
    pub attributes: Seq<VertexAttribute>,
}

impl View for VertexBufferLayout {
    type V = VertexBufferLayoutView;

    open spec fn view(&self) -> VertexBufferLayoutView {
        VertexBufferLayoutView {
            array_stride: self.array_stride,
            step_mode: self.step_mode,
            attributes: self.attributes@,
        }
    }
}

impl VertexFormat {
    /// The number of bytes that the format takes.
    pub open spec fn byte_size(self) -> int {
        match self {
            VertexFormat::Float32 => 4,
            VertexFormat::Float32x2 => 8,
            VertexFormat::Float32x3 => 12,
            VertexFormat::Float32x4 => 16,
        }
    }

    /// The number of bytes that the format takes.
    pub fn size(&self) -> (bytes: u64)
        ensures
            bytes == self.byte_size(),
    {
        match self {
            VertexFormat::Float32 => 4,
            VertexFormat::Float32x2 => 8,
            VertexFormat::Float32x3 => 12,
            VertexFormat::Float32x4 => 16,
        }
    }
}

impl VertexAttribute {
    /// The first byte of the record after the attribute.
    pub open spec fn end(self) -> int {
        self.offset + self.format.byte_size()
    }
}

/// The attributes that lie one after another from the start of a record,
/// with the given locations and formats.
pub open spec fn packed(entries: Seq<(u32, VertexFormat)>) -> Seq<VertexAttribute>
    decreases entries.len(),
{
    if entries.len() == 0 {
        Seq::empty()
    } else {
        let before = packed(entries.drop_last());
        before.push(
            VertexAttribute {
                format: entries.last().1,
                offset: packed_size(entries.drop_last()) as u64,
                shader_location: entries.last().0,
            },
        )
    }
}

/// The number of bytes that attributes of the given formats take together.
pub open spec fn packed_size(entries: Seq<(u32, VertexFormat)>) -> int
    decreases entries.len(),
{
    if entries.len() == 0 {
        0
    } else {
        packed_size(entries.drop_last()) + entries.last().1.byte_size()
    }
}

impl VertexBufferLayoutView {
    /// Whether no attribute reaches past the end of a record and none
    /// overlaps the one before it.
    pub open spec fn well_formed(self) -> bool {
        &&& forall|i: int|
            0 <= i < self.attributes.len() ==> (#[trigger] self.attributes[i]).end()
                <= self.array_stride
        &&& forall|i: int, j: int|
            0 <= i < j < self.attributes.len() ==> (#[trigger] self.attributes[i]).end() <= (
            #[trigger] self.attributes[j]).offset
    }

    /// Whether some attribute is read under the given location.
    pub open spec fn binds(self, location: u32) -> bool {
        exists|i: int|
            0 <= i < self.attributes.len() && (#[trigger] self.attributes[i]).shader_location
                == location
    }
}

/// Packed attributes take `packed_size` bytes or fewer each, and fit within it.
pub proof fn lemma_packed(entries: Seq<(u32, VertexFormat)>)
    requires
        packed_size(entries) <= u64::MAX,
    ensures
        packed(entries).len() == entries.len(),
        0 <= packed_size(entries),
        forall|i: int|
            0 <= i < entries.len() ==> {
                let a = #[trigger] packed(entries)[i];
                a.shader_location == entries[i].0 && a.format == entries[i].1 && a.offset
                    == packed_size(entries.take(i)) && a.end() <= packed_size(entries)
            },
        forall|i: int, j: int|
            0 <= i < j < entries.len() ==> (#[trigger] packed(entries)[i]).end() <= (
            #[trigger] packed(entries)[j]).offset,
    decreases entries.len(),
{
    if entries.len() > 0 {
        let head = entries.drop_last();
        lemma_packed_size_nonnegative(head);
        lemma_packed(head);
        assert forall|i: int| 0 <= i < entries.len() implies {
            let a = #[trigger] packed(entries)[i];
            a.shader_location == entries[i].0 && a.format == entries[i].1 && a.offset
                == packed_size(entries.take(i)) && a.end() <= packed_size(entries)
        } by {
            if i < head.len() {
                assert(head.take(i) == entries.take(i));
            }
        }
    }
}

/// A size is never negative.
pub proof fn lemma_packed_size_nonnegative(entries: Seq<(u32, VertexFormat)>)
    ensures
        0 <= packed_size(entries),
    decreases entries.len(),
{
    if entries.len() > 0 {
        lemma_packed_size_nonnegative(entries.drop_last());
    }
}

/// Lays the attributes with the given locations and formats one after
/// another from the start of a record.
pub fn attr_array(entries: &[(u32, VertexFormat)]) -> (attributes: Vec<VertexAttribute>)
    requires
        packed_size(entries@) <= u64::MAX,
    ensures
        attributes@ == packed(entries@),
{
    let mut attributes: Vec<VertexAttribute> = Vec::new();
    let mut offset: u64 = 0;
    let mut i: usize = 0;
    while i < entries.len()
        invariant
            i <= entries@.len(),
            attributes@ == packed(entries@.take(i as int)),
            offset == packed_size(entries@.take(i as int)),
            packed_size(entries@) <= u64::MAX,
        decreases entries@.len() - i,
    {
        let (shader_location, format) = entries[i];
        proof {
            assert(entries@.take(i + 1).drop_last() == entries@.take(i as int));
            lemma_packed_size_grows(entries@, i + 1);
        }
        attributes.push(VertexAttribute { format, offset, shader_location });
        offset = offset + format.size();
        i += 1;
    }
    assert(entries@.take(i as int) == entries@);
    attributes
}

/// The first attributes of a record take no more bytes than all of them.
proof fn lemma_packed_size_grows(entries: Seq<(u32, VertexFormat)>, n: int)
    requires
        0 <= n <= entries.len(),
    ensures
        packed_size(entries.take(n)) <= packed_size(entries),
    decreases entries.len() - n,
{
    if n < entries.len() {
        lemma_packed_size_grows(entries, n + 1);
        assert(entries.take(n + 1).drop_last() == entries.take(n));
    } else {
        assert(entries.take(n) == entries);
    }
}

} // verus!
