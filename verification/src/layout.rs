//! The vertex-layout builder.
//!
//! A vertex layout is the byte-level schema of one vertex record: an
//! ordered list of attribute descriptions, each contributing
//! `component count x per-component byte width` bytes, packed back to
//! back with no implicit padding.  The layout is built in three phases —
//! `begin`, repeated `add`, `end` — and must be finalized by `end` before
//! an upload may use it.  `end` also computes a structural hash over the
//! attribute sequence, used to compare two layouts for schema equality
//! without walking their attributes.

use vstd::prelude::*;
use vstd::arithmetic::div_mod::lemma_fundamental_div_mod_converse;
use crate::UsageError;

verus! {

/// The vertex attributes a record may carry, in the native backend's
/// naming.  `Count` is a reserved marker, not an attribute.
#[derive(Clone, Copy, Debug, PartialEq, Eq, Structural)]
pub enum Attrib {
    Position,
    Normal,
    Tangent,
    Bitangent,
    Color0,
    Color1,
    Color2,
    Color3,
    Indices,
    Weight,
    TexCoord0,
    TexCoord1,
    TexCoord2,
    TexCoord3,
    TexCoord4,
    TexCoord5,
    TexCoord6,
    TexCoord7,
    Count,
}

/// The per-component element types.  `Count` is a reserved marker.
#[derive(Clone, Copy, Debug, PartialEq, Eq, Structural)]
pub enum AttribType {
    Uint8,
    Uint10,
    Int16,
    Half,
    Float,
    Count,
}

/// One attribute of a vertex record: which attribute, how many
/// components, their element type, and whether integer components are
/// normalized to the unit range when read.
#[derive(Clone, Copy, Debug, PartialEq, Eq, Structural)]
pub struct AttributeDesc {
    pub attrib: Attrib,
    pub num: u8,
    pub attrib_type: AttribType,
    pub normalized: bool,
}

/// A vertex record holds at most this many attributes.
pub const MAX_ATTRIBUTES: usize = 18;

/// Position of an attribute kind in the backend's attribute order.
pub open spec fn attrib_index(a: Attrib) -> int {
    match a {
        Attrib::Position => 0,
        Attrib::Normal => 1,
        Attrib::Tangent => 2,
        Attrib::Bitangent => 3,
        Attrib::Color0 => 4,
        Attrib::Color1 => 5,
        Attrib::Color2 => 6,
        Attrib::Color3 => 7,
        Attrib::Indices => 8,
        Attrib::Weight => 9,
        Attrib::TexCoord0 => 10,
        Attrib::TexCoord1 => 11,
        Attrib::TexCoord2 => 12,
        Attrib::TexCoord3 => 13,
        Attrib::TexCoord4 => 14,
        Attrib::TexCoord5 => 15,
        Attrib::TexCoord6 => 16,
        Attrib::TexCoord7 => 17,
        Attrib::Count => 18,
    }
}

/// Position of an element type in the backend's type order.
pub open spec fn type_index(t: AttribType) -> int {
    match t {
        AttribType::Uint8 => 0,
        AttribType::Uint10 => 1,
        AttribType::Int16 => 2,
        AttribType::Half => 3,
        AttribType::Float => 4,
        AttribType::Count => 5,
    }
}

/// Bytes one component of the given element type occupies in a record.
/// The reserved `Count` marker has no width; no valid attribute uses it.
pub open spec fn type_byte_width(t: AttribType) -> int {
    match t {
        AttribType::Uint8 => 1,
        AttribType::Uint10 => 2,
        AttribType::Int16 => 2,
        AttribType::Half => 2,
        AttribType::Float => 4,
        AttribType::Count => 0,
    }
}

/// An attribute description the builder accepts: a real attribute, a
/// real element type, and one to four components.
pub open spec fn attr_ok(d: AttributeDesc) -> bool {
    &&& !(d.attrib is Count)
    &&& !(d.attrib_type is Count)
    &&& 1 <= d.num <= 4
}

pub open spec fn attrs_ok(s: Seq<AttributeDesc>) -> bool {
    forall|i: int| 0 <= i < s.len() ==> attr_ok(#[trigger] s[i])
}

/// Bytes one attribute contributes to a vertex record.
pub open spec fn attr_size(d: AttributeDesc) -> int {
    d.num * type_byte_width(d.attrib_type)
}

/// Total byte size of a record made of the given attributes, packed in
/// order with no padding.
pub open spec fn layout_size(s: Seq<AttributeDesc>) -> int
    decreases s.len(),
{
    if s.len() == 0 {
        0
    } else {
        layout_size(s.drop_last()) + attr_size(s.last())
    }
}

/// Mixed-radix code of one attribute description, in `1..=720`.  Distinct
/// valid descriptions get distinct codes (`lemma_attr_code_injective`).
pub open spec fn attr_code(d: AttributeDesc) -> int {
    attrib_index(d.attrib) * 40 + type_index(d.attrib_type) * 8 + (d.num - 1) * 2 + (
    if d.normalized {
        1int
    } else {
        0int
    }) + 1
}

/// The structural hash of an attribute sequence: attribute codes chained
/// in base 1024, truncated to 32 bits at each step.
pub open spec fn layout_hash(s: Seq<AttributeDesc>) -> int
    decreases s.len(),
{
    if s.len() == 0 {
        0
    } else {
        (layout_hash(s.drop_last()) * 1024 + attr_code(s.last())) % 0x1_0000_0000
    }
}

/// The same chain without the 32-bit truncation; equal to `layout_hash`
/// while the sequence is short enough that no step can wrap.
pub open spec fn layout_hash_raw(s: Seq<AttributeDesc>) -> int
    decreases s.len(),
{
    if s.len() == 0 {
        0
    } else {
        layout_hash_raw(s.drop_last()) * 1024 + attr_code(s.last())
    }
}

pub proof fn lemma_attr_size_bound(d: AttributeDesc)
    requires
        attr_ok(d),
    ensures
        1 <= attr_size(d) <= 16,
{
    match d.attrib_type {
        AttribType::Uint8 => assert(attr_size(d) == d.num * 1),
        AttribType::Uint10 => assert(attr_size(d) == d.num * 2),
        AttribType::Int16 => assert(attr_size(d) == d.num * 2),
        AttribType::Half => assert(attr_size(d) == d.num * 2),
        AttribType::Float => assert(attr_size(d) == d.num * 4),
        AttribType::Count => assert(false),
    }
}

pub proof fn lemma_layout_size_bound(s: Seq<AttributeDesc>)
    requires
        attrs_ok(s),
    ensures
        0 <= layout_size(s) <= 16 * s.len(),
    decreases s.len(),
{
    if s.len() > 0 {
        assert(attrs_ok(s.drop_last())) by {
            assert forall|i: int| 0 <= i < s.drop_last().len() implies attr_ok(
                #[trigger] s.drop_last()[i],
            ) by {
                assert(s.drop_last()[i] == s[i]);
            }
        }
        lemma_layout_size_bound(s.drop_last());
        lemma_attr_size_bound(s.last());
    }
}

pub proof fn lemma_attr_code_bounds(d: AttributeDesc)
    requires
        attr_ok(d),
    ensures
        1 <= attr_code(d) <= 720,
{
}

/// Distinct valid attribute descriptions have distinct codes: every field
/// of the description can be read back out of its code.
pub proof fn lemma_attr_code_injective(d1: AttributeDesc, d2: AttributeDesc)
    requires
        attr_ok(d1),
        attr_ok(d2),
        attr_code(d1) == attr_code(d2),
    ensures
        d1 == d2,
{
    let c = attr_code(d1) - 1;
    let m1 = type_index(d1.attrib_type) * 8 + (d1.num - 1) * 2 + (
    if d1.normalized {
        1int
    } else {
        0int
    });
    let m2 = type_index(d2.attrib_type) * 8 + (d2.num - 1) * 2 + (
    if d2.normalized {
        1int
    } else {
        0int
    });
    lemma_fundamental_div_mod_converse(c, 40, attrib_index(d1.attrib), m1);
    lemma_fundamental_div_mod_converse(c, 40, attrib_index(d2.attrib), m2);
    assert(attrib_index(d1.attrib) == attrib_index(d2.attrib));
    assert(m1 == m2);
    let r1 = (d1.num - 1) * 2 + (
    if d1.normalized {
        1int
    } else {
        0int
    });
    let r2 = (d2.num - 1) * 2 + (
    if d2.normalized {
        1int
    } else {
        0int
    });
    lemma_fundamental_div_mod_converse(m1, 8, type_index(d1.attrib_type), r1);
    lemma_fundamental_div_mod_converse(m2, 8, type_index(d2.attrib_type), r2);
    assert(type_index(d1.attrib_type) == type_index(d2.attrib_type));
    assert(r1 == r2);
    lemma_fundamental_div_mod_converse(
        r1,
        2,
        d1.num - 1,
        if d1.normalized {
            1int
        } else {
            0int
        },
    );
    lemma_fundamental_div_mod_converse(
        r2,
        2,
        d2.num - 1,
        if d2.normalized {
            1int
        } else {
            0int
        },
    );
    assert(d1.attrib == d2.attrib);
    assert(d1.attrib_type == d2.attrib_type);
}

proof fn lemma_attrs_ok_drop_last(s: Seq<AttributeDesc>)
    requires
        attrs_ok(s),
        s.len() > 0,
    ensures
        attrs_ok(s.drop_last()),
{
    assert forall|i: int| 0 <= i < s.drop_last().len() implies attr_ok(
        #[trigger] s.drop_last()[i],
    ) by {
        assert(s.drop_last()[i] == s[i]);
    }
}

/// Range of the untruncated hash chain for up to three attributes: the
/// ranges for distinct lengths do not overlap.
proof fn lemma_raw_bounds(s: Seq<AttributeDesc>)
    requires
        attrs_ok(s),
        s.len() <= 3,
    ensures
        s.len() == 0 ==> layout_hash_raw(s) == 0,
        s.len() == 1 ==> 1 <= layout_hash_raw(s) <= 720,
        s.len() == 2 ==> 1024 <= layout_hash_raw(s) <= 738000,
        s.len() == 3 ==> 1048576 <= layout_hash_raw(s) <= 755712720,
    decreases s.len(),
{
    if s.len() > 0 {
        lemma_attrs_ok_drop_last(s);
        lemma_raw_bounds(s.drop_last());
        lemma_attr_code_bounds(s.last());
    }
}

/// While no step can reach 2^32, the truncated and untruncated chains
/// agree.
proof fn lemma_hash_eq_raw_short(s: Seq<AttributeDesc>)
    requires
        attrs_ok(s),
        s.len() <= 3,
    ensures
        layout_hash(s) == layout_hash_raw(s),
    decreases s.len(),
{
    if s.len() > 0 {
        lemma_attrs_ok_drop_last(s);
        lemma_hash_eq_raw_short(s.drop_last());
        lemma_raw_bounds(s.drop_last());
        lemma_attr_code_bounds(s.last());
        lemma_raw_bounds(s);
    }
}

/// Two attribute sequences of the same length with the same untruncated
/// chain value are the same sequence: each step peels off one base-1024
/// digit, and the digits decode to the attribute fields.
proof fn lemma_raw_injective_same_len(s1: Seq<AttributeDesc>, s2: Seq<AttributeDesc>)
    requires
        attrs_ok(s1),
        attrs_ok(s2),
        s1.len() == s2.len(),
        layout_hash_raw(s1) == layout_hash_raw(s2),
    ensures
        s1 =~= s2,
    decreases s1.len(),
{
    if s1.len() > 0 {
        lemma_attrs_ok_drop_last(s1);
        lemma_attrs_ok_drop_last(s2);
        lemma_attr_code_bounds(s1.last());
        lemma_attr_code_bounds(s2.last());
        lemma_raw_nonneg(s1.drop_last());
        lemma_raw_nonneg(s2.drop_last());
        lemma_fundamental_div_mod_converse(
            layout_hash_raw(s1),
            1024,
            layout_hash_raw(s1.drop_last()),
            attr_code(s1.last()),
        );
        lemma_fundamental_div_mod_converse(
            layout_hash_raw(s2),
            1024,
            layout_hash_raw(s2.drop_last()),
            attr_code(s2.last()),
        );
        assert(attr_code(s1.last()) == attr_code(s2.last()));
        lemma_attr_code_injective(s1.last(), s2.last());
        lemma_raw_injective_same_len(s1.drop_last(), s2.drop_last());
        assert forall|i: int| 0 <= i < s1.len() implies s1[i] == s2[i] by {
            if i < s1.len() - 1 {
                assert(s1.drop_last()[i] == s2.drop_last()[i]);
            } else {
                assert(s1[i] == s1.last());
                assert(s2[i] == s2.last());
            }
        }
    }
}

proof fn lemma_raw_nonneg(s: Seq<AttributeDesc>)
    requires
        attrs_ok(s),
    ensures
        layout_hash_raw(s) >= 0,
    decreases s.len(),
{
    if s.len() > 0 {
        lemma_attrs_ok_drop_last(s);
        lemma_raw_nonneg(s.drop_last());
        lemma_attr_code_bounds(s.last());
    }
}

/// The structural hash identifies a short attribute sequence exactly:
/// for layouts of up to three attributes, two sequences hash alike if
/// and only if they agree in every attribute, order, component count,
/// element type and normalization flag included.  (Longer sequences
/// carry more information than 32 bits can hold, so there the hash
/// still separates schemas only in the forward direction.)
pub proof fn lemma_hash_identifies_attrs(s1: Seq<AttributeDesc>, s2: Seq<AttributeDesc>)
    requires
        attrs_ok(s1),
        attrs_ok(s2),
        s1.len() <= 3,
        s2.len() <= 3,
    ensures
        layout_hash(s1) == layout_hash(s2) <==> s1 == s2,
{
    if layout_hash(s1) == layout_hash(s2) {
        lemma_hash_eq_raw_short(s1);
        lemma_hash_eq_raw_short(s2);
        lemma_raw_bounds(s1);
        lemma_raw_bounds(s2);
        assert(s1.len() == s2.len());
        lemma_raw_injective_same_len(s1, s2);
        assert(s1 == s2);
    }
}

/// Byte-level schema of one vertex record, built by `begin` / `add` /
/// `end` and immutable once finalized.
pub struct VertexLayout {
    attributes: Vec<AttributeDesc>,
    offsets: Vec<u16>,
    stride: u16,
    hash: u32,
    finalized: bool,
}

impl VertexLayout {
    /// The attribute sequence recorded so far, in insertion order.
    pub closed spec fn spec_attrs(&self) -> Seq<AttributeDesc> {
        self.attributes@
    }

    /// Byte offset of each recorded attribute within one record.
    pub closed spec fn spec_offsets(&self) -> Seq<u16> {
        self.offsets@
    }

    /// Byte size of one whole record.
    pub closed spec fn spec_stride(&self) -> u16 {
        self.stride
    }

    /// The structural hash; meaningful once the layout is finalized.
    pub closed spec fn spec_hash(&self) -> u32 {
        self.hash
    }

    pub closed spec fn spec_is_finalized(&self) -> bool {
        self.finalized
    }

    /// The builder's invariant: the recorded offsets and stride are
    /// exactly the no-padding prefix sums of the attribute sizes, every
    /// recorded attribute is valid, and a finalized layout carries the
    /// structural hash of its attribute sequence.
    pub closed spec fn wf(&self) -> bool {
        &&& attrs_ok(self.attributes@)
        &&& self.attributes@.len() <= MAX_ATTRIBUTES
        &&& self.offsets@.len() == self.attributes@.len()
        &&& forall|i: int|
            0 <= i < self.attributes@.len() ==> #[trigger] self.offsets@[i] == layout_size(
                self.attributes@.take(i),
            )
        &&& self.stride == layout_size(self.attributes@)
        &&& (self.finalized ==> self.hash == layout_hash(self.attributes@))
    }

    /// What `wf` guarantees, restated over the public views: the stride
    /// of a layout is the sum of its attributes' byte sizes, each
    /// attribute's offset is the sum of the sizes of the attributes
    /// before it, and a finalized layout's hash is the structural hash
    /// of its attribute sequence.
    pub proof fn lemma_stride_and_offsets(&self)
        requires
            self.wf(),
        ensures
            attrs_ok(self.spec_attrs()),
            self.spec_attrs().len() <= MAX_ATTRIBUTES,
            self.spec_offsets().len() == self.spec_attrs().len(),
            self.spec_stride() == layout_size(self.spec_attrs()),
            forall|i: int|
                0 <= i < self.spec_attrs().len() ==> #[trigger] self.spec_offsets()[i]
                    == layout_size(self.spec_attrs().take(i)),
            self.spec_is_finalized() ==> self.spec_hash() == layout_hash(self.spec_attrs()),
    {
    }

    /// The packing restated attribute by attribute: the first attribute
    /// sits at offset zero, and each following attribute starts exactly
    /// where the previous one ends — no implicit padding anywhere.
    pub proof fn lemma_offsets_pack_tightly(&self)
        requires
            self.wf(),
        ensures
            self.spec_attrs().len() > 0 ==> self.spec_offsets()[0] == 0,
            forall|i: int|
                0 <= i < self.spec_attrs().len() - 1 ==> self.spec_offsets()[i + 1]
                    == self.spec_offsets()[i] + attr_size(#[trigger] self.spec_attrs()[i]),
    {
        let s = self.spec_attrs();
        if s.len() > 0 {
            assert(s.take(0) =~= Seq::<AttributeDesc>::empty());
        }
        assert forall|i: int| 0 <= i < s.len() - 1 implies self.spec_offsets()[i + 1]
            == self.spec_offsets()[i] + attr_size(#[trigger] s[i]) by {
            assert(s.take(i + 1).drop_last() =~= s.take(i));
            assert(s.take(i + 1).last() == s[i]);
        }
    }

    /// An empty, unfinalized layout.
    pub fn new() -> (r: VertexLayout)
        ensures
            r.wf(),
            r.spec_attrs().len() == 0,
            r.spec_stride() == 0,
            !r.spec_is_finalized(),
    {
        VertexLayout {
            attributes: Vec::new(),
            offsets: Vec::new(),
            stride: 0,
            hash: 0,
            finalized: false,
        }
    }

    /// Resets the accumulator and reopens the layout for building,
    /// whatever state it was in.
    pub fn begin(&mut self)
        ensures
            final(self).wf(),
            final(self).spec_attrs().len() == 0,
            final(self).spec_stride() == 0,
            !final(self).spec_is_finalized(),
    {
        self.attributes = Vec::new();
        self.offsets = Vec::new();
        self.stride = 0;
        self.hash = 0;
        self.finalized = false;
    }

    /// Appends one attribute description: its offset is the stride so
    /// far, and the stride grows by the attribute's byte size.  Rejected
    /// on a finalized layout, on the reserved `Count` markers, on a
    /// component count outside `1..=4`, and on a full record.
    pub fn add(
        &mut self,
        attrib: Attrib,
        num: u8,
        attrib_type: AttribType,
        normalized: bool,
    ) -> (r: Result<(), UsageError>)
        requires
            old(self).wf(),
        ensures
            final(self).wf(),
            ({
                let d = AttributeDesc { attrib, num, attrib_type, normalized };
                &&& (r is Ok <==> !old(self).spec_is_finalized() && attr_ok(d) && old(
                    self,
                ).spec_attrs().len() < MAX_ATTRIBUTES)
                &&& match r {
                    Ok(()) => {
                        &&& final(self).spec_attrs() == old(self).spec_attrs().push(d)
                        &&& final(self).spec_offsets() == old(self).spec_offsets().push(
                            old(self).spec_stride(),
                        )
                        &&& final(self).spec_stride() == old(self).spec_stride() + attr_size(d)
                        &&& !final(self).spec_is_finalized()
                    },
                    Err(e) => {
                        &&& same_layout(*final(self), *old(self))
                        &&& (e == UsageError::LayoutFinalized <==> old(self).spec_is_finalized())
                        &&& (e == UsageError::InvalidAttribute <==> !old(self).spec_is_finalized()
                            && (attrib is Count || attrib_type is Count))
                        &&& (e == UsageError::InvalidComponentCount <==> !old(
                            self,
                        ).spec_is_finalized() && !(attrib is Count || attrib_type is Count) && !(1
                            <= num <= 4))
                        &&& (e == UsageError::TooManyAttributes <==> !old(
                            self,
                        ).spec_is_finalized() && attr_ok(d) && old(self).spec_attrs().len()
                            >= MAX_ATTRIBUTES)
                    },
                }
            }),
    {
        if self.finalized {
            return Err(UsageError::LayoutFinalized);
        }
        if matches!(attrib, Attrib::Count) || matches!(attrib_type, AttribType::Count) {
            return Err(UsageError::InvalidAttribute);
        }
        if num < 1 || num > 4 {
            return Err(UsageError::InvalidComponentCount);
        }
        if self.attributes.len() >= MAX_ATTRIBUTES {
            return Err(UsageError::TooManyAttributes);
        }
        let d = AttributeDesc { attrib, num, attrib_type, normalized };
        let width = byte_width_of(attrib_type);
        proof {
            lemma_attr_size_bound(d);
            lemma_layout_size_bound(self.attributes@);
        }
        let size: u16 = (num as u16) * (width as u16);
        proof {
            assert(size == attr_size(d));
        }
        self.offsets.push(self.stride);
        self.attributes.push(d);
        proof {
            let s = self.attributes@;
            assert(s.drop_last() =~= old(self).spec_attrs());
            assert(layout_size(s) == layout_size(old(self).spec_attrs()) + attr_size(d));
            assert forall|i: int| 0 <= i < s.len() implies #[trigger] self.offsets@[i]
                == layout_size(s.take(i)) by {
                if i < s.len() - 1 {
                    assert(s.take(i) =~= old(self).spec_attrs().take(i));
                    assert(self.offsets@[i] == old(self).spec_offsets()[i]);
                } else {
                    assert(s.take(i) =~= old(self).spec_attrs());
                }
            }
        }
        self.stride = self.stride + size;
        Ok(())
    }

    /// Finalizes the layout: computes the structural hash over the
    /// attribute sequence and freezes the layout against further `add`
    /// calls.  Finalizing an already-finalized layout is rejected.
    pub fn end(&mut self) -> (r: Result<(), UsageError>)
        requires
            old(self).wf(),
        ensures
            final(self).wf(),
            r is Ok <==> !old(self).spec_is_finalized(),
            match r {
                Ok(()) => {
                    &&& final(self).spec_attrs() == old(self).spec_attrs()
                    &&& final(self).spec_offsets() == old(self).spec_offsets()
                    &&& final(self).spec_stride() == old(self).spec_stride()
                    &&& final(self).spec_is_finalized()
                    &&& final(self).spec_hash() == layout_hash(old(self).spec_attrs())
                },
                Err(e) => e == UsageError::LayoutFinalized && same_layout(
                    *final(self),
                    *old(self),
                ),
            },
    {
        if self.finalized {
            return Err(UsageError::LayoutFinalized);
        }
        let n = self.attributes.len();
        let mut h: u32 = 0;
        let mut i: usize = 0;
        while i < n
            invariant
                n == self.attributes@.len(),
                0 <= i <= n,
                attrs_ok(self.attributes@),
                h == layout_hash(self.attributes@.take(i as int)),
            decreases n - i,
        {
            let d = self.attributes[i];
            let code = attr_code_of(&d);
            proof {
                let s = self.attributes@;
                assert(s.take(i + 1).drop_last() =~= s.take(i as int));
                assert(s.take(i + 1).last() == s[i as int]);
            }
            h = hash_step(h, code);
            i = i + 1;
        }
        proof {
            assert(self.attributes@.take(n as int) =~= self.attributes@);
        }
        self.hash = h;
        self.finalized = true;
        Ok(())
    }

    /// Byte size of one vertex record under this layout.
    pub fn stride(&self) -> (r: u16)
        ensures
            r == self.spec_stride(),
    {
        self.stride
    }

    /// The structural hash computed by `end`.
    pub fn hash(&self) -> (r: u32)
        ensures
            r == self.spec_hash(),
    {
        self.hash
    }

    pub fn is_finalized(&self) -> (r: bool)
        ensures
            r == self.spec_is_finalized(),
    {
        self.finalized
    }

    pub fn attribute_count(&self) -> (r: usize)
        ensures
            r == self.spec_attrs().len(),
    {
        self.attributes.len()
    }

    /// The i-th recorded attribute description.
    pub fn attribute_at(&self, i: usize) -> (r: AttributeDesc)
        requires
            i < self.spec_attrs().len(),
        ensures
            r == self.spec_attrs()[i as int],
    {
        self.attributes[i]
    }

    /// Byte offset of the i-th attribute within one record.
    pub fn offset_at(&self, i: usize) -> (r: u16)
        requires
            self.wf(),
            i < self.spec_attrs().len(),
        ensures
            r == layout_size(self.spec_attrs().take(i as int)),
    {
        self.offsets[i]
    }

    /// Whether two finalized layouts describe the same schema, compared
    /// attribute by attribute.
    pub fn same_schema(&self, other: &VertexLayout) -> (r: bool)
        ensures
            r == (self.spec_attrs() =~= other.spec_attrs()),
    {
        if self.attributes.len() != other.attributes.len() {
            return false;
        }
        let n = self.attributes.len();
        let mut i: usize = 0;
        while i < n
            invariant
                n == self.attributes@.len(),
                n == other.attributes@.len(),
                0 <= i <= n,
                forall|j: int| 0 <= j < i ==> self.attributes@[j] == other.attributes@[j],
            decreases n - i,
        {
            let a = self.attributes[i];
            let b = other.attributes[i];
            if !(a == b) {
                return false;
            }
            i = i + 1;
        }
        true
    }
}

/// Two layouts that agree in every observable part.
pub open spec fn same_layout(a: VertexLayout, b: VertexLayout) -> bool {
    &&& a.spec_attrs() == b.spec_attrs()
    &&& a.spec_offsets() == b.spec_offsets()
    &&& a.spec_stride() == b.spec_stride()
    &&& a.spec_hash() == b.spec_hash()
    &&& a.spec_is_finalized() == b.spec_is_finalized()
}

/// Two finalized layouts built from the identical attribute sequence
/// carry identical structural hashes, whatever their length.
pub proof fn lemma_equal_schemas_equal_hashes(l1: &VertexLayout, l2: &VertexLayout)
    requires
        l1.wf(),
        l2.wf(),
        l1.spec_is_finalized(),
        l2.spec_is_finalized(),
        l1.spec_attrs() == l2.spec_attrs(),
    ensures
        l1.spec_hash() == l2.spec_hash(),
{
}

/// The structural hashes of two finalized layouts of up to three
/// attributes agree exactly when the layouts describe the same schema.
pub proof fn lemma_hash_identifies_layout(l1: &VertexLayout, l2: &VertexLayout)
    requires
        l1.wf(),
        l2.wf(),
        l1.spec_is_finalized(),
        l2.spec_is_finalized(),
        l1.spec_attrs().len() <= 3,
        l2.spec_attrs().len() <= 3,
    ensures
        l1.spec_hash() == l2.spec_hash() <==> l1.spec_attrs() == l2.spec_attrs(),
{
    lemma_hash_identifies_attrs(l1.spec_attrs(), l2.spec_attrs());
}

/// Exec mirror of `type_byte_width`.
fn byte_width_of(t: AttribType) -> (r: u8)
    ensures
        r == type_byte_width(t),
{
    match t {
        AttribType::Uint8 => 1,
        AttribType::Uint10 => 2,
        AttribType::Int16 => 2,
        AttribType::Half => 2,
        AttribType::Float => 4,
        AttribType::Count => 0,
    }
}

/// Exec mirror of `attr_code`.
fn attr_code_of(d: &AttributeDesc) -> (r: u16)
    requires
        attr_ok(*d),
    ensures
        r == attr_code(*d),
{
    let a: u16 = match d.attrib {
        Attrib::Position => 0,
        Attrib::Normal => 1,
        Attrib::Tangent => 2,
        Attrib::Bitangent => 3,
        Attrib::Color0 => 4,
        Attrib::Color1 => 5,
        Attrib::Color2 => 6,
        Attrib::Color3 => 7,
        Attrib::Indices => 8,
        Attrib::Weight => 9,
        Attrib::TexCoord0 => 10,
        Attrib::TexCoord1 => 11,
        Attrib::TexCoord2 => 12,
        Attrib::TexCoord3 => 13,
        Attrib::TexCoord4 => 14,
        Attrib::TexCoord5 => 15,
        Attrib::TexCoord6 => 16,
        Attrib::TexCoord7 => 17,
        Attrib::Count => 18,
    };
    let t: u16 = match d.attrib_type {
        AttribType::Uint8 => 0,
        AttribType::Uint10 => 1,
        AttribType::Int16 => 2,
        AttribType::Half => 3,
        AttribType::Float => 4,
        AttribType::Count => 5,
    };
    let norm: u16 = if d.normalized {
        1
    } else {
        0
    };
    a * 40 + t * 8 + ((d.num - 1) as u16) * 2 + norm + 1
}

/// One step of the structural-hash chain, truncated to 32 bits.
fn hash_step(h: u32, code: u16) -> (r: u32)
    ensures
        r == (h * 1024 + code) % 0x1_0000_0000,
{
    (((h as u64) * 1024 + (code as u64)) % 0x1_0000_0000) as u32
}

} // verus!
