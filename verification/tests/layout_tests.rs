use bgfx::UsageError;
use bgfx::layout::Attrib;
use bgfx::layout::AttribType;
use bgfx::layout::VertexLayout;
use bgfx::upload::check_foreign_string;
use bgfx::upload::check_vertex_upload;

fn pos_color_layout() -> VertexLayout {
    let mut l = VertexLayout::new();
    l.begin();
    l.add(Attrib::Position, 3, AttribType::Float, false).unwrap();
    l.add(Attrib::Color0, 4, AttribType::Uint8, true).unwrap();
    l.end().unwrap();
    l
}

#[test]
fn pos_color_stride_and_offsets() {
    let l = pos_color_layout();
    assert_eq!(l.stride(), 16);
    assert_eq!(l.offset_at(0), 0);
    assert_eq!(l.offset_at(1), 12);
    assert_eq!(l.attribute_count(), 2);
    assert!(l.is_finalized());
}

#[test]
fn stride_is_sum_of_attribute_sizes() {
    let mut l = VertexLayout::new();
    l.begin();
    l.add(Attrib::Position, 3, AttribType::Float, false).unwrap(); // 12
    l.add(Attrib::Normal, 3, AttribType::Half, false).unwrap(); // 6
    l.add(Attrib::Color0, 4, AttribType::Uint8, true).unwrap(); // 4
    l.add(Attrib::TexCoord0, 2, AttribType::Int16, false).unwrap(); // 4
    l.add(Attrib::Weight, 1, AttribType::Uint10, false).unwrap(); // 2
    l.end().unwrap();
    assert_eq!(l.stride(), 12 + 6 + 4 + 4 + 2);
    assert_eq!(l.offset_at(0), 0);
    assert_eq!(l.offset_at(1), 12);
    assert_eq!(l.offset_at(2), 18);
    assert_eq!(l.offset_at(3), 22);
    assert_eq!(l.offset_at(4), 26);
}

#[test]
fn identical_sequences_hash_alike() {
    let a = pos_color_layout();
    let b = pos_color_layout();
    assert_eq!(a.hash(), b.hash());
    assert!(a.same_schema(&b));
}

#[test]
fn any_difference_changes_the_hash() {
    let base = pos_color_layout();

    // different order
    let mut swapped = VertexLayout::new();
    swapped.begin();
    swapped.add(Attrib::Color0, 4, AttribType::Uint8, true).unwrap();
    swapped.add(Attrib::Position, 3, AttribType::Float, false).unwrap();
    swapped.end().unwrap();
    assert_ne!(base.hash(), swapped.hash());
    assert!(!base.same_schema(&swapped));

    // different component count
    let mut fewer = VertexLayout::new();
    fewer.begin();
    fewer.add(Attrib::Position, 2, AttribType::Float, false).unwrap();
    fewer.add(Attrib::Color0, 4, AttribType::Uint8, true).unwrap();
    fewer.end().unwrap();
    assert_ne!(base.hash(), fewer.hash());

    // different element type
    let mut other_type = VertexLayout::new();
    other_type.begin();
    other_type.add(Attrib::Position, 3, AttribType::Float, false).unwrap();
    other_type.add(Attrib::Color0, 4, AttribType::Int16, true).unwrap();
    other_type.end().unwrap();
    assert_ne!(base.hash(), other_type.hash());

    // different normalization flag
    let mut not_norm = VertexLayout::new();
    not_norm.begin();
    not_norm.add(Attrib::Position, 3, AttribType::Float, false).unwrap();
    not_norm.add(Attrib::Color0, 4, AttribType::Uint8, false).unwrap();
    not_norm.end().unwrap();
    assert_ne!(base.hash(), not_norm.hash());

    // different attribute kind
    let mut other_attrib = VertexLayout::new();
    other_attrib.begin();
    other_attrib.add(Attrib::Position, 3, AttribType::Float, false).unwrap();
    other_attrib.add(Attrib::Color1, 4, AttribType::Uint8, true).unwrap();
    other_attrib.end().unwrap();
    assert_ne!(base.hash(), other_attrib.hash());
}

#[test]
fn hash_can_collide_beyond_three_attributes() {
    // A 32-bit hash cannot separate every longer schema: these two
    // four-attribute layouts differ in the first attribute's component
    // count yet hash alike, which is why the hash-identifies-schema
    // guarantee is stated for layouts of up to three attributes and
    // `same_schema` exists for exact comparison.
    let mut a = VertexLayout::new();
    a.begin();
    a.add(Attrib::Position, 1, AttribType::Uint8, false).unwrap();
    a.add(Attrib::Normal, 3, AttribType::Float, false).unwrap();
    a.add(Attrib::Color0, 4, AttribType::Uint8, true).unwrap();
    a.add(Attrib::TexCoord0, 2, AttribType::Float, false).unwrap();
    a.end().unwrap();

    let mut b = VertexLayout::new();
    b.begin();
    b.add(Attrib::Position, 3, AttribType::Uint8, false).unwrap();
    b.add(Attrib::Normal, 3, AttribType::Float, false).unwrap();
    b.add(Attrib::Color0, 4, AttribType::Uint8, true).unwrap();
    b.add(Attrib::TexCoord0, 2, AttribType::Float, false).unwrap();
    b.end().unwrap();

    assert_eq!(a.hash(), b.hash());
    assert!(!a.same_schema(&b));
}

#[test]
fn add_after_end_is_rejected() {
    let mut l = pos_color_layout();
    let r = l.add(Attrib::Normal, 3, AttribType::Float, false);
    assert_eq!(r, Err(UsageError::LayoutFinalized));
    assert_eq!(l.attribute_count(), 2);
    assert_eq!(l.stride(), 16);
}

#[test]
fn end_after_end_is_rejected() {
    let mut l = pos_color_layout();
    assert_eq!(l.end(), Err(UsageError::LayoutFinalized));
    assert!(l.is_finalized());
}

#[test]
fn component_count_out_of_range_is_rejected() {
    let mut l = VertexLayout::new();
    l.begin();
    assert_eq!(
        l.add(Attrib::Position, 0, AttribType::Float, false),
        Err(UsageError::InvalidComponentCount)
    );
    assert_eq!(
        l.add(Attrib::Position, 5, AttribType::Float, false),
        Err(UsageError::InvalidComponentCount)
    );
    assert_eq!(l.attribute_count(), 0);
}

#[test]
fn reserved_count_markers_are_rejected() {
    let mut l = VertexLayout::new();
    l.begin();
    assert_eq!(
        l.add(Attrib::Count, 3, AttribType::Float, false),
        Err(UsageError::InvalidAttribute)
    );
    assert_eq!(
        l.add(Attrib::Position, 3, AttribType::Count, false),
        Err(UsageError::InvalidAttribute)
    );
}

#[test]
fn a_full_record_rejects_further_attributes() {
    let mut l = VertexLayout::new();
    l.begin();
    for _ in 0..18 {
        l.add(Attrib::Position, 1, AttribType::Uint8, false).unwrap();
    }
    assert_eq!(
        l.add(Attrib::Position, 1, AttribType::Uint8, false),
        Err(UsageError::TooManyAttributes)
    );
    assert_eq!(l.attribute_count(), 18);
    assert_eq!(l.stride(), 18);
}

#[test]
fn begin_resets_a_finalized_layout() {
    let mut l = pos_color_layout();
    l.begin();
    assert!(!l.is_finalized());
    assert_eq!(l.attribute_count(), 0);
    assert_eq!(l.stride(), 0);
    l.add(Attrib::Position, 2, AttribType::Float, false).unwrap();
    l.end().unwrap();
    assert_eq!(l.stride(), 8);
}

#[test]
fn attribute_at_reads_back_what_was_added() {
    let l = pos_color_layout();
    let d = l.attribute_at(1);
    assert!(matches!(d.attrib, Attrib::Color0));
    assert_eq!(d.num, 4);
    assert!(matches!(d.attrib_type, AttribType::Uint8));
    assert!(d.normalized);
}

#[test]
fn vertex_upload_length_must_be_a_multiple_of_stride() {
    let l = pos_color_layout();
    assert_eq!(check_vertex_upload(0, &l), Ok(0));
    assert_eq!(check_vertex_upload(16, &l), Ok(1));
    assert_eq!(check_vertex_upload(128, &l), Ok(8));
    assert_eq!(
        check_vertex_upload(33, &l),
        Err(UsageError::LengthNotMultipleOfStride)
    );
    assert_eq!(
        check_vertex_upload(15, &l),
        Err(UsageError::LengthNotMultipleOfStride)
    );
}

#[test]
fn unfinished_layout_cannot_be_uploaded_with() {
    let mut l = VertexLayout::new();
    l.begin();
    l.add(Attrib::Position, 3, AttribType::Float, false).unwrap();
    assert_eq!(check_vertex_upload(12, &l), Err(UsageError::LayoutNotFinalized));
}

#[test]
fn empty_finalized_layout_cannot_be_uploaded_with() {
    let mut l = VertexLayout::new();
    l.begin();
    l.end().unwrap();
    assert_eq!(check_vertex_upload(0, &l), Err(UsageError::EmptyLayout));
}

#[test]
fn foreign_strings_may_not_embed_a_terminator() {
    assert_eq!(check_foreign_string("vs_cubes"), Ok(()));
    assert_eq!(check_foreign_string(""), Ok(()));
    assert_eq!(
        check_foreign_string("vs\0cubes"),
        Err(UsageError::EmbeddedTerminator)
    );
}
