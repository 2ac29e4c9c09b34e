//! Validation of what crosses the foreign boundary.
//!
//! Uploads copy caller-owned bytes into backend-owned storage; the
//! backend interprets vertex bytes through a finalized layout, so a
//! buffer whose byte length is not a whole number of records must be
//! rejected here, before the native call.  Strings handed to the
//! backend travel as NUL-terminated byte sequences, so a string with an
//! embedded NUL would be silently cut short; it is rejected here too.

use vstd::prelude::*;
use crate::UsageError;
use crate::layout::VertexLayout;

verus! {

/// Validates a vertex upload against its layout and returns the number
/// of whole vertex records the buffer holds.  Rejected unless the layout
/// is finalized, describes a non-empty record, and divides the byte
/// length exactly.
pub fn check_vertex_upload(byte_len: u32, layout: &VertexLayout) -> (r: Result<u32, UsageError>)
    ensures
        r is Ok <==> (layout.spec_is_finalized() && layout.spec_stride() != 0 && byte_len as int
            % layout.spec_stride() as int == 0),
        match r {
            Ok(n) => n == byte_len as int / layout.spec_stride() as int,
            Err(e) => {
                &&& (e == UsageError::LayoutNotFinalized <==> !layout.spec_is_finalized())
                &&& (e == UsageError::EmptyLayout <==> layout.spec_is_finalized()
                    && layout.spec_stride() == 0)
                &&& (e == UsageError::LengthNotMultipleOfStride <==> layout.spec_is_finalized()
                    && layout.spec_stride() != 0 && byte_len as int % layout.spec_stride() as int
                    != 0)
            },
        },
{
    if !layout.is_finalized() {
        return Err(UsageError::LayoutNotFinalized);
    }
    let stride = layout.stride();
    if stride == 0 {
        return Err(UsageError::EmptyLayout);
    }
    let wide: u32 = stride as u32;
    if byte_len % wide != 0 {
        return Err(UsageError::LengthNotMultipleOfStride);
    }
    Ok(byte_len / wide)
}

/// Validates a string bound for the native boundary, where it will be
/// passed as a NUL-terminated byte sequence: a string with an embedded
/// NUL is rejected rather than silently truncated on the other side.
pub fn check_foreign_string(s: &str) -> (r: Result<(), UsageError>)
    ensures
        r is Ok <==> (forall|i: int| 0 <= i < s@.len() ==> s@[i] != '\0'),
        r is Err ==> r == Err::<(), UsageError>(UsageError::EmbeddedTerminator),
{
    let n = s.unicode_len();
    let mut i: usize = 0;
    while i < n
        invariant
            n == s@.len(),
            0 <= i <= n,
            forall|j: int| 0 <= j < i ==> s@[j] != '\0',
        decreases n - i,
    {
        let c = s.get_char(i);
        if c == '\0' {
            return Err(UsageError::EmbeddedTerminator);
        }
        i = i + 1;
    }
    Ok(())
}

} // verus!
