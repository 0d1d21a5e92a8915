//! Packing an image into a padded staging buffer and stripping the padding
//! back out. The producer-side device copy writes each logical row into a
//! padded row slot; the consumer strips the slots back to the tightly packed
//! image. Packing and stripping over the same `PaddedLayout` are inverse,
//! so the consumer reconstructs exactly the bytes the producer captured.

use vstd::prelude::*;
use crate::layout::PaddedLayout;

verus! {

/// The first `rows` padded row slots of `data`, each cut down to its first
/// `unpadded` valid bytes and concatenated: the tightly packed image held in
/// a padded staging buffer.
pub open spec fn stripped(data: Seq<u8>, unpadded: int, padded: int, rows: int) -> Seq<u8>
    decreases rows,
{
    if rows <= 0 {
        Seq::empty()
    } else {
        stripped(data, unpadded, padded, rows - 1) + data.subrange(
            (rows - 1) * padded,
            (rows - 1) * padded + unpadded,
        )
    }
}

/// The first `rows` rows of the tightly packed `image`, each widened to a
/// `padded`-byte slot whose trailing bytes are zero: the staging buffer a
/// row-aligned device copy produces (with the undefined tail pinned to zero).
pub open spec fn packed(image: Seq<u8>, unpadded: int, padded: int, rows: int) -> Seq<u8>
    decreases rows,
{
    if rows <= 0 {
        Seq::empty()
    } else {
        packed(image, unpadded, padded, rows - 1) + image.subrange(
            (rows - 1) * unpadded,
            rows * unpadded,
        ) + Seq::new((padded - unpadded) as nat, |i: int| 0u8)
    }
}

pub proof fn lemma_stripped_len(data: Seq<u8>, unpadded: int, padded: int, rows: int)
    requires
        0 <= unpadded <= padded,
        0 <= rows,
        rows * padded <= data.len(),
    ensures
        stripped(data, unpadded, padded, rows).len() == rows * unpadded,
    decreases rows,
{
    if rows > 0 {
        assert((rows - 1) * padded <= rows * padded && 0 <= (rows - 1) * padded
            && (rows - 1) * padded + padded == rows * padded
            && (rows - 1) * unpadded + unpadded == rows * unpadded) by (nonlinear_arith)
            requires 0 <= unpadded <= padded, 0 <= rows - 1,
        ;
        lemma_stripped_len(data, unpadded, padded, rows - 1);
    } else {
        assert(rows * unpadded == 0) by (nonlinear_arith)
            requires rows == 0,
        ;
    }
}

pub proof fn lemma_packed_len(image: Seq<u8>, unpadded: int, padded: int, rows: int)
    requires
        0 <= unpadded <= padded,
        0 <= rows,
        rows * unpadded <= image.len(),
    ensures
        packed(image, unpadded, padded, rows).len() == rows * padded,
    decreases rows,
{
    if rows > 0 {
        assert((rows - 1) * unpadded <= rows * unpadded && 0 <= (rows - 1) * unpadded
            && (rows - 1) * unpadded + unpadded == rows * unpadded
            && (rows - 1) * padded + padded == rows * padded) by (nonlinear_arith)
            requires 0 <= unpadded <= padded, 0 <= rows - 1,
        ;
        lemma_packed_len(image, unpadded, padded, rows - 1);
    } else {
        assert(rows * padded == 0) by (nonlinear_arith)
            requires rows == 0,
        ;
    }
}

/// Stripping reads only the first `rows * padded` bytes of the buffer, so
/// extending the buffer beyond them changes nothing.
proof fn lemma_stripped_extend(data: Seq<u8>, ext: Seq<u8>, unpadded: int, padded: int, rows: int)
    requires
        0 <= unpadded <= padded,
        0 <= rows,
        rows * padded <= data.len(),
    ensures
        stripped(data + ext, unpadded, padded, rows) == stripped(data, unpadded, padded, rows),
    decreases rows,
{
    if rows > 0 {
        assert((rows - 1) * padded + padded == rows * padded && 0 <= (rows - 1) * padded
            && (rows - 1) * padded <= rows * padded) by (nonlinear_arith)
            requires 0 <= padded, 0 <= rows - 1,
        ;
        lemma_stripped_extend(data, ext, unpadded, padded, rows - 1);
        assert((data + ext).subrange((rows - 1) * padded, (rows - 1) * padded + unpadded)
            =~= data.subrange((rows - 1) * padded, (rows - 1) * padded + unpadded));
    }
}

/// Round trip: packing a tightly packed image into padded row slots and
/// stripping the slots back yields the original image, whatever the padding
/// width (the aligned case `padded == unpadded` included).
pub proof fn lemma_pack_strip_roundtrip(image: Seq<u8>, unpadded: int, padded: int, rows: int)
    requires
        0 < unpadded <= padded,
        0 <= rows,
        image.len() == rows * unpadded,
    ensures
        stripped(packed(image, unpadded, padded, rows), unpadded, padded, rows) == image,
    decreases rows,
{
    if rows > 0 {
        let buf = packed(image, unpadded, padded, rows);
        let shorter = packed(image, unpadded, padded, rows - 1);
        assert(0 <= (rows - 1) * unpadded && (rows - 1) * unpadded + unpadded == rows * unpadded
            && (rows - 1) * padded + padded == rows * padded && 0 <= (rows - 1) * padded)
            by (nonlinear_arith)
            requires 0 < unpadded <= padded, 0 <= rows - 1,
        ;
        let front = image.subrange(0, (rows - 1) * unpadded);
        lemma_packed_prefix_rows(image, unpadded, padded, rows - 1);
        lemma_packed_len(image, unpadded, padded, rows - 1);
        lemma_packed_len(image, unpadded, padded, rows);
        // The buffer splits into the shorter buffer and the last row slot.
        let ext = buf.subrange((rows - 1) * padded, rows * padded);
        assert(buf =~= shorter + ext);
        lemma_stripped_extend(shorter, ext, unpadded, padded, rows - 1);
        lemma_pack_strip_roundtrip(front, unpadded, padded, rows - 1);
        lemma_stripped_len(buf, unpadded, padded, rows - 1);
        // The valid prefix of the last slot is the last image row.
        assert(buf.subrange((rows - 1) * padded, (rows - 1) * padded + unpadded)
            =~= image.subrange((rows - 1) * unpadded, rows * unpadded));
        assert(stripped(buf, unpadded, padded, rows) =~= image);
    } else {
        assert(rows * unpadded == 0) by (nonlinear_arith)
            requires rows == 0,
        ;
        assert(stripped(packed(image, unpadded, padded, rows), unpadded, padded, rows) =~= image);
    }
}

/// Packing reads only the first `rows * unpadded` bytes of the image, so
/// packing the image's prefix of that length packs the same buffer.
proof fn lemma_packed_prefix_rows(image: Seq<u8>, unpadded: int, padded: int, rows: int)
    requires
        0 < unpadded <= padded,
        0 <= rows,
        rows * unpadded <= image.len(),
    ensures
        packed(image.subrange(0, rows * unpadded), unpadded, padded, rows)
            == packed(image, unpadded, padded, rows),
    decreases rows,
{
    if rows > 0 {
        let front = image.subrange(0, rows * unpadded);
        assert((rows - 1) * unpadded >= 0 && (rows - 1) * unpadded + unpadded == rows * unpadded)
            by (nonlinear_arith)
            requires 0 < unpadded, 0 <= rows - 1,
        ;
        assert(front.subrange((rows - 1) * unpadded, rows * unpadded)
            =~= image.subrange((rows - 1) * unpadded, rows * unpadded));
        assert(front.subrange(0, (rows - 1) * unpadded)
            =~= image.subrange(0, (rows - 1) * unpadded));
        lemma_packed_prefix_rows(image, unpadded, padded, rows - 1);
        lemma_packed_prefix_rows(front, unpadded, padded, rows - 1);
    } else {
        assert(rows * unpadded == 0) by (nonlinear_arith)
            requires rows == 0,
        ;
    }
}

/// Strips the row padding out of a staging buffer: keeps the first
/// `unpadded_bytes_per_row` bytes of each padded row slot and discards the
/// rest, reconstructing the tightly packed image. When the padded and the
/// unpadded width agree the buffer is returned as it is, without copying.
pub fn strip_padding(frame: Vec<u8>, layout: &PaddedLayout) -> (image: Vec<u8>)
    requires
        layout.wf(),
        frame@.len() == layout.spec_total_size(),
    ensures
        image@ == stripped(
            frame@,
            layout.unpadded_bytes_per_row as int,
            layout.padded_bytes_per_row as int,
            layout.rows as int,
        ),
        image@.len() == layout.rows * layout.unpadded_bytes_per_row,
{
    proof {
        lemma_stripped_len(
            frame@,
            layout.unpadded_bytes_per_row as int,
            layout.padded_bytes_per_row as int,
            layout.rows as int,
        );
        assert(layout.rows * layout.unpadded_bytes_per_row
            == layout.unpadded_bytes_per_row * layout.rows) by (nonlinear_arith);
    }
    let u = layout.unpadded_bytes_per_row;
    let p = layout.padded_bytes_per_row;
    let rows = layout.rows;
    if u == p {
        proof {
            lemma_stripped_is_identity(frame@, u as int, rows as int);
        }
        return frame;
    }
    let mut image: Vec<u8> = Vec::new();
    let mut i: usize = 0;
    while i < rows
        invariant
            layout.wf(),
            u == layout.unpadded_bytes_per_row,
            p == layout.padded_bytes_per_row,
            rows == layout.rows,
            frame@.len() == layout.spec_total_size(),
            0 <= i <= rows,
            image@ == stripped(frame@, u as int, p as int, i as int),
        decreases rows - i,
    {
        assert(i * p + p <= rows * p && 0 <= i * p) by (nonlinear_arith)
            requires 0 < p, 0 <= i < rows,
        ;
        let row_start: usize = i * p;
        let mut j: usize = 0;
        while j < u
            invariant
                layout.wf(),
                u == layout.unpadded_bytes_per_row,
                p == layout.padded_bytes_per_row,
                rows == layout.rows,
                frame@.len() == layout.spec_total_size(),
                0 <= i < rows,
                row_start == i * p,
                row_start + p <= frame@.len(),
                0 <= j <= u,
                image@ == stripped(frame@, u as int, p as int, i as int) + frame@.subrange(
                    row_start as int,
                    row_start + j,
                ),
            decreases u - j,
        {
            image.push(frame[row_start + j]);
            assert(image@ =~= stripped(frame@, u as int, p as int, i as int) + frame@.subrange(
                row_start as int,
                row_start + j + 1,
            ));
            j = j + 1;
        }
        i = i + 1;
        assert(image@ == stripped(frame@, u as int, p as int, i as int));
    }
    image
}

/// With no padding at all, stripping is the identity.
pub proof fn lemma_stripped_is_identity(data: Seq<u8>, unpadded: int, rows: int)
    requires
        0 < unpadded,
        0 <= rows,
        data.len() == rows * unpadded,
    ensures
        stripped(data, unpadded, unpadded, rows) == data,
{
    lemma_stripped_no_padding_prefix(data, unpadded, rows);
    assert(data.subrange(0, rows * unpadded) =~= data);
}

proof fn lemma_stripped_no_padding_prefix(data: Seq<u8>, unpadded: int, rows: int)
    requires
        0 < unpadded,
        0 <= rows,
        rows * unpadded <= data.len(),
    ensures
        stripped(data, unpadded, unpadded, rows) == data.subrange(0, rows * unpadded),
    decreases rows,
{
    if rows == 0 {
        assert(rows * unpadded == 0) by (nonlinear_arith)
            requires rows == 0,
        ;
        assert(stripped(data, unpadded, unpadded, 0) =~= data.subrange(0, 0));
    } else {
        assert(0 <= (rows - 1) * unpadded && (rows - 1) * unpadded + unpadded == rows * unpadded)
            by (nonlinear_arith)
            requires 0 < unpadded, 0 <= rows - 1,
        ;
        lemma_stripped_no_padding_prefix(data, unpadded, rows - 1);
        assert(stripped(data, unpadded, unpadded, rows) =~= data.subrange(0, rows * unpadded));
    }
}

/// Packs a tightly packed image into padded row slots, zero-filling the slack
/// of each slot: the model of what the device's row-aligned copy writes into
/// the staging buffer. Stripping the result yields the image back.
pub fn pack_rows(image: &Vec<u8>, layout: &PaddedLayout) -> (frame: Vec<u8>)
    requires
        layout.wf(),
        image@.len() == layout.rows * layout.unpadded_bytes_per_row,
    ensures
        frame@ == packed(
            image@,
            layout.unpadded_bytes_per_row as int,
            layout.padded_bytes_per_row as int,
            layout.rows as int,
        ),
        frame@.len() == layout.spec_total_size(),
        stripped(
            frame@,
            layout.unpadded_bytes_per_row as int,
            layout.padded_bytes_per_row as int,
            layout.rows as int,
        ) == image@,
{
    let u = layout.unpadded_bytes_per_row;
    let p = layout.padded_bytes_per_row;
    let rows = layout.rows;
    proof {
        assert(rows * u <= rows * p) by (nonlinear_arith)
            requires 0 <= u <= p, 0 <= rows,
        ;
    }
    let mut frame: Vec<u8> = Vec::new();
    let mut i: usize = 0;
    while i < rows
        invariant
            layout.wf(),
            u == layout.unpadded_bytes_per_row,
            p == layout.padded_bytes_per_row,
            rows == layout.rows,
            image@.len() == rows * u,
            image@.len() <= rows * p <= usize::MAX,
            0 <= i <= rows,
            frame@ == packed(image@, u as int, p as int, i as int),
            frame@.len() == i * p,
        decreases rows - i,
    {
        assert(i * u + u <= rows * u && 0 <= i * u && i * p + p <= rows * p) by (nonlinear_arith)
            requires 0 < u, 0 < p, 0 <= i < rows,
        ;
        let row_start: usize = i * u;
        let mut j: usize = 0;
        while j < u
            invariant
                layout.wf(),
                u == layout.unpadded_bytes_per_row,
                rows == layout.rows,
                image@.len() == rows * u,
                image@.len() <= usize::MAX,
                0 <= i < rows,
                row_start == i * u,
                row_start + u <= image@.len(),
                0 <= j <= u,
                frame@ == packed(image@, u as int, layout.padded_bytes_per_row as int, i as int)
                    + image@.subrange(row_start as int, row_start + j),
            decreases u - j,
        {
            frame.push(image[row_start + j]);
            assert(frame@ =~= packed(
                image@,
                u as int,
                layout.padded_bytes_per_row as int,
                i as int,
            ) + image@.subrange(row_start as int, row_start + j + 1));
            j = j + 1;
        }
        let mut k: usize = 0;
        while k < p - u
            invariant
                layout.wf(),
                u == layout.unpadded_bytes_per_row,
                p == layout.padded_bytes_per_row,
                rows == layout.rows,
                image@.len() == rows * u,
                0 <= i < rows,
                row_start == i * u,
                row_start + u <= image@.len(),
                0 <= k <= p - u,
                frame@ == packed(image@, u as int, p as int, i as int) + image@.subrange(
                    row_start as int,
                    row_start + u,
                ) + Seq::new(k as nat, |m: int| 0u8),
            decreases p - u - k,
        {
            frame.push(0u8);
            assert(frame@ =~= packed(image@, u as int, p as int, i as int) + image@.subrange(
                row_start as int,
                row_start + u,
            ) + Seq::new((k + 1) as nat, |m: int| 0u8));
            k = k + 1;
        }
        proof {
            assert((i + 1) * u == i * u + u && (i + 1) * p == i * p + p) by (nonlinear_arith);
            assert(frame@ =~= packed(image@, u as int, p as int, i + 1));
        }
        i = i + 1;
    }
    proof {
        lemma_packed_len(image@, u as int, p as int, rows as int);
        lemma_pack_strip_roundtrip(image@, u as int, p as int, rows as int);
    }
    frame
}

} // verus!
