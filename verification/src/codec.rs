//! The collection and compressed-section codecs.
//!
//! [`Decode`] is the engine's one interface: a record type says in
//! `spec_decode` what its bytes mean, and `decode` is held to that meaning.
//! On top of it stand the count strategies the format uses: a list whose
//! count is an explicit prefix of 8, 16 or 32 bits, a two-dimensional grid,
//! a list whose count the caller supplies (covering counts summed or scaled
//! from earlier fields), fixed-size byte chunks, and a zlib-compressed
//! section that inflates into an independent buffer.

use vstd::prelude::*;

use crate::bytes::{le16, le32, read_u16, read_u32, read_u8, copy_range};
use crate::error::DecodeError;

verus! {

/// One decodable record: `spec_decode` gives the value its bytes at `pos`
/// stand for (as the type's view) and the position just past them, or `None`
/// when the bytes run short; `decode` must return exactly that.
pub trait Decode: View + Sized {
    /// The meaning of the bytes at `pos`: the decoded value and the position
    /// just past it, or `None` if fewer bytes remain than the record needs.
    spec fn spec_decode(b: Seq<u8>, pos: int) -> Option<(Self::V, int)>;

    /// Decodes one record at `pos`.
    fn decode(b: &Vec<u8>, pos: usize) -> (r: Result<(Self, usize), DecodeError>)
        requires
            pos <= b@.len(),
        ensures
            match r {
                Ok(vp) => Self::spec_decode(b@, pos as int) == Some((vp.0@, vp.1 as int)) && pos
                    <= vp.1 <= b@.len(),
                Err(e) => Self::spec_decode(b@, pos as int) is None && e
                    == DecodeError::UnexpectedEof,
            },
    ;
}

impl Decode for u8 {
    open spec fn spec_decode(b: Seq<u8>, pos: int) -> Option<(u8, int)> {
        if pos + 1 <= b.len() {
            Some((b[pos], pos + 1))
        } else {
            None
        }
    }

    fn decode(b: &Vec<u8>, pos: usize) -> (r: Result<(u8, usize), DecodeError>) {
        read_u8(b, pos)
    }
}

impl Decode for u16 {
    open spec fn spec_decode(b: Seq<u8>, pos: int) -> Option<(u16, int)> {
        if pos + 2 <= b.len() {
            Some((le16(b, pos), pos + 2))
        } else {
            None
        }
    }

    fn decode(b: &Vec<u8>, pos: usize) -> (r: Result<(u16, usize), DecodeError>) {
        read_u16(b, pos)
    }
}

impl Decode for u32 {
    open spec fn spec_decode(b: Seq<u8>, pos: int) -> Option<(u32, int)> {
        if pos + 4 <= b.len() {
            Some((le32(b, pos), pos + 4))
        } else {
            None
        }
    }

    fn decode(b: &Vec<u8>, pos: usize) -> (r: Result<(u32, usize), DecodeError>) {
        read_u32(b, pos)
    }
}

/// The views of a sequence's records, in order.
pub open spec fn views_of<T: View>(s: Seq<T>) -> Seq<T::V> {
    s.map_values(|t: T| t@)
}

/// Mapping to views commutes with appending one record.
pub proof fn lemma_views_of_push<T: View>(s: Seq<T>, v: T)
    ensures
        views_of(s.push(v)) == views_of(s).push(v@),
{
    assert(views_of(s.push(v)) =~= views_of(s).push(v@));
}

/// The views of a sequence of decoded rows, row by row.
pub open spec fn views_of_rows<T: View>(s: Seq<Vec<T>>) -> Seq<Seq<T::V>> {
    s.map_values(|row: Vec<T>| views_of(row@))
}

/// Mapping rows to views commutes with appending one row.
pub proof fn lemma_views_of_rows_push<T: View>(s: Seq<Vec<T>>, v: Vec<T>)
    ensures
        views_of_rows(s.push(v)) == views_of_rows(s).push(views_of(v@)),
{
    assert(views_of_rows(s.push(v)) =~= views_of_rows(s).push(views_of(v@)));
}

/// The meaning of `n` records of type `T` stored back to back at `pos`.
pub open spec fn spec_decode_list<T: Decode>(b: Seq<u8>, pos: int, n: nat) -> Option<
    (Seq<T::V>, int),
>
    decreases n,
{
    if n == 0 {
        Some((Seq::empty(), pos))
    } else {
        match T::spec_decode(b, pos) {
            None => None,
            Some(vp) => match spec_decode_list::<T>(b, vp.1, (n - 1) as nat) {
                None => None,
                Some(sq) => Some((seq![vp.0] + sq.0, sq.1)),
            },
        }
    }
}

/// A decoded list holds exactly as many records as were asked for.
pub proof fn lemma_list_len<T: Decode>(b: Seq<u8>, pos: int, n: nat, s: Seq<T::V>, p: int)
    requires
        spec_decode_list::<T>(b, pos, n) == Some((s, p)),
    ensures
        s.len() == n,
    decreases n,
{
    if n != 0 {
        match T::spec_decode(b, pos) {
            None => {
                assert(false);
            },
            Some(vp) => {
                match spec_decode_list::<T>(b, vp.1, (n - 1) as nat) {
                    None => {
                        assert(false);
                    },
                    Some(sq) => {
                        lemma_list_len::<T>(b, vp.1, (n - 1) as nat, sq.0, sq.1);
                    },
                }
            },
        }
    }
}

/// Extending a decoded list by one more record appends it at the end.
pub proof fn lemma_list_snoc<T: Decode>(
    b: Seq<u8>,
    pos: int,
    n: nat,
    s: Seq<T::V>,
    p: int,
    v: T::V,
    q: int,
)
    requires
        spec_decode_list::<T>(b, pos, n) == Some((s, p)),
        T::spec_decode(b, p) == Some((v, q)),
    ensures
        spec_decode_list::<T>(b, pos, n + 1) == Some((s.push(v), q)),
    decreases n,
{
    if n == 0 {
        assert(s =~= Seq::<T::V>::empty());
        assert(p == pos);
        assert(spec_decode_list::<T>(b, q, 0) == Some((Seq::<T::V>::empty(), q)));
        assert(spec_decode_list::<T>(b, pos, 1) == Some((seq![v] + Seq::<T::V>::empty(), q)));
        assert(seq![v] + Seq::<T::V>::empty() =~= s.push(v));
    } else {
        match T::spec_decode(b, pos) {
            None => {
                assert(false);
            },
            Some(vp) => {
                match spec_decode_list::<T>(b, vp.1, (n - 1) as nat) {
                    None => {
                        assert(false);
                    },
                    Some(sq) => {
                        lemma_list_snoc::<T>(b, vp.1, (n - 1) as nat, sq.0, sq.1, v, q);
                        assert(seq![vp.0] + sq.0.push(v) =~= (seq![vp.0] + sq.0).push(v));
                    },
                }
            },
        }
    }
}

/// Once one record fails to decode, every longer list from the same start
/// fails too.
pub proof fn lemma_list_fail<T: Decode>(
    b: Seq<u8>,
    pos: int,
    n: nat,
    s: Seq<T::V>,
    p: int,
    m: nat,
)
    requires
        spec_decode_list::<T>(b, pos, n) == Some((s, p)),
        T::spec_decode(b, p) is None,
        m > n,
    ensures
        spec_decode_list::<T>(b, pos, m) is None,
    decreases n,
{
    if n == 0 {
        assert(p == pos);
    } else {
        match T::spec_decode(b, pos) {
            None => {
                assert(false);
            },
            Some(vp) => {
                match spec_decode_list::<T>(b, vp.1, (n - 1) as nat) {
                    None => {
                        assert(false);
                    },
                    Some(sq) => {
                        lemma_list_fail::<T>(b, vp.1, (n - 1) as nat, sq.0, sq.1, (m - 1) as nat);
                    },
                }
            },
        }
    }
}

/// A list of 16-bit words consumes exactly two bytes a word, and fits in the
/// buffer wherever it holds at least one word.
pub proof fn lemma_list_u16_size(b: Seq<u8>, pos: int, n: nat, s: Seq<u16>, p: int)
    requires
        spec_decode_list::<u16>(b, pos, n) == Some((s, p)),
    ensures
        p == pos + 2 * n,
        n > 0 ==> p <= b.len(),
    decreases n,
{
    if n != 0 {
        match <u16 as Decode>::spec_decode(b, pos) {
            None => {
                assert(false);
            },
            Some(vp) => {
                match spec_decode_list::<u16>(b, vp.1, (n - 1) as nat) {
                    None => {
                        assert(false);
                    },
                    Some(sq) => {
                        lemma_list_u16_size(b, vp.1, (n - 1) as nat, sq.0, sq.1);
                    },
                }
            },
        }
    }
}

/// Decoding a list of 16-bit words fails wherever the buffer cannot hold
/// them: a short read is fatal.
pub proof fn lemma_short_read_fatal_u16(b: Seq<u8>, pos: int, n: nat)
    requires
        n > 0,
        pos + 2 * n > b.len(),
    ensures
        spec_decode_list::<u16>(b, pos, n) is None,
{
    match spec_decode_list::<u16>(b, pos, n) {
        None => {},
        Some(sp) => {
            lemma_list_u16_size(b, pos, n, sp.0, sp.1);
            assert(false);
        },
    }
}

/// Decodes `n` records of type `T` back to back, starting at `pos`. The list
/// is atomic: a short read anywhere loses the whole list.
pub fn decode_list<T: Decode>(b: &Vec<u8>, pos: usize, n: usize) -> (r: Result<
    (Vec<T>, usize),
    DecodeError,
>)
    requires
        pos <= b@.len(),
    ensures
        match r {
            Ok(vp) => spec_decode_list::<T>(b@, pos as int, n as nat) == Some(
                (views_of(vp.0@), vp.1 as int),
            ) && vp.0@.len() == n && pos <= vp.1 <= b@.len(),
            Err(e) => spec_decode_list::<T>(b@, pos as int, n as nat) is None && e
                == DecodeError::UnexpectedEof,
        },
{
    let mut out: Vec<T> = Vec::new();
    let mut cur: usize = pos;
    let mut i: usize = 0;
    proof {
        assert(views_of(out@) =~= Seq::<T::V>::empty());
    }
    while i < n
        invariant
            pos <= cur <= b@.len(),
            i <= n,
            out@.len() == i,
            spec_decode_list::<T>(b@, pos as int, i as nat) == Some(
                (views_of(out@), cur as int),
            ),
        decreases n - i,
    {
        match T::decode(b, cur) {
            Ok((v, p)) => {
                proof {
                    lemma_list_snoc::<T>(
                        b@,
                        pos as int,
                        i as nat,
                        views_of(out@),
                        cur as int,
                        v@,
                        p as int,
                    );
                    lemma_views_of_push::<T>(out@, v);
                }
                out.push(v);
                cur = p;
                i = i + 1;
            },
            Err(e) => {
                proof {
                    lemma_list_fail::<T>(
                        b@,
                        pos as int,
                        i as nat,
                        views_of(out@),
                        cur as int,
                        n as nat,
                    );
                }
                return Err(e);
            },
        }
    }
    Ok((out, cur))
}

/// An explicit-prefix list: an 8-bit unsigned count, then that many records.
pub open spec fn spec_decode_list_p8<T: Decode>(b: Seq<u8>, pos: int) -> Option<
    (Seq<T::V>, int),
> {
    if pos + 1 <= b.len() {
        spec_decode_list::<T>(b, pos + 1, b[pos] as nat)
    } else {
        None
    }
}

/// An explicit-prefix list: a 16-bit unsigned count, then that many records.
pub open spec fn spec_decode_list_p16<T: Decode>(b: Seq<u8>, pos: int) -> Option<
    (Seq<T::V>, int),
> {
    if pos + 2 <= b.len() {
        spec_decode_list::<T>(b, pos + 2, le16(b, pos) as nat)
    } else {
        None
    }
}

/// An explicit-prefix list: a 32-bit unsigned count, then that many records.
pub open spec fn spec_decode_list_p32<T: Decode>(b: Seq<u8>, pos: int) -> Option<
    (Seq<T::V>, int),
> {
    if pos + 4 <= b.len() {
        spec_decode_list::<T>(b, pos + 4, le32(b, pos) as nat)
    } else {
        None
    }
}

pub fn decode_list_p8<T: Decode>(b: &Vec<u8>, pos: usize) -> (r: Result<
    (Vec<T>, usize),
    DecodeError,
>)
    requires
        pos <= b@.len(),
    ensures
        match r {
            Ok(vp) => spec_decode_list_p8::<T>(b@, pos as int) == Some(
                (views_of(vp.0@), vp.1 as int),
            ) && pos <= vp.1 <= b@.len(),
            Err(e) => spec_decode_list_p8::<T>(b@, pos as int) is None && e
                == DecodeError::UnexpectedEof,
        },
{
    match read_u8(b, pos) {
        Ok((n, p)) => decode_list::<T>(b, p, n as usize),
        Err(e) => Err(e),
    }
}

pub fn decode_list_p16<T: Decode>(b: &Vec<u8>, pos: usize) -> (r: Result<
    (Vec<T>, usize),
    DecodeError,
>)
    requires
        pos <= b@.len(),
    ensures
        match r {
            Ok(vp) => spec_decode_list_p16::<T>(b@, pos as int) == Some(
                (views_of(vp.0@), vp.1 as int),
            ) && vp.0@.len() == le16(b@, pos as int) && pos <= vp.1 <= b@.len(),
            Err(e) => spec_decode_list_p16::<T>(b@, pos as int) is None && e
                == DecodeError::UnexpectedEof,
        },
{
    match read_u16(b, pos) {
        Ok((n, p)) => decode_list::<T>(b, p, n as usize),
        Err(e) => Err(e),
    }
}

pub fn decode_list_p32<T: Decode>(b: &Vec<u8>, pos: usize) -> (r: Result<
    (Vec<T>, usize),
    DecodeError,
>)
    requires
        pos <= b@.len(),
    ensures
        match r {
            Ok(vp) => spec_decode_list_p32::<T>(b@, pos as int) == Some(
                (views_of(vp.0@), vp.1 as int),
            ) && vp.0@.len() == le32(b@, pos as int) && pos <= vp.1 <= b@.len(),
            Err(e) => spec_decode_list_p32::<T>(b@, pos as int) is None && e
                == DecodeError::UnexpectedEof,
        },
{
    match read_u32(b, pos) {
        Ok((n, p)) => decode_list::<T>(b, p, n as usize),
        Err(e) => Err(e),
    }
}

/// The meaning of `rows` rows of `cols` records each, stored row after row.
pub open spec fn spec_decode_rows<T: Decode>(b: Seq<u8>, pos: int, rows: nat, cols: nat) -> Option<
    (Seq<Seq<T::V>>, int),
>
    decreases rows,
{
    if rows == 0 {
        Some((Seq::empty(), pos))
    } else {
        match spec_decode_list::<T>(b, pos, cols) {
            None => None,
            Some(rp) => match spec_decode_rows::<T>(b, rp.1, (rows - 1) as nat, cols) {
                None => None,
                Some(sq) => Some((seq![rp.0] + sq.0, sq.1)),
            },
        }
    }
}

/// A two-dimensional collection: a 16-bit row count, a 16-bit column count,
/// then `rows * cols` records in row-major order.
pub open spec fn spec_decode_grid<T: Decode>(b: Seq<u8>, pos: int) -> Option<
    (Seq<Seq<T::V>>, int),
> {
    if pos + 4 <= b.len() {
        spec_decode_rows::<T>(b, pos + 4, le16(b, pos) as nat, le16(b, pos + 2) as nat)
    } else {
        None
    }
}

/// Extending a decoded grid by one more full row appends it at the end.
pub proof fn lemma_rows_snoc<T: Decode>(
    b: Seq<u8>,
    pos: int,
    rows: nat,
    cols: nat,
    s: Seq<Seq<T::V>>,
    p: int,
    v: Seq<T::V>,
    q: int,
)
    requires
        spec_decode_rows::<T>(b, pos, rows, cols) == Some((s, p)),
        spec_decode_list::<T>(b, p, cols) == Some((v, q)),
    ensures
        spec_decode_rows::<T>(b, pos, rows + 1, cols) == Some((s.push(v), q)),
    decreases rows,
{
    if rows == 0 {
        assert(s =~= Seq::<Seq<T::V>>::empty());
        assert(p == pos);
        assert(spec_decode_rows::<T>(b, q, 0, cols) == Some((Seq::<Seq<T::V>>::empty(), q)));
        assert(spec_decode_rows::<T>(b, pos, 1, cols) == Some(
            (seq![v] + Seq::<Seq<T::V>>::empty(), q),
        ));
        assert(seq![v] + Seq::<Seq<T::V>>::empty() =~= s.push(v));
    } else {
        match spec_decode_list::<T>(b, pos, cols) {
            None => {
                assert(false);
            },
            Some(rp) => {
                match spec_decode_rows::<T>(b, rp.1, (rows - 1) as nat, cols) {
                    None => {
                        assert(false);
                    },
                    Some(sq) => {
                        lemma_rows_snoc::<T>(b, rp.1, (rows - 1) as nat, cols, sq.0, sq.1, v, q);
                        assert(seq![rp.0] + sq.0.push(v) =~= (seq![rp.0] + sq.0).push(v));
                    },
                }
            },
        }
    }
}

/// Once one row fails to decode, every grid with more rows from the same
/// start fails too.
pub proof fn lemma_rows_fail<T: Decode>(
    b: Seq<u8>,
    pos: int,
    rows: nat,
    cols: nat,
    s: Seq<Seq<T::V>>,
    p: int,
    m: nat,
)
    requires
        spec_decode_rows::<T>(b, pos, rows, cols) == Some((s, p)),
        spec_decode_list::<T>(b, p, cols) is None,
        m > rows,
    ensures
        spec_decode_rows::<T>(b, pos, m, cols) is None,
    decreases rows,
{
    if rows == 0 {
        assert(p == pos);
    } else {
        match spec_decode_list::<T>(b, pos, cols) {
            None => {
                assert(false);
            },
            Some(rp) => {
                match spec_decode_rows::<T>(b, rp.1, (rows - 1) as nat, cols) {
                    None => {
                        assert(false);
                    },
                    Some(sq) => {
                        lemma_rows_fail::<T>(
                            b,
                            rp.1,
                            (rows - 1) as nat,
                            cols,
                            sq.0,
                            sq.1,
                            (m - 1) as nat,
                        );
                    },
                }
            },
        }
    }
}

/// Decodes a two-dimensional collection: a 16-bit row count, a 16-bit column
/// count, then that many rows of that many records, in row-major order.
pub fn decode_grid<T: Decode>(b: &Vec<u8>, pos: usize) -> (r: Result<
    (Vec<Vec<T>>, usize),
    DecodeError,
>)
    requires
        pos <= b@.len(),
    ensures
        match r {
            Ok(vp) => spec_decode_grid::<T>(b@, pos as int) == Some(
                (views_of_rows(vp.0@), vp.1 as int),
            ) && vp.0@.len() == le16(b@, pos as int) && (forall|i: int|
                0 <= i < vp.0@.len() ==> (#[trigger] vp.0@[i])@.len() == le16(
                    b@,
                    pos + 2,
                )) && pos <= vp.1 <= b@.len(),
            Err(e) => spec_decode_grid::<T>(b@, pos as int) is None && e
                == DecodeError::UnexpectedEof,
        },
{
    let (rows, p1) = match read_u16(b, pos) {
        Ok(x) => x,
        Err(e) => { return Err(e) },
    };
    let (cols, p2) = match read_u16(b, p1) {
        Ok(x) => x,
        Err(e) => { return Err(e) },
    };
    let mut out: Vec<Vec<T>> = Vec::new();
    let mut cur: usize = p2;
    let mut i: usize = 0;
    let nrows: usize = rows as usize;
    let ncols: usize = cols as usize;
    proof {
        assert(views_of_rows(out@) =~= Seq::<Seq<T::V>>::empty());
    }
    while i < nrows
        invariant
            pos + 4 <= b@.len(),
            p2 == pos + 4,
            pos <= cur <= b@.len(),
            i <= nrows,
            nrows == le16(b@, pos as int),
            ncols == le16(b@, pos + 2),
            out@.len() == i,
            forall|j: int| 0 <= j < i ==> (#[trigger] out@[j])@.len() == ncols,
            spec_decode_rows::<T>(b@, p2 as int, i as nat, ncols as nat) == Some(
                (views_of_rows(out@), cur as int),
            ),
        decreases nrows - i,
    {
        match decode_list::<T>(b, cur, ncols) {
            Ok((row, p)) => {
                proof {
                    lemma_rows_snoc::<T>(
                        b@,
                        p2 as int,
                        i as nat,
                        ncols as nat,
                        views_of_rows(out@),
                        cur as int,
                        views_of(row@),
                        p as int,
                    );
                    lemma_views_of_rows_push::<T>(out@, row);
                }
                out.push(row);
                cur = p;
                i = i + 1;
            },
            Err(e) => {
                proof {
                    lemma_rows_fail::<T>(
                        b@,
                        p2 as int,
                        i as nat,
                        ncols as nat,
                        views_of_rows(out@),
                        cur as int,
                        nrows as nat,
                    );
                }
                return Err(e);
            },
        }
    }
    Ok((out, cur))
}

/// The meaning of `n` chunks of `size` raw bytes each, stored back to back.
pub open spec fn spec_decode_chunks(b: Seq<u8>, pos: int, n: nat, size: nat) -> Option<
    (Seq<Seq<u8>>, int),
>
    decreases n,
{
    if n == 0 {
        Some((Seq::empty(), pos))
    } else if pos + size <= b.len() {
        match spec_decode_chunks(b, pos + size, (n - 1) as nat, size) {
            None => None,
            Some(sq) => Some((seq![b.subrange(pos, pos + size)] + sq.0, sq.1)),
        }
    } else {
        None
    }
}

/// A decoded chunk list holds `n` chunks and ends exactly `n * size` bytes on.
pub proof fn lemma_chunks_len(b: Seq<u8>, pos: int, n: nat, size: nat, s: Seq<Seq<u8>>, p: int)
    requires
        spec_decode_chunks(b, pos, n, size) == Some((s, p)),
    ensures
        s.len() == n,
        p == pos + n * size,
    decreases n,
{
    if n != 0 {
        match spec_decode_chunks(b, pos + size, (n - 1) as nat, size) {
            None => {
                assert(false);
            },
            Some(sq) => {
                lemma_chunks_len(b, pos + size, (n - 1) as nat, size, sq.0, sq.1);
                assert(pos + size + (n - 1) * size == pos + n * size) by (nonlinear_arith);
            },
        }
    }
}

/// Extending a decoded chunk list by one more chunk appends it at the end.
pub proof fn lemma_chunks_snoc(b: Seq<u8>, pos: int, n: nat, size: nat, s: Seq<Seq<u8>>, p: int)
    requires
        spec_decode_chunks(b, pos, n, size) == Some((s, p)),
        p + size <= b.len(),
    ensures
        spec_decode_chunks(b, pos, n + 1, size) == Some(
            (s.push(b.subrange(p, p + size)), p + size),
        ),
    decreases n,
{
    let v = b.subrange(p, p + size);
    if n == 0 {
        assert(p == pos);
        assert(spec_decode_chunks(b, pos + size, 0, size) == Some(
            (Seq::<Seq<u8>>::empty(), pos + size),
        ));
        assert(s =~= Seq::<Seq<u8>>::empty());
        assert(seq![v] + Seq::<Seq<u8>>::empty() =~= s.push(v));
    } else {
        match spec_decode_chunks(b, pos + size, (n - 1) as nat, size) {
            None => {
                assert(false);
            },
            Some(sq) => {
                lemma_chunks_snoc(b, pos + size, (n - 1) as nat, size, sq.0, sq.1);
                assert(seq![b.subrange(pos, pos + size)] + sq.0.push(v) =~= (seq![
                    b.subrange(pos, pos + size),
                ] + sq.0).push(v));
            },
        }
    }
}

/// Once a chunk runs short, every longer chunk list from the same start
/// fails too.
pub proof fn lemma_chunks_fail(b: Seq<u8>, pos: int, n: nat, size: nat, s: Seq<Seq<u8>>, p: int, m: nat)
    requires
        spec_decode_chunks(b, pos, n, size) == Some((s, p)),
        p + size > b.len(),
        m > n,
    ensures
        spec_decode_chunks(b, pos, m, size) is None,
    decreases n,
{
    if n == 0 {
        assert(p == pos);
    } else {
        match spec_decode_chunks(b, pos + size, (n - 1) as nat, size) {
            None => {
                assert(false);
            },
            Some(sq) => {
                lemma_chunks_fail(b, pos + size, (n - 1) as nat, size, sq.0, sq.1, (m - 1) as nat);
            },
        }
    }
}

/// Decodes `n` chunks of `size` raw bytes each, kept verbatim.
pub fn decode_chunks(b: &Vec<u8>, pos: usize, n: usize, size: usize) -> (r: Result<
    (Vec<Vec<u8>>, usize),
    DecodeError,
>)
    requires
        pos <= b@.len(),
    ensures
        match r {
            Ok(vp) => spec_decode_chunks(b@, pos as int, n as nat, size as nat) == Some(
                (views_of(vp.0@), vp.1 as int),
            ) && vp.0@.len() == n && (forall|i: int|
                0 <= i < vp.0@.len() ==> (#[trigger] vp.0@[i])@.len() == size) && pos <= vp.1
                <= b@.len(),
            Err(e) => spec_decode_chunks(b@, pos as int, n as nat, size as nat) is None && e
                == DecodeError::UnexpectedEof,
        },
{
    let mut out: Vec<Vec<u8>> = Vec::new();
    let mut cur: usize = pos;
    let mut i: usize = 0;
    proof {
        assert(views_of(out@) =~= Seq::<Seq<u8>>::empty());
    }
    while i < n
        invariant
            pos <= cur <= b@.len(),
            i <= n,
            out@.len() == i,
            forall|j: int| 0 <= j < i ==> (#[trigger] out@[j])@.len() == size,
            spec_decode_chunks(b@, pos as int, i as nat, size as nat) == Some(
                (views_of(out@), cur as int),
            ),
        decreases n - i,
    {
        if b.len() - cur >= size {
            let chunk = copy_range(b, cur, size);
            proof {
                lemma_chunks_snoc(
                    b@,
                    pos as int,
                    i as nat,
                    size as nat,
                    views_of(out@),
                    cur as int,
                );
                lemma_views_of_push::<Vec<u8>>(out@, chunk);
            }
            out.push(chunk);
            cur = cur + size;
            i = i + 1;
        } else {
            proof {
                lemma_chunks_fail(
                    b@,
                    pos as int,
                    i as nat,
                    size as nat,
                    views_of(out@),
                    cur as int,
                    n as nat,
                );
            }
            return Err(DecodeError::UnexpectedEof);
        }
    }
    Ok((out, cur))
}

/// What zlib inflation returns on the given compressed bytes: the inflated
/// bytes, or `None` where the bytes are not valid zlib data. The result
/// depends on the bytes alone.
pub uninterp spec fn inflate_zlib(input: Seq<u8>) -> Option<Seq<u8>>;

/// Relies on miniz_oxide::inflate::decompress_to_vec_zlib: inflates a whole
/// zlib stream into a fresh buffer, and rejects bytes that are not valid
/// zlib data. Its result is a function of the input bytes alone.
#[verifier::external_body]
fn inflate(input: &Vec<u8>) -> (r: Result<Vec<u8>, DecodeError>)
    ensures
        match r {
            Ok(v) => inflate_zlib(input@) == Some(v@),
            Err(e) => inflate_zlib(input@) is None && e == DecodeError::DecompressionError,
        },
{
    match miniz_oxide::inflate::decompress_to_vec_zlib(input.as_slice()) {
        Ok(v) => Ok(v),
        Err(_) => Err(DecodeError::DecompressionError),
    }
}

/// The framing of a compressed section: a 32-bit uncompressed size (advisory,
/// not used), a 32-bit compressed size, then that many compressed bytes.
/// Yields the compressed bytes and the position just past the section.
pub open spec fn spec_zlib_frame(b: Seq<u8>, pos: int) -> Option<(Seq<u8>, int)> {
    if pos + 8 <= b.len() && pos + 8 + le32(b, pos + 4) <= b.len() {
        Some((b.subrange(pos + 8, pos + 8 + le32(b, pos + 4)), pos + 8 + le32(b, pos + 4)))
    } else {
        None
    }
}

/// Truncating the stream anywhere before the end of a compressed section
/// makes reading the section fail outright: a short read is fatal and never
/// yields a shorter value.
pub proof fn lemma_zlib_frame_truncation_fatal(b: Seq<u8>, pos: int, f: (Seq<u8>, int), k: int)
    requires
        spec_zlib_frame(b, pos) == Some(f),
        0 <= k < f.1,
        pos >= 0,
    ensures
        spec_zlib_frame(b.take(k), pos) is None,
{
    if pos + 8 <= k {
        assert(le32(b.take(k), pos + 4) == le32(b, pos + 4));
    }
}

/// Reads a compressed section's framing and its raw compressed bytes, without
/// inflating them. A caller that hits [`DecodeError::DecompressionError`] on
/// the block's content can resynchronize at the returned end position.
pub fn read_zlib_frame(b: &Vec<u8>, pos: usize) -> (r: Result<(Vec<u8>, usize), DecodeError>)
    requires
        pos <= b@.len(),
    ensures
        match r {
            Ok(vp) => spec_zlib_frame(b@, pos as int) == Some((vp.0@, vp.1 as int)) && pos <= vp.1
                <= b@.len(),
            Err(e) => spec_zlib_frame(b@, pos as int) is None && e == DecodeError::UnexpectedEof,
        },
{
    let p1 = match crate::bytes::skip(b, pos, 4) {
        Ok(p) => p,
        Err(e) => { return Err(e) },
    };
    let (comp_len, p2) = match read_u32(b, p1) {
        Ok(x) => x,
        Err(e) => { return Err(e) },
    };
    let n = comp_len as usize;
    if b.len() - p2 >= n {
        let data = copy_range(b, p2, n);
        Ok((data, p2 + n))
    } else {
        Err(DecodeError::UnexpectedEof)
    }
}

/// Reads one compressed section and inflates it into an independent buffer.
/// The position returned with the buffer is just past the compressed bytes in
/// the outer stream; what is decoded from the buffer never moves it further.
pub fn read_zlib_block(b: &Vec<u8>, pos: usize) -> (r: Result<(Vec<u8>, usize), DecodeError>)
    requires
        pos <= b@.len(),
    ensures
        match r {
            Ok(vp) => (spec_zlib_frame(b@, pos as int) matches Some(f) && inflate_zlib(f.0)
                == Some(vp.0@) && vp.1 == f.1) && pos <= vp.1 <= b@.len(),
            Err(e) => (e == DecodeError::UnexpectedEof && spec_zlib_frame(b@, pos as int) is None)
                || (e == DecodeError::DecompressionError && (spec_zlib_frame(b@, pos as int)
                matches Some(f) && inflate_zlib(f.0) is None)),
        },
{
    let (comp, p) = match read_zlib_frame(b, pos) {
        Ok(x) => x,
        Err(e) => { return Err(e) },
    };
    match inflate(&comp) {
        Ok(data) => Ok((data, p)),
        Err(e) => Err(e),
    }
}

} // verus!
