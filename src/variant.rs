use vstd::prelude::*;

use crate::bytes::{
    byte_of, copy_range, holds_bytes, in_bounds, le16, le32, le64, lemma_le16_of, lemma_le32_of,
    lemma_le64_of, read_u16, read_u32, read_u64,
};
use crate::errors::{WinEvtError, WinEvtErrorKind};
use crate::fetch::{grown_capacity, FetchOutcome, FetchStep, GrowableBuffer};
use crate::handle::ResourceHandle;
use crate::text::{decode_utf16_lossy, decode_utf8_lossy, utf16_lossy, utf8_lossy};

verus! {

pub const EVT_VAR_TYPE_NULL: u32 = 0;
pub const EVT_VAR_TYPE_STRING: u32 = 1;
pub const EVT_VAR_TYPE_ANSI_STRING: u32 = 2;
pub const EVT_VAR_TYPE_SBYTE: u32 = 3;
pub const EVT_VAR_TYPE_BYTE: u32 = 4;
pub const EVT_VAR_TYPE_INT16: u32 = 5;
pub const EVT_VAR_TYPE_UINT16: u32 = 6;
pub const EVT_VAR_TYPE_INT32: u32 = 7;
pub const EVT_VAR_TYPE_UINT32: u32 = 8;
pub const EVT_VAR_TYPE_INT64: u32 = 9;
pub const EVT_VAR_TYPE_UINT64: u32 = 10;
pub const EVT_VAR_TYPE_SINGLE: u32 = 11;
pub const EVT_VAR_TYPE_DOUBLE: u32 = 12;
pub const EVT_VAR_TYPE_BOOLEAN: u32 = 13;
pub const EVT_VAR_TYPE_BINARY: u32 = 14;
pub const EVT_VAR_TYPE_GUID: u32 = 15;
pub const EVT_VAR_TYPE_SIZE_T: u32 = 16;
pub const EVT_VAR_TYPE_FILE_TIME: u32 = 17;
pub const EVT_VAR_TYPE_SYS_TIME: u32 = 18;
pub const EVT_VAR_TYPE_SID: u32 = 19;
pub const EVT_VAR_TYPE_HEX_INT32: u32 = 20;
pub const EVT_VAR_TYPE_HEX_INT64: u32 = 21;
pub const EVT_VAR_TYPE_EVT_HANDLE: u32 = 32;
pub const EVT_VAR_TYPE_EVT_XML: u32 = 35;

/// The flag of the type field that marks an array.
pub const EVT_VARIANT_TYPE_ARRAY: u32 = 128;

/// Size of one variant record: an 8-byte value (or pointer), a 4-byte count
/// and a 4-byte type, in that order, little-endian.
pub const EVT_VARIANT_SIZE: usize = 16;

/// A GUID as its four fields.
#[derive(Clone, Copy, Debug, PartialEq, Eq)]
pub struct Guid {
    pub data1: u32,
    pub data2: u16,
    pub data3: u16,
    pub data4: [u8; 8],
}

/// The mathematical value of a [`Guid`].
pub ghost struct GuidView {
    pub data1: u32,
    pub data2: u16,
    pub data3: u16,
    pub data4: Seq<u8>,
}

impl View for Guid {
    type V = GuidView;

    open spec fn view(&self) -> GuidView {
        GuidView { data1: self.data1, data2: self.data2, data3: self.data3, data4: self.data4@ }
    }
}

/// A calendar time as the service reports it, field by field.
#[derive(Clone, Copy, Debug, PartialEq, Eq)]
pub struct SystemTime {
    pub year: u16,
    pub month: u16,
    pub day_of_week: u16,
    pub day: u16,
    pub hour: u16,
    pub minute: u16,
    pub second: u16,
    pub milliseconds: u16,
}

/// One decoded typed value. A nested handle is owned by the value that holds it.
/// Floating-point values are kept as their IEEE-754 bits; a file time is the
/// count of 100-nanosecond intervals since 1601-01-01 UTC.
#[derive(Debug, PartialEq, Eq)]
pub enum Variant {
    Bool(bool),
    Int8(i8),
    Int16(i16),
    Int32(i32),
    Int64(i64),
    Uint8(u8),
    Uint16(u16),
    Uint32(u32),
    Uint64(u64),
    SizeT(u64),
    F32Bits(u32),
    F64Bits(u64),
    HexInt32(u32),
    HexInt64(u64),
    Filetime(u64),
    Systime(SystemTime),
    Guid(Guid),
    String(String),
    AnsiStr(String),
    Binary(Vec<u8>),
    Sid(Vec<u8>),
    Xml(String),
    EvtHandle(ResourceHandle),
    Array(Vec<Variant>),
}

/// The mathematical value of a [`Variant`]: text as characters, bytes as
/// sequences, a handle as its raw value.
pub ghost enum VariantView {
    Bool(bool),
    Int8(i8),
    Int16(i16),
    Int32(i32),
    Int64(i64),
    Uint8(u8),
    Uint16(u16),
    Uint32(u32),
    Uint64(u64),
    SizeT(u64),
    F32Bits(u32),
    F64Bits(u64),
    HexInt32(u32),
    HexInt64(u64),
    Filetime(u64),
    Systime(SystemTime),
    Guid(GuidView),
    String(Seq<char>),
    AnsiStr(Seq<char>),
    Binary(Seq<u8>),
    Sid(Seq<u8>),
    Xml(Seq<char>),
    EvtHandle(u64),
    Array(Seq<VariantView>),
}

/// The view of a value that is not an array.
pub open spec fn scalar_view(v: Variant) -> VariantView {
    match v {
        Variant::Bool(x) => VariantView::Bool(x),
        Variant::Int8(x) => VariantView::Int8(x),
        Variant::Int16(x) => VariantView::Int16(x),
        Variant::Int32(x) => VariantView::Int32(x),
        Variant::Int64(x) => VariantView::Int64(x),
        Variant::Uint8(x) => VariantView::Uint8(x),
        Variant::Uint16(x) => VariantView::Uint16(x),
        Variant::Uint32(x) => VariantView::Uint32(x),
        Variant::Uint64(x) => VariantView::Uint64(x),
        Variant::SizeT(x) => VariantView::SizeT(x),
        Variant::F32Bits(x) => VariantView::F32Bits(x),
        Variant::F64Bits(x) => VariantView::F64Bits(x),
        Variant::HexInt32(x) => VariantView::HexInt32(x),
        Variant::HexInt64(x) => VariantView::HexInt64(x),
        Variant::Filetime(x) => VariantView::Filetime(x),
        Variant::Systime(x) => VariantView::Systime(x),
        Variant::Guid(x) => VariantView::Guid(x@),
        Variant::String(x) => VariantView::String(x@),
        Variant::AnsiStr(x) => VariantView::AnsiStr(x@),
        Variant::Binary(x) => VariantView::Binary(x@),
        Variant::Sid(x) => VariantView::Sid(x@),
        Variant::Xml(x) => VariantView::Xml(x@),
        Variant::EvtHandle(h) => VariantView::EvtHandle(h@),
        Variant::Array(_) => VariantView::Array(Seq::empty()),
    }
}

impl View for Variant {
    type V = VariantView;

    /// Arrays hold values that are not arrays themselves.
    open spec fn view(&self) -> VariantView {
        match self {
            Variant::Array(vs) => VariantView::Array(
                Seq::new(vs@.len(), |i: int| scalar_view(vs@[i])),
            ),
            _ => scalar_view(*self),
        }
    }
}

/// Tags whose value is stored inline, as a fixed-width number.
pub open spec fn is_numeric(tag: u32) -> bool {
    (3 <= tag <= 13) || tag == 16 || tag == 17 || tag == 20 || tag == 21
}

/// Bytes one element of `tag` takes in an array; pointers take 8.
pub open spec fn width_of(tag: u32) -> nat {
    if tag == 3 || tag == 4 {
        1
    } else if tag == 5 || tag == 6 {
        2
    } else if tag == 7 || tag == 8 || tag == 11 || tag == 13 || tag == 20 {
        4
    } else if tag == 15 || tag == 18 {
        16
    } else {
        8
    }
}

/// The inline value of numeric type `tag` stored at `slot`.
pub open spec fn numeric_view(b: Seq<u8>, tag: u32, slot: int) -> VariantView {
    if tag == 3 {
        VariantView::Int8(b[slot] as i8)
    } else if tag == 4 {
        VariantView::Uint8(b[slot])
    } else if tag == 5 {
        VariantView::Int16(le16(b, slot) as u16 as i16)
    } else if tag == 6 {
        VariantView::Uint16(le16(b, slot) as u16)
    } else if tag == 7 {
        VariantView::Int32(le32(b, slot) as u32 as i32)
    } else if tag == 8 {
        VariantView::Uint32(le32(b, slot) as u32)
    } else if tag == 9 {
        VariantView::Int64(le64(b, slot) as u64 as i64)
    } else if tag == 10 {
        VariantView::Uint64(le64(b, slot) as u64)
    } else if tag == 11 {
        VariantView::F32Bits(le32(b, slot) as u32)
    } else if tag == 12 {
        VariantView::F64Bits(le64(b, slot) as u64)
    } else if tag == 13 {
        VariantView::Bool(le32(b, slot) != 0)
    } else if tag == 16 {
        VariantView::SizeT(le64(b, slot) as u64)
    } else if tag == 17 {
        VariantView::Filetime(le64(b, slot) as u64)
    } else if tag == 20 {
        VariantView::HexInt32(le32(b, slot) as u32)
    } else {
        VariantView::HexInt64(le64(b, slot) as u64)
    }
}

fn numeric_at(b: &[u8], tag: u32, slot: usize) -> (r: Variant)
    requires
        is_numeric(tag),
        in_bounds(b@, slot as int, width_of(tag) as int),
    ensures
        r@ == numeric_view(b@, tag, slot as int),
        !(r is Array),
{
    if tag == EVT_VAR_TYPE_SBYTE {
        Variant::Int8(b[slot] as i8)
    } else if tag == EVT_VAR_TYPE_BYTE {
        Variant::Uint8(b[slot])
    } else if tag == EVT_VAR_TYPE_INT16 {
        Variant::Int16(read_u16(b, slot) as i16)
    } else if tag == EVT_VAR_TYPE_UINT16 {
        Variant::Uint16(read_u16(b, slot))
    } else if tag == EVT_VAR_TYPE_INT32 {
        Variant::Int32(read_u32(b, slot) as i32)
    } else if tag == EVT_VAR_TYPE_UINT32 {
        Variant::Uint32(read_u32(b, slot))
    } else if tag == EVT_VAR_TYPE_INT64 {
        Variant::Int64(read_u64(b, slot) as i64)
    } else if tag == EVT_VAR_TYPE_UINT64 {
        Variant::Uint64(read_u64(b, slot))
    } else if tag == EVT_VAR_TYPE_SINGLE {
        Variant::F32Bits(read_u32(b, slot))
    } else if tag == EVT_VAR_TYPE_DOUBLE {
        Variant::F64Bits(read_u64(b, slot))
    } else if tag == EVT_VAR_TYPE_BOOLEAN {
        Variant::Bool(read_u32(b, slot) != 0)
    } else if tag == EVT_VAR_TYPE_SIZE_T {
        Variant::SizeT(read_u64(b, slot))
    } else if tag == EVT_VAR_TYPE_FILE_TIME {
        Variant::Filetime(read_u64(b, slot))
    } else if tag == EVT_VAR_TYPE_HEX_INT32 {
        Variant::HexInt32(read_u32(b, slot))
    } else {
        Variant::HexInt64(read_u64(b, slot))
    }
}

/// The `k`-th 16-bit unit from `off`.
pub open spec fn wide_unit(b: Seq<u8>, off: int, k: int) -> nat {
    le16(b, off + 2 * k)
}

/// The wide text at `off` ends with its terminator after `n` units.
pub open spec fn wide_terminated(b: Seq<u8>, off: int, n: nat) -> bool {
    &&& in_bounds(b, off, (2 * n + 2) as int)
    &&& wide_unit(b, off, n as int) == 0
    &&& forall|k: int| 0 <= k < n ==> #[trigger] wide_unit(b, off, k) != 0
}

/// The `n` 16-bit units at `off`.
pub open spec fn wide_units(b: Seq<u8>, off: int, n: nat) -> Seq<u16> {
    Seq::new(n, |k: int| wide_unit(b, off, k) as u16)
}

/// The nul-terminated wide text at `off`, decoded; none when no terminator
/// lies inside the buffer.
pub open spec fn wide_text(b: Seq<u8>, off: int) -> Option<Seq<char>> {
    if exists|n: nat| wide_terminated(b, off, n) {
        Some(utf16_lossy(wide_units(b, off, choose|n: nat| wide_terminated(b, off, n))))
    } else {
        None
    }
}

/// The single-byte text at `off` ends with its terminator after `n` bytes.
pub open spec fn ansi_terminated(b: Seq<u8>, off: int, n: nat) -> bool {
    &&& in_bounds(b, off, (n + 1) as int)
    &&& b[off + n] == 0
    &&& forall|k: int| 0 <= k < n ==> #[trigger] b[off + k] != 0
}

/// The nul-terminated single-byte text at `off`, decoded; none when no
/// terminator lies inside the buffer.
pub open spec fn ansi_text(b: Seq<u8>, off: int) -> Option<Seq<char>> {
    if exists|n: nat| ansi_terminated(b, off, n) {
        let n = choose|n: nat| ansi_terminated(b, off, n);
        Some(utf8_lossy(b.subrange(off, off + n)))
    } else {
        None
    }
}

proof fn lemma_wide_unique(b: Seq<u8>, off: int, n: nat, m: nat)
    requires
        wide_terminated(b, off, n),
        wide_terminated(b, off, m),
    ensures
        n == m,
{
    if n < m {
        assert(wide_unit(b, off, n as int) != 0);
    } else if m < n {
        assert(wide_unit(b, off, m as int) != 0);
    }
}

proof fn lemma_ansi_unique(b: Seq<u8>, off: int, n: nat, m: nat)
    requires
        ansi_terminated(b, off, n),
        ansi_terminated(b, off, m),
    ensures
        n == m,
{
    if n < m {
        assert(b[off + n] != 0);
    } else if m < n {
        assert(b[off + m] != 0);
    }
}

fn wide_text_at(b: &[u8], off: usize) -> (r: Option<String>)
    requires
        off <= b@.len(),
    ensures
        wide_text(b@, off as int) is Some <==> r is Some,
        r is Some ==> r->0@ == wide_text(b@, off as int)->0,
{
    let len = b.len();
    let mut units: Vec<u16> = Vec::new();
    let mut pos: usize = off;
    let ghost mut k: nat = 0;
    while pos <= len && len - pos >= 2
        invariant
            len == b@.len(),
            off <= pos,
            pos == off + 2 * k,
            units@ == wide_units(b@, off as int, k),
            forall|j: int| 0 <= j < k ==> #[trigger] wide_unit(b@, off as int, j) != 0,
        decreases len - pos,
    {
        let u = read_u16(b, pos);
        if u == 0 {
            proof {
                assert(wide_terminated(b@, off as int, k));
                assert forall|n: nat| wide_terminated(b@, off as int, n) implies n == k by {
                    lemma_wide_unique(b@, off as int, n, k);
                }
            }
            return Some(decode_utf16_lossy(units.as_slice()));
        }
        units.push(u);
        proof {
            assert(units@ =~= wide_units(b@, off as int, k + 1));
            k = k + 1;
        }
        pos = pos + 2;
    }
    proof {
        assert forall|n: nat| !wide_terminated(b@, off as int, n) by {
            if wide_terminated(b@, off as int, n) {
                assert(n < k);
            }
        }
    }
    None
}

fn ansi_text_at(b: &[u8], off: usize) -> (r: Option<String>)
    requires
        off <= b@.len(),
    ensures
        ansi_text(b@, off as int) is Some <==> r is Some,
        r is Some ==> r->0@ == ansi_text(b@, off as int)->0,
{
    let len = b.len();
    let mut pos: usize = off;
    while pos < len
        invariant
            len == b@.len(),
            off <= pos <= len,
            forall|j: int| off <= j < pos ==> b@[j] != 0,
        decreases len - pos,
    {
        if b[pos] == 0 {
            let n: usize = pos - off;
            proof {
                assert(ansi_terminated(b@, off as int, n as nat));
                assert forall|m: nat| ansi_terminated(b@, off as int, m) implies m == n by {
                    lemma_ansi_unique(b@, off as int, m, n as nat);
                }
            }
            let bytes = copy_range(b, off, pos);
            return Some(decode_utf8_lossy(bytes.as_slice()));
        }
        pos = pos + 1;
    }
    proof {
        assert forall|n: nat| !ansi_terminated(b@, off as int, n) by {
            if ansi_terminated(b@, off as int, n) {
                assert(b@[off + n] != 0);
            }
        }
    }
    None
}

/// The GUID stored at `off`.
pub open spec fn guid_view(b: Seq<u8>, off: int) -> GuidView {
    GuidView {
        data1: le32(b, off) as u32,
        data2: le16(b, off + 4) as u16,
        data3: le16(b, off + 6) as u16,
        data4: b.subrange(off + 8, off + 16),
    }
}

fn guid_at(b: &[u8], off: usize) -> (r: Guid)
    requires
        in_bounds(b@, off as int, 16),
    ensures
        r@ == guid_view(b@, off as int),
{
    // The slice's length, and so every offset inside it, fits in a usize.
    assert(b@.len() == b.len());
    let d = off + 8;
    let data4: [u8; 8] = [b[d], b[d + 1], b[d + 2], b[d + 3], b[d + 4], b[d + 5], b[d + 6], b[d + 7]];
    let r = Guid {
        data1: read_u32(b, off),
        data2: read_u16(b, off + 4),
        data3: read_u16(b, off + 6),
        data4,
    };
    proof {
        assert(r.data4@ =~= b@.subrange(off + 8, off + 16));
    }
    r
}

/// The calendar time stored at `off`: eight 16-bit fields.
pub open spec fn systime_view(b: Seq<u8>, off: int) -> SystemTime {
    SystemTime {
        year: le16(b, off) as u16,
        month: le16(b, off + 2) as u16,
        day_of_week: le16(b, off + 4) as u16,
        day: le16(b, off + 6) as u16,
        hour: le16(b, off + 8) as u16,
        minute: le16(b, off + 10) as u16,
        second: le16(b, off + 12) as u16,
        milliseconds: le16(b, off + 14) as u16,
    }
}

fn systime_at(b: &[u8], off: usize) -> (r: SystemTime)
    requires
        in_bounds(b@, off as int, 16),
    ensures
        r == systime_view(b@, off as int),
{
    // The slice's length, and so every offset inside it, fits in a usize.
    assert(b@.len() == b.len());
    SystemTime {
        year: read_u16(b, off),
        month: read_u16(b, off + 2),
        day_of_week: read_u16(b, off + 4),
        day: read_u16(b, off + 6),
        hour: read_u16(b, off + 8),
        minute: read_u16(b, off + 10),
        second: read_u16(b, off + 12),
        milliseconds: read_u16(b, off + 14),
    }
}

/// Bytes a security identifier at `off` takes: eight, then four per
/// sub-authority, whose count is its second byte.
pub open spec fn sid_len(b: Seq<u8>, off: int) -> int {
    8 + 4 * (b[off + 1] as int)
}

/// Tags whose value lies behind a pointer.
pub open spec fn is_pointee(tag: u32) -> bool {
    tag == 1 || tag == 2 || tag == 14 || tag == 15 || tag == 18 || tag == 19 || tag == 35
}

/// The offset inside the buffer that a pointer designates, when it lies in it.
pub open spec fn offset_of(b: Seq<u8>, base: u64, ptr: u64) -> Option<int> {
    if base <= ptr && ptr - base <= b.len() {
        Some(ptr - base)
    } else {
        None
    }
}

/// The value of pointer type `tag` behind `ptr` (`count` bytes, for binary
/// data). A null pointer is no value; a pointer outside the buffer, or a value
/// that does not fit in it, is an error.
pub open spec fn pointee_view(b: Seq<u8>, base: u64, tag: u32, ptr: u64, count: u32) -> Result<
    Option<VariantView>,
    (),
> {
    if ptr == 0 {
        Ok(None)
    } else {
        match offset_of(b, base, ptr) {
            None => Err(()),
            Some(off) => {
                if tag == 1 || tag == 35 {
                    match wide_text(b, off) {
                        Some(t) => Ok(
                            Some(
                                if tag == 1 {
                                    VariantView::String(t)
                                } else {
                                    VariantView::Xml(t)
                                },
                            ),
                        ),
                        None => Err(()),
                    }
                } else if tag == 2 {
                    match ansi_text(b, off) {
                        Some(t) => Ok(Some(VariantView::AnsiStr(t))),
                        None => Err(()),
                    }
                } else if tag == 14 {
                    if in_bounds(b, off, count as int) {
                        Ok(Some(VariantView::Binary(b.subrange(off, off + count))))
                    } else {
                        Err(())
                    }
                } else if tag == 15 {
                    if in_bounds(b, off, 16) {
                        Ok(Some(VariantView::Guid(guid_view(b, off))))
                    } else {
                        Err(())
                    }
                } else if tag == 18 {
                    if in_bounds(b, off, 16) {
                        Ok(Some(VariantView::Systime(systime_view(b, off))))
                    } else {
                        Err(())
                    }
                } else if tag == 19 {
                    if in_bounds(b, off, 8) && in_bounds(b, off, sid_len(b, off)) {
                        Ok(Some(VariantView::Sid(b.subrange(off, off + sid_len(b, off)))))
                    } else {
                        Err(())
                    }
                } else {
                    Ok(None)
                }
            },
        }
    }
}

/// The view of a decoding result: an error is `Err(())`.
pub open spec fn decoded(r: Result<Option<Variant>, WinEvtError>) -> Result<Option<VariantView>, ()> {
    match r {
        Ok(Some(v)) => Ok(Some(v@)),
        Ok(None) => Ok(None),
        Err(_) => Err(()),
    }
}

/// Every decoding error is an encoding error.
pub open spec fn encoding_error(r: Result<Option<Variant>, WinEvtError>) -> bool {
    r is Err ==> r->Err_0@ == WinEvtErrorKind::InvalidEncoding
}

fn pointee_at(b: &[u8], base: u64, tag: u32, ptr: u64, count: u32) -> (r: Result<
    Option<Variant>,
    WinEvtError,
>)
    requires
        is_pointee(tag),
    ensures
        decoded(r) == pointee_view(b@, base, tag, ptr, count),
        encoding_error(r),
        r matches Ok(Some(v)) ==> !(v is Array) && !(v is EvtHandle),
{
    if ptr == 0 {
        return Ok(None);
    }
    let len = b.len();
    if ptr < base || ptr - base > len as u64 {
        return Err(WinEvtError::InvalidEncoding);
    }
    let off = (ptr - base) as usize;
    if tag == EVT_VAR_TYPE_STRING || tag == EVT_VAR_TYPE_EVT_XML {
        match wide_text_at(b, off) {
            Some(t) => Ok(
                Some(
                    if tag == EVT_VAR_TYPE_STRING {
                        Variant::String(t)
                    } else {
                        Variant::Xml(t)
                    },
                ),
            ),
            None => Err(WinEvtError::InvalidEncoding),
        }
    } else if tag == EVT_VAR_TYPE_ANSI_STRING {
        match ansi_text_at(b, off) {
            Some(t) => Ok(Some(Variant::AnsiStr(t))),
            None => Err(WinEvtError::InvalidEncoding),
        }
    } else if tag == EVT_VAR_TYPE_BINARY {
        if count as usize > len - off {
            Err(WinEvtError::InvalidEncoding)
        } else {
            Ok(Some(Variant::Binary(copy_range(b, off, off + count as usize))))
        }
    } else if tag == EVT_VAR_TYPE_GUID {
        if len - off < 16 {
            Err(WinEvtError::InvalidEncoding)
        } else {
            Ok(Some(Variant::Guid(guid_at(b, off))))
        }
    } else if tag == EVT_VAR_TYPE_SYS_TIME {
        if len - off < 16 {
            Err(WinEvtError::InvalidEncoding)
        } else {
            Ok(Some(Variant::Systime(systime_at(b, off))))
        }
    } else {
        if len - off < 8 {
            return Err(WinEvtError::InvalidEncoding);
        }
        let n = 8 + 4 * (b[off + 1] as usize);
        if n > len - off {
            Err(WinEvtError::InvalidEncoding)
        } else {
            Ok(Some(Variant::Sid(copy_range(b, off, off + n))))
        }
    }
}
/// Tags that can form an array.
pub open spec fn is_array_elem(tag: u32) -> bool {
    is_numeric(tag) || tag == 1 || tag == 2 || tag == 15 || tag == 18 || tag == 19 || tag == 35
}

/// Where the `i`-th element of width `w` lies, from `off`.
pub open spec fn slot_of(off: int, i: int, w: nat) -> int {
    off + i * w
}

/// The array element of type `tag` stored at `slot`: numbers, GUIDs and times
/// inline, text and identifiers behind a pointer, which must not be null.
#[verifier::opaque]
pub open spec fn element_view(b: Seq<u8>, base: u64, tag: u32, slot: int) -> Result<VariantView, ()> {
    if !in_bounds(b, slot, width_of(tag) as int) {
        Err(())
    } else if is_numeric(tag) {
        Ok(numeric_view(b, tag, slot))
    } else if tag == 15 {
        Ok(VariantView::Guid(guid_view(b, slot)))
    } else if tag == 18 {
        Ok(VariantView::Systime(systime_view(b, slot)))
    } else {
        match pointee_view(b, base, tag, le64(b, slot) as u64, 0) {
            Ok(Some(v)) => Ok(v),
            _ => Err(()),
        }
    }
}

/// An array of `count` elements of type `tag` at `ptr`. A tag that forms no
/// array is no value; a null pointer is an empty array when `count` is 0.
pub open spec fn array_view(b: Seq<u8>, base: u64, tag: u32, ptr: u64, count: u32) -> Result<
    Option<VariantView>,
    (),
> {
    if !is_array_elem(tag) {
        Ok(None)
    } else if ptr == 0 {
        if count == 0 {
            Ok(Some(VariantView::Array(Seq::empty())))
        } else {
            Err(())
        }
    } else {
        match offset_of(b, base, ptr) {
            None => Err(()),
            Some(off) => {
                let w = width_of(tag);
                if !in_bounds(b, off, count * w) {
                    Err(())
                } else if forall|i: int|
                    0 <= i < count ==> #[trigger] element_view(b, base, tag, slot_of(off, i, w))
                        is Ok {
                    Ok(
                        Some(
                            VariantView::Array(
                                Seq::new(
                                    count as nat,
                                    |i: int| element_view(b, base, tag, slot_of(off, i, w))->Ok_0,
                                ),
                            ),
                        ),
                    )
                } else {
                    Err(())
                }
            },
        }
    }
}

fn is_numeric_tag(tag: u32) -> (r: bool)
    ensures
        r == is_numeric(tag),
{
    (EVT_VAR_TYPE_SBYTE <= tag && tag <= EVT_VAR_TYPE_BOOLEAN) || tag == EVT_VAR_TYPE_SIZE_T
        || tag == EVT_VAR_TYPE_FILE_TIME || tag == EVT_VAR_TYPE_HEX_INT32
        || tag == EVT_VAR_TYPE_HEX_INT64
}

fn is_pointee_tag(tag: u32) -> (r: bool)
    ensures
        r == is_pointee(tag),
{
    tag == EVT_VAR_TYPE_STRING || tag == EVT_VAR_TYPE_ANSI_STRING || tag == EVT_VAR_TYPE_BINARY
        || tag == EVT_VAR_TYPE_GUID || tag == EVT_VAR_TYPE_SYS_TIME || tag == EVT_VAR_TYPE_SID
        || tag == EVT_VAR_TYPE_EVT_XML
}

fn width(tag: u32) -> (r: usize)
    ensures
        r == width_of(tag),
        1 <= r <= 16,
{
    if tag == EVT_VAR_TYPE_SBYTE || tag == EVT_VAR_TYPE_BYTE {
        1
    } else if tag == EVT_VAR_TYPE_INT16 || tag == EVT_VAR_TYPE_UINT16 {
        2
    } else if tag == EVT_VAR_TYPE_INT32 || tag == EVT_VAR_TYPE_UINT32 || tag == EVT_VAR_TYPE_SINGLE
        || tag == EVT_VAR_TYPE_BOOLEAN || tag == EVT_VAR_TYPE_HEX_INT32 {
        4
    } else if tag == EVT_VAR_TYPE_GUID || tag == EVT_VAR_TYPE_SYS_TIME {
        16
    } else {
        8
    }
}

fn element_at(b: &[u8], base: u64, tag: u32, slot: usize) -> (r: Result<Variant, WinEvtError>)
    requires
        is_array_elem(tag),
        in_bounds(b@, slot as int, width_of(tag) as int),
    ensures
        element_view(b@, base, tag, slot as int) is Ok <==> r is Ok,
        r is Ok ==> scalar_view(r->Ok_0) == element_view(b@, base, tag, slot as int)->Ok_0
            && !(r->Ok_0 is Array),
        r is Err ==> r->Err_0@ == WinEvtErrorKind::InvalidEncoding,
{
    reveal(element_view);
    if is_numeric_tag(tag) {
        Ok(numeric_at(b, tag, slot))
    } else if tag == EVT_VAR_TYPE_GUID {
        Ok(Variant::Guid(guid_at(b, slot)))
    } else if tag == EVT_VAR_TYPE_SYS_TIME {
        Ok(Variant::Systime(systime_at(b, slot)))
    } else {
        match pointee_at(b, base, tag, read_u64(b, slot), 0) {
            Ok(Some(v)) => Ok(v),
            _ => Err(WinEvtError::InvalidEncoding),
        }
    }
}

proof fn lemma_slot_in_bounds(off: int, i: int, w: nat, count: nat)
    requires
        0 <= i < count,
        0 <= off,
    ensures
        off <= slot_of(off, i, w),
        slot_of(off, i, w) + w <= off + count * w,
{
    assert(i * w + w <= count * w) by (nonlinear_arith)
        requires
            0 <= i < count,
    ;
    assert(0 <= i * w) by (nonlinear_arith)
        requires
            0 <= i,
    ;
}

fn array_at(b: &[u8], base: u64, tag: u32, ptr: u64, count: u32) -> (r: Result<
    Option<Variant>,
    WinEvtError,
>)
    ensures
        decoded(r) == array_view(b@, base, tag, ptr, count),
        encoding_error(r),
{
    if !(is_numeric_tag(tag) || is_pointee_tag(tag)) || tag == EVT_VAR_TYPE_BINARY {
        return Ok(None);
    }
    if ptr == 0 {
        if count == 0 {
            let empty: Vec<Variant> = Vec::new();
            proof {
                assert(Seq::new(empty@.len(), |i: int| scalar_view(empty@[i])) =~= Seq::<
                    VariantView,
                >::empty());
            }
            return Ok(Some(Variant::Array(empty)));
        } else {
            return Err(WinEvtError::InvalidEncoding);
        }
    }
    let len = b.len();
    if ptr < base || ptr - base > len as u64 {
        return Err(WinEvtError::InvalidEncoding);
    }
    let off = (ptr - base) as usize;
    let w = width(tag);
    assert((count as u64) * (w as u64) <= 0xffff_ffffu64 * 16) by (nonlinear_arith)
        requires
            count <= 0xffff_ffffu32,
            w <= 16,
    ;
    if (count as u64) * (w as u64) > (len - off) as u64 {
        return Err(WinEvtError::InvalidEncoding);
    }
    let ghost wn: nat = width_of(tag);
    let n = count as usize;
    let mut items: Vec<Variant> = Vec::with_capacity(n);
    let mut i: usize = 0;
    let mut slot: usize = off;
    while i < n
        invariant
            len == b@.len(),
            base <= ptr,
            off == ptr - base,
            off <= len,
            n == count,
            w == wn,
            wn == width_of(tag),
            is_array_elem(tag),
            off + n * wn <= len,
            i <= n,
            slot == slot_of(off as int, i as int, wn),
            items@.len() == i,
            forall|j: int|
                0 <= j < i ==> #[trigger] element_view(b@, base, tag, slot_of(off as int, j, wn))
                    is Ok,
            forall|j: int|
                0 <= j < i ==> scalar_view(#[trigger] items@[j]) == element_view(
                    b@,
                    base,
                    tag,
                    slot_of(off as int, j, wn),
                )->Ok_0,
        decreases n - i,
    {
        proof {
            lemma_slot_in_bounds(off as int, i as int, wn, n as nat);
        }
        match element_at(b, base, tag, slot) {
            Ok(v) => items.push(v),
            Err(e) => {
                proof {
                    assert(!(element_view(b@, base, tag, slot_of(off as int, i as int, wn)) is Ok));
                    assert(offset_of(b@, base, ptr) == Some(off as int));
                    assert(!(forall|j: int|
                        0 <= j < count ==> #[trigger] element_view(
                            b@,
                            base,
                            tag,
                            slot_of(off as int, j, wn),
                        ) is Ok));
                }
                return Err(e);
            },
        }
        i = i + 1;
        slot = slot + w;
        proof {
            assert(slot_of(off as int, i as int, wn) == slot_of(off as int, i - 1, wn) + wn) by (
            nonlinear_arith)
                requires
                    i >= 1,
            ;
        }
    }
    let r = Ok(Some(Variant::Array(items)));
    proof {
        let ghost expected = Seq::new(
            count as nat,
            |i: int| element_view(b@, base, tag, slot_of(off as int, i, wn))->Ok_0,
        );
        assert(Seq::new(items@.len(), |i: int| scalar_view(items@[i])) =~= expected);
    }
    r
}

/// The record at `at`: a value read by its type tag, or an array of them when
/// the array flag is set. A null or unknown tag is no value.
pub open spec fn record_view(b: Seq<u8>, base: u64, at: int) -> Result<Option<VariantView>, ()> {
    if !in_bounds(b, at, 16) {
        Err(())
    } else {
        let value = le64(b, at) as u64;
        let count = le32(b, at + 8) as u32;
        let ty = le32(b, at + 12) as u32;
        let tag = (ty % 128) as u32;
        if (ty / 128) % 2 == 1 {
            array_view(b, base, tag, value, count)
        } else if is_numeric(tag) {
            Ok(Some(numeric_view(b, tag, at)))
        } else if is_pointee(tag) {
            pointee_view(b, base, tag, value, count)
        } else if tag == 32 && value != 0 {
            Ok(Some(VariantView::EvtHandle(value)))
        } else {
            Ok(None)
        }
    }
}

/// Decodes the variant record at offset `at` of a buffer the service filled;
/// `base` is the address of the buffer's first byte, against which embedded
/// pointers are resolved.
pub fn decode_variant(b: &[u8], base: u64, at: usize) -> (r: Result<Option<Variant>, WinEvtError>)
    ensures
        decoded(r) == record_view(b@, base, at as int),
        encoding_error(r),
{
    let len = b.len();
    if at > len || len - at < EVT_VARIANT_SIZE {
        return Err(WinEvtError::InvalidEncoding);
    }
    let value = read_u64(b, at);
    let count = read_u32(b, at + 8);
    let ty = read_u32(b, at + 12);
    let tag = ty % 128;
    if (ty / 128) % 2 == 1 {
        array_at(b, base, tag, value, count)
    } else if is_numeric_tag(tag) {
        Ok(Some(numeric_at(b, tag, at)))
    } else if is_pointee_tag(tag) {
        pointee_at(b, base, tag, value, count)
    } else if tag == EVT_VAR_TYPE_EVT_HANDLE {
        match ResourceHandle::from_raw(value) {
            Some(h) => Ok(Some(Variant::EvtHandle(h))),
            None => Ok(None),
        }
    } else {
        Ok(None)
    }
}

/// The sixteen hexadecimal digits, upper case.
pub open spec fn hex_digits() -> Seq<char> {
    seq!['0', '1', '2', '3', '4', '5', '6', '7', '8', '9', 'A', 'B', 'C', 'D', 'E', 'F']
}

/// `v` as `width` hexadecimal digits, most significant first.
pub open spec fn hex(v: nat, width: nat) -> Seq<char>
    decreases width,
{
    if width == 0 {
        Seq::empty()
    } else {
        hex(v / 16, (width - 1) as nat).push(hex_digits()[(v % 16) as int])
    }
}

/// The canonical text of a GUID: 8-4-4-4-12 upper-case hexadecimal digits.
pub open spec fn guid_text(g: GuidView) -> Seq<char> {
    hex(g.data1 as nat, 8) + seq!['-'] + hex(g.data2 as nat, 4) + seq!['-'] + hex(
        g.data3 as nat,
        4,
    ) + seq!['-'] + hex(g.data4[0] as nat, 2) + hex(g.data4[1] as nat, 2) + seq!['-']
        + guid_tail(g.data4, 8)
}

fn push_hex(s: &mut String, v: u32, width: u32)
    ensures
        final(s)@ == old(s)@ + hex(v as nat, width as nat),
    decreases width,
{
    if width > 0 {
        push_hex(s, v / 16, width - 1);
        let digits = "0123456789ABCDEF";
        proof {
            reveal_strlit("0123456789ABCDEF");
            assert(digits@ =~= hex_digits());
        }
        let d = (v % 16) as usize;
        s.append(digits.substring_ascii(d, d + 1));
        proof {
            assert(hex(v as nat, width as nat) =~= hex((v / 16) as nat, (width - 1) as nat).push(
                hex_digits()[d as int],
            ));
        }
    }
}

fn push_dash(s: &mut String)
    ensures
        final(s)@ == old(s)@ + seq!['-'],
{
    let dash = "-";
    proof {
        reveal_strlit("-");
    }
    s.append(dash);
    proof {
        assert(dash@ =~= seq!['-']);
    }
}

/// The canonical hyphenated, upper-case hexadecimal text of a GUID.
pub fn format_guid(g: &Guid) -> (r: String)
    ensures
        r@ == guid_text(g@),
{
    let mut s = String::new();
    push_hex(&mut s, g.data1, 8);
    push_dash(&mut s);
    push_hex(&mut s, g.data2 as u32, 4);
    push_dash(&mut s);
    push_hex(&mut s, g.data3 as u32, 4);
    push_dash(&mut s);
    push_hex(&mut s, g.data4[0] as u32, 2);
    push_hex(&mut s, g.data4[1] as u32, 2);
    push_dash(&mut s);
    let mut i: usize = 2;
    while i < 8
        invariant
            2 <= i <= 8,
            s@ == hex(g.data1 as nat, 8) + seq!['-'] + hex(g.data2 as nat, 4) + seq!['-'] + hex(
                g.data3 as nat,
                4,
            ) + seq!['-'] + hex(g.data4@[0] as nat, 2) + hex(g.data4@[1] as nat, 2) + seq!['-']
                + guid_tail(g.data4@, i as int),
        decreases 8 - i,
    {
        push_hex(&mut s, g.data4[i] as u32, 2);
        i = i + 1;
    }
    s
}

/// The digits of `data4[2..upto]`.
pub open spec fn guid_tail(data4: Seq<u8>, upto: int) -> Seq<char>
    decreases upto,
{
    if upto <= 2 {
        Seq::empty()
    } else {
        guid_tail(data4, upto - 1) + hex(data4[upto - 1] as nat, 2)
    }
}

/// The handles a value owns, which are released when it is dropped: a nested
/// handle owns itself, every other value (arrays included) owns none.
pub open spec fn owned_handles(v: VariantView) -> Seq<u64> {
    match v {
        VariantView::EvtHandle(h) => seq![h],
        _ => Seq::empty(),
    }
}

impl Variant {
    /// Gives up the value, handing back the handles it owned, to be released.
    pub fn into_handles(self) -> (r: Vec<ResourceHandle>)
        ensures
            r@.len() == owned_handles(self@).len(),
            forall|i: int| 0 <= i < r@.len() ==> #[trigger] r@[i]@ == owned_handles(self@)[i],
    {
        let mut r: Vec<ResourceHandle> = Vec::new();
        match self {
            Variant::EvtHandle(h) => r.push(h),
            _ => {},
        }
        r
    }
}

/// A record tagged as a nested handle, with a non-null value, decodes to a
/// value that owns exactly that handle, once; so dropping the value releases
/// it exactly once, whether or not it was ever read.
pub proof fn lemma_nested_handle_owned_once(b: Seq<u8>, base: u64, at: int)
    requires
        in_bounds(b, at, 16),
        le32(b, at + 12) == EVT_VAR_TYPE_EVT_HANDLE,
        le64(b, at) != 0,
    ensures
        record_view(b, base, at) == Ok::<Option<VariantView>, ()>(
            Some(VariantView::EvtHandle(le64(b, at) as u64)),
        ),
        owned_handles(record_view(b, base, at)->Ok_0->0) == seq![le64(b, at) as u64],
{
    let ty = le32(b, at + 12) as u32;
    assert(ty == 32);
    assert((ty % 128) as u32 == 32);
    assert((ty / 128) % 2 == 0);
}

/// Bytes one value record takes, in 8-byte words.
pub const WORDS_PER_RECORD: usize = 2;

/// Words a values buffer grows to at most.
pub const MAX_VARIANT_WORDS: usize = 8_388_608;

/// Scratch memory for value records, in 8-byte words so that the records the
/// service writes are aligned; sizes are given to it in bytes.
pub struct VariantBuf {
    buf: GrowableBuffer<u64>,
}

/// Words that hold `bytes` bytes.
pub open spec fn words_for(bytes: nat) -> nat {
    (bytes + 7) / 8
}

impl Default for VariantBuf {
    fn default() -> (r: VariantBuf)
        ensures
            r.buffer().units@.len() == 0,
            r.buffer().limit == MAX_VARIANT_WORDS,
    {
        VariantBuf::new()
    }
}

impl VariantBuf {
    /// The words the service writes into.
    pub closed spec fn buffer(&self) -> GrowableBuffer<u64> {
        self.buf
    }

    /// An empty buffer, grown on first use.
    pub fn new() -> (r: VariantBuf)
        ensures
            r.buffer().units@.len() == 0,
            r.buffer().limit == MAX_VARIANT_WORDS,
            r.buffer().fill == 0u64,
    {
        VariantBuf { buf: GrowableBuffer::new(0, MAX_VARIANT_WORDS, 0u64) }
    }

    /// A buffer of at least `size` bytes, and room for one more record.
    pub fn sized(size: usize) -> (r: VariantBuf)
        ensures
            r.buffer().units@ == Seq::new((size / 8 + WORDS_PER_RECORD) as nat, |_i: int| 0u64),
            r.buffer().fill == 0u64,
            r.buffer().limit == if size / 8 + WORDS_PER_RECORD > MAX_VARIANT_WORDS {
                (size / 8 + WORDS_PER_RECORD) as int
            } else {
                MAX_VARIANT_WORDS as int
            },
    {
        let words = size / 8 + WORDS_PER_RECORD;
        let limit = if words > MAX_VARIANT_WORDS {
            words
        } else {
            MAX_VARIANT_WORDS
        };
        VariantBuf { buf: GrowableBuffer::new(words, limit, 0u64) }
    }

    /// The memory the service writes into; its length is the capacity in words.
    pub fn words_mut(&mut self) -> (r: &mut Vec<u64>)
        ensures
            *r == old(self).buffer().units,
            final(self).buffer().units == *final(r),
            final(self).buffer().limit == old(self).buffer().limit,
            final(self).buffer().fill == old(self).buffer().fill,
    {
        &mut self.buf.units
    }

    /// Capacity in bytes.
    pub fn byte_capacity(&self) -> (r: usize)
        ensures
            r == (if self.buffer().units@.len() * 8 > usize::MAX {
                usize::MAX as int
            } else {
                (self.buffer().units@.len() * 8) as int
            }),
    {
        let words = self.buf.units.len();
        if words > usize::MAX / 8 {
            usize::MAX
        } else {
            words * 8
        }
    }

    /// Zeroes the buffer, keeping its capacity, so that nothing of the last
    /// answer is read again.
    pub fn reset(&mut self)
        ensures
            final(self).buffer().units@ == Seq::new(old(self).buffer().units@.len(), |_i: int| 0u64),
            final(self).buffer().limit == old(self).buffer().limit,
    {
        let n = self.buf.units.len();
        self.buf.units = zeroed(n);
    }

    /// Grows the buffer to hold `size` bytes, discarding what it held.
    pub fn resize(&mut self, size: u32) -> (r: Result<(), WinEvtError>)
        ensures
            words_for(size as nat) > old(self).buffer().limit ==> r is Err && final(self).buffer()
                == old(self).buffer(),
            words_for(size as nat) <= old(self).buffer().limit ==> r is Ok
                && final(self).buffer().units@ == Seq::new(
                grown_capacity(old(self).buffer().units@.len(), words_for(size as nat)),
                |_i: int| old(self).buffer().fill,
            ),
            final(self).buffer().limit == old(self).buffer().limit,
            final(self).buffer().fill == old(self).buffer().fill,
    {
        let words = (size / 8 + if size % 8 == 0 {
            0
        } else {
            1
        }) as usize;
        self.buf.grow(words)
    }

    /// One step of the growth protocol, with sizes in bytes.
    pub fn on_outcome(&mut self, outcome: FetchOutcome) -> (r: FetchStep)
        ensures
            final(self).buffer().limit == old(self).buffer().limit,
            !(outcome is TooSmall) ==> final(self).buffer() == old(self).buffer(),
            outcome is TooSmall && words_for(outcome->required as nat) <= old(self).buffer().limit
                ==> r is Retry && final(self).buffer().units@.len() * 8 >= outcome->required,
            outcome is TooSmall && words_for(outcome->required as nat) > old(self).buffer().limit
                ==> r is Failed,
            outcome is Filled && outcome->used <= old(self).buffer().units@.len() * 8 ==> r == (
            FetchStep::Ready { used: outcome->used }),
            outcome is Filled && outcome->used > old(self).buffer().units@.len() * 8 ==> r is Failed,
            outcome is NoMoreItems ==> r is Exhausted,
            outcome is Failed ==> r == (FetchStep::Failed { error: outcome->error }),
    {
        match outcome {
            FetchOutcome::TooSmall { required } => {
                let words = required / 8 + if required % 8 == 0 {
                    0
                } else {
                    1
                };
                assert(words == words_for(required as nat));
                match self.buf.grow(words) {
                    Ok(()) => FetchStep::Retry,
                    Err(error) => FetchStep::Failed { error },
                }
            },
            FetchOutcome::Filled { used } => {
                if used / 8 + (if used % 8 == 0 { 0 } else { 1 }) <= self.buf.units.len() {
                    FetchStep::Ready { used }
                } else {
                    FetchStep::Failed { error: WinEvtError::InvalidEncoding }
                }
            },
            FetchOutcome::NoMoreItems => FetchStep::Exhausted,
            FetchOutcome::Failed { error } => FetchStep::Failed { error },
        }
    }

    /// Decodes `props` consecutive value records from the start of `b`, whose
    /// first byte is at address `base`.
    pub fn render(b: &[u8], base: u64, props: usize) -> (r: Result<Vec<Option<Variant>>, WinEvtError>)
        ensures
            r is Ok <==> forall|i: int| 0 <= i < props ==> #[trigger] record_view(b@, base, 16 * i) is Ok,
            r is Ok ==> r->Ok_0@.len() == props && forall|i: int|
                0 <= i < props ==> decoded(Ok(#[trigger] r->Ok_0@[i])) == record_view(b@, base, 16 * i),
            r is Err ==> r->Err_0@ == WinEvtErrorKind::InvalidEncoding,
    {
        let len = b.len();
        if props > len / EVT_VARIANT_SIZE {
            proof {
                let i = props - 1;
                assert(!in_bounds(b@, 16 * i, 16));
                assert(!(record_view(b@, base, 16 * i) is Ok));
            }
            return Err(WinEvtError::InvalidEncoding);
        }
        let mut out: Vec<Option<Variant>> = Vec::with_capacity(props);
        let mut i: usize = 0;
        while i < props
            invariant
                props <= len / 16,
                len == b@.len(),
                i <= props,
                out@.len() == i,
                forall|j: int| 0 <= j < i ==> #[trigger] record_view(b@, base, 16 * j) is Ok,
                forall|j: int|
                    0 <= j < i ==> decoded(Ok(#[trigger] out@[j])) == record_view(b@, base, 16 * j),
            decreases props - i,
        {
            match decode_variant(b, base, 16 * i) {
                Ok(v) => out.push(v),
                Err(e) => {
                    return Err(e);
                },
            }
            i = i + 1;
        }
        Ok(out)
    }
}

/// `n` zero words.
fn zeroed(n: usize) -> (r: Vec<u64>)
    ensures
        r@ == Seq::new(n as nat, |_i: int| 0u64),
{
    let mut v: Vec<u64> = Vec::with_capacity(n);
    let mut i: usize = 0;
    while i < n
        invariant
            i <= n,
            v@ == Seq::new(i as nat, |_i: int| 0u64),
        decreases n - i,
    {
        v.push(0);
        i = i + 1;
        proof {
            assert(v@ =~= Seq::new(i as nat, |_i: int| 0u64));
        }
    }
    v
}

/// A record of type `ty` whose value field holds `value`, with count 0.
pub open spec fn scalar_record(value: u64, ty: u32) -> Seq<u8> {
    Seq::new(
        16,
        |i: int|
            if i < 8 {
                byte_of(value as nat, i as nat)
            } else if i < 12 {
                0u8
            } else {
                byte_of(ty as nat, (i - 12) as nat)
            },
    )
}

/// The value of numeric type `tag` that a value field holding `v` stands for:
/// `v` cut to the type's width.
pub open spec fn numeric_of(tag: u32, v: u64) -> VariantView {
    if tag == 3 {
        VariantView::Int8((v % 256) as u8 as i8)
    } else if tag == 4 {
        VariantView::Uint8((v % 256) as u8)
    } else if tag == 5 {
        VariantView::Int16((v % 65536) as u16 as i16)
    } else if tag == 6 {
        VariantView::Uint16((v % 65536) as u16)
    } else if tag == 7 {
        VariantView::Int32((v % 4294967296) as u32 as i32)
    } else if tag == 8 {
        VariantView::Uint32((v % 4294967296) as u32)
    } else if tag == 9 {
        VariantView::Int64(v as i64)
    } else if tag == 10 {
        VariantView::Uint64(v)
    } else if tag == 11 {
        VariantView::F32Bits((v % 4294967296) as u32)
    } else if tag == 12 {
        VariantView::F64Bits(v)
    } else if tag == 13 {
        VariantView::Bool(v % 4294967296 != 0)
    } else if tag == 16 {
        VariantView::SizeT(v)
    } else if tag == 17 {
        VariantView::Filetime(v)
    } else if tag == 20 {
        VariantView::HexInt32((v % 4294967296) as u32)
    } else {
        VariantView::HexInt64(v)
    }
}

/// Round trip: a record of any numeric type whose value field holds `value`
/// decodes to that value at the type's width, wherever the buffer lies.
pub proof fn lemma_scalar_round_trip(value: u64, tag: u32, base: u64)
    requires
        is_numeric(tag),
    ensures
        record_view(scalar_record(value, tag), base, 0) == Ok::<Option<VariantView>, ()>(
            Some(numeric_of(tag, value)),
        ),
{
    let b = scalar_record(value, tag);
    assert(holds_bytes(b, 0, value as nat, 8));
    assert(holds_bytes(b, 12, tag as nat, 4));
    lemma_le16_of(b, 0, value as nat);
    lemma_le32_of(b, 0, value as nat);
    lemma_le64_of(b, 0, value as nat);
    lemma_le32_of(b, 12, tag as nat);
    assert(b[0] == byte_of(value as nat, 0));
}

/// Round trip of an unsigned 32-bit value: it decodes to itself.
pub proof fn lemma_u32_round_trip(x: u32, base: u64)
    ensures
        record_view(scalar_record(x as u64, EVT_VAR_TYPE_UINT32), base, 0) == Ok::<
            Option<VariantView>,
            (),
        >(Some(VariantView::Uint32(x))),
{
    lemma_scalar_round_trip(x as u64, EVT_VAR_TYPE_UINT32, base);
}

} // verus!
