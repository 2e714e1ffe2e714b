//! Bytes exchanged with the device: the brightness feature report, the
//! chunked reports that carry a key's tile, and the key-state input report.
use vstd::prelude::*;

verus! {

/// Size of every report that carries tile data.
pub const IMAGE_REPORT_SIZE: usize = 1024;

/// Size of the header that starts each tile report.
pub const IMAGE_REPORT_HEADER_SIZE: usize = 8;

/// Tile bytes carried by one report.
pub const IMAGE_REPORT_PAYLOAD_SIZE: usize = IMAGE_REPORT_SIZE - IMAGE_REPORT_HEADER_SIZE;

/// Size of the brightness feature report and of the key-state report.
pub const SMALL_REPORT_SIZE: usize = 32;

/// First byte of the key-state report that belongs to a key.
pub const KEY_STATE_OFFSET: usize = 4;

/// One past the last byte of the key-state report that belongs to a key.
pub const KEY_STATE_END: usize = 19;

/// Brightness percentage the device is sent: at most 100.
pub open spec fn clamp_percent(p: int) -> int {
    if p > 100 {
        100
    } else {
        p
    }
}

/// The brightness feature report: command `03 08`, the percentage, zeros.
pub open spec fn brightness_report_spec(p: int) -> Seq<u8> {
    seq![0x03u8, 0x08u8, clamp_percent(p) as u8] + Seq::new(29, |_i: int| 0u8)
}

/// Feature report that sets the display brightness (capped at 100 percent).
pub fn brightness_report(percentage: usize) -> (r: Vec<u8>)
    ensures
        r@ == brightness_report_spec(percentage as int),
        r@.len() == SMALL_REPORT_SIZE,
{
    let p: u8 = if percentage > 100 {
        100
    } else {
        percentage as u8
    };
    let mut r: Vec<u8> = Vec::new();
    r.push(0x03);
    r.push(0x08);
    r.push(p);
    while r.len() < SMALL_REPORT_SIZE
        invariant
            3 <= r@.len() <= SMALL_REPORT_SIZE,
            r@.subrange(0, 3) == seq![0x03u8, 0x08u8, clamp_percent(percentage as int) as u8],
            forall|i: int| 3 <= i < r@.len() ==> r@[i] == 0,
        decreases SMALL_REPORT_SIZE - r.len(),
    {
        r.push(0);
    }
    assert(r@ =~= brightness_report_spec(percentage as int));
    r
}

/// Number of reports a tile of `len` bytes takes.
pub open spec fn report_count(len: int) -> int {
    if len % (IMAGE_REPORT_PAYLOAD_SIZE as int) == 0 {
        len / (IMAGE_REPORT_PAYLOAD_SIZE as int)
    } else {
        len / (IMAGE_REPORT_PAYLOAD_SIZE as int) + 1
    }
}

/// Tile bytes carried by report `page` of a tile of `len` bytes.
pub open spec fn chunk_len(len: int, page: int) -> int {
    let rest = len - page * IMAGE_REPORT_PAYLOAD_SIZE;
    if rest < IMAGE_REPORT_PAYLOAD_SIZE {
        rest
    } else {
        IMAGE_REPORT_PAYLOAD_SIZE as int
    }
}

/// Header of report `page` for key `key`: opcode `02 07`, the key, whether
/// this is the last report, the chunk length and the page number, both
/// little-endian 16-bit.
pub open spec fn image_header(key: u8, len: int, page: int) -> Seq<u8> {
    let n = chunk_len(len, page);
    seq![
        0x02u8,
        0x07u8,
        key,
        if page * IMAGE_REPORT_PAYLOAD_SIZE + n == len {
            1u8
        } else {
            0u8
        },
        (n % 256) as u8,
        ((n / 256) % 256) as u8,
        (page % 256) as u8,
        ((page / 256) % 256) as u8,
    ]
}

/// Report `page` of the tile `data` for key `key`: header, chunk, zero padding.
pub open spec fn image_report(key: u8, data: Seq<u8>, page: int) -> Seq<u8> {
    let start = page * IMAGE_REPORT_PAYLOAD_SIZE;
    let n = chunk_len(data.len() as int, page);
    image_header(key, data.len() as int, page) + data.subrange(start, start + n) + Seq::new(
        (IMAGE_REPORT_PAYLOAD_SIZE - n) as nat,
        |_i: int| 0u8,
    )
}

fn image_report_at(key: u8, data: &[u8], page: usize) -> (r: Vec<u8>)
    requires
        page * IMAGE_REPORT_PAYLOAD_SIZE < data@.len(),
    ensures
        r@ == image_report(key, data@, page as int),
        r@.len() == IMAGE_REPORT_SIZE,
{
    let len = data.len();
    let start = page * IMAGE_REPORT_PAYLOAD_SIZE;
    let remaining = len - start;
    let n = if remaining < IMAGE_REPORT_PAYLOAD_SIZE {
        remaining
    } else {
        IMAGE_REPORT_PAYLOAD_SIZE
    };
    let last: u8 = if n == remaining {
        1
    } else {
        0
    };
    let mut r: Vec<u8> = Vec::new();
    r.push(0x02);
    r.push(0x07);
    r.push(key);
    r.push(last);
    r.push((n % 256) as u8);
    r.push(((n / 256) % 256) as u8);
    r.push((page % 256) as u8);
    r.push(((page / 256) % 256) as u8);
    let ghost header = r@;
    assert(header =~= image_header(key, data@.len() as int, page as int));
    let mut i: usize = 0;
    while i < n
        invariant
            len == data@.len(),
            start + n <= len,
            n <= IMAGE_REPORT_PAYLOAD_SIZE,
            i <= n,
            r@ =~= header + data@.subrange(start as int, start + i),
        decreases n - i,
    {
        r.push(data[start + i]);
        i = i + 1;
        assert(r@ =~= header + data@.subrange(start as int, start + i));
    }
    while r.len() < IMAGE_REPORT_SIZE
        invariant
            8 + n <= r@.len() <= IMAGE_REPORT_SIZE,
            n <= IMAGE_REPORT_PAYLOAD_SIZE,
            r@.subrange(0, 8 + n as int) =~= header + data@.subrange(start as int, start + n),
            forall|j: int| 8 + n <= j < r@.len() ==> r@[j] == 0,
        decreases IMAGE_REPORT_SIZE - r.len(),
    {
        r.push(0);
    }
    assert(r@ =~= image_report(key, data@, page as int));
    r
}

/// Splits a key's tile into device reports, in the order they must be sent.
pub fn image_reports(key: u8, data: &[u8]) -> (r: Vec<Vec<u8>>)
    ensures
        r@.len() == report_count(data@.len() as int),
        forall|i: int|
            0 <= i < r@.len() ==> (#[trigger] r@[i])@ == image_report(key, data@, i),
{
    let len = data.len();
    let count = if len % IMAGE_REPORT_PAYLOAD_SIZE == 0 {
        len / IMAGE_REPORT_PAYLOAD_SIZE
    } else {
        len / IMAGE_REPORT_PAYLOAD_SIZE + 1
    };
    let mut r: Vec<Vec<u8>> = Vec::new();
    let mut page: usize = 0;
    while page < count
        invariant
            len == data@.len(),
            count == report_count(len as int),
            page <= count,
            r@.len() == page,
            forall|i: int| 0 <= i < r@.len() ==> (#[trigger] r@[i])@ == image_report(key, data@, i),
        decreases count - page,
    {
        proof {
            let d = IMAGE_REPORT_PAYLOAD_SIZE as int;
            let l = len as int;
            let c = count as int;
            let p = page as int;
            assert(p * d < l) by (nonlinear_arith)
                requires
                    p < c,
                    d == 1016,
                    l >= 0,
                    c == if l % d == 0 {
                        l / d
                    } else {
                        l / d + 1
                    },
            ;
        }
        r.push(image_report_at(key, data, page));
        page = page + 1;
    }
    r
}

/// Index of the first byte equal to 1, if any.
pub open spec fn first_pressed(s: Seq<u8>, from: int) -> Option<int>
    decreases s.len() - from,
{
    if from >= s.len() || from < 0 {
        None
    } else if s[from] == 1 {
        Some(from)
    } else {
        first_pressed(s, from + 1)
    }
}

/// Position of the first byte equal to 1 in `buf`: the pressed key.
pub fn get_pressed_button(buf: &[u8]) -> (r: Option<usize>)
    ensures
        r matches Some(i) ==> first_pressed(buf@, 0) == Some(i as int),
        r is None ==> first_pressed(buf@, 0) is None,
{
    let mut i: usize = 0;
    while i < buf.len()
        invariant
            i <= buf@.len(),
            first_pressed(buf@, 0) == first_pressed(buf@, i as int),
        decreases buf@.len() - i,
    {
        if buf[i] == 1 {
            return Some(i);
        }
        i = i + 1;
    }
    None
}

/// The key bytes of a key-state report.
pub open spec fn key_bytes(report: Seq<u8>) -> Seq<u8> {
    report.subrange(KEY_STATE_OFFSET as int, KEY_STATE_END as int)
}

/// The key that a key-state read reports as pressed: none when the read
/// returned no bytes, else the first key byte equal to 1.
pub fn pressed_key_from_report(report: &[u8], size: usize) -> (r: Option<usize>)
    requires
        report@.len() >= KEY_STATE_END,
    ensures
        size == 0 ==> r is None,
        size > 0 ==> (r matches Some(i) ==> first_pressed(key_bytes(report@), 0) == Some(
            i as int,
        )),
        size > 0 ==> (r is None ==> first_pressed(key_bytes(report@), 0) is None),
{
    if size == 0 {
        return None;
    }
    let ghost keys = key_bytes(report@);
    let mut i: usize = 0;
    while i < KEY_STATE_END - KEY_STATE_OFFSET
        invariant
            size > 0,
            report@.len() >= KEY_STATE_END,
            keys == key_bytes(report@),
            i <= KEY_STATE_END - KEY_STATE_OFFSET,
            first_pressed(keys, 0) == first_pressed(keys, i as int),
        decreases KEY_STATE_END - KEY_STATE_OFFSET - i,
    {
        if report[KEY_STATE_OFFSET + i] == 1 {
            return Some(i);
        }
        i = i + 1;
    }
    None
}

} // verus!
