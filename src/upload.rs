use vstd::prelude::*;
use vstd::utf8::{encode_utf8, encode_utf8_valid_utf8, is_char_boundary_iff_is_leading_byte};

verus! {

/// The byte of `'.'`.
pub open spec fn dot() -> u8 {
    46u8
}

/// The file extensions accepted for uploaded videos: `mp4`, `avi` and `mov`.
pub open spec fn is_supported_extension(ext: Seq<u8>) -> bool {
    ||| ext == seq![109u8, 112u8, 52u8]
    ||| ext == seq![97u8, 118u8, 105u8]
    ||| ext == seq![109u8, 111u8, 118u8]
}

/// The index of the last `'.'` among the first `n` bytes of `b`, or -1 if there is none.
pub open spec fn last_dot(b: Seq<u8>, n: int) -> int
    decreases n,
{
    if n <= 0 {
        -1
    } else if b[n - 1] == dot() {
        n - 1
    } else {
        last_dot(b, n - 1)
    }
}

/// The name of an uploaded video whose file name has the bytes `b`: the part before
/// the last dot, provided that part is not empty and the part after it is a
/// supported extension.
pub open spec fn spec_video_name(b: Seq<u8>) -> Option<Seq<u8>> {
    let i = last_dot(b, b.len() as int);
    if i > 0 && is_supported_extension(b.subrange(i + 1, b.len() as int)) {
        Some(b.subrange(0, i))
    } else {
        None
    }
}

proof fn lemma_last_dot_bounds(b: Seq<u8>, n: int)
    requires
        0 <= n <= b.len(),
    ensures
        -1 <= last_dot(b, n) < n,
        last_dot(b, n) >= 0 ==> b[last_dot(b, n)] == dot(),
    decreases n,
{
    if n > 0 && b[n - 1] != dot() {
        lemma_last_dot_bounds(b, n - 1);
    }
}

/// The video name of an uploaded file called `file_name`: its stem when its
/// extension is `mp4`, `avi` or `mov`; `None` for any other name.
pub fn video_name_of(file_name: &str) -> (r: Option<String>)
    ensures
        match spec_video_name(encode_utf8(file_name@)) {
            Some(stem) => r matches Some(n) && encode_utf8(n@) == stem,
            None => r is None,
        },
{
    let b = file_name.as_bytes();
    let ghost bs = encode_utf8(file_name@);
    let mut n: usize = b.len();
    while n > 0 && b[n - 1] != 46u8
        invariant
            b@ == bs,
            n <= bs.len(),
            last_dot(bs, bs.len() as int) == last_dot(bs, n as int),
        decreases n,
    {
        n = n - 1;
    }
    proof {
        lemma_last_dot_bounds(bs, bs.len() as int);
    }
    // `n - 1` is now the index of the last dot, if there is one.
    if n <= 1 {
        return None;
    }
    let i: usize = n - 1;
    if b.len() - n != 3 {
        proof {
            assert(bs.subrange(i + 1, bs.len() as int).len() != 3);
        }
        return None;
    }
    let x: u8 = b[n];
    let y: u8 = b[n + 1];
    let z: u8 = b[n + 2];
    let supported = (x == 109u8 && y == 112u8 && z == 52u8) || (x == 97u8 && y == 118u8 && z == 105u8)
        || (x == 109u8 && y == 111u8 && z == 118u8);
    proof {
        let ext = bs.subrange(i + 1, bs.len() as int);
        assert(ext =~= seq![x, y, z]);
    }
    if !supported {
        return None;
    }
    proof {
        encode_utf8_valid_utf8(file_name@);
        is_char_boundary_iff_is_leading_byte(bs, i as int);
    }
    let (stem, _) = file_name.split_at(i);
    let name = stem.to_owned();
    Some(name)
}

/// The supported extensions, for messages to clients: `mp4`, `avi`, `mov`.
pub fn supported_video_formats() -> (r: Vec<&'static str>)
    ensures
        r@.map_values(|e: &str| e@) == seq!["mp4"@, "avi"@, "mov"@],
{
    let v: Vec<&'static str> = vec!["mp4", "avi", "mov"];
    proof {
        assert(v@.map_values(|e: &str| e@) =~= seq!["mp4"@, "avi"@, "mov"@]);
    }
    v
}

} // verus!
