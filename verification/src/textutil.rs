//! Text utilities of the file service: sanitizing reply text for
//! transmission, and picking file names and extensions out of paths.
//! They work on the UTF-8 bytes of their inputs, so path separators and
//! dots are found exactly even inside multi-byte text.

use vstd::prelude::*;

use vstd::string::StringSliceAdditionalSpecFns;
use vstd::utf8::{encode_utf8, is_char_boundary};

verus! {

/// Whether a byte survives transmission cleaning: printable ASCII, or a
/// newline, carriage return or tab.
pub open spec fn spec_keep_byte(b: u8) -> bool {
    (32 <= b <= 127) || b == 10 || b == 13 || b == 9
}

/// The kept bytes among the first `i` bytes, in order.
pub open spec fn spec_clean_bytes(b: Seq<u8>, i: int) -> Seq<u8>
    decreases i,
{
    if i <= 0 {
        Seq::empty()
    } else {
        spec_clean_bytes(b, i - 1) + if spec_keep_byte(b[i - 1]) {
            seq![b[i - 1]]
        } else {
            Seq::empty()
        }
    }
}

/// Relies on String::from_utf8: bytes below 128 are valid UTF-8 and each
/// becomes the character of its code point.
#[verifier::external_body]
fn ascii_bytes_to_string(bytes: Vec<u8>) -> (r: String)
    requires
        forall|i: int| 0 <= i < bytes@.len() ==> bytes@[i] < 128,
    ensures
        r@.len() == bytes@.len(),
        forall|i: int| 0 <= i < bytes@.len() ==> r@[i] == bytes@[i] as char,
{
    String::from_utf8(bytes).unwrap_or_default()
}

/// Relies on String::from_utf8: on success the string's UTF-8 encoding is
/// exactly the input bytes.
#[verifier::external_body]
fn utf8_bytes_to_string(bytes: Vec<u8>) -> (r: Option<String>)
    ensures
        r is Some ==> encode_utf8(r->0@) == bytes@,
{
    match String::from_utf8(bytes) {
        Ok(s) => Some(s),
        Err(_) => None,
    }
}

/// Relies on Path::exists: whether the path points at an existing
/// filesystem entity. The answer depends on the machine's disk, so
/// nothing more is promised of it.
#[verifier::external_body]
fn path_exists(path: &str) -> bool {
    std::path::Path::new(path).exists()
}

/// Drop everything but printable ASCII and basic whitespace from a text,
/// so replies survive any transport encoding. The result holds, in
/// order, the characters of the kept bytes of the input's UTF-8 form.
pub fn clean_text_for_transmission(text: &str) -> (r: String)
    ensures
        r@ == spec_clean_bytes(text.spec_bytes(), text.spec_bytes().len() as int).map(
            |i: int, b: u8| b as char,
        ),
{
    let bytes = text.as_bytes();
    let n = bytes.len();
    let mut kept: Vec<u8> = Vec::new();
    let mut i: usize = 0;
    while i < n
        invariant
            i <= n == text.spec_bytes().len(),
            bytes@ == text.spec_bytes(),
            kept@ == spec_clean_bytes(text.spec_bytes(), i as int),
            forall|k: int| 0 <= k < kept@.len() ==> kept@[k] < 128,
        decreases n - i,
    {
        let b = bytes[i];
        if (32 <= b && b <= 127) || b == 10 || b == 13 || b == 9 {
            kept.push(b);
            proof {
                assert(kept@ =~= spec_clean_bytes(text.spec_bytes(), i + 1));
            }
        } else {
            proof {
                assert(kept@ =~= spec_clean_bytes(text.spec_bytes(), i + 1));
            }
        }
        i = i + 1;
    }
    let r = ascii_bytes_to_string(kept);
    proof {
        assert(r@ =~= spec_clean_bytes(text.spec_bytes(), text.spec_bytes().len() as int).map(
            |i: int, b: u8| b as char,
        ));
    }
    r
}

/// The byte index right after the last path separator, or zero when the
/// bytes hold none.
pub open spec fn spec_after_last_sep(b: Seq<u8>) -> int
    decreases b.len(),
{
    if b.len() == 0 {
        0
    } else if b[b.len() - 1] == 47 || b[b.len() - 1] == 92 {
        b.len() as int
    } else {
        spec_after_last_sep(b.drop_last())
    }
}

/// The file name of a path: what follows the last slash or backslash, or
/// the word `unknown` when nothing does.
pub fn extract_filename(path: &str) -> (r: String)
    ensures
        ({
            let b = path.spec_bytes();
            let cut = spec_after_last_sep(b);
            if cut < b.len() && is_char_boundary(b, cut) {
                encode_utf8(r@) == b.subrange(cut, b.len() as int)
            } else {
                r@ == "unknown"@
            }
        }),
{
    let bytes = path.as_bytes();
    let n = bytes.len();
    let mut i = n;
    proof {
        assert(path.spec_bytes().subrange(0, n as int) =~= path.spec_bytes());
    }
    while i > 0 && bytes[i - 1] != 47 && bytes[i - 1] != 92
        invariant
            i <= n == path.spec_bytes().len(),
            bytes@ == path.spec_bytes(),
            spec_after_last_sep(path.spec_bytes()) == spec_after_last_sep(
                path.spec_bytes().subrange(0, i as int),
            ),
        decreases i,
    {
        proof {
            assert(path.spec_bytes().subrange(0, i as int).drop_last() =~= path.spec_bytes()
                .subrange(0, i - 1));
        }
        i = i - 1;
    }
    proof {
        if i == 0 {
            assert(path.spec_bytes().subrange(0, 0) =~= Seq::<u8>::empty());
        } else {
            assert(spec_after_last_sep(path.spec_bytes().subrange(0, i as int)) == i);
        }
    }
    let cut = i;
    if cut < n && path.is_char_boundary(cut) {
        let (_, tail) = path.split_at(cut);
        tail.to_owned()
    } else {
        "unknown".to_owned()
    }
}

/// The byte position of the last dot at or after index `from`, or
/// `from - 1` when there is none.
pub open spec fn spec_last_dot(b: Seq<u8>, from: int) -> int
    decreases b.len(),
{
    if b.len() == 0 || b.len() <= from {
        from - 1
    } else if b[b.len() - 1] == 46 {
        b.len() - 1
    } else {
        spec_last_dot(b.drop_last(), from)
    }
}

/// An ASCII byte lowercased; other bytes unchanged.
pub open spec fn spec_lower_byte(b: u8) -> u8 {
    if 65 <= b <= 90 {
        (b + 32) as u8
    } else {
        b
    }
}

/// The lowercased file extension of a path: what follows the last dot of
/// the file name, when that dot is neither the name's first byte nor
/// missing. ASCII letters are lowercased; other bytes stay as they are.
pub fn get_file_extension(path: &str) -> (r: Option<String>)
    ensures
        ({
            let b = path.spec_bytes();
            let cut = spec_after_last_sep(b);
            let dot = spec_last_dot(b, cut);
            &&& (dot <= cut ==> r is None)
            &&& (r is Some ==> dot > cut && encode_utf8(r->0@) == b.subrange(
                dot + 1,
                b.len() as int,
            ).map(|i: int, x: u8| spec_lower_byte(x)))
        }),
{
    let bytes = path.as_bytes();
    let n = bytes.len();
    proof {
        assert(path.spec_bytes().subrange(0, n as int) =~= path.spec_bytes());
    }

    let mut cut = n;
    while cut > 0 && bytes[cut - 1] != 47 && bytes[cut - 1] != 92
        invariant
            cut <= n == path.spec_bytes().len(),
            bytes@ == path.spec_bytes(),
            spec_after_last_sep(path.spec_bytes()) == spec_after_last_sep(
                path.spec_bytes().subrange(0, cut as int),
            ),
        decreases cut,
    {
        proof {
            assert(path.spec_bytes().subrange(0, cut as int).drop_last() =~= path.spec_bytes()
                .subrange(0, cut - 1));
        }
        cut = cut - 1;
    }
    proof {
        if cut == 0 {
            assert(path.spec_bytes().subrange(0, 0) =~= Seq::<u8>::empty());
        } else {
            assert(spec_after_last_sep(path.spec_bytes().subrange(0, cut as int)) == cut);
        }
    }

    let mut j = n;
    while j > cut && bytes[j - 1] != 46
        invariant
            cut <= j <= n == path.spec_bytes().len(),
            bytes@ == path.spec_bytes(),
            spec_last_dot(path.spec_bytes(), cut as int) == spec_last_dot(
                path.spec_bytes().subrange(0, j as int),
                cut as int,
            ),
        decreases j,
    {
        proof {
            assert(path.spec_bytes().subrange(0, j as int).drop_last() =~= path.spec_bytes()
                .subrange(0, j - 1));
        }
        j = j - 1;
    }
    proof {
        if j == cut {
            lemma_last_dot_short(path.spec_bytes().subrange(0, cut as int), cut as int);
        } else {
            assert(spec_last_dot(path.spec_bytes().subrange(0, j as int), cut as int) == j - 1);
        }
    }
    if j <= cut {
        return None;
    }
    let dot = j - 1;
    if dot <= cut {
        return None;
    }

    let mut lowered: Vec<u8> = Vec::new();
    let mut k = dot + 1;
    proof {
        assert(lowered@ =~= path.spec_bytes().subrange(dot + 1, dot + 1).map(
            |i: int, x: u8| spec_lower_byte(x),
        ));
    }
    while k < n
        invariant
            dot + 1 <= k <= n == path.spec_bytes().len(),
            bytes@ == path.spec_bytes(),
            lowered@ == path.spec_bytes().subrange(dot + 1, k as int).map(
                |i: int, x: u8| spec_lower_byte(x),
            ),
        decreases n - k,
    {
        let b = bytes[k];
        let lb: u8 = if 65 <= b && b <= 90 {
            b + 32
        } else {
            b
        };
        lowered.push(lb);
        proof {
            assert(lowered@ =~= path.spec_bytes().subrange(dot + 1, k + 1).map(
                |i: int, x: u8| spec_lower_byte(x),
            ));
        }
        k = k + 1;
    }
    utf8_bytes_to_string(lowered)
}

/// A sequence no longer than `from` holds no dot at or after `from`.
proof fn lemma_last_dot_short(b: Seq<u8>, from: int)
    requires
        b.len() <= from,
    ensures
        spec_last_dot(b, from) == from - 1,
{
}

/// Whether a path is non-empty and points at an existing filesystem
/// entity. The existence check asks the machine's disk, so only the
/// empty-path refusal is promised.
pub fn is_valid_path(path: &str) -> (r: bool)
    ensures
        path.spec_bytes().len() == 0 ==> !r,
{
    let bytes = path.as_bytes();
    if bytes.len() == 0 {
        return false;
    }
    path_exists(path)
}

} // verus!
