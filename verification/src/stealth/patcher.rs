use vstd::prelude::*;
use crate::error::XcelerateError;
use crate::stealth::search::{compile_pattern, find_first, regex_compiles, regex_first_match};

verus! {

/// The pattern of the automation marker that the stealth patch neutralises:
/// an object literal that starts with `{window.cdc` and ends at the first
/// following `;}`.
pub const CDC_PATTERN: &'static str = "\\{window\\.cdc.*?;\\}";

/// The bytes written over the automation marker.
pub open spec fn stealth_payload() -> Seq<u8> {
    seq![
        123u8, 99, 111, 110, 115, 111, 108, 101, 46, 108, 111, 103, 40, 34, 120, 99, 101, 108, 101,
        114, 97, 116, 101, 32, 115, 116, 101, 97, 108, 116, 104, 32, 97, 99, 116, 105, 118, 101, 33,
        34, 41, 125,
    ]
}

/// The stealth payload brought to exactly `len` bytes: cut short, or padded
/// with spaces.
pub open spec fn fitted_payload(len: nat) -> Seq<u8> {
    if stealth_payload().len() > len {
        stealth_payload().take(len as int)
    } else {
        stealth_payload() + Seq::new((len - stealth_payload().len()) as nat, |i: int| 32u8)
    }
}

/// `content` with the bytes in `start..end` replaced by the fitted payload.
pub open spec fn patched(content: Seq<u8>, start: int, end: int) -> Seq<u8> {
    content.take(start) + fitted_payload((end - start) as nat) + content.skip(end)
}

/// The payload bytes `{console.log("xcelerate stealth active!")}`.
fn payload_bytes() -> (r: Vec<u8>)
    ensures
        r@ == stealth_payload(),
{
    let r: Vec<u8> = vec![
        123u8, 99, 111, 110, 115, 111, 108, 101, 46, 108, 111, 103, 40, 34, 120, 99, 101, 108, 101,
        114, 97, 116, 101, 32, 115, 116, 101, 97, 108, 116, 104, 32, 97, 99, 116, 105, 118, 101, 33,
        34, 41, 125,
    ];
    assert(r@ =~= stealth_payload());
    r
}

/// The binary patcher that neutralises the automation marker in a browser
/// executable.
pub struct BinaryPatcher;

impl BinaryPatcher {
    /// The stealth payload brought to exactly `len` bytes.
    pub fn fit_payload(len: usize) -> (r: Vec<u8>)
        ensures
            r@ == fitted_payload(len as nat),
    {
        let mut payload = payload_bytes();
        if payload.len() > len {
            payload.truncate(len);
            assert(payload@ =~= fitted_payload(len as nat));
        } else {
            let base = payload.len();
            let mut k: usize = base;
            while k < len
                invariant
                    base == stealth_payload().len(),
                    base <= k <= len,
                    payload@ =~= stealth_payload() + Seq::new((k - base) as nat, |i: int| 32u8),
                decreases len - k,
            {
                payload.push(32u8);
                k = k + 1;
            }
            assert(payload@ =~= fitted_payload(len as nat));
        }
        payload
    }

    /// Overwrites `content[start..end]` with the payload fitted to the
    /// range, leaving every other byte in place.
    pub fn apply_match(content: Vec<u8>, start: usize, end: usize) -> (r: Vec<u8>)
        requires
            start <= end <= content@.len(),
        ensures
            r@ == patched(content@, start as int, end as int),
    {
        let payload = Self::fit_payload(end - start);
        let mut out = content;
        let mut k: usize = 0;
        while k < end - start
            invariant
                start <= end <= content@.len(),
                out@.len() == content@.len(),
                payload@ == fitted_payload((end - start) as nat),
                payload@.len() == end - start,
                0 <= k <= end - start,
                forall|j: int| 0 <= j < start ==> out@[j] == content@[j],
                forall|j: int| end <= j < content@.len() ==> out@[j] == content@[j],
                forall|j: int| start + k <= j < end ==> out@[j] == content@[j],
                forall|j: int| 0 <= j < k ==> out@[start + j] == payload@[j],
            decreases end - start - k,
        {
            out.set(start + k, payload[k]);
            k = k + 1;
        }
        assert(out@ =~= patched(content@, start as int, end as int));
        out
    }

    /// Neutralises the first automation marker in the bytes of an
    /// executable. Returns the patched bytes (the first match's range lies
    /// within the content), `None` when there is no marker
    /// (the executable is left as it is), and `InternalError` when the
    /// marker pattern does not compile.
    pub fn patch_bytes(content: Vec<u8>) -> (r: Result<Option<Vec<u8>>, XcelerateError>)
        ensures
            !regex_compiles(CDC_PATTERN@) ==> r matches Err(XcelerateError::InternalError),
            regex_compiles(CDC_PATTERN@) ==> (r matches Ok(p) && match regex_first_match(
                CDC_PATTERN@,
                content@,
            ) {
                Some((s, e)) => s <= e <= content@.len() && (p matches Some(bytes) && bytes@
                    == patched(content@, s as int, e as int)),
                None => p is None,
            }),
    {
        let compiled = match compile_pattern(CDC_PATTERN) {
            Ok(c) => c,
            Err(_) => return Err(XcelerateError::InternalError),
        };
        match find_first(&compiled, content.as_slice()) {
            Some((start, end)) => Ok(Some(Self::apply_match(content, start, end))),
            None => Ok(None),
        }
    }
}

/// The patched copy keeps the size of the executable.
pub proof fn lemma_patch_keeps_length(content: Seq<u8>, start: int, end: int)
    requires
        0 <= start <= end <= content.len(),
    ensures
        patched(content, start, end).len() == content.len(),
{
}

/// The patch changes no byte outside the matched range, and the matched
/// range holds the payload brought to the range's length: the payload's
/// first bytes when the range is shorter than it, the whole payload followed
/// by spaces otherwise.
pub proof fn lemma_patch_region(content: Seq<u8>, start: int, end: int, j: int)
    requires
        0 <= start <= end <= content.len(),
        0 <= j < content.len(),
    ensures
        (j < start || end <= j) ==> patched(content, start, end)[j] == content[j],
        start <= j < end && j - start < stealth_payload().len() ==> patched(content, start, end)[j]
            == stealth_payload()[j - start],
        start <= j < end && j - start >= stealth_payload().len() ==> patched(content, start, end)[j]
            == 32u8,
{
}

/// The payload brought to a length has exactly that length.
pub proof fn lemma_fitted_length(len: nat)
    ensures
        fitted_payload(len).len() == len,
{
}

/// The file name of the patched copy of an executable named `file_name`.
pub open spec fn patched_name(file_name: Seq<char>) -> Seq<char> {
    "xcelerate_"@ + file_name
}

/// The file name of the patched copy of an executable: the original name
/// with the prefix `xcelerate_`. The copy lives beside the original so
/// that the libraries it loads from its own directory are found.
pub fn patched_file_name(file_name: &str) -> (r: String)
    ensures
        r@ == patched_name(file_name@),
{
    let mut s = "xcelerate_".to_owned();
    crate::text::push_text(&mut s, file_name);
    s
}

} // verus!
