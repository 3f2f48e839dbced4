//! The song text rows of the header.
use vstd::prelude::*;
use vstd::string::StrSliceExecFns;
use vstd::slice::slice_subrange;
use crate::header::{Header, TEXT_ROWS, TEXT_ROW_LEN};

verus! {

/// The text that the bytes `b` encode in UTF-8, if they are valid UTF-8.
pub uninterp spec fn utf8_text(b: Seq<u8>) -> Option<Seq<char>>;

/// Relies on `std::str::from_utf8`: the decoded text of valid UTF-8, an
/// error for anything else.
#[verifier::external_body]
fn decode_utf8(b: &[u8]) -> (r: Option<String>)
    ensures
        match r {
            Some(s) => utf8_text(b@) == Some(s@),
            None => utf8_text(b@) is None,
        },
{
    match std::str::from_utf8(b) {
        Ok(s) => Some(s.to_owned()),
        Err(_) => None,
    }
}

/// Whether `c` is Unicode white space.
pub open spec fn is_ws(c: char) -> bool {
    let v = c as u32;
    (9 <= v <= 13) || v == 32 || v == 0x85 || v == 0xa0 || v == 0x1680 || (0x2000 <= v <= 0x200a)
        || v == 0x2028 || v == 0x2029 || v == 0x202f || v == 0x205f || v == 0x3000
}

fn ws(c: char) -> (r: bool)
    ensures
        r == is_ws(c),
{
    let v = c as u32;
    (9 <= v && v <= 13) || v == 32 || v == 0x85 || v == 0xa0 || v == 0x1680 || (0x2000 <= v && v <= 0x200a)
        || v == 0x2028 || v == 0x2029 || v == 0x202f || v == 0x205f || v == 0x3000
}

/// Whether `s` holds nothing but NUL padding at its ends around white space.
pub open spec fn blank(s: Seq<char>) -> bool {
    exists|a: int, b: int| #![trigger s.subrange(a, b)]
        0 <= a <= b <= s.len()
        && (forall|k: int| 0 <= k < a ==> (#[trigger] s[k]) as u32 == 0)
        && (forall|k: int| b <= k < s.len() ==> (#[trigger] s[k]) as u32 == 0)
        && (forall|k: int| a <= k < b ==> is_ws(#[trigger] s[k]))
}

fn is_blank(s: &str) -> (r: bool)
    ensures
        r == blank(s@),
{
    let n = s.unicode_len();
    let mut a: usize = 0;
    while a < n && s.get_char(a) as u32 == 0
        invariant
            a <= n,
            n == s@.len(),
            forall|k: int| 0 <= k < a ==> (#[trigger] s@[k]) as u32 == 0,
        decreases n - a,
    {
        a = a + 1;
    }
    let mut b: usize = n;
    while b > a && s.get_char(b - 1) as u32 == 0
        invariant
            a <= b <= n,
            n == s@.len(),
            forall|k: int| b <= k < n ==> (#[trigger] s@[k]) as u32 == 0,
        decreases b,
    {
        b = b - 1;
    }
    let mut k: usize = a;
    while k < b
        invariant
            a <= k <= b <= n,
            n == s@.len(),
            a < n ==> s@[a as int] as u32 != 0,
            b > a ==> s@[b - 1] as u32 != 0,
            forall|j: int| 0 <= j < a ==> (#[trigger] s@[j]) as u32 == 0,
            forall|j: int| b <= j < n ==> (#[trigger] s@[j]) as u32 == 0,
            forall|j: int| a <= j < k ==> is_ws(#[trigger] s@[j]),
        decreases b - k,
    {
        let c = s.get_char(k);
        if !ws(c) {
            proof {
                assert forall|a2: int, b2: int| #![trigger s@.subrange(a2, b2)]
                    0 <= a2 <= b2 <= s@.len()
                    && (forall|j: int| 0 <= j < a2 ==> (#[trigger] s@[j]) as u32 == 0)
                    && (forall|j: int| b2 <= j < s@.len() ==> (#[trigger] s@[j]) as u32 == 0)
                    implies !(forall|j: int| a2 <= j < b2 ==> is_ws(#[trigger] s@[j])) by {
                    if a2 > a {
                        assert(s@[a as int] as u32 == 0);
                    }
                    if b2 < b {
                        assert(s@[b - 1] as u32 == 0);
                    }
                    assert(!is_ws(s@[k as int]));
                    if forall|j: int| a2 <= j < b2 ==> is_ws(#[trigger] s@[j]) {
                        assert(is_ws(s@[k as int]));
                    }
                }
                assert(!blank(s@));
            }
            return false;
        }
        k = k + 1;
    }
    assert(s@.subrange(a as int, b as int) == s@.subrange(a as int, b as int));
    true
}

/// The rows among the first `k` text rows of `text` that decode as UTF-8
/// and are not blank, in order.
pub open spec fn kept_rows(text: Seq<u8>, k: nat) -> Seq<Seq<char>>
    decreases k,
{
    if k == 0 {
        Seq::empty()
    } else {
        let prev = kept_rows(text, (k - 1) as nat);
        let row = text.subrange((k - 1) * TEXT_ROW_LEN, k * TEXT_ROW_LEN);
        match utf8_text(row) {
            Some(s) => if blank(s) { prev } else { prev.push(s) },
            None => prev,
        }
    }
}

impl Header {
    /// The rows of song text that are valid UTF-8 and not blank.
    pub fn text_rows(&self) -> (r: Vec<String>)
        requires
            self.wf(),
        ensures
            r@.map_values(|s: String| s@) == kept_rows(self.text@, TEXT_ROWS as nat),
    {
        let mut out: Vec<String> = Vec::new();
        let mut k: usize = 0;
        while k < TEXT_ROWS
            invariant
                k <= TEXT_ROWS,
                self.wf(),
                out@.map_values(|s: String| s@) == kept_rows(self.text@, k as nat),
            decreases TEXT_ROWS - k,
        {
            let row = slice_subrange(self.text.as_slice(), k * TEXT_ROW_LEN, (k + 1) * TEXT_ROW_LEN);
            let ghost before = out@;
            match decode_utf8(row) {
                Some(s) => {
                    if !is_blank(s.as_str()) {
                        out.push(s);
                        assert(out@.map_values(|s: String| s@) == before.map_values(|s: String| s@).push(
                            out@[out@.len() - 1]@));
                    }
                },
                None => {},
            }
            k = k + 1;
        }
        out
    }
}

} // verus!
