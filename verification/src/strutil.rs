//! Small verified helpers over strings.

use vstd::prelude::*;
use vstd::string::StrSliceExecFns;
use vstd::utf8::encode_utf8_decode_utf8;

use crate::types::bytes_eq;

verus! {

/// Exact string equality, decided by comparing the UTF-8 bytes.
pub fn str_eq(a: &str, b: &str) -> (r: bool)
    ensures
        r == (a@ == b@),
{
    let r = bytes_eq(a.as_bytes(), b.as_bytes());
    proof {
        encode_utf8_decode_utf8(a@);
        encode_utf8_decode_utf8(b@);
    }
    r
}

/// View equality of two optional strings.
pub open spec fn opt_str_eqv(a: Option<String>, b: Option<String>) -> bool {
    match (a, b) {
        (None, None) => true,
        (Some(s1), Some(s2)) => s1@ == s2@,
        _ => false,
    }
}

/// View equality of two optional byte vectors.
pub open spec fn opt_bytes_eqv(a: Option<Vec<u8>>, b: Option<Vec<u8>>) -> bool {
    match (a, b) {
        (None, None) => true,
        (Some(v1), Some(v2)) => v1@ == v2@,
        _ => false,
    }
}

/// Element-wise view equality of two string sequences.
pub open spec fn str_seq_eqv(a: Seq<String>, b: Seq<String>) -> bool {
    &&& a.len() == b.len()
    &&& forall|i: int| 0 <= i < a.len() ==> a[i]@ == b[i]@
}

/// View equality of two optional tag lists.
pub open spec fn opt_str_vec_eqv(a: Option<Vec<String>>, b: Option<Vec<String>>) -> bool {
    match (a, b) {
        (None, None) => true,
        (Some(v1), Some(v2)) => str_seq_eqv(v1@, v2@),
        _ => false,
    }
}

/// Copy a vector of strings, preserving each string's characters.
pub fn clone_string_vec(v: &Vec<String>) -> (r: Vec<String>)
    ensures
        str_seq_eqv(r@, v@),
{
    let mut out: Vec<String> = Vec::new();
    let n: usize = v.len();
    let mut i: usize = 0;
    while i < n
        invariant
            n == v@.len(),
            i <= n,
            out@.len() == i,
            forall|j: int| 0 <= j < i ==> out@[j]@ == v@[j]@,
        decreases n - i,
    {
        out.push(v[i].clone());
        i += 1;
    }
    out
}

} // verus!
