//! Stored files: the extension a report attachment is saved under.

use vstd::prelude::*;
use crate::text::{chars_of, string_of};

verus! {

/// What follows the last `.` of `name`, or `bin` when `name` is absent or
/// has no `.`.
pub open spec fn extension_of(name: Option<Seq<char>>) -> Seq<char> {
    match name {
        Some(n) => if n.contains('.') {
            let i = choose|i: int|
                0 <= i < n.len() && n[i] == '.' && forall|k: int| i < k < n.len() ==> n[k] != '.';
            n.subrange(i + 1, n.len() as int)
        } else {
            "bin"@
        },
        None => "bin"@,
    }
}

/// The extension an attachment is stored under: the part of its file name
/// after the last `.`, else `bin`.
pub fn attachment_extension(name: Option<&str>) -> (r: String)
    ensures
        r@ == extension_of(
            match name {
                Some(n) => Some(n@),
                None => None,
            },
        ),
{
    match name {
        None => String::from_str("bin"),
        Some(n) => {
            let v = chars_of(n);
            let mut i: usize = v.len();
            while i > 0 && v[i - 1] != '.'
                invariant
                    i <= v@.len(),
                    v@ == n@,
                    forall|k: int| i <= k < v@.len() ==> v@[k] != '.',
                decreases i,
            {
                i = i - 1;
            }
            if i == 0 {
                proof {
                    if n@.contains('.') {
                        let k = choose|k: int| 0 <= k < n@.len() && n@[k] == '.';
                        assert(v@[k] != '.');
                    }
                }
                String::from_str("bin")
            } else {
                let mut out: Vec<char> = Vec::new();
                let mut k: usize = i;
                while k < v.len()
                    invariant
                        i <= k <= v@.len(),
                        out@ == v@.subrange(i as int, k as int),
                    decreases v.len() - k,
                {
                    out.push(v[k]);
                    proof {
                        assert(v@.subrange(i as int, k + 1) =~= v@.subrange(i as int, k as int).push(
                            v@[k as int],
                        ));
                    }
                    k = k + 1;
                }
                proof {
                    assert(n@.contains('.')) by {
                        assert(n@[i - 1] == '.');
                    }
                    let j = choose|j: int|
                        0 <= j < n@.len() && n@[j] == '.' && forall|k: int|
                            j < k < n@.len() ==> n@[k] != '.';
                    assert(j == i - 1) by {
                        if j < i - 1 {
                            assert(n@[i - 1] == '.');
                        } else if j > i - 1 {
                            assert(v@[j] != '.');
                        }
                    }
                }
                string_of(&out)
            }
        },
    }
}

} // verus!
