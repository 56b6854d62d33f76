//! Face records: the stored resolution text and the liveness challenges.

use vstd::prelude::*;
use crate::decimal::{parse_u32, parse_unsigned};
use crate::reviews::ImageKind;
use crate::status::Status;
use crate::text::{chars_of, str_eq};

verus! {

/// The index of the first `x` in `s`, if any.
pub open spec fn first_x(s: Seq<char>) -> Option<int> {
    if s.contains('x') {
        Some(choose|i: int| 0 <= i < s.len() && s[i] == 'x' && forall|k: int| 0 <= k < i ==> s[k] != 'x')
    } else {
        None
    }
}

/// What `parse_resolution` reads: the text before the first `x` and the text
/// after it, each as a `u32`.
pub open spec fn resolution_of(s: Seq<char>) -> Option<(u32, u32)> {
    match first_x(s) {
        Some(i) => match (
            parse_unsigned(s.subrange(0, i), u32::MAX as nat),
            parse_unsigned(s.subrange(i + 1, s.len() as int), u32::MAX as nat),
        ) {
            (Some(w), Some(h)) => Some((w as u32, h as u32)),
            _ => None,
        },
        None => None,
    }
}

fn copy_range(v: &Vec<char>, from: usize, to: usize) -> (r: Vec<char>)
    requires
        from <= to <= v@.len(),
    ensures
        r@ == v@.subrange(from as int, to as int),
{
    let mut r: Vec<char> = Vec::new();
    let mut k = from;
    while k < to
        invariant
            from <= k <= to <= v@.len(),
            r@ == v@.subrange(from as int, k as int),
        decreases to - k,
    {
        r.push(v[k]);
        proof {
            assert(v@.subrange(from as int, k + 1) =~= v@.subrange(from as int, k as int).push(
                v@[k as int],
            ));
        }
        k = k + 1;
    }
    r
}

/// Reads a stored resolution `"<width>x<height>"`: split at the first `x`,
/// both sides read as `u32`.
pub fn parse_resolution(s: &str) -> (r: Option<(u32, u32)>)
    ensures
        r == resolution_of(s@),
{
    let v = chars_of(s);
    let mut i: usize = 0;
    while i < v.len() && v[i] != 'x'
        invariant
            i <= v@.len(),
            v@ == s@,
            forall|k: int| 0 <= k < i ==> v@[k] != 'x',
        decreases v.len() - i,
    {
        i = i + 1;
    }
    if i == v.len() {
        proof {
            if s@.contains('x') {
                let k = choose|k: int| 0 <= k < s@.len() && s@[k] == 'x';
                assert(v@[k] != 'x');
            }
        }
        return None;
    }
    proof {
        assert(s@.contains('x')) by {
            assert(s@[i as int] == 'x');
        }
        let j = first_x(s@).unwrap();
        assert(j == i) by {
            if j < i {
                assert(v@[j] != 'x');
            } else if j > i {
                assert(s@[i as int] == 'x');
            }
        }
    }
    let w = copy_range(&v, 0, i);
    let h = copy_range(&v, i + 1, v.len());
    match (parse_u32(&w), parse_u32(&h)) {
        (Some(a), Some(b)) => Some((a, b)),
        _ => None,
    }
}

/// The liveness challenges that can be recorded against a face record.
pub open spec fn allowed_challenge(c: Seq<char>) -> bool {
    ||| c == "turn_left"@
    ||| c == "turn_right"@
    ||| c == "blink"@
    ||| c == "nod"@
    ||| c == "smile"@
    ||| c == "tilt"@
}

/// A liveness check recorded against a face record.
#[derive(Clone, Debug)]
pub struct RecordLivenessRequest {
    pub challenge: String,
    pub passed: bool,
    pub notes: Option<String>,
}

/// The challenge of a liveness record must be one of `turn_left`,
/// `turn_right`, `blink`, `nod`, `smile`, `tilt`; anything else is a bad
/// request.
pub fn check_liveness_challenge(req: &RecordLivenessRequest) -> (r: Result<(), Status>)
    ensures
        allowed_challenge(req.challenge@) ==> r == Ok::<(), Status>(()),
        !allowed_challenge(req.challenge@) ==> r == Err::<(), Status>(Status::BadRequest),
{
    let challenge = req.challenge.as_str();
    if str_eq(challenge, "turn_left") || str_eq(challenge, "turn_right") || str_eq(
        challenge,
        "blink",
    ) || str_eq(challenge, "nod") || str_eq(challenge, "smile") || str_eq(challenge, "tilt") {
        Ok(())
    } else {
        Err(Status::BadRequest)
    }
}

/// The file extension a captured face image is stored under: `jpg` for
/// JPEG, `png` for PNG; any other or missing content type is unsupported.
pub fn face_image_extension(kind: Option<ImageKind>) -> (r: Result<&'static str, Status>)
    ensures
        kind == Some(ImageKind::Jpeg) ==> (r matches Ok(e) && e@ == "jpg"@),
        kind == Some(ImageKind::Png) ==> (r matches Ok(e) && e@ == "png"@),
        kind != Some(ImageKind::Jpeg) && kind != Some(ImageKind::Png) ==> r == Err::<
            &'static str,
            Status,
        >(Status::UnsupportedMediaType),
{
    match kind {
        Some(ImageKind::Jpeg) => Ok("jpg"),
        Some(ImageKind::Png) => Ok("png"),
        _ => Err(Status::UnsupportedMediaType),
    }
}

} // verus!
