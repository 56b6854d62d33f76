//! Work orders and their reviews: when a review may be written, when an
//! image may be attached, and when an order may be completed.

use vstd::prelude::*;
use crate::auth_state::Role;
use crate::catalog::Instant;
use crate::status::Status;
use crate::text::str_eq;

verus! {

/// The most images one review may carry.
pub const MAX_IMAGES_PER_REVIEW: i64 = 5;

/// The largest accepted review image, in bytes.
pub const MAX_IMAGE_SIZE_BYTES: u64 = 2097152;

/// The most reviews one user may write in a day.
pub const MAX_REVIEWS_PER_DAY: i64 = 3;

/// How many days after completion a work order can still be reviewed.
pub const REVIEW_WINDOW_DAYS: i64 = 14;

/// The last second a `chrono::NaiveDateTime` can hold, as a Unix timestamp;
/// adding a duration past it panics in chrono.
pub const LATEST_TIMESTAMP: i64 = 8210266876799;

/// A work order as the review rules see it.
#[derive(Clone, Debug)]
pub struct WorkOrderRow {
    pub requester: u128,
    /// `pending`, `completed`, `cancelled`, ...
    pub status: String,
    pub completed_at: Option<Instant>,
}

/// A rating must lie in 1..=5.
pub fn check_rating(r: u8) -> (res: Result<(), Status>)
    ensures
        1 <= r <= 5 ==> res is Ok,
        !(1 <= r <= 5) ==> res == Err::<(), Status>(Status::BadRequest),
{
    if !(1 <= r && r <= 5) {
        Err(Status::BadRequest)
    } else {
        Ok(())
    }
}

/// The daily cap: a user who already wrote `MAX_REVIEWS_PER_DAY` reviews
/// today gets "too many requests".
pub fn check_daily_cap(count_today: i64) -> (r: Result<(), Status>)
    ensures
        count_today < MAX_REVIEWS_PER_DAY ==> r == Ok::<(), Status>(()),
        count_today >= MAX_REVIEWS_PER_DAY ==> r == Err::<(), Status>(Status::TooManyRequests),
{
    if count_today >= MAX_REVIEWS_PER_DAY {
        Err(Status::TooManyRequests)
    } else {
        Ok(())
    }
}

/// The review window is open while `now` is not later than completion plus
/// `REVIEW_WINDOW_DAYS` days.
pub open spec fn window_open(completed: Instant, now: Instant) -> bool {
    let limit = completed.0 + REVIEW_WINDOW_DAYS * 86400;
    !(limit < now.0 || (limit == now.0 && completed.1 < now.1))
}

/// The checks every review shares, in order: rating, existence of the work
/// order, ownership, completed status, a completion time; giving back the
/// completion time.
pub open spec fn order_check(user: u128, rating: u8, order: Option<WorkOrderRow>) -> Result<
    Instant,
    Status,
> {
    if !(1 <= rating <= 5) {
        Err(Status::BadRequest)
    } else {
        match order {
            None => Err(Status::NotFound),
            Some(o) => if o.requester != user {
                Err(Status::Forbidden)
            } else if o.status@ != "completed"@ {
                Err(Status::BadRequest)
            } else {
                match o.completed_at {
                    None => Err(Status::BadRequest),
                    Some(c) => Ok(c),
                }
            },
        }
    }
}

/// The verdict on an initial review: the shared checks, then no initial
/// review yet (else conflict), the window still open (else gone), and the
/// daily cap (else too many requests).
pub open spec fn initial_review_outcome(
    user: u128,
    rating: u8,
    order: Option<WorkOrderRow>,
    has_initial_review: bool,
    now: Instant,
    reviews_today: i64,
) -> Result<(), Status> {
    match order_check(user, rating, order) {
        Err(e) => Err(e),
        Ok(c) => if has_initial_review {
            Err(Status::Conflict)
        } else if !window_open(c, now) {
            Err(Status::Gone)
        } else if reviews_today >= MAX_REVIEWS_PER_DAY {
            Err(Status::TooManyRequests)
        } else {
            Ok(())
        },
    }
}

/// The verdict on a follow-up review: the shared checks, then an initial
/// review to follow up (else conflict), no follow-up yet (else conflict),
/// the window still open (else gone), and the daily cap; giving back the id
/// of the initial review.
pub open spec fn follow_up_outcome(
    user: u128,
    rating: u8,
    order: Option<WorkOrderRow>,
    initial_review: Option<u128>,
    has_follow_up: bool,
    now: Instant,
    reviews_today: i64,
) -> Result<u128, Status> {
    match order_check(user, rating, order) {
        Err(e) => Err(e),
        Ok(c) => match initial_review {
            None => Err(Status::Conflict),
            Some(parent) => if has_follow_up {
                Err(Status::Conflict)
            } else if !window_open(c, now) {
                Err(Status::Gone)
            } else if reviews_today >= MAX_REVIEWS_PER_DAY {
                Err(Status::TooManyRequests)
            } else {
                Ok(parent)
            },
        },
    }
}

/// Whether a stored completion time lies within chrono's range with room
/// for the review window.
pub open spec fn completion_in_range(order: Option<WorkOrderRow>) -> bool {
    order matches Some(o) && o.completed_at matches Some(c) ==> c.0 + REVIEW_WINDOW_DAYS * 86400
        <= LATEST_TIMESTAMP
}

fn checked_order(user: u128, rating: u8, order: &Option<WorkOrderRow>) -> (r: Result<
    Instant,
    Status,
>)
    ensures
        r == order_check(user, rating, *order),
{
    match check_rating(rating) {
        Ok(()) => {},
        Err(e) => return Err(e),
    }
    match order {
        None => Err(Status::NotFound),
        Some(o) => {
            if o.requester != user {
                return Err(Status::Forbidden);
            }
            if !str_eq(o.status.as_str(), "completed") {
                return Err(Status::BadRequest);
            }
            match o.completed_at {
                None => Err(Status::BadRequest),
                Some(c) => Ok(c),
            }
        },
    }
}

fn window_is_open(completed: Instant, now: Instant) -> (r: bool)
    requires
        completed.0 + REVIEW_WINDOW_DAYS * 86400 <= LATEST_TIMESTAMP,
    ensures
        r == window_open(completed, now),
{
    let limit = completed.0 + REVIEW_WINDOW_DAYS * 86400;
    !(limit < now.0 || (limit == now.0 && completed.1 < now.1))
}

/// Whether `user` may write the initial review of a work order, given what
/// the database holds: the order, whether it already has an initial review,
/// the time now, and how many reviews the user wrote today.
pub fn initial_review_verdict(
    user: u128,
    rating: u8,
    order: &Option<WorkOrderRow>,
    has_initial_review: bool,
    now: Instant,
    reviews_today: i64,
) -> (r: Result<(), Status>)
    requires
        completion_in_range(*order),
    ensures
        r == initial_review_outcome(user, rating, *order, has_initial_review, now, reviews_today),
{
    let c = match checked_order(user, rating, order) {
        Ok(c) => c,
        Err(e) => return Err(e),
    };
    if has_initial_review {
        return Err(Status::Conflict);
    }
    if !window_is_open(c, now) {
        return Err(Status::Gone);
    }
    check_daily_cap(reviews_today)
}

/// Whether `user` may write the follow-up review of a work order, given the
/// order, the id of its initial review if any, whether a follow-up exists,
/// the time now, and the user's reviews today; on success the id of the
/// initial review it follows.
pub fn follow_up_verdict(
    user: u128,
    rating: u8,
    order: &Option<WorkOrderRow>,
    initial_review: Option<u128>,
    has_follow_up: bool,
    now: Instant,
    reviews_today: i64,
) -> (r: Result<u128, Status>)
    requires
        completion_in_range(*order),
    ensures
        r == follow_up_outcome(
            user,
            rating,
            *order,
            initial_review,
            has_follow_up,
            now,
            reviews_today,
        ),
{
    let c = match checked_order(user, rating, order) {
        Ok(c) => c,
        Err(e) => return Err(e),
    };
    let parent = match initial_review {
        None => return Err(Status::Conflict),
        Some(p) => p,
    };
    if has_follow_up {
        return Err(Status::Conflict);
    }
    if !window_is_open(c, now) {
        return Err(Status::Gone);
    }
    match check_daily_cap(reviews_today) {
        Ok(()) => Ok(parent),
        Err(e) => Err(e),
    }
}

/// An accepted review is rated 1..=5, by the order's requester, on a
/// completed order, within the window, under the daily cap; and a
/// follow-up always follows an existing initial review.
pub proof fn accepted_reviews_meet_the_rules(
    user: u128,
    rating: u8,
    order: Option<WorkOrderRow>,
    has_initial_review: bool,
    initial_review: Option<u128>,
    has_follow_up: bool,
    now: Instant,
    reviews_today: i64,
)
    ensures
        initial_review_outcome(user, rating, order, has_initial_review, now, reviews_today) is Ok
            ==> {
            &&& 1 <= rating <= 5
            &&& order matches Some(o)
            &&& o.requester == user
            &&& o.status@ == "completed"@
            &&& o.completed_at matches Some(c)
            &&& window_open(c, now)
            &&& !has_initial_review
            &&& reviews_today < MAX_REVIEWS_PER_DAY
        },
        follow_up_outcome(
            user,
            rating,
            order,
            initial_review,
            has_follow_up,
            now,
            reviews_today,
        ) matches Ok(p) ==> {
            &&& initial_review == Some(p)
            &&& !has_follow_up
            &&& 1 <= rating <= 5
            &&& order matches Some(o)
            &&& o.requester == user
            &&& o.completed_at matches Some(c)
            &&& window_open(c, now)
            &&& reviews_today < MAX_REVIEWS_PER_DAY
        },
{
}

/// How a review request is decided, for initial and follow-up reviews
/// alike: a rating outside 1..=5 is a bad request, a missing order is not
/// found, someone else's order is forbidden, an order not completed (or
/// with no completion time) is a bad request; on the requester's completed
/// order a second initial review, a follow-up with no initial review or a
/// second follow-up is a conflict, a review after the 14 days following
/// completion is gone, a fourth review of the day is too many; and a review
/// that passes all of these is accepted.
pub proof fn review_rules_decide(
    user: u128,
    rating: u8,
    order: Option<WorkOrderRow>,
    has_initial_review: bool,
    initial_review: Option<u128>,
    has_follow_up: bool,
    now: Instant,
    reviews_today: i64,
)
    ensures
        !(1 <= rating <= 5) ==> initial_review_outcome(
            user,
            rating,
            order,
            has_initial_review,
            now,
            reviews_today,
        ) == Err::<(), Status>(Status::BadRequest) && follow_up_outcome(
            user,
            rating,
            order,
            initial_review,
            has_follow_up,
            now,
            reviews_today,
        ) == Err::<u128, Status>(Status::BadRequest),
        1 <= rating <= 5 && order is None ==> initial_review_outcome(
            user,
            rating,
            order,
            has_initial_review,
            now,
            reviews_today,
        ) == Err::<(), Status>(Status::NotFound) && follow_up_outcome(
            user,
            rating,
            order,
            initial_review,
            has_follow_up,
            now,
            reviews_today,
        ) == Err::<u128, Status>(Status::NotFound),
        1 <= rating <= 5 ==> (order matches Some(o) ==> (o.requester != user
            ==> initial_review_outcome(user, rating, order, has_initial_review, now, reviews_today)
            == Err::<(), Status>(Status::Forbidden) && follow_up_outcome(
            user,
            rating,
            order,
            initial_review,
            has_follow_up,
            now,
            reviews_today,
        ) == Err::<u128, Status>(Status::Forbidden))),
        1 <= rating <= 5 ==> (order matches Some(o) ==> (o.requester == user && (o.status@
            != "completed"@ || o.completed_at is None) ==> initial_review_outcome(
            user,
            rating,
            order,
            has_initial_review,
            now,
            reviews_today,
        ) == Err::<(), Status>(Status::BadRequest) && follow_up_outcome(
            user,
            rating,
            order,
            initial_review,
            has_follow_up,
            now,
            reviews_today,
        ) == Err::<u128, Status>(Status::BadRequest))),
        1 <= rating <= 5 ==> (order matches Some(o) ==> (o.completed_at matches Some(c) ==> (
        o.requester == user && o.status@ == "completed"@ ==> {
            let limit = c.0 + REVIEW_WINDOW_DAYS * 86400;
            let late = limit < now.0 || (limit == now.0 && c.1 < now.1);
            &&& has_initial_review ==> initial_review_outcome(
                user,
                rating,
                order,
                has_initial_review,
                now,
                reviews_today,
            ) == Err::<(), Status>(Status::Conflict)
            &&& (initial_review is None || has_follow_up) ==> follow_up_outcome(
                user,
                rating,
                order,
                initial_review,
                has_follow_up,
                now,
                reviews_today,
            ) == Err::<u128, Status>(Status::Conflict)
            &&& !has_initial_review && late ==> initial_review_outcome(
                user,
                rating,
                order,
                has_initial_review,
                now,
                reviews_today,
            ) == Err::<(), Status>(Status::Gone)
            &&& initial_review is Some && !has_follow_up && late ==> follow_up_outcome(
                user,
                rating,
                order,
                initial_review,
                has_follow_up,
                now,
                reviews_today,
            ) == Err::<u128, Status>(Status::Gone)
            &&& !has_initial_review && !late && reviews_today >= MAX_REVIEWS_PER_DAY
                ==> initial_review_outcome(
                user,
                rating,
                order,
                has_initial_review,
                now,
                reviews_today,
            ) == Err::<(), Status>(Status::TooManyRequests)
            &&& initial_review is Some && !has_follow_up && !late && reviews_today
                >= MAX_REVIEWS_PER_DAY ==> follow_up_outcome(
                user,
                rating,
                order,
                initial_review,
                has_follow_up,
                now,
                reviews_today,
            ) == Err::<u128, Status>(Status::TooManyRequests)
            &&& !has_initial_review && !late && reviews_today < MAX_REVIEWS_PER_DAY
                ==> initial_review_outcome(
                user,
                rating,
                order,
                has_initial_review,
                now,
                reviews_today,
            ) == Ok::<(), Status>(())
            &&& initial_review matches Some(parent) ==> (!has_follow_up && !late && (reviews_today
                < MAX_REVIEWS_PER_DAY) ==> follow_up_outcome(
                user,
                rating,
                order,
                initial_review,
                has_follow_up,
                now,
                reviews_today,
            ) == Ok::<u128, Status>(parent))
        }))),
{
}

/// The content type an uploaded image declares.
#[derive(Clone, Copy, Debug, PartialEq, Eq, Structural)]
pub enum ImageKind {
    Jpeg,
    Png,
    Other,
}

/// The verdict on a review image upload, before its bytes are read: the
/// review must exist (else not found), the uploader be its author or an
/// administrator (else forbidden), the review hold fewer than
/// `MAX_IMAGES_PER_REVIEW` images (else conflict), the size be 1 byte to
/// `MAX_IMAGE_SIZE_BYTES` (else payload too large), and the type JPEG or PNG
/// (else unsupported); giving back the MIME type and file extension.
pub open spec fn image_upload_outcome(
    user: u128,
    role: Role,
    author: Option<u128>,
    images_so_far: i64,
    size: u64,
    kind: Option<ImageKind>,
) -> Result<(Seq<char>, Seq<char>), Status> {
    match author {
        None => Err(Status::NotFound),
        Some(a) => if a != user && role != Role::Administrator {
            Err(Status::Forbidden)
        } else if images_so_far >= MAX_IMAGES_PER_REVIEW {
            Err(Status::Conflict)
        } else if size == 0 || size > MAX_IMAGE_SIZE_BYTES {
            Err(Status::PayloadTooLarge)
        } else {
            match kind {
                Some(ImageKind::Jpeg) => Ok(("image/jpeg"@, "jpg"@)),
                Some(ImageKind::Png) => Ok(("image/png"@, "png"@)),
                _ => Err(Status::UnsupportedMediaType),
            }
        },
    }
}

/// Image uploads: a missing review is not found; only the review's author
/// or an administrator may attach an image, anyone else is forbidden
/// whatever the rest; an accepted upload has room left on the review, a size
/// of 1 byte to the limit and a JPEG or PNG type, and every such upload by
/// the author or an administrator is accepted.
pub proof fn image_upload_laws(
    user: u128,
    role: Role,
    author: Option<u128>,
    images_so_far: i64,
    size: u64,
    kind: Option<ImageKind>,
)
    ensures
        author is None ==> image_upload_outcome(user, role, author, images_so_far, size, kind)
            == Err::<(Seq<char>, Seq<char>), Status>(Status::NotFound),
        (author matches Some(a) && a != user && role != Role::Administrator)
            ==> image_upload_outcome(user, role, author, images_so_far, size, kind) == Err::<
            (Seq<char>, Seq<char>),
            Status,
        >(Status::Forbidden),
        image_upload_outcome(user, role, author, images_so_far, size, kind) is Ok ==> {
            &&& author == Some(user) || (author is Some && role == Role::Administrator)
            &&& images_so_far < MAX_IMAGES_PER_REVIEW
            &&& 1 <= size <= MAX_IMAGE_SIZE_BYTES
            &&& kind == Some(ImageKind::Jpeg) || kind == Some(ImageKind::Png)
        },
        (author == Some(user) || (author is Some && role == Role::Administrator))
            && images_so_far < MAX_IMAGES_PER_REVIEW && 1 <= size <= MAX_IMAGE_SIZE_BYTES && kind
            == Some(ImageKind::Jpeg) ==> image_upload_outcome(
            user,
            role,
            author,
            images_so_far,
            size,
            kind,
        ) == Ok::<(Seq<char>, Seq<char>), Status>(("image/jpeg"@, "jpg"@)),
        (author == Some(user) || (author is Some && role == Role::Administrator))
            && images_so_far < MAX_IMAGES_PER_REVIEW && 1 <= size <= MAX_IMAGE_SIZE_BYTES && kind
            == Some(ImageKind::Png) ==> image_upload_outcome(
            user,
            role,
            author,
            images_so_far,
            size,
            kind,
        ) == Ok::<(Seq<char>, Seq<char>), Status>(("image/png"@, "png"@)),
{
}

/// Whether an image may be attached to a review (see
/// `image_upload_outcome`); on success its MIME type and file extension.
pub fn image_upload_verdict(
    user: u128,
    role: Role,
    author: Option<u128>,
    images_so_far: i64,
    size: u64,
    kind: Option<ImageKind>,
) -> (r: Result<(&'static str, &'static str), Status>)
    ensures
        match image_upload_outcome(user, role, author, images_so_far, size, kind) {
            Ok((m, e)) => r matches Ok((rm, re)) && rm@ == m && re@ == e,
            Err(s) => r == Err::<(&'static str, &'static str), Status>(s),
        },
        author is None ==> r == Err::<(&'static str, &'static str), Status>(Status::NotFound),
        (author matches Some(a) && a != user && role != Role::Administrator) ==> r == Err::<
            (&'static str, &'static str),
            Status,
        >(Status::Forbidden),
        r is Ok ==> (author == Some(user) || (author is Some && role == Role::Administrator)),
        r is Ok ==> images_so_far < MAX_IMAGES_PER_REVIEW && 1 <= size <= MAX_IMAGE_SIZE_BYTES,
        r matches Ok((m, e)) ==> (kind == Some(ImageKind::Jpeg) && m@ == "image/jpeg"@ && e@
            == "jpg"@) || (kind == Some(ImageKind::Png) && m@ == "image/png"@ && e@ == "png"@),
{
    let a = match author {
        None => return Err(Status::NotFound),
        Some(a) => a,
    };
    if a != user && role != Role::Administrator {
        return Err(Status::Forbidden);
    }
    if images_so_far >= MAX_IMAGES_PER_REVIEW {
        return Err(Status::Conflict);
    }
    if size == 0 || size > MAX_IMAGE_SIZE_BYTES {
        return Err(Status::PayloadTooLarge);
    }
    match kind {
        Some(ImageKind::Jpeg) => Ok(("image/jpeg", "jpg")),
        Some(ImageKind::Png) => Ok(("image/png", "png")),
        _ => Err(Status::UnsupportedMediaType),
    }
}

/// Once read, an upload with no bytes is a bad request.
pub fn check_upload_bytes(len: usize) -> (r: Result<(), Status>)
    ensures
        len > 0 ==> r is Ok,
        len == 0 ==> r == Err::<(), Status>(Status::BadRequest),
{
    if len == 0 {
        Err(Status::BadRequest)
    } else {
        Ok(())
    }
}

/// Whether a work order in state `status` can be completed: not when it is
/// completed already (conflict) nor when it was cancelled (bad request).
pub fn completion_verdict(status: &str) -> (r: Result<(), Status>)
    ensures
        status@ == "completed"@ ==> r == Err::<(), Status>(Status::Conflict),
        status@ == "cancelled"@ ==> r == Err::<(), Status>(Status::BadRequest),
        status@ != "completed"@ && status@ != "cancelled"@ ==> r is Ok,
{
    proof {
        reveal_strlit("completed");
        reveal_strlit("cancelled");
        assert("completed"@[1] != "cancelled"@[1]);
    }
    if str_eq(status, "completed") {
        Err(Status::Conflict)
    } else if str_eq(status, "cancelled") {
        Err(Status::BadRequest)
    } else {
        Ok(())
    }
}

} // verus!
