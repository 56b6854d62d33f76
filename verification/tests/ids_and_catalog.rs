use ops_hub::catalog::{
    assemble_plan, check_availability_window, compare_ids, first_reading, parse_dt, plan_search,
    service_update_columns, CatalogQuery, CompareQuery, ServiceUpdateFields, SortMode,
};
use ops_hub::ids::{
    canonical_ids, canonical_tag_ids, collect_ids, csv_pieces, parse_id, parse_uuid_csv,
};
use ops_hub::status::Status;

const A: &str = "550e8400-e29b-41d4-a716-446655440000";
const B: &str = "00000000-0000-0000-0000-000000000002";
const A_VALUE: u128 = 0x550e8400e29b41d4a716446655440000;

#[test]
fn ids_are_read_through_uuid() {
    assert_eq!(parse_id(A), Ok(A_VALUE));
    assert_eq!(parse_id("550e8400e29b41d4a716446655440000"), Ok(A_VALUE));
    assert_eq!(parse_id(B), Ok(2));
    assert_eq!(parse_id("not-an-id"), Err(Status::BadRequest));
    assert_eq!(parse_id(""), Err(Status::BadRequest));
}

#[test]
fn id_lists_skip_blanks_and_refuse_garbage() {
    assert_eq!(parse_uuid_csv(""), Ok(vec![]));
    assert_eq!(parse_uuid_csv(" , ,"), Ok(vec![]));
    assert_eq!(parse_uuid_csv(&format!(" {A} ,,{B}")), Ok(vec![A_VALUE, 2]));
    assert_eq!(parse_uuid_csv(&format!("{A},zz")), Err(Status::BadRequest));
}

#[test]
fn tag_ids_are_sorted_and_deduplicated() {
    let tags: Vec<String> = vec![A.into(), B.into(), A.into()];
    assert_eq!(canonical_tag_ids(&tags), Ok(vec![2, A_VALUE]));
    let bad: Vec<String> = vec![A.into(), format!(" {B}")];
    assert_eq!(canonical_tag_ids(&bad), Err(Status::BadRequest));
    assert_eq!(canonical_tag_ids(&[]), Ok(vec![]));
    assert_eq!(canonical_ids(&vec![5, 1, 5, 3, 1, 0]), vec![0, 1, 3, 5]);
}

#[test]
fn compare_takes_one_to_three_ids() {
    let q = |s: String| CompareQuery { ids: s };
    assert_eq!(compare_ids(&q(A.into())), Ok(vec![A_VALUE]));
    assert_eq!(compare_ids(&q(format!("{A},{B},{A}"))), Ok(vec![A_VALUE, 2, A_VALUE]));
    assert_eq!(compare_ids(&q("".into())), Err(Status::BadRequest));
    assert_eq!(compare_ids(&q(format!("{A},{B},{A},{B}"))), Err(Status::BadRequest));
    assert_eq!(compare_ids(&q("x".into())), Err(Status::BadRequest));
}

#[test]
fn datetimes_in_both_forms() {
    let t = parse_dt("2026-06-01T10:00:00").unwrap();
    assert_eq!(t, (1780308000, 0));
    assert_eq!(parse_dt("2026-06-01 10:00:00"), Ok(t));
    assert_eq!(parse_dt("2026-06-01"), Err(Status::BadRequest));
    assert_eq!(parse_dt("garbage"), Err(Status::BadRequest));
}

fn query() -> CatalogQuery {
    CatalogQuery {
        q: None,
        available_from: None,
        available_to: None,
        user_zip: None,
        sort: None,
        limit: None,
        offset: None,
        categories: None,
        tags: None,
    }
}

#[test]
fn search_plan_defaults() {
    let p = plan_search(&query()).unwrap();
    assert_eq!(p.sort, SortMode::BestRated);
    assert_eq!(p.limit, 50);
    assert_eq!(p.offset, 0);
    assert!(p.zip.is_none() && p.text.is_none() && p.window.is_none());
    assert!(p.categories.is_empty() && p.tags.is_empty());
}

#[test]
fn search_plan_reads_every_filter() {
    let mut q = query();
    q.q = Some(" heat ".into());
    q.user_zip = Some(" 94110 ".into());
    q.sort = Some("soonest_available".into());
    q.available_from = Some("2026-06-01T10:00:00".into());
    q.available_to = Some("2026-06-01 12:00:00".into());
    q.limit = Some(500);
    q.offset = Some(7);
    q.categories = Some(format!("{A}, {B}"));
    q.tags = Some(" ".into());
    let p = plan_search(&q).unwrap();
    assert_eq!(p.text.as_deref(), Some(" heat "));
    assert_eq!(p.zip.as_deref(), Some("94110"));
    assert_eq!(p.sort, SortMode::SoonestAvailable);
    assert_eq!(p.window, Some(((1780308000, 0), (1780315200, 0))));
    assert_eq!(p.limit, 200);
    assert_eq!(p.offset, 7);
    assert_eq!(p.categories, vec![A_VALUE, 2]);
    assert!(p.tags.is_empty());
}

#[test]
fn search_plan_edge_cases() {
    let mut q = query();
    q.sort = Some("lowest_price".into());
    q.limit = Some(200);
    q.available_from = Some("2026-06-01T10:00:00".into());
    q.q = Some("\t".into());
    q.user_zip = Some("".into());
    let p = plan_search(&q).unwrap();
    assert_eq!(p.sort, SortMode::LowestPrice);
    assert_eq!(p.limit, 200);
    assert!(p.window.is_none());
    assert!(p.text.is_none() && p.zip.is_none());

    let mut bad = query();
    bad.available_to = Some("tomorrow".into());
    assert_eq!(plan_search(&bad).err(), Some(Status::BadRequest));
    let mut bad_tags = query();
    bad_tags.tags = Some("nope".into());
    assert_eq!(plan_search(&bad_tags).err(), Some(Status::BadRequest));
    let mut unknown_sort = query();
    unknown_sort.sort = Some("LOWEST_PRICE".into());
    assert_eq!(plan_search(&unknown_sort).unwrap().sort, SortMode::BestRated);
}

#[test]
fn availability_windows_must_move_forward() {
    assert_eq!(check_availability_window((10, 0), (10, 1)), Ok(()));
    assert_eq!(check_availability_window((10, 5), (10, 5)), Err(Status::BadRequest));
    assert_eq!(check_availability_window((11, 0), (10, 999)), Err(Status::BadRequest));
}

#[test]
fn update_columns_in_statement_order() {
    let none = ServiceUpdateFields {
        name: false,
        description: false,
        price: false,
        rating: false,
        coverage_radius_miles: false,
        zip_code: false,
    };
    assert!(service_update_columns(none).is_empty());
    let some = ServiceUpdateFields {
        name: true,
        price: true,
        zip_code: true,
        ..none
    };
    assert_eq!(service_update_columns(some), vec!["name", "price", "zip_code"]);
    let all = ServiceUpdateFields {
        name: true,
        description: true,
        price: true,
        rating: true,
        coverage_radius_miles: true,
        zip_code: true,
    };
    assert_eq!(
        service_update_columns(all),
        vec!["name", "description", "price", "rating", "coverage_radius_miles", "zip_code"]
    );
}

#[test]
fn collecting_and_splitting_ids() {
    assert_eq!(collect_ids(&vec![Some(3), Some(1)]), Ok(vec![3, 1]));
    assert_eq!(collect_ids(&vec![Some(3), None, Some(1)]), Err(Status::BadRequest));
    assert_eq!(collect_ids(&vec![]), Ok(vec![]));
    assert_eq!(csv_pieces(" a , ,b,,\tc\t"), vec!["a", "b", "c"]);
    assert!(csv_pieces("").is_empty());
    assert!(csv_pieces(",,,").is_empty());
}

#[test]
fn readings_prefer_the_first_form() {
    assert_eq!(first_reading(Some((1, 0)), Some((2, 0))), Ok((1, 0)));
    assert_eq!(first_reading(None, Some((2, 0))), Ok((2, 0)));
    assert_eq!(first_reading(None, None), Err(Status::BadRequest));
}

#[test]
fn plan_assembly_from_read_parts() {
    let mut q = query();
    q.limit = Some(199);
    q.q = Some("x".into());
    let p = assemble_plan(&q, Some((5, 0)), None, vec![9], vec![8, 7]);
    assert!(p.window.is_none());
    assert_eq!(p.limit, 199);
    assert_eq!(p.text.as_deref(), Some("x"));
    assert_eq!(p.categories, vec![9]);
    assert_eq!(p.tags, vec![8, 7]);
    let both = assemble_plan(&query(), Some((5, 0)), Some((6, 1)), vec![], vec![]);
    assert_eq!(both.window, Some(((5, 0), (6, 1))));
}
