use ops_hub::auth_state::Role;
use ops_hub::nav::{menu_for, role_can_see, NavItem};

#[test]
fn admin_sees_everything_including_admin_panel() {
    let m = menu_for(Role::Administrator);
    for item in [
        NavItem::Home,
        NavItem::Catalog,
        NavItem::WorkOrders,
        NavItem::Forum,
        NavItem::Internship,
        NavItem::Warehouse,
        NavItem::Face,
        NavItem::Admin,
    ] {
        assert!(m.contains(&item), "admin should see {item:?}");
    }
}

#[test]
fn requester_sees_catalog_and_work_orders_not_warehouse() {
    let m = menu_for(Role::Requester);
    assert!(m.contains(&NavItem::Catalog));
    assert!(m.contains(&NavItem::WorkOrders));
    assert!(!m.contains(&NavItem::Warehouse));
    assert!(!m.contains(&NavItem::Admin));
}

#[test]
fn warehouse_manager_sees_warehouse_not_catalog() {
    let m = menu_for(Role::WarehouseManager);
    assert!(m.contains(&NavItem::Warehouse));
    assert!(!m.contains(&NavItem::Catalog));
    assert!(!m.contains(&NavItem::Admin));
}

#[test]
fn intern_sees_internship_not_admin_or_warehouse() {
    let m = menu_for(Role::Intern);
    assert!(m.contains(&NavItem::Internship));
    assert!(!m.contains(&NavItem::Admin));
    assert!(!m.contains(&NavItem::Warehouse));
}

#[test]
fn mentor_sees_internship_but_not_catalog_or_warehouse() {
    let m = menu_for(Role::Mentor);
    assert!(m.contains(&NavItem::Internship));
    assert!(!m.contains(&NavItem::Catalog));
    assert!(!m.contains(&NavItem::Warehouse));
}

#[test]
fn moderator_sees_forum_not_admin() {
    let m = menu_for(Role::Moderator);
    assert!(m.contains(&NavItem::Forum));
    assert!(!m.contains(&NavItem::Admin));
}

#[test]
fn role_can_see_agrees_with_menu_for() {
    assert!(role_can_see(Role::Administrator, &NavItem::Admin));
    assert!(!role_can_see(Role::Requester, &NavItem::Admin));
    assert!(role_can_see(Role::Requester, &NavItem::WorkOrders));
}

#[test]
fn menu_always_starts_with_home() {
    for role in [
        Role::Administrator,
        Role::Moderator,
        Role::ServiceManager,
        Role::WarehouseManager,
        Role::Mentor,
        Role::Intern,
        Role::Requester,
    ] {
        assert_eq!(menu_for(role)[0], NavItem::Home, "role {role:?} Home first");
    }
}

#[test]
fn menus_in_display_order() {
    assert_eq!(
        menu_for(Role::Administrator),
        vec![
            NavItem::Home,
            NavItem::Catalog,
            NavItem::WorkOrders,
            NavItem::Forum,
            NavItem::Internship,
            NavItem::Warehouse,
            NavItem::Face,
            NavItem::Admin,
        ]
    );
    assert_eq!(
        menu_for(Role::Moderator),
        vec![NavItem::Home, NavItem::Forum, NavItem::Face]
    );
    assert_eq!(
        menu_for(Role::ServiceManager),
        vec![
            NavItem::Home,
            NavItem::Catalog,
            NavItem::WorkOrders,
            NavItem::Forum,
            NavItem::Face
        ]
    );
}

#[test]
fn every_role_sees_forum_and_face_and_only_admin_sees_admin() {
    for role in [
        Role::Administrator,
        Role::Moderator,
        Role::ServiceManager,
        Role::WarehouseManager,
        Role::Mentor,
        Role::Intern,
        Role::Requester,
    ] {
        assert!(role_can_see(role, &NavItem::Forum));
        assert!(role_can_see(role, &NavItem::Face));
        assert_eq!(role_can_see(role, &NavItem::Admin), role == Role::Administrator);
    }
}
